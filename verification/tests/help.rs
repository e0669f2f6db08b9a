use shadowrocket::help::{
    get_system_locale, get_uid, locale_from_lang, mapping_to_i18n_key, open_file, yaml_with_prefix,
    Opener, ALPHABET,
};
use shadowrocket::supervisor::Platform;

#[test]
fn uid_is_prefix_and_eleven_characters_of_the_alphabet() {
    for prefix in ["", "r", "merge-", "\u{e9}\u{4e2d}"] {
        let uid = get_uid(prefix);
        assert!(uid.starts_with(prefix));
        let tail: Vec<char> = uid[prefix.len()..].chars().collect();
        assert_eq!(tail.len(), 11);
        assert!(tail.iter().all(|c| ALPHABET.contains(*c)));
        assert!(tail.iter().all(|c| c.is_ascii_alphanumeric()));
    }
}

#[test]
fn uids_differ() {
    assert_ne!(get_uid("p"), get_uid("p"));
}

#[test]
fn alphabet_holds_digits_and_letters() {
    assert_eq!(ALPHABET.chars().count(), 62);
    assert!(ALPHABET.chars().all(|c| c.is_ascii_alphanumeric()));
}

#[test]
fn locale_falls_back_on_english() {
    assert_eq!(get_system_locale(Some(String::from("zh-CN"))), "zh-CN");
    assert_eq!(get_system_locale(Some(String::new())), "");
    assert_eq!(get_system_locale(None), "en-US");
}

#[test]
fn chinese_locales_map_to_chinese() {
    assert_eq!(mapping_to_i18n_key("zh-CN"), "zh");
    assert_eq!(mapping_to_i18n_key("zh-"), "zh");
    assert_eq!(mapping_to_i18n_key("zh"), "en");
    assert_eq!(mapping_to_i18n_key("en-US"), "en");
    assert_eq!(mapping_to_i18n_key(""), "en");
    assert_eq!(mapping_to_i18n_key("ZH-CN"), "en");
}

#[test]
fn saved_text_carries_the_prefix() {
    assert_eq!(yaml_with_prefix("a: 1\n", Some("# Shadowrocket Config")), "# Shadowrocket Config\n\na: 1\n");
    assert_eq!(yaml_with_prefix("a: 1\n", None), "a: 1\n");
    assert_eq!(yaml_with_prefix("", Some("")), "\n\n");
}

#[test]
fn files_open_with_the_editor_where_it_is_known() {
    assert_eq!(open_file(Platform::MacOs, true), Opener::Editor("Visual Studio Code"));
    assert_eq!(open_file(Platform::Windows, true), Opener::Editor("code"));
    assert_eq!(open_file(Platform::Other, true), Opener::Editor("code"));
    assert_eq!(open_file(Platform::MacOs, false), Opener::Default);
    assert_eq!(open_file(Platform::Other, false), Opener::Default);
}

#[test]
fn locale_of_a_lang_value() {
    assert_eq!(locale_from_lang("zh_CN.UTF-8"), "zh-CN");
    assert_eq!(locale_from_lang("en_US"), "en-US");
    assert_eq!(locale_from_lang("C"), "C");
    assert_eq!(locale_from_lang(""), "");
    assert_eq!(locale_from_lang(".UTF-8"), "");
    assert_eq!(locale_from_lang("sr_RS@latin.utf8.x"), "sr-RS@latin");
    assert_eq!(mapping_to_i18n_key(&locale_from_lang("zh_TW.Big5")), "zh");
}
