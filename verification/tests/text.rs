use shadowrocket::text::{
    contains_text, decimal, find_text, find_values, first_some, is_whitespace, parse_str,
    parse_u16, parse_u32, replace_text, rfind_char, starts_with, to_chars,
};

#[test]
fn test_parse_value() {
    let test_1 = "upload=111; download=2222; total=3333; expire=444";
    let test_2 = "attachment; filename=Clash.yaml";

    assert_eq!(parse_str::<usize>(test_1, "upload").unwrap(), 111);
    assert_eq!(parse_str::<usize>(test_1, "download").unwrap(), 2222);
    assert_eq!(parse_str::<usize>(test_1, "total").unwrap(), 3333);
    assert_eq!(parse_str::<usize>(test_1, "expire").unwrap(), 444);
    assert_eq!(
        parse_str::<String>(test_2, "filename").unwrap(),
        format!("Clash.yaml")
    );

    assert_eq!(parse_str::<usize>(test_1, "aaa"), None);
    assert_eq!(parse_str::<usize>(test_1, "upload1"), None);
    assert_eq!(parse_str::<usize>(test_1, "expire1"), None);
    assert_eq!(parse_str::<usize>(test_2, "attachment"), None);
}

#[test]
fn parse_str_skips_values_that_do_not_read() {
    assert_eq!(parse_str::<usize>("a=x; a=5; a=6", "a"), Some(5));
    assert_eq!(parse_str::<usize>("a=x", "a"), None);
    assert_eq!(parse_str::<String>("a=", "a"), Some(String::new()));
}

#[test]
fn find_values_keeps_order_and_later_equal_signs() {
    assert_eq!(find_values("k=1;k=2 ; other=3;k=a=b", "k"), vec!["1", "2", "a=b"]);
    assert_eq!(find_values("k =1; k=2", "k"), vec!["2"]);
    assert_eq!(find_values("", "k"), Vec::<&str>::new());
    assert_eq!(find_values("=v", ""), vec!["v"]);
    assert_eq!(find_values("\u{3000}k=\u{e9}\t;", "k"), vec!["\u{e9}"]);
}

#[test]
fn whitespace_is_what_trim_removes() {
    for code in 0u32..0x3100 {
        if let Some(c) = char::from_u32(code) {
            assert_eq!(is_whitespace(c), c.is_whitespace(), "U+{:04X}", code);
        }
    }
}

#[test]
fn decimal_writes_numbers() {
    assert_eq!(decimal(0), "0");
    assert_eq!(decimal(7890), "7890");
    assert_eq!(decimal(u64::MAX), "18446744073709551615");
}

#[test]
fn parse_u32_reads_what_std_reads() {
    for text in ["0", "007", "+5", "4294967295", "4294967296", "", "+", "-1", "12a", " 1", "1 ", "++1", "99999999999999999999999"] {
        assert_eq!(parse_u32(text), text.parse::<u32>().ok(), "{:?}", text);
    }
    assert_eq!(parse_u32("4294967295"), Some(u32::MAX));
    assert_eq!(parse_u32(&decimal(31337)), Some(31337));
}

#[test]
fn search_in_text() {
    assert!(contains_text("verge-mihomo-clash", "clash"));
    assert!(contains_text("clash", "clash"));
    assert!(contains_text("anything", ""));
    assert!(!contains_text("clas", "clash"));
    assert!(!contains_text("mihomo", "clash"));
    assert!(starts_with("zh-CN", "zh-"));
    assert!(!starts_with("zh", "zh-"));
    assert!(!starts_with("en-zh-", "zh-"));
}

#[test]
fn first_some_skips_what_is_missing() {
    assert_eq!(first_some(vec![None, Some(2), Some(3)]), Some(2));
    assert_eq!(first_some(vec![Some(1)]), Some(1));
    assert_eq!(first_some::<u8>(vec![None, None]), None);
    assert_eq!(first_some::<u8>(Vec::new()), None);
}

#[test]
fn first_and_last_positions() {
    let hay = to_chars("a=b=c; msg=x msg=y");
    assert_eq!(find_text(&hay, &to_chars("msg=")), Some(7));
    assert_eq!(find_text(&hay, &to_chars("=")), Some(1));
    assert_eq!(find_text(&hay, &to_chars("")), Some(0));
    assert_eq!(find_text(&hay, &to_chars("msg=z")), None);
    assert_eq!(find_text(&to_chars("ab"), &to_chars("abc")), None);
    assert_eq!(find_text(&to_chars(""), &to_chars("")), Some(0));
    assert_eq!(rfind_char(&hay, '='), Some(16));
    assert_eq!(rfind_char(&hay, 'a'), Some(0));
    assert_eq!(rfind_char(&hay, 'z'), None);
    assert_eq!(rfind_char(&to_chars(""), 'z'), None);
}

#[test]
fn parse_u16_reads_what_std_reads() {
    for text in ["0", "65535", "65536", "+80", "", "x", "0080"] {
        assert_eq!(parse_u16(text), text.parse::<u16>().ok(), "{:?}", text);
    }
}

#[test]
fn to_chars_keeps_every_character() {
    assert_eq!(to_chars("a\u{e9}\u{4e2d}"), vec!['a', '\u{e9}', '\u{4e2d}']);
    assert!(to_chars("").is_empty());
}

#[test]
fn replace_text_replaces_as_std_does() {
    for (text, word, to) in [
        ("198.18.0.1/16", "1/16", "2"),
        ("aaa", "aa", "b"),
        ("abcabc", "bc", ""),
        ("abc", "abcd", "x"),
        ("", "a", "b"),
        ("\u{e9}x\u{e9}", "\u{e9}", "ee"),
        ("1/161/16", "1/16", "2"),
    ] {
        assert_eq!(replace_text(text, word, to), text.replace(word, to), "{:?}", (text, word, to));
    }
    assert_eq!(replace_text("abc", "", "x"), "abc");
}
