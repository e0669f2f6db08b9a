//! Small helpers: identifiers, locales, the text of saved files.

use crate::supervisor::Platform;
use crate::text::{lemma_find_is, spec_find, starts_with, to_chars};
use vstd::prelude::*;
use vstd::string::StringExecFns;

verus! {

/// The characters that identifiers are made of.
pub const ALPHABET: &'static str = "0123456789abcdefghijklmnopqrstuvwxyzABCDEFGHIJKLMNOPQRSTUVWXYZ";

/// The number of random characters in an identifier.
pub const UID_LEN: usize = 11;

/// Whether a character is a digit or a letter of the Latin alphabet.
pub open spec fn spec_is_alphanumeric(c: char) -> bool {
    ('0' <= c && c <= '9') || ('a' <= c && c <= 'z') || ('A' <= c && c <= 'Z')
}

/// `nanoid::format` with `nanoid::rngs::default` as its source of random
/// bytes: a string of `size` characters, each drawn from the alphabet. The
/// alphabet must not be empty nor longer than 255 characters, and `size`
/// must not be zero, else the call panics or never returns. The length is
/// counted in bytes there, so it is the number of characters only for an
/// alphabet of one-byte characters. Which characters are drawn is left
/// open. The call panics where the system has no entropy to give.
#[verifier::external_body]
fn random_id(alphabet: &Vec<char>, size: usize) -> (id: String)
    requires
        0 < alphabet@.len() <= 255,
        0 < size <= 0xffff,
        forall|i: int| 0 <= i < alphabet@.len() ==> (#[trigger] alphabet@[i]) as u32 <= 0x7f,
    ensures
        id@.len() == size,
        forall|i: int| 0 <= i < id@.len() ==> alphabet@.contains(#[trigger] id@[i]),
{
    nanoid::format(nanoid::rngs::default, alphabet.as_slice(), size)
}

proof fn lemma_alphabet()
    ensures
        ALPHABET@.len() == 62,
        forall|i: int| 0 <= i < ALPHABET@.len() ==> spec_is_alphanumeric(#[trigger] ALPHABET@[i]),
{
    reveal_strlit("0123456789abcdefghijklmnopqrstuvwxyzABCDEFGHIJKLMNOPQRSTUVWXYZ");
    let a = ALPHABET@;
    assert forall|i: int| 0 <= i < a.len() implies spec_is_alphanumeric(#[trigger] a[i]) by {
        if i < 10 {
            assert(spec_is_alphanumeric(a[0]) && spec_is_alphanumeric(a[1])
                && spec_is_alphanumeric(a[2]) && spec_is_alphanumeric(a[3])
                && spec_is_alphanumeric(a[4]) && spec_is_alphanumeric(a[5])
                && spec_is_alphanumeric(a[6]) && spec_is_alphanumeric(a[7])
                && spec_is_alphanumeric(a[8]) && spec_is_alphanumeric(a[9]));
        } else if i < 36 {
            assert(spec_is_alphanumeric(a[10]) && spec_is_alphanumeric(a[11])
                && spec_is_alphanumeric(a[12]) && spec_is_alphanumeric(a[13])
                && spec_is_alphanumeric(a[14]) && spec_is_alphanumeric(a[15])
                && spec_is_alphanumeric(a[16]) && spec_is_alphanumeric(a[17])
                && spec_is_alphanumeric(a[18]) && spec_is_alphanumeric(a[19])
                && spec_is_alphanumeric(a[20]) && spec_is_alphanumeric(a[21])
                && spec_is_alphanumeric(a[22]) && spec_is_alphanumeric(a[23])
                && spec_is_alphanumeric(a[24]) && spec_is_alphanumeric(a[25])
                && spec_is_alphanumeric(a[26]) && spec_is_alphanumeric(a[27])
                && spec_is_alphanumeric(a[28]) && spec_is_alphanumeric(a[29])
                && spec_is_alphanumeric(a[30]) && spec_is_alphanumeric(a[31])
                && spec_is_alphanumeric(a[32]) && spec_is_alphanumeric(a[33])
                && spec_is_alphanumeric(a[34]) && spec_is_alphanumeric(a[35]));
        } else {
            assert(spec_is_alphanumeric(a[36]) && spec_is_alphanumeric(a[37])
                && spec_is_alphanumeric(a[38]) && spec_is_alphanumeric(a[39])
                && spec_is_alphanumeric(a[40]) && spec_is_alphanumeric(a[41])
                && spec_is_alphanumeric(a[42]) && spec_is_alphanumeric(a[43])
                && spec_is_alphanumeric(a[44]) && spec_is_alphanumeric(a[45])
                && spec_is_alphanumeric(a[46]) && spec_is_alphanumeric(a[47])
                && spec_is_alphanumeric(a[48]) && spec_is_alphanumeric(a[49])
                && spec_is_alphanumeric(a[50]) && spec_is_alphanumeric(a[51])
                && spec_is_alphanumeric(a[52]) && spec_is_alphanumeric(a[53])
                && spec_is_alphanumeric(a[54]) && spec_is_alphanumeric(a[55])
                && spec_is_alphanumeric(a[56]) && spec_is_alphanumeric(a[57])
                && spec_is_alphanumeric(a[58]) && spec_is_alphanumeric(a[59])
                && spec_is_alphanumeric(a[60]) && spec_is_alphanumeric(a[61]));
        }
    }
}

/// A fresh identifier: the prefix, then eleven random digits and letters.
pub fn get_uid(prefix: &str) -> (uid: String)
    ensures
        uid@.len() == prefix@.len() + UID_LEN,
        uid@.take(prefix@.len() as int) == prefix@,
        forall|i: int| prefix@.len() <= i < uid@.len() ==> spec_is_alphanumeric(#[trigger] uid@[i]),
{
    let alphabet = to_chars(ALPHABET);
    proof {
        lemma_alphabet();
    }
    let id = random_id(&alphabet, UID_LEN);
    let mut uid = String::from_str(prefix);
    uid.append(id.as_str());
    proof {
        assert(uid@.take(prefix@.len() as int) =~= prefix@);
        assert forall|i: int| prefix@.len() <= i < uid@.len() implies spec_is_alphanumeric(
            #[trigger] uid@[i],
        ) by {
            let c = id@[i - prefix@.len()];
            assert(uid@[i] == c);
            assert(alphabet@.contains(c));
        }
    }
    uid
}

/// The locale that a value of `LANG` such as `zh_CN.UTF-8` names: what
/// stands before the first dot, with `-` in place of `_`.
pub open spec fn spec_locale_from_lang(lang: Seq<char>) -> Seq<char> {
    lang.take(spec_find(lang, '.')).map_values(
        |c: char|
            if c == '_' {
                '-'
            } else {
                c
            },
    )
}

/// The locale that a value of `LANG` names.
pub fn locale_from_lang(lang: &str) -> (locale: String)
    ensures
        locale@ == spec_locale_from_lang(lang@),
{
    let chars = to_chars(lang);
    let mut locale = String::new();
    let mut at: usize = 0;
    while at < chars.len() && chars[at] != '.'
        invariant
            chars@ == lang@,
            at <= chars.len(),
            forall|j: int| 0 <= j < at ==> lang@[j] != '.',
            locale@ == lang@.take(at as int).map_values(
                |c: char|
                    if c == '_' {
                        '-'
                    } else {
                        c
                    },
            ),
        decreases chars.len() - at,
    {
        let ghost before = locale@;
        if chars[at] == '_' {
            locale.append("-");
            proof {
                reveal_strlit("-");
            }
            assert("-"@ =~= seq!['-']);
        } else {
            let one = lang.substring_char(at, at + 1);
            assert(one@ =~= seq![lang@[at as int]]);
            locale.append(one);
        }
        proof {
            let map = |c: char|
                if c == '_' {
                    '-'
                } else {
                    c
                };
            assert(lang@.take(at + 1) =~= lang@.take(at as int).push(lang@[at as int]));
            assert(lang@.take(at + 1).map_values(map) =~= lang@.take(at as int).map_values(
                map,
            ).push(map(lang@[at as int])));
        }
        at += 1;
    }
    proof {
        lemma_find_is(lang@, '.', at as int);
    }
    locale
}

/// The locale of the system, or `en-US` where none was found.
pub fn get_system_locale(detected: Option<String>) -> (locale: String)
    ensures
        match detected {
            Some(found) => locale == found,
            None => locale@ == "en-US"@,
        },
{
    match detected {
        Some(found) => found,
        None => String::from_str("en-US"),
    }
}

/// The language that a locale is shown in: Chinese for the locales of
/// Chinese, English for all others.
pub fn mapping_to_i18n_key(locale_key: &str) -> (key: &'static str)
    ensures
        key@ == if "zh-"@.is_prefix_of(locale_key@) {
            "zh"@
        } else {
            "en"@
        },
{
    if starts_with(locale_key, "zh-") {
        "zh"
    } else {
        "en"
    }
}

/// The text of a saved file: the serialised data, behind the prefix and an
/// empty line where a prefix is given.
pub fn yaml_with_prefix(data: &str, prefix: Option<&str>) -> (text: String)
    ensures
        text@ == match prefix {
            Some(prefix) => prefix@ + "\n\n"@ + data@,
            None => data@,
        },
{
    match prefix {
        Some(prefix) => {
            let mut text = String::from_str(prefix);
            text.append("\n\n");
            text.append(data);
            text
        },
        None => String::from_str(data),
    }
}

/// With what a file is opened.
#[derive(Debug, Clone, Copy, PartialEq, Eq)]
pub enum Opener {
    /// The editor of this name.
    Editor(&'static str),
    /// Whatever the system opens such a file with.
    Default,
}

/// The name under which the editor is known on a platform.
pub open spec fn spec_editor(platform: Platform) -> Seq<char> {
    if platform == Platform::MacOs {
        "Visual Studio Code"@
    } else {
        "code"@
    }
}

/// Decides with what a file is opened: with the editor where the shell
/// knows a program of its name, else with the system's default.
pub fn open_file(platform: Platform, editor_known: bool) -> (opener: Opener)
    ensures
        editor_known ==> (opener matches Opener::Editor(name) && name@ == spec_editor(platform)),
        !editor_known ==> opener is Default,
{
    if editor_known {
        match platform {
            Platform::MacOs => Opener::Editor("Visual Studio Code"),
            _ => Opener::Editor("code"),
        }
    } else {
        Opener::Default
    }
}

} // verus!
