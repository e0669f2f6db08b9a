//! Work on text: decimal numbers, search, and the `key=value` lists of
//! subscription headers.

use vstd::prelude::*;
use vstd::string::StringExecFns;

verus! {

/// The characters of a string slice, in order.
pub fn to_chars(s: &str) -> (chars: Vec<char>)
    ensures
        chars@ == s@,
{
    let mut chars: Vec<char> = Vec::new();
    for c in it: s.chars()
        invariant
            it.seq() == s@,
            chars@ == s@.take(it.index() as int),
    {
        proof {
            let at = it.index() as int;
            assert(s@.take(at + 1) =~= s@.take(at).push(s@[at]));
        }
        chars.push(c);
    }
    proof {
        assert(s@.take(s@.len() as int) =~= s@);
    }
    chars
}

/// Whether `needle` stands in `hay` at position `at`.
pub open spec fn spec_occurs_at(hay: Seq<char>, needle: Seq<char>, at: int) -> bool {
    0 <= at && at + needle.len() <= hay.len() && hay.subrange(at, at + needle.len()) == needle
}

/// Whether `needle` stands somewhere in `hay`.
pub open spec fn spec_contains(hay: Seq<char>, needle: Seq<char>) -> bool {
    exists|at: int| spec_occurs_at(hay, needle, at)
}

fn occurs_at(hay: &Vec<char>, needle: &Vec<char>, at: usize) -> (found: bool)
    ensures
        found == spec_occurs_at(hay@, needle@, at as int),
{
    if needle.len() > hay.len() || at > hay.len() - needle.len() {
        return false;
    }
    let mut k: usize = 0;
    while k < needle.len()
        invariant
            k <= needle.len(),
            at + needle.len() <= hay.len(),
            forall|j: int| 0 <= j < k ==> hay@[at + j] == needle@[j],
        decreases needle.len() - k,
    {
        if hay[at + k] != needle[k] {
            proof {
                let part = hay@.subrange(at as int, at + needle.len());
                assert(part[k as int] == hay@[at + k]);
            }
            return false;
        }
        k += 1;
    }
    proof {
        assert(hay@.subrange(at as int, at + needle.len()) =~= needle@);
    }
    true
}

/// Whether `needle` stands somewhere in `hay`.
pub fn contains_text(hay: &str, needle: &str) -> (found: bool)
    ensures
        found == spec_contains(hay@, needle@),
{
    let h = to_chars(hay);
    let n = to_chars(needle);
    let mut at: usize = 0;
    while at < h.len()
        invariant
            h@ == hay@,
            n@ == needle@,
            at <= h.len(),
            forall|j: int| 0 <= j < at ==> !spec_occurs_at(hay@, needle@, j),
        decreases h.len() - at,
    {
        if occurs_at(&h, &n, at) {
            return true;
        }
        at += 1;
    }
    occurs_at(&h, &n, at)
}

/// The first position at or behind `from` at which `needle` stands in
/// `hay`.
pub open spec fn spec_find_text_from(hay: Seq<char>, needle: Seq<char>, from: int) -> Option<int>
    decreases hay.len() - from + 1,
{
    if from < 0 || from + needle.len() > hay.len() {
        None
    } else if spec_occurs_at(hay, needle, from) {
        Some(from)
    } else {
        spec_find_text_from(hay, needle, from + 1)
    }
}

/// The first position at which `needle` stands in `hay`.
pub open spec fn spec_find_text(hay: Seq<char>, needle: Seq<char>) -> Option<int> {
    spec_find_text_from(hay, needle, 0)
}

/// The last position of `c` in a text.
pub open spec fn spec_rfind(text: Seq<char>, c: char) -> Option<int>
    decreases text.len(),
{
    if text.len() == 0 {
        None
    } else if text.last() == c {
        Some(text.len() - 1)
    } else {
        spec_rfind(text.drop_last(), c)
    }
}

/// The first position at which `needle` stands in `hay`.
pub fn find_text(hay: &Vec<char>, needle: &Vec<char>) -> (found: Option<usize>)
    ensures
        match found {
            Some(at) => spec_find_text(hay@, needle@) == Some(at as int) && at + needle@.len()
                <= hay@.len(),
            None => spec_find_text(hay@, needle@) is None,
        },
{
    if needle.len() > hay.len() {
        return None;
    }
    let last = hay.len() - needle.len();
    let mut at: usize = 0;
    while at <= last
        invariant
            last == hay.len() - needle.len(),
            needle.len() <= hay.len(),
            at <= last + 1,
            spec_find_text(hay@, needle@) == spec_find_text_from(hay@, needle@, at as int),
        decreases last + 1 - at,
    {
        if occurs_at(hay, needle, at) {
            return Some(at);
        }
        if at == last {
            proof {
                assert(spec_find_text_from(hay@, needle@, at + 1) is None);
            }
            return None;
        }
        at += 1;
    }
    None
}

/// The last position of `c` in a text.
pub fn rfind_char(text: &Vec<char>, c: char) -> (found: Option<usize>)
    ensures
        match found {
            Some(at) => spec_rfind(text@, c) == Some(at as int) && at < text@.len(),
            None => spec_rfind(text@, c) is None,
        },
{
    let mut end = text.len();
    proof {
        assert(text@.take(end as int) =~= text@);
    }
    while end > 0
        invariant
            end <= text.len(),
            spec_rfind(text@, c) == spec_rfind(text@.take(end as int), c),
        decreases end,
    {
        proof {
            let part = text@.take(end as int);
            assert(part.last() == text@[end - 1]);
            assert(part.drop_last() =~= text@.take(end - 1));
        }
        if text[end - 1] == c {
            return Some(end - 1);
        }
        end -= 1;
    }
    None
}

/// A number of `u16` as `str::parse::<u16>` reads it.
pub open spec fn spec_parse_u16(text: Seq<char>) -> Option<u16> {
    match spec_parse_u32(text) {
        Some(value) => if value <= u16::MAX {
            Some(value as u16)
        } else {
            None
        },
        None => None,
    }
}

/// Reads a number as `str::parse::<u16>` does.
pub fn parse_u16(text: &str) -> (value: Option<u16>)
    ensures
        value == spec_parse_u16(text@),
{
    match parse_u32(text) {
        Some(value) => if value <= 0xffff {
            Some(value as u16)
        } else {
            None
        },
        None => None,
    }
}

/// A text from position `from` on, with `to` in place of every `word` that
/// stands in it, taken from the left and not overlapping. An empty `word`
/// stands nowhere.
pub open spec fn spec_replace_from(text: Seq<char>, word: Seq<char>, to: Seq<char>, from: int) -> Seq<
    char,
>
    decreases text.len() - from + 1,
{
    if from < 0 || from >= text.len() {
        Seq::empty()
    } else if word.len() > 0 && spec_occurs_at(text, word, from) {
        to + spec_replace_from(text, word, to, from + word.len())
    } else {
        seq![text[from]] + spec_replace_from(text, word, to, from + 1)
    }
}

/// A text with `to` in place of every `word` that stands in it.
pub open spec fn spec_replace(text: Seq<char>, word: Seq<char>, to: Seq<char>) -> Seq<char> {
    spec_replace_from(text, word, to, 0)
}

/// A text with `to` in place of every `word` that stands in it.
pub fn replace_text(text: &str, word: &str, to: &str) -> (replaced: String)
    ensures
        replaced@ == spec_replace(text@, word@, to@),
{
    let chars = to_chars(text);
    let needle = to_chars(word);
    let total = chars.len();
    let mut replaced = String::new();
    let mut at: usize = 0;
    proof {
        assert(replaced@ + spec_replace_from(text@, word@, to@, 0) =~= spec_replace(
            text@,
            word@,
            to@,
        ));
    }
    while at < total
        invariant
            chars@ == text@,
            needle@ == word@,
            total == chars.len(),
            at <= total,
            replaced@ + spec_replace_from(text@, word@, to@, at as int) == spec_replace(
                text@,
                word@,
                to@,
            ),
        decreases total - at,
    {
        let ghost before = replaced@;
        let ghost rest = spec_replace_from(text@, word@, to@, at as int);
        if needle.len() > 0 && occurs_at(&chars, &needle, at) {
            replaced.append(to);
            proof {
                assert(before + (to@ + spec_replace_from(
                    text@,
                    word@,
                    to@,
                    at + needle.len(),
                )) =~= replaced@ + spec_replace_from(text@, word@, to@, at + needle.len()));
            }
            at += needle.len();
        } else {
            let one = text.substring_char(at, at + 1);
            assert(one@ =~= seq![text@[at as int]]);
            replaced.append(one);
            proof {
                assert(before + (seq![text@[at as int]] + spec_replace_from(
                    text@,
                    word@,
                    to@,
                    at + 1,
                )) =~= replaced@ + spec_replace_from(text@, word@, to@, at + 1));
            }
            at += 1;
        }
    }
    proof {
        assert(replaced@ + Seq::<char>::empty() =~= replaced@);
    }
    replaced
}

/// Whether `text` begins with `prefix`.
pub fn starts_with(text: &str, prefix: &str) -> (found: bool)
    ensures
        found == prefix@.is_prefix_of(text@),
{
    let text = to_chars(text);
    let prefix = to_chars(prefix);
    let found = occurs_at(&text, &prefix, 0);
    proof {
        if prefix@.len() <= text@.len() {
            assert(text@.subrange(0, prefix@.len() as int) =~= text@.take(prefix@.len() as int));
        }
    }
    found
}

/// The character of a decimal digit.
pub open spec fn spec_digit_char(digit: nat) -> char {
    if digit == 0 {
        '0'
    } else if digit == 1 {
        '1'
    } else if digit == 2 {
        '2'
    } else if digit == 3 {
        '3'
    } else if digit == 4 {
        '4'
    } else if digit == 5 {
        '5'
    } else if digit == 6 {
        '6'
    } else if digit == 7 {
        '7'
    } else if digit == 8 {
        '8'
    } else {
        '9'
    }
}

/// A number in decimal, without sign or leading zeros.
pub open spec fn spec_decimal(n: nat) -> Seq<char>
    decreases n,
{
    if n < 10 {
        seq![spec_digit_char(n)]
    } else {
        spec_decimal(n / 10).push(spec_digit_char(n % 10))
    }
}

fn digit_text(digit: u64) -> (text: &'static str)
    requires
        digit < 10,
    ensures
        text@ == seq![spec_digit_char(digit as nat)],
{
    proof {
        reveal_strlit("0");
        reveal_strlit("1");
        reveal_strlit("2");
        reveal_strlit("3");
        reveal_strlit("4");
        reveal_strlit("5");
        reveal_strlit("6");
        reveal_strlit("7");
        reveal_strlit("8");
        reveal_strlit("9");
    }
    let text = if digit == 0 {
        "0"
    } else if digit == 1 {
        "1"
    } else if digit == 2 {
        "2"
    } else if digit == 3 {
        "3"
    } else if digit == 4 {
        "4"
    } else if digit == 5 {
        "5"
    } else if digit == 6 {
        "6"
    } else if digit == 7 {
        "7"
    } else if digit == 8 {
        "8"
    } else {
        "9"
    };
    assert(text@ =~= seq![spec_digit_char(digit as nat)]);
    text
}

/// Writes a number in decimal behind what `out` holds.
pub fn push_decimal(out: &mut String, n: u64)
    ensures
        final(out)@ == old(out)@ + spec_decimal(n as nat),
    decreases n,
{
    if n >= 10 {
        push_decimal(out, n / 10);
    }
    out.append(digit_text(n % 10));
    proof {
        if n >= 10 {
            assert(old(out)@ + spec_decimal(n as nat / 10) + seq![
                spec_digit_char(n as nat % 10),
            ] =~= old(out)@ + spec_decimal(n as nat));
        }
    }
}

/// A number in decimal.
pub fn decimal(n: u64) -> (text: String)
    ensures
        text@ == spec_decimal(n as nat),
{
    let mut text = String::new();
    push_decimal(&mut text, n);
    assert(Seq::<char>::empty() + spec_decimal(n as nat) =~= spec_decimal(n as nat));
    text
}

/// Whether a character is a decimal digit.
pub open spec fn spec_is_digit(c: char) -> bool {
    '0' <= c && c <= '9'
}

/// The value of a decimal digit.
pub open spec fn spec_digit_value(c: char) -> nat {
    (c as u32 - '0' as u32) as nat
}

/// The number that a run of decimal digits stands for.
pub open spec fn spec_digits_value(digits: Seq<char>) -> nat
    decreases digits.len(),
{
    if digits.len() == 0 {
        0
    } else {
        spec_digits_value(digits.drop_last()) * 10 + spec_digit_value(digits.last())
    }
}

/// The digits of a number that may carry a plus sign in front.
pub open spec fn spec_unsigned_digits(text: Seq<char>) -> Seq<char> {
    if text.len() > 0 && text[0] == '+' {
        text.drop_first()
    } else {
        text
    }
}

/// The number that a text stands for, as `str::parse::<u32>` reads it: an
/// optional plus sign, then one or more decimal digits and nothing else, the
/// value within the range of `u32`.
pub open spec fn spec_parse_u32(text: Seq<char>) -> Option<u32> {
    let digits = spec_unsigned_digits(text);
    if digits.len() > 0 && (forall|i: int| 0 <= i < digits.len() ==> spec_is_digit(#[trigger] digits[i]))
        && spec_digits_value(digits) <= u32::MAX {
        Some(spec_digits_value(digits) as u32)
    } else {
        None
    }
}

proof fn lemma_digits_value_grows(digits: Seq<char>, k: int)
    requires
        0 <= k <= digits.len(),
    ensures
        spec_digits_value(digits.take(k)) <= spec_digits_value(digits),
    decreases digits.len() - k,
{
    if k == digits.len() {
        assert(digits.take(k) =~= digits);
    } else {
        lemma_digits_value_grows(digits, k + 1);
        assert(digits.take(k + 1).drop_last() =~= digits.take(k));
    }
}

/// Reads a number as `str::parse::<u32>` does.
pub fn parse_u32(text: &str) -> (value: Option<u32>)
    ensures
        value == spec_parse_u32(text@),
{
    let chars = to_chars(text);
    let start: usize = if chars.len() > 0 && chars[0] == '+' {
        1
    } else {
        0
    };
    let ghost digits = spec_unsigned_digits(text@);
    assert(digits =~= chars@.skip(start as int));
    if start == chars.len() {
        return None;
    }
    let mut value: u64 = 0;
    let mut i: usize = start;
    while i < chars.len()
        invariant
            start <= i <= chars.len(),
            chars@ == text@,
            digits == spec_unsigned_digits(text@),
            digits == chars@.skip(start as int),
            digits.len() > 0,
            value == spec_digits_value(digits.take(i - start)),
            value <= u32::MAX,
            forall|j: int| 0 <= j < i - start ==> spec_is_digit(#[trigger] digits[j]),
        decreases chars.len() - i,
    {
        let c = chars[i];
        assert(c == digits[i - start]);
        if !('0' <= c && c <= '9') {
            return None;
        }
        let digit = (c as u32 - '0' as u32) as u64;
        proof {
            assert(digits.take(i - start + 1).drop_last() =~= digits.take(i - start));
        }
        value = value * 10 + digit;
        if value > 0xffff_ffff {
            proof {
                lemma_digits_value_grows(digits, i - start + 1);
            }
            return None;
        }
        i += 1;
    }
    proof {
        assert(digits.take(i - start) =~= digits);
    }
    Some(value as u32)
}

proof fn lemma_decimal_is_digits(n: nat)
    ensures
        spec_decimal(n).len() > 0,
        forall|i: int| 0 <= i < spec_decimal(n).len() ==> spec_is_digit(#[trigger] spec_decimal(n)[i]),
        spec_decimal(n)[0] != '+',
        spec_digits_value(spec_decimal(n)) == n,
    decreases n,
{
    if n < 10 {
        let text = spec_decimal(n);
        assert(text.drop_last() =~= Seq::<char>::empty());
        assert(text.last() == spec_digit_char(n));
        assert(spec_digits_value(text.drop_last()) == 0);
        assert(spec_digit_value(spec_digit_char(n)) == n);
    } else {
        lemma_decimal_is_digits(n / 10);
        let text = spec_decimal(n);
        assert(text.drop_last() =~= spec_decimal(n / 10));
        assert(text.last() == spec_digit_char(n % 10));
        assert(spec_digit_value(spec_digit_char(n % 10)) == n % 10);
    }
}

/// A number written in decimal is read back as that number.
pub proof fn parse_u32_reads_decimal(n: u32)
    ensures
        spec_parse_u32(spec_decimal(n as nat)) == Some(n),
{
    lemma_decimal_is_digits(n as nat);
}

/// The white space that `str::trim` removes: the characters with the
/// Unicode property `White_Space`.
pub open spec fn spec_is_whitespace(c: char) -> bool {
    let code = c as u32;
    (0x09 <= code && code <= 0x0d) || code == 0x20 || code == 0x85 || code == 0xa0 || code
        == 0x1680 || (0x2000 <= code && code <= 0x200a) || code == 0x2028 || code == 0x2029
        || code == 0x202f || code == 0x205f || code == 0x3000
}

pub fn is_whitespace(c: char) -> (white: bool)
    ensures
        white == spec_is_whitespace(c),
{
    let code = c as u32;
    (0x09 <= code && code <= 0x0d) || code == 0x20 || code == 0x85 || code == 0xa0 || code
        == 0x1680 || (0x2000 <= code && code <= 0x200a) || code == 0x2028 || code == 0x2029
        || code == 0x202f || code == 0x205f || code == 0x3000
}

/// A text without the white space in front of it.
pub open spec fn spec_trim_start(text: Seq<char>) -> Seq<char>
    decreases text.len(),
{
    if text.len() > 0 && spec_is_whitespace(text[0]) {
        spec_trim_start(text.drop_first())
    } else {
        text
    }
}

/// A text without the white space behind it.
pub open spec fn spec_trim_end(text: Seq<char>) -> Seq<char>
    decreases text.len(),
{
    if text.len() > 0 && spec_is_whitespace(text.last()) {
        spec_trim_end(text.drop_last())
    } else {
        text
    }
}

/// A text without the white space around it.
pub open spec fn spec_trim(text: Seq<char>) -> Seq<char> {
    spec_trim_end(spec_trim_start(text))
}

/// The position of the first `c` in a text, or the length of the text where
/// there is none.
pub open spec fn spec_find(text: Seq<char>, c: char) -> int
    decreases text.len(),
{
    if text.len() == 0 || text[0] == c {
        0
    } else {
        1 + spec_find(text.drop_first(), c)
    }
}

/// What stands behind `key=` in an entry, if the entry has that form. The
/// key is all that stands before the first `=`, and is compared as it is.
pub open spec fn spec_value_of(entry: Seq<char>, key: Seq<char>) -> Option<Seq<char>> {
    let at = spec_find(entry, '=');
    if at < entry.len() && entry.take(at) == key {
        Some(entry.skip(at + 1))
    } else {
        None
    }
}

/// The values that a list gives for a key, in the order of the list. The
/// entries of the list are separated by `;` and trimmed.
pub open spec fn spec_values(target: Seq<char>, key: Seq<char>) -> Seq<Seq<char>>
    decreases target.len(),
{
    let end = spec_find(target, ';');
    let here = match spec_value_of(spec_trim(target.take(end)), key) {
        Some(value) => seq![value],
        None => Seq::empty(),
    };
    if 0 <= end < target.len() {
        here + spec_values(target.skip(end + 1), key)
    } else {
        here
    }
}

/// The position before which no `c` stands, and at which one stands or the
/// text ends, is where `spec_find` points.
pub proof fn lemma_find_is(text: Seq<char>, c: char, at: int)
    requires
        0 <= at <= text.len(),
        forall|j: int| 0 <= j < at ==> text[j] != c,
        at == text.len() || text[at] == c,
    ensures
        spec_find(text, c) == at,
    decreases text.len(),
{
    if at > 0 {
        let rest = text.drop_first();
        assert forall|j: int| 0 <= j < at - 1 implies rest[j] != c by {
            assert(rest[j] == text[j + 1]);
        }
        lemma_find_is(rest, c, at - 1);
    }
}

fn find_char(chars: &Vec<char>, lo: usize, hi: usize, c: char) -> (at: usize)
    requires
        lo <= hi <= chars.len(),
    ensures
        lo <= at <= hi,
        at == lo + spec_find(chars@.subrange(lo as int, hi as int), c),
{
    let mut at = lo;
    while at < hi && chars[at] != c
        invariant
            lo <= at <= hi <= chars.len(),
            forall|j: int| lo <= j < at ==> chars@[j] != c,
        decreases hi - at,
    {
        at += 1;
    }
    proof {
        let part = chars@.subrange(lo as int, hi as int);
        assert forall|j: int| 0 <= j < at - lo implies part[j] != c by {
            assert(part[j] == chars@[lo + j]);
        }
        lemma_find_is(part, c, at - lo);
    }
    at
}

fn trim_bounds(chars: &Vec<char>, lo: usize, hi: usize) -> (bounds: (usize, usize))
    requires
        lo <= hi <= chars.len(),
    ensures
        lo <= bounds.0 <= bounds.1 <= hi,
        chars@.subrange(bounds.0 as int, bounds.1 as int) == spec_trim(
            chars@.subrange(lo as int, hi as int),
        ),
{
    let mut from = lo;
    while from < hi && is_whitespace(chars[from])
        invariant
            lo <= from <= hi <= chars.len(),
            spec_trim_start(chars@.subrange(lo as int, hi as int)) == spec_trim_start(
                chars@.subrange(from as int, hi as int),
            ),
        decreases hi - from,
    {
        proof {
            let part = chars@.subrange(from as int, hi as int);
            assert(part[0] == chars@[from as int]);
            assert(part.drop_first() =~= chars@.subrange(from + 1, hi as int));
        }
        from += 1;
    }
    proof {
        let part = chars@.subrange(from as int, hi as int);
        if from < hi {
            assert(part[0] == chars@[from as int]);
        }
        assert(spec_trim_start(part) == part);
    }
    let mut to = hi;
    while to > from && is_whitespace(chars[to - 1])
        invariant
            from <= to <= hi <= chars.len(),
            spec_trim_end(chars@.subrange(from as int, hi as int)) == spec_trim_end(
                chars@.subrange(from as int, to as int),
            ),
        decreases to - from,
    {
        proof {
            let part = chars@.subrange(from as int, to as int);
            assert(part.last() == chars@[to - 1]);
            assert(part.drop_last() =~= chars@.subrange(from as int, to - 1));
        }
        to -= 1;
    }
    proof {
        let part = chars@.subrange(from as int, to as int);
        if to > from {
            assert(part.last() == chars@[to - 1]);
        }
        assert(spec_trim_end(part) == part);
    }
    (from, to)
}

fn range_is(chars: &Vec<char>, lo: usize, hi: usize, word: &Vec<char>) -> (same: bool)
    requires
        lo <= hi <= chars.len(),
    ensures
        same == (chars@.subrange(lo as int, hi as int) == word@),
{
    if hi - lo != word.len() {
        return false;
    }
    let found = occurs_at(chars, word, lo);
    found
}

/// The values that a list of `key=value` entries gives for a key, in the
/// order of the list.
pub fn find_values<'a>(target: &'a str, key: &str) -> (values: Vec<&'a str>)
    ensures
        values@.len() == spec_values(target@, key@).len(),
        forall|i: int|
            0 <= i < values@.len() ==> (#[trigger] values@[i])@ == spec_values(target@, key@)[i],
{
    let chars = to_chars(target);
    let word = to_chars(key);
    let mut values: Vec<&'a str> = Vec::new();
    let ghost mut found: Seq<Seq<char>> = Seq::empty();
    let mut start: usize = 0;
    let mut done = false;
    proof {
        assert(target@.skip(0) =~= target@);
        assert(found + spec_values(target@, key@) =~= spec_values(target@, key@));
    }
    while !done
        invariant
            chars@ == target@,
            word@ == key@,
            start <= chars.len(),
            values@.len() == found.len(),
            forall|i: int| 0 <= i < values@.len() ==> (#[trigger] values@[i])@ == found[i],
            !done ==> spec_values(target@, key@) == found + spec_values(
                target@.skip(start as int),
                key@,
            ),
            done ==> spec_values(target@, key@) == found,
        decreases chars.len() - start + (if done { 0int } else { 1int }),
    {
        let end = find_char(&chars, start, chars.len(), ';');
        let (from, to) = trim_bounds(&chars, start, end);
        let sign = find_char(&chars, from, to, '=');
        let ghost rest = target@.skip(start as int);
        let ghost entry = chars@.subrange(from as int, to as int);
        let ghost before = found;
        proof {
            assert(chars@.subrange(start as int, chars.len() as int) =~= rest);
            assert(rest.take(end - start) =~= chars@.subrange(start as int, end as int));
            assert(entry.take(sign - from) =~= chars@.subrange(from as int, sign as int));
        }
        if sign < to && range_is(&chars, from, sign, &word) {
            let value = target.substring_char(sign + 1, to);
            proof {
                assert(entry.skip(sign - from + 1) =~= chars@.subrange(sign + 1, to as int));
                found = found.push(value@);
            }
            values.push(value);
        }
        if end < chars.len() {
            proof {
                assert(rest.skip(end - start + 1) =~= target@.skip(end + 1));
                let here = match spec_value_of(entry, key@) {
                    Some(value) => seq![value],
                    None => Seq::empty(),
                };
                assert(found =~= before + here);
                assert(before + (here + spec_values(target@.skip(end + 1), key@)) =~= found
                    + spec_values(target@.skip(end + 1), key@));
            }
            start = end + 1;
        } else {
            proof {
                let here = match spec_value_of(entry, key@) {
                    Some(value) => seq![value],
                    None => Seq::empty(),
                };
                assert(found =~= before + here);
            }
            done = true;
        }
    }
    values
}

/// `str::parse`: reads a value as the type that is asked for, through the
/// type's own `FromStr`. What comes back is up to that type, so nothing is
/// claimed of it.
#[verifier::external_body]
fn parse_value<T: core::str::FromStr>(text: &str) -> (value: Option<T>) {
    text.parse::<T>().ok()
}

/// The first of the values that is there.
pub open spec fn spec_first_some<T>(items: Seq<Option<T>>) -> Option<T>
    decreases items.len(),
{
    if items.len() == 0 {
        None
    } else if items[0] is Some {
        items[0]
    } else {
        spec_first_some(items.drop_first())
    }
}

/// The first of the values that is there.
pub fn first_some<T>(items: Vec<Option<T>>) -> (first: Option<T>)
    ensures
        first == spec_first_some(items@),
{
    let ghost all = items@;
    proof {
        assert(all.skip(0) =~= all);
    }
    for item in it: items
        invariant
            it.seq() == all,
            spec_first_some(all) == spec_first_some(all.skip(it.index() as int)),
    {
        proof {
            let at = it.index() as int;
            assert(all.skip(at)[0] == all[at]);
            assert(all.skip(at).drop_first() =~= all.skip(at + 1));
        }
        if item.is_some() {
            return item;
        }
    }
    proof {
        assert(all.skip(all.len() as int).len() == 0);
    }
    None
}

/// The first value that a list of `key=value` entries gives for a key and
/// that reads as a `T`: each value that the list gives for the key is read
/// through the type's `FromStr`, and the first that reads is the result. A
/// list that gives no value for the key yields nothing, whatever the type.
pub fn parse_str<T: core::str::FromStr>(target: &str, key: &str) -> (value: Option<T>)
    ensures
        exists|parsed: Seq<Option<T>>|
            parsed.len() == spec_values(target@, key@).len() && value == spec_first_some(parsed),
        spec_values(target@, key@).len() == 0 ==> value is None,
{
    let values = find_values(target, key);
    let mut parsed: Vec<Option<T>> = Vec::new();
    let mut i: usize = 0;
    while i < values.len()
        invariant
            i <= values.len(),
            parsed@.len() == i,
        decreases values.len() - i,
    {
        parsed.push(parse_value::<T>(values[i]));
        i += 1;
    }
    let value = first_some(parsed);
    proof {
        assert(parsed@.len() == spec_values(target@, key@).len());
    }
    value
}

} // verus!
