//! Configuration values as JSON text, which is how a script is handed the
//! configuration.

use crate::text::to_chars;
use crate::yaml::{spec_item_trees, Mapping, Yaml, YamlTree};
use crate::yaml_text::MAX_DEPTH;
use vstd::prelude::*;
use vstd::string::StringExecFns;

verus! {

/// A hexadecimal digit, in lower case.
pub open spec fn spec_hex(digit: nat) -> Seq<char> {
    if digit == 0 {
        "0"@
    } else if digit == 1 {
        "1"@
    } else if digit == 2 {
        "2"@
    } else if digit == 3 {
        "3"@
    } else if digit == 4 {
        "4"@
    } else if digit == 5 {
        "5"@
    } else if digit == 6 {
        "6"@
    } else if digit == 7 {
        "7"@
    } else if digit == 8 {
        "8"@
    } else if digit == 9 {
        "9"@
    } else if digit == 10 {
        "a"@
    } else if digit == 11 {
        "b"@
    } else if digit == 12 {
        "c"@
    } else if digit == 13 {
        "d"@
    } else if digit == 14 {
        "e"@
    } else {
        "f"@
    }
}

fn hex_text(digit: u32) -> (text: &'static str)
    ensures
        text@ == spec_hex(digit as nat),
{
    if digit == 0 {
        "0"
    } else if digit == 1 {
        "1"
    } else if digit == 2 {
        "2"
    } else if digit == 3 {
        "3"
    } else if digit == 4 {
        "4"
    } else if digit == 5 {
        "5"
    } else if digit == 6 {
        "6"
    } else if digit == 7 {
        "7"
    } else if digit == 8 {
        "8"
    } else if digit == 9 {
        "9"
    } else if digit == 10 {
        "a"
    } else if digit == 11 {
        "b"
    } else if digit == 12 {
        "c"
    } else if digit == 13 {
        "d"
    } else if digit == 14 {
        "e"
    } else {
        "f"
    }
}

/// A character as it stands inside a JSON string: the quote, the backslash
/// and the control characters are escaped.
pub open spec fn spec_json_escape(c: char) -> Seq<char> {
    if c == '"' {
        "\\\""@
    } else if c == '\\' {
        "\\\\"@
    } else if c == '\n' {
        "\\n"@
    } else if c == '\r' {
        "\\r"@
    } else if c == '\t' {
        "\\t"@
    } else if (c as u32) < 0x20 {
        "\\u00"@ + spec_hex((c as u32 / 16) as nat) + spec_hex((c as u32 % 16) as nat)
    } else {
        seq![c]
    }
}

/// The characters of a text as they stand inside a JSON string.
pub open spec fn spec_json_escaped(text: Seq<char>) -> Seq<char>
    decreases text.len(),
{
    if text.len() == 0 {
        Seq::empty()
    } else {
        spec_json_escaped(text.drop_last()) + spec_json_escape(text.last())
    }
}

/// A text as a JSON string.
pub open spec fn spec_json_text(text: Seq<char>) -> Seq<char> {
    "\""@ + spec_json_escaped(text) + "\""@
}

/// Writes a text as a JSON string behind what `out` holds.
pub fn push_json_text(out: &mut String, text: &str)
    ensures
        final(out)@ == old(out)@ + spec_json_text(text@),
{
    let chars = to_chars(text);
    out.append("\"");
    let mut at: usize = 0;
    while at < chars.len()
        invariant
            chars@ == text@,
            at <= chars.len(),
            out@ == old(out)@ + "\""@ + spec_json_escaped(text@.take(at as int)),
        decreases chars.len() - at,
    {
        let c = chars[at];
        let ghost before = out@;
        if c == '"' {
            out.append("\\\"");
        } else if c == '\\' {
            out.append("\\\\");
        } else if c == '\n' {
            out.append("\\n");
        } else if c == '\r' {
            out.append("\\r");
        } else if c == '\t' {
            out.append("\\t");
        } else if (c as u32) < 0x20 {
            out.append("\\u00");
            out.append(hex_text(c as u32 / 16));
            out.append(hex_text(c as u32 % 16));
        } else {
            let one = text.substring_char(at, at + 1);
            assert(one@ =~= seq![c]);
            out.append(one);
        }
        proof {
            assert(out@ =~= before + spec_json_escape(c));
            assert(text@.take(at + 1).drop_last() =~= text@.take(at as int));
            assert(text@.take(at + 1).last() == c);
            assert(before + spec_json_escape(c) =~= old(out)@ + "\""@ + (spec_json_escaped(
                text@.take(at as int),
            ) + spec_json_escape(c)));
        }
        at += 1;
    }
    out.append("\"");
    proof {
        assert(text@.take(at as int) =~= text@);
        assert(out@ =~= old(out)@ + spec_json_text(text@));
    }
}

/// The position behind the run of decimal digits that begins at `from`.
pub open spec fn spec_digits_end(text: Seq<char>, from: int) -> int
    decreases text.len() - from + 1,
{
    if 0 <= from < text.len() && '0' <= text[from] && text[from] <= '9' {
        spec_digits_end(text, from + 1)
    } else {
        from
    }
}

/// The position behind the fraction that begins at `at`, if a well-formed
/// one begins there; `at` itself where none begins there.
pub open spec fn spec_fraction_end(text: Seq<char>, at: int) -> Option<int> {
    if 0 <= at < text.len() && text[at] == '.' {
        if spec_digits_end(text, at + 1) > at + 1 {
            Some(spec_digits_end(text, at + 1))
        } else {
            None
        }
    } else {
        Some(at)
    }
}

/// The position behind the exponent that begins at `at`, if a well-formed
/// one begins there; `at` itself where none begins there.
pub open spec fn spec_exponent_end(text: Seq<char>, at: int) -> Option<int> {
    if 0 <= at < text.len() && (text[at] == 'e' || text[at] == 'E') {
        let digits = if at + 1 < text.len() && (text[at + 1] == '+' || text[at + 1] == '-') {
            at + 2
        } else {
            at + 1
        };
        if spec_digits_end(text, digits) > digits {
            Some(spec_digits_end(text, digits))
        } else {
            None
        }
    } else {
        Some(at)
    }
}

/// Whether a text is a number as JSON writes numbers: an optional minus
/// sign, digits without a needless leading zero, then an optional fraction
/// and an optional exponent, and nothing else.
pub open spec fn spec_is_json_number(text: Seq<char>) -> bool {
    let start: int = if text.len() > 0 && text[0] == '-' {
        1
    } else {
        0
    };
    let whole = spec_digits_end(text, start);
    &&& whole > start
    &&& text[start] != '0' || whole == start + 1
    &&& spec_fraction_end(text, whole) matches Some(fraction)
    &&& spec_exponent_end(text, fraction) matches Some(end)
    &&& end == text.len()
}

fn digits_end(text: &Vec<char>, from: usize) -> (end: usize)
    requires
        from <= text.len(),
    ensures
        end == spec_digits_end(text@, from as int),
        from <= end <= text.len(),
{
    let mut end = from;
    while end < text.len() && '0' <= text[end] && text[end] <= '9'
        invariant
            from <= end <= text.len(),
            spec_digits_end(text@, from as int) == spec_digits_end(text@, end as int),
        decreases text.len() - end,
    {
        end += 1;
    }
    end
}

/// Whether a text is a number as JSON writes numbers.
pub fn is_json_number(text: &str) -> (number: bool)
    ensures
        number == spec_is_json_number(text@),
{
    let chars = to_chars(text);
    let total = chars.len();
    let start: usize = if total > 0 && chars[0] == '-' {
        1
    } else {
        0
    };
    let whole = digits_end(&chars, start);
    if whole == start {
        return false;
    }
    if chars[start] == '0' && whole != start + 1 {
        return false;
    }
    let fraction = if whole < total && chars[whole] == '.' {
        let end = digits_end(&chars, whole + 1);
        if end == whole + 1 {
            return false;
        }
        end
    } else {
        whole
    };
    let end = if fraction < total && (chars[fraction] == 'e' || chars[fraction] == 'E') {
        let digits = if fraction + 1 < total && (chars[fraction + 1] == '+' || chars[fraction + 1]
            == '-') {
            fraction + 2
        } else {
            fraction + 1
        };
        let end = digits_end(&chars, digits);
        if end == digits {
            return false;
        }
        end
    } else {
        fraction
    };
    end == total
}

/// A value as JSON text, as far as it is nested no deeper than `depth`;
/// what lies deeper is written as `null`. A number that JSON cannot write
/// is `null` too, and a tagged value is written without its tag.
pub open spec fn spec_json(value: YamlTree, depth: nat) -> Seq<char>
    decreases depth, 0nat,
{
    if depth == 0 {
        "null"@
    } else {
        match value {
            YamlTree::Null => "null"@,
            YamlTree::Bool(flag) => if flag {
                "true"@
            } else {
                "false"@
            },
            YamlTree::Number(number) => if spec_is_json_number(number) {
                number
            } else {
                "null"@
            },
            YamlTree::Text(text) => spec_json_text(text),
            YamlTree::Sequence(items) => "["@ + spec_json_items(items, (depth - 1) as nat) + "]"@,
            YamlTree::Mapping(entries) => spec_json_mapping(entries, (depth - 1) as nat),
            YamlTree::Tagged(_, inner) => spec_json(*inner, (depth - 1) as nat),
        }
    }
}

/// The items of a sequence as JSON text, with commas between them.
pub open spec fn spec_json_items(items: Seq<YamlTree>, depth: nat) -> Seq<char>
    decreases depth, items.len() + 1,
{
    if items.len() == 0 {
        Seq::empty()
    } else if items.len() == 1 {
        spec_json(items[0], depth)
    } else {
        spec_json_items(items.drop_last(), depth) + ","@ + spec_json(items.last(), depth)
    }
}

/// A key as the name of a member of a JSON object: a text as it is, any
/// other key by its JSON text.
pub open spec fn spec_json_key(key: YamlTree, depth: nat) -> Seq<char>
    decreases depth, 1nat,
{
    match key {
        YamlTree::Text(text) => spec_json_text(text),
        _ => spec_json_text(spec_json(key, depth)),
    }
}

/// The entries of a mapping as JSON text, with commas between them.
pub open spec fn spec_json_entries(entries: Seq<(YamlTree, YamlTree)>, depth: nat) -> Seq<char>
    decreases depth, entries.len() + 2,
{
    if entries.len() == 0 {
        Seq::empty()
    } else if entries.len() == 1 {
        spec_json_key(entries[0].0, depth) + ":"@ + spec_json(entries[0].1, depth)
    } else {
        spec_json_entries(entries.drop_last(), depth) + ","@ + spec_json_key(
            entries.last().0,
            depth,
        ) + ":"@ + spec_json(entries.last().1, depth)
    }
}

/// A mapping as a JSON object.
pub open spec fn spec_json_mapping(entries: Seq<(YamlTree, YamlTree)>, depth: nat) -> Seq<char>
    decreases depth, entries.len() + 3,
{
    "{"@ + spec_json_entries(entries, depth) + "}"@
}

fn push_json_items(out: &mut String, items: &Vec<Yaml>, depth: usize)
    ensures
        final(out)@ == old(out)@ + spec_json_items(spec_item_trees(items@), depth as nat),
    decreases depth, 1int,
{
    let ghost trees = spec_item_trees(items@);
    let mut at: usize = 0;
    proof {
        assert(trees.take(0) =~= Seq::<YamlTree>::empty());
        assert(out@ =~= old(out)@ + spec_json_items(trees.take(0), depth as nat));
    }
    while at < items.len()
        invariant
            at <= items.len(),
            trees == spec_item_trees(items@),
            out@ == old(out)@ + spec_json_items(trees.take(at as int), depth as nat),
        decreases items.len() - at,
    {
        let ghost before = out@;
        let ghost done = spec_json_items(trees.take(at as int), depth as nat);
        if at > 0 {
            out.append(",");
        }
        push_json(out, &items[at], depth);
        proof {
            let next = trees.take(at + 1);
            assert(trees[at as int] == items@[at as int].tree());
            assert(next.drop_last() =~= trees.take(at as int));
            assert(next.last() == trees[at as int]);
            if at == 0 {
                assert(next[0] == trees[0]);
                assert(done =~= Seq::<char>::empty());
                assert(out@ =~= old(out)@ + spec_json_items(next, depth as nat));
            } else {
                assert(out@ =~= old(out)@ + (done + ","@ + spec_json(
                    trees[at as int],
                    depth as nat,
                )));
            }
        }
        at += 1;
    }
    proof {
        assert(trees.take(at as int) =~= trees);
    }
}

fn push_json_key(out: &mut String, key: &Yaml, depth: usize)
    ensures
        final(out)@ == old(out)@ + spec_json_key(key.tree(), depth as nat),
    decreases depth, 1int,
{
    match key {
        Yaml::Text(text) => {
            push_json_text(out, text.as_str());
        },
        _ => {
            let mut name = String::new();
            push_json(&mut name, key, depth);
            proof {
                assert(name@ =~= spec_json(key.tree(), depth as nat));
            }
            push_json_text(out, name.as_str());
        },
    }
}

/// Writes a mapping as a JSON object behind what `out` holds, as far as
/// values are nested no deeper than `depth` below it.
pub fn push_json_mapping(out: &mut String, mapping: &Mapping, depth: usize)
    ensures
        final(out)@ == old(out)@ + spec_json_mapping(mapping@, depth as nat),
    decreases depth, 2int,
{
    out.append("{");
    let ghost opened = out@;
    let total = mapping.len();
    let mut at: usize = 0;
    proof {
        assert(mapping@.take(0) =~= Seq::<(YamlTree, YamlTree)>::empty());
        assert(out@ =~= opened + spec_json_entries(mapping@.take(0), depth as nat));
    }
    while at < total
        invariant
            total == mapping@.len(),
            at <= total,
            opened == old(out)@ + "{"@,
            out@ == opened + spec_json_entries(mapping@.take(at as int), depth as nat),
        decreases total - at,
    {
        let ghost done = spec_json_entries(mapping@.take(at as int), depth as nat);
        if at > 0 {
            out.append(",");
        }
        let (key, value) = mapping.entry(at);
        push_json_key(out, key, depth);
        out.append(":");
        push_json(out, value, depth);
        proof {
            let next = mapping@.take(at + 1);
            let entry = mapping@[at as int];
            assert(next.drop_last() =~= mapping@.take(at as int));
            assert(next.last() == entry);
            let written = spec_json_key(entry.0, depth as nat) + ":"@ + spec_json(
                entry.1,
                depth as nat,
            );
            if at == 0 {
                assert(next[0] == entry);
                assert(done =~= Seq::<char>::empty());
                assert(out@ =~= opened + written);
            } else {
                assert(out@ =~= opened + (done + ","@ + spec_json_key(entry.0, depth as nat)
                    + ":"@ + spec_json(entry.1, depth as nat)));
            }
        }
        at += 1;
    }
    out.append("}");
    proof {
        assert(mapping@.take(at as int) =~= mapping@);
        assert(out@ =~= old(out)@ + spec_json_mapping(mapping@, depth as nat));
    }
}

/// Writes a value as JSON text behind what `out` holds, as far as it is
/// nested no deeper than `depth`.
pub fn push_json(out: &mut String, value: &Yaml, depth: usize)
    ensures
        final(out)@ == old(out)@ + spec_json(value.tree(), depth as nat),
    decreases depth, 0int,
{
    if depth == 0 {
        out.append("null");
        return ;
    }
    match value {
        Yaml::Null => {
            out.append("null");
        },
        Yaml::Bool(flag) => {
            if *flag {
                out.append("true");
            } else {
                out.append("false");
            }
        },
        Yaml::Number(number) => {
            if is_json_number(number.as_str()) {
                out.append(number.as_str());
            } else {
                out.append("null");
            }
        },
        Yaml::Text(text) => {
            push_json_text(out, text.as_str());
        },
        Yaml::Sequence(items) => {
            out.append("[");
            push_json_items(out, items, depth - 1);
            out.append("]");
            proof {
                assert(out@ =~= old(out)@ + ("["@ + spec_json_items(
                    spec_item_trees(items@),
                    (depth - 1) as nat,
                ) + "]"@));
            }
        },
        Yaml::Mapping(mapping) => {
            push_json_mapping(out, mapping, depth - 1);
        },
        Yaml::Tagged(_, inner) => {
            push_json(out, &**inner, depth - 1);
        },
    }
}

/// A configuration as the JSON text that a script is handed.
pub fn to_json(config: &Mapping) -> (text: String)
    ensures
        text@ == spec_json_mapping(config@, MAX_DEPTH as nat),
{
    let mut text = String::new();
    push_json_mapping(&mut text, config, MAX_DEPTH);
    proof {
        assert(Seq::<char>::empty() + spec_json_mapping(config@, MAX_DEPTH as nat)
            =~= spec_json_mapping(config@, MAX_DEPTH as nat));
    }
    text
}

} // verus!
