//! Configuration values from YAML text.

use crate::yaml::{lemma_position, spec_distinct, Mapping, Yaml, YamlTree};
use vstd::prelude::*;

verus! {

/// A value of the `serde_yaml` crate.
#[verifier::external_type_specification]
#[verifier::external_body]
pub struct ExYamlValue(serde_yaml::Value);

/// The error of the `serde_yaml` crate.
#[verifier::external_type_specification]
#[verifier::external_body]
pub struct ExYamlError(serde_yaml::Error);

/// How deep values are followed when they are written for a script. The
/// parser of `serde_yaml` gives up at the same depth, so nothing that was
/// read is nested deeper.
pub const MAX_DEPTH: usize = 128;

/// Why a text gave no configuration.
#[derive(Debug)]
pub enum YamlError {
    /// The text is not YAML; what the parser said.
    Parse(String),
    /// The merge keys of the text could not be resolved; what was said.
    Merge(String),
    /// The text is YAML but not a mapping.
    NotMapping,
}

/// What a YAML value is made of, one level deep.
enum Parts {
    Null,
    Bool(bool),
    Number(String),
    Text(String),
    Sequence(Vec<serde_yaml::Value>),
    Mapping(Vec<(serde_yaml::Value, serde_yaml::Value)>),
    Tagged(String, serde_yaml::Value),
}

/// What a `serde_yaml::Value` holds, as a tree of plain values: scalars by
/// their kind and text (a number and a tag as `serde_yaml` writes them),
/// sequences by their items and mappings by their entries, each in its
/// order.
pub uninterp spec fn spec_yaml_tree(value: serde_yaml::Value) -> YamlTree;

/// What `serde_yaml::from_str` makes of a text: the tree of the value it
/// stands for, or nothing where the text is not YAML.
pub uninterp spec fn spec_parse_yaml(text: Seq<char>) -> Option<YamlTree>;

/// What `serde_yaml::Value::apply_merge` makes of a value: the tree with
/// the merge keys resolved, or nothing where a merge key holds something
/// else than mappings.
pub uninterp spec fn spec_apply_merge(tree: YamlTree) -> Option<YamlTree>;

/// The trees of the items of a sequence of `serde_yaml`.
pub open spec fn spec_value_trees(items: Seq<serde_yaml::Value>) -> Seq<YamlTree> {
    Seq::new(items.len(), |i: int| spec_yaml_tree(items[i]))
}

/// The trees of the entries of a mapping of `serde_yaml`.
pub open spec fn spec_pair_trees(entries: Seq<(serde_yaml::Value, serde_yaml::Value)>) -> Seq<
    (YamlTree, YamlTree),
> {
    Seq::new(entries.len(), |i: int| (spec_yaml_tree(entries[i].0), spec_yaml_tree(entries[i].1)))
}

/// The tree that is made of these parts.
spec fn spec_parts_tree(parts: Parts) -> YamlTree {
    match parts {
        Parts::Null => YamlTree::Null,
        Parts::Bool(flag) => YamlTree::Bool(flag),
        Parts::Number(number) => YamlTree::Number(number@),
        Parts::Text(text) => YamlTree::Text(text@),
        Parts::Sequence(items) => YamlTree::Sequence(spec_value_trees(items@)),
        Parts::Mapping(entries) => YamlTree::Mapping(spec_pair_trees(entries@)),
        Parts::Tagged(tag, inner) => YamlTree::Tagged(tag@, Box::new(spec_yaml_tree(inner))),
    }
}

/// `serde_yaml::from_str` for a `serde_yaml::Value`: the value that a text
/// stands for, or the parser's error. The outcome is a matter of the text
/// alone.
#[verifier::external_body]
fn parse_yaml(text: &str) -> (parsed: Result<serde_yaml::Value, serde_yaml::Error>)
    ensures
        match parsed {
            Ok(value) => spec_parse_yaml(text@) == Some(spec_yaml_tree(value)),
            Err(_) => spec_parse_yaml(text@) is None,
        },
{
    serde_yaml::from_str::<serde_yaml::Value>(text)
}

/// `serde_yaml::Value::apply_merge`: the value with the entries under its
/// `<<` keys merged into the mappings around them, or the error of a merge
/// key that holds something else than mappings. The outcome is a matter of
/// what the value holds alone.
#[verifier::external_body]
fn apply_merge(value: serde_yaml::Value) -> (merged: Result<serde_yaml::Value, serde_yaml::Error>)
    ensures
        match merged {
            Ok(after) => spec_apply_merge(spec_yaml_tree(value)) == Some(spec_yaml_tree(after)),
            Err(_) => spec_apply_merge(spec_yaml_tree(value)) is None,
        },
{
    let mut value = value;
    match value.apply_merge() {
        Ok(()) => Ok(value),
        Err(error) => Err(error),
    }
}

/// Takes a `serde_yaml::Value` apart, one level deep. A number is handed
/// out as `serde_yaml` writes it, a tag likewise. The parts are what the
/// value holds, and no two entries of a mapping have keys that hold the
/// same, as the keys of a `serde_yaml::Mapping` are distinct and keys that
/// hold the same are equal to it.
#[verifier::external_body]
fn take_apart(value: serde_yaml::Value) -> (parts: Parts)
    ensures
        spec_yaml_tree(value) == spec_parts_tree(parts),
        parts matches Parts::Mapping(entries) ==> spec_distinct(spec_pair_trees(entries@)),
{
    match value {
        serde_yaml::Value::Null => Parts::Null,
        serde_yaml::Value::Bool(flag) => Parts::Bool(flag),
        serde_yaml::Value::Number(number) => Parts::Number(number.to_string()),
        serde_yaml::Value::String(text) => Parts::Text(text),
        serde_yaml::Value::Sequence(items) => Parts::Sequence(items),
        serde_yaml::Value::Mapping(entries) => Parts::Mapping(entries.into_iter().collect()),
        serde_yaml::Value::Tagged(tagged) => Parts::Tagged(tagged.tag.to_string(), tagged.value),
    }
}

/// The error of `serde_yaml` in words, as its `Display` writes it.
#[verifier::external_body]
fn yaml_error_text(error: &serde_yaml::Error) -> (text: String) {
    format!("{}", error)
}

/// A tree without the tags around it.
pub open spec fn spec_untagged(tree: YamlTree) -> YamlTree
    decreases tree,
{
    match tree {
        YamlTree::Tagged(_, inner) => spec_untagged(*inner),
        _ => tree,
    }
}

/// The entries of the mapping that a tree stands for, tags around the
/// mapping looked through; a tree that is no mapping under its tags stands
/// for none.
pub open spec fn spec_mapping_of(tree: YamlTree) -> Result<Seq<(YamlTree, YamlTree)>, YamlError> {
    match spec_untagged(tree) {
        YamlTree::Mapping(entries) => Ok(entries),
        _ => Err(YamlError::NotMapping),
    }
}

/// Every tree that is a mapping gives its entries, whatever its keys are,
/// and so does a mapping under a tag.
pub proof fn every_mapping_gives_its_entries(entries: Seq<(YamlTree, YamlTree)>, tag: Seq<char>)
    ensures
        spec_mapping_of(YamlTree::Mapping(entries)) == Ok::<Seq<(YamlTree, YamlTree)>, YamlError>(
            entries,
        ),
        spec_mapping_of(YamlTree::Tagged(tag, Box::new(YamlTree::Mapping(entries)))) == Ok::<
            Seq<(YamlTree, YamlTree)>,
            YamlError,
        >(entries),
{
    reveal_with_fuel(spec_untagged, 3);
}

/// Whether a result is what a tree gives as a mapping: the mapping with the
/// entries of the tree, keys of any kind, in their order, or the error that
/// the tree gives.
pub open spec fn spec_is_mapping_of(mapping: Result<Mapping, YamlError>, tree: YamlTree) -> bool {
    match spec_mapping_of(tree) {
        Ok(entries) => mapping matches Ok(found) && found@ == entries,
        Err(error) => mapping matches Err(given) && given == error,
    }
}

/// The entries of a YAML mapping as a mapping of the library: the mapping
/// holds the entries that were given, as far as no two of them have keys
/// that hold the same.
fn mapping_from_entries(entries: Vec<(serde_yaml::Value, serde_yaml::Value)>) -> (mapping: Mapping)
    ensures
        spec_distinct(spec_pair_trees(entries@)) ==> mapping@ == spec_pair_trees(entries@),
    decreases spec_pair_trees(entries@), 1int,
{
    let ghost trees = spec_pair_trees(entries@);
    let ghost all = entries@;
    let mut mapping = Mapping::new();
    proof {
        assert(mapping@ =~= trees.take(0));
    }
    for entry in it: entries
        invariant
            it.seq() == all,
            all == entries@,
            trees == spec_pair_trees(entries@),
            trees == spec_pair_trees(all),
            spec_distinct(trees) ==> mapping@ == trees.take(it.index() as int),
    {
        let ghost at = it.index() as int;
        let ghost before = mapping@;
        let (key, value) = entry;
        assert(trees[at] == (spec_yaml_tree(key), spec_yaml_tree(value)));
        proof {
            assert(decreases_to!(trees => trees[at]));
            assert(decreases_to!(trees[at] => trees[at].0));
            assert(decreases_to!(trees[at] => trees[at].1));
        }
        let key = value_from_yaml(key);
        let value = value_from_yaml(value);
        mapping.insert_key(key, value);
        proof {
            if spec_distinct(trees) {
                lemma_position(before, key.tree());
                assert forall|j: int| 0 <= j < before.len() implies (#[trigger] before[j]).0
                    != key.tree() by {
                    assert(before[j] == trees[j]);
                    assert(trees[j].0 != trees[at].0);
                }
                assert(mapping@ =~= trees.take(at + 1));
            }
        }
    }
    proof {
        assert(trees.take(trees.len() as int) =~= trees);
    }
    mapping
}

/// A YAML value as a value of the library: it holds what the YAML value
/// holds, all the way down, keys of any kind.
pub fn value_from_yaml(value: serde_yaml::Value) -> (found: Yaml)
    ensures
        found.tree() == spec_yaml_tree(value),
    decreases spec_yaml_tree(value), 0int,
{
    match take_apart(value) {
        Parts::Null => Yaml::Null,
        Parts::Bool(flag) => Yaml::Bool(flag),
        Parts::Number(number) => Yaml::Number(number),
        Parts::Text(text) => Yaml::Text(text),
        Parts::Sequence(items) => {
            let ghost all = items@;
            let ghost trees = spec_value_trees(all);
            let mut converted: Vec<Yaml> = Vec::new();
            for item in it: items
                invariant
                    it.seq() == all,
                    trees == spec_value_trees(all),
                    spec_yaml_tree(value) == YamlTree::Sequence(trees),
                    converted@.len() == it.index(),
                    forall|j: int| 0 <= j < it.index() ==> (#[trigger] converted@[j]).tree() == trees[j],
            {
                let ghost at = it.index() as int;
                assert(trees[at] == spec_yaml_tree(item));
                proof {
                    let whole = spec_yaml_tree(value);
                    assert(whole->Sequence_0 == trees);
                    assert(decreases_to!(whole => whole->Sequence_0));
                    assert(decreases_to!(trees => trees[at]));
                }
                converted.push(value_from_yaml(item));
            }
            proof {
                assert(crate::yaml::spec_item_trees(converted@) =~= trees);
            }
            let found = Yaml::Sequence(converted);
            assert(found.tree() == YamlTree::Sequence(trees));
            found
        },
        Parts::Mapping(entries) => {
            proof {
                let whole = spec_yaml_tree(value);
                assert(whole == YamlTree::Mapping(spec_pair_trees(entries@)));
                assert(decreases_to!(whole => whole->Mapping_0));
            }
            let found = Yaml::Mapping(mapping_from_entries(entries));
            assert(found.tree() == YamlTree::Mapping(spec_pair_trees(entries@)));
            found
        },
        Parts::Tagged(tag, inner) => {
            proof {
                assert(spec_yaml_tree(value) == YamlTree::Tagged(
                    tag@,
                    Box::new(spec_yaml_tree(inner)),
                ));
                let whole = spec_yaml_tree(value);
                assert(decreases_to!(whole => whole->Tagged_1));
            }
            let found = Yaml::Tagged(tag, Box::new(value_from_yaml(inner)));
            assert(found.tree() == YamlTree::Tagged(tag@, Box::new(spec_yaml_tree(inner))));
            found
        },
    }
}

/// The mapping that a YAML value stands for, tags around it looked through:
/// the mapping with the entries that the value holds, keys of any kind, or
/// the reason why it stands for none.
pub fn mapping_from_yaml(value: serde_yaml::Value) -> (mapping: Result<Mapping, YamlError>)
    ensures
        spec_is_mapping_of(mapping, spec_yaml_tree(value)),
{
    let ghost whole = spec_yaml_tree(value);
    let mut current = value;
    loop
        invariant
            whole == spec_yaml_tree(value),
            spec_untagged(whole) == spec_untagged(spec_yaml_tree(current)),
        decreases spec_yaml_tree(current),
    {
        match take_apart(current) {
            Parts::Tagged(_, inner) => {
                current = inner;
            },
            Parts::Mapping(entries) => {
                return Ok(mapping_from_entries(entries));
            },
            _ => {
                return Err(YamlError::NotMapping);
            },
        }
    }
}

/// The mapping that a YAML text stands for: a text that is not YAML is
/// reported as such, any other gives what the value it stands for gives.
pub fn read_mapping(text: &str) -> (mapping: Result<Mapping, YamlError>)
    ensures
        match spec_parse_yaml(text@) {
            Some(tree) => spec_is_mapping_of(mapping, tree),
            None => mapping matches Err(YamlError::Parse(_)),
        },
{
    match parse_yaml(text) {
        Ok(parsed) => mapping_from_yaml(parsed),
        Err(error) => Err(YamlError::Parse(yaml_error_text(&error))),
    }
}

/// The mapping that a YAML text stands for, with its merge keys resolved: a
/// text that is not YAML is reported as such, then a merge key that cannot
/// be resolved; any other text gives what the resolved value gives.
pub fn read_merge_mapping(text: &str) -> (mapping: Result<Mapping, YamlError>)
    ensures
        match spec_parse_yaml(text@) {
            Some(tree) => match spec_apply_merge(tree) {
                Some(merged) => spec_is_mapping_of(mapping, merged),
                None => mapping matches Err(YamlError::Merge(_)),
            },
            None => mapping matches Err(YamlError::Parse(_)),
        },
{
    let parsed = match parse_yaml(text) {
        Ok(parsed) => parsed,
        Err(error) => {
            return Err(YamlError::Parse(yaml_error_text(&error)));
        },
    };
    let merged = match apply_merge(parsed) {
        Ok(merged) => merged,
        Err(error) => {
            return Err(YamlError::Merge(yaml_error_text(&error)));
        },
    };
    mapping_from_yaml(merged)
}

} // verus!
