//! Configuration values: the mappings that the runtime configuration is
//! made of and that merge items overlay.

use crate::variant::same_text;
use vstd::prelude::*;

verus! {

/// A value of a configuration.
#[derive(Debug)]
pub enum Yaml {
    Null,
    Bool(bool),
    /// A number, as the configuration writes it.
    Number(String),
    Text(String),
    Sequence(Vec<Yaml>),
    Mapping(Mapping),
    /// A value under a tag.
    Tagged(String, Box<Yaml>),
}

/// A mapping from keys to values that keeps its entries in the order in
/// which their keys came in. A key may be any value; no key occurs twice.
#[derive(Debug)]
pub struct Mapping {
    entries: Vec<(Yaml, Yaml)>,
}

/// A value as a tree of plain values: what a configuration value holds,
/// all the way down.
pub ghost enum YamlTree {
    Null,
    Bool(bool),
    Number(Seq<char>),
    Text(Seq<char>),
    Sequence(Seq<YamlTree>),
    Mapping(Seq<(YamlTree, YamlTree)>),
    Tagged(Seq<char>, Box<YamlTree>),
}

/// The trees of the entries of a mapping.
pub open spec fn spec_entry_trees(entries: Seq<(Yaml, Yaml)>) -> Seq<(YamlTree, YamlTree)>
    decreases entries,
{
    Seq::new(
        entries.len(),
        |i: int|
            if 0 <= i < entries.len() {
                (entries[i].0.tree(), entries[i].1.tree())
            } else {
                (YamlTree::Null, YamlTree::Null)
            },
    )
}

/// The trees of the items of a sequence.
pub open spec fn spec_item_trees(items: Seq<Yaml>) -> Seq<YamlTree>
    decreases items,
{
    Seq::new(
        items.len(),
        |i: int|
            if 0 <= i < items.len() {
                items[i].tree()
            } else {
                YamlTree::Null
            },
    )
}

impl Yaml {
    /// The value as a tree of plain values.
    pub open spec fn tree(self) -> YamlTree
        decreases self,
    {
        match self {
            Yaml::Null => YamlTree::Null,
            Yaml::Bool(flag) => YamlTree::Bool(flag),
            Yaml::Number(number) => YamlTree::Number(number@),
            Yaml::Text(text) => YamlTree::Text(text@),
            Yaml::Sequence(items) => YamlTree::Sequence(spec_item_trees(items@)),
            Yaml::Mapping(mapping) => YamlTree::Mapping(mapping.tree_entries()),
            Yaml::Tagged(tag, inner) => YamlTree::Tagged(tag@, Box::new(inner.tree())),
        }
    }
}

impl Mapping {
    /// The entries of the mapping as trees, in their order.
    pub closed spec fn tree_entries(self) -> Seq<(YamlTree, YamlTree)>
        decreases self,
    {
        spec_entry_trees(self.entries@)
    }
}

impl View for Mapping {
    type V = Seq<(YamlTree, YamlTree)>;

    /// What the mapping holds: its entries as trees, in their order.
    open spec fn view(&self) -> Seq<(YamlTree, YamlTree)> {
        self.tree_entries()
    }
}

fn copy_entries(entries: &Vec<(Yaml, Yaml)>) -> (copy: Vec<(Yaml, Yaml)>)
    ensures
        copy@.len() == entries@.len(),
        spec_entry_trees(copy@) == spec_entry_trees(entries@),
    decreases entries,
{
    let mut copy: Vec<(Yaml, Yaml)> = Vec::new();
    let mut at: usize = 0;
    while at < entries.len()
        invariant
            at <= entries.len(),
            copy@.len() == at,
            forall|i: int| 0 <= i < at ==> (#[trigger] copy@[i]).0.tree() == entries@[i].0.tree(),
            forall|i: int| 0 <= i < at ==> (#[trigger] copy@[i]).1.tree() == entries@[i].1.tree(),
        decreases entries.len() - at,
    {
        let key = copy_yaml(&entries[at].0);
        let value = copy_yaml(&entries[at].1);
        copy.push((key, value));
        at += 1;
    }
    proof {
        assert(spec_entry_trees(copy@) =~= spec_entry_trees(entries@));
    }
    copy
}

fn copy_items(items: &Vec<Yaml>) -> (copy: Vec<Yaml>)
    ensures
        copy@.len() == items@.len(),
        spec_item_trees(copy@) == spec_item_trees(items@),
    decreases items,
{
    let mut copy: Vec<Yaml> = Vec::new();
    let mut at: usize = 0;
    while at < items.len()
        invariant
            at <= items.len(),
            copy@.len() == at,
            forall|i: int| 0 <= i < at ==> (#[trigger] copy@[i]).tree() == items@[i].tree(),
        decreases items.len() - at,
    {
        copy.push(copy_yaml(&items[at]));
        at += 1;
    }
    proof {
        assert(spec_item_trees(copy@) =~= spec_item_trees(items@));
    }
    copy
}

/// A copy of a value: it holds what the value holds, all the way down.
fn copy_yaml(value: &Yaml) -> (copy: Yaml)
    ensures
        copy.tree() == value.tree(),
    decreases value,
{
    match value {
        Yaml::Null => Yaml::Null,
        Yaml::Bool(flag) => Yaml::Bool(*flag),
        Yaml::Number(number) => Yaml::Number(number.clone()),
        Yaml::Text(text) => Yaml::Text(text.clone()),
        Yaml::Sequence(items) => Yaml::Sequence(copy_items(items)),
        Yaml::Mapping(mapping) => {
            proof {
                use_type_invariant(mapping);
            }
            let entries = copy_entries(&mapping.entries);
            let copy = Mapping { entries };
            assert(copy.tree_entries() == mapping.tree_entries());
            Yaml::Mapping(copy)
        },
        Yaml::Tagged(tag, inner) => {
            let under = copy_yaml(&**inner);
            let copy = Yaml::Tagged(tag.clone(), Box::new(under));
            assert(copy.tree() == value.tree());
            copy
        },
    }
}

impl Clone for Yaml {
    fn clone(&self) -> (copy: Yaml)
        ensures
            copy.tree() == self.tree(),
    {
        copy_yaml(self)
    }
}

impl Clone for Mapping {
    fn clone(&self) -> (copy: Mapping)
        ensures
            copy@ == self@,
    {
        proof {
            use_type_invariant(self);
        }
        let entries = copy_entries(&self.entries);
        Mapping { entries }
    }
}

/// A clone of a mapping holds what the mapping holds, and so does the draft
/// that a draft store opens on it.
pub proof fn clone_holds_the_same(mapping: Mapping, copy: Mapping)
    requires
        vstd::pervasive::cloned(mapping, copy),
    ensures
        copy@ == mapping@,
{
}

fn same_items(a: &Vec<Yaml>, b: &Vec<Yaml>) -> (same: bool)
    ensures
        same == (spec_item_trees(a@) == spec_item_trees(b@)),
    decreases a,
{
    if a.len() != b.len() {
        assert(spec_item_trees(a@).len() != spec_item_trees(b@).len());
        return false;
    }
    let mut at: usize = 0;
    while at < a.len()
        invariant
            a.len() == b.len(),
            at <= a.len(),
            forall|i: int| 0 <= i < at ==> (#[trigger] a@[i]).tree() == b@[i].tree(),
        decreases a.len() - at,
    {
        if !same_yaml(&a[at], &b[at]) {
            proof {
                assert(spec_item_trees(a@)[at as int] == a@[at as int].tree());
                assert(spec_item_trees(b@)[at as int] == b@[at as int].tree());
            }
            return false;
        }
        at += 1;
    }
    proof {
        assert(spec_item_trees(a@) =~= spec_item_trees(b@));
    }
    true
}

fn same_entries(a: &Vec<(Yaml, Yaml)>, b: &Vec<(Yaml, Yaml)>) -> (same: bool)
    ensures
        same == (spec_entry_trees(a@) == spec_entry_trees(b@)),
    decreases a,
{
    if a.len() != b.len() {
        assert(spec_entry_trees(a@).len() != spec_entry_trees(b@).len());
        return false;
    }
    let mut at: usize = 0;
    while at < a.len()
        invariant
            a.len() == b.len(),
            at <= a.len(),
            forall|i: int|
                0 <= i < at ==> (#[trigger] a@[i]).0.tree() == b@[i].0.tree() && a@[i].1.tree()
                    == b@[i].1.tree(),
        decreases a.len() - at,
    {
        if !same_yaml(&a[at].0, &b[at].0) || !same_yaml(&a[at].1, &b[at].1) {
            proof {
                assert(spec_entry_trees(a@)[at as int] == (
                    a@[at as int].0.tree(),
                    a@[at as int].1.tree(),
                ));
                assert(spec_entry_trees(b@)[at as int] == (
                    b@[at as int].0.tree(),
                    b@[at as int].1.tree(),
                ));
            }
            return false;
        }
        at += 1;
    }
    proof {
        assert(spec_entry_trees(a@) =~= spec_entry_trees(b@));
    }
    true
}

/// Whether two values hold the same, all the way down. The entries of
/// mappings are compared in their order.
pub fn same_yaml(a: &Yaml, b: &Yaml) -> (same: bool)
    ensures
        same == (a.tree() == b.tree()),
    decreases a,
{
    match (a, b) {
        (Yaml::Null, Yaml::Null) => true,
        (Yaml::Bool(x), Yaml::Bool(y)) => *x == *y,
        (Yaml::Number(x), Yaml::Number(y)) => same_text(x.as_str(), y.as_str()),
        (Yaml::Text(x), Yaml::Text(y)) => same_text(x.as_str(), y.as_str()),
        (Yaml::Sequence(x), Yaml::Sequence(y)) => {
            let same = same_items(x, y);
            assert(a.tree() == YamlTree::Sequence(spec_item_trees(x@)));
            assert(b.tree() == YamlTree::Sequence(spec_item_trees(y@)));
            same
        },
        (Yaml::Mapping(x), Yaml::Mapping(y)) => {
            let same = same_entries(&x.entries, &y.entries);
            assert(a.tree() == YamlTree::Mapping(x.tree_entries()));
            assert(b.tree() == YamlTree::Mapping(y.tree_entries()));
            same
        },
        (Yaml::Tagged(tag, x), Yaml::Tagged(other, y)) => {
            let same_tag = same_text(tag.as_str(), other.as_str());
            let same_inner = same_yaml(&**x, &**y);
            assert(a.tree() == YamlTree::Tagged(tag@, Box::new(x.tree())));
            assert(b.tree() == YamlTree::Tagged(other@, Box::new(y.tree())));
            same_tag && same_inner
        },
        (Yaml::Null, _) => false,
        (Yaml::Bool(_), _) => false,
        (Yaml::Number(_), _) => false,
        (Yaml::Text(_), _) => false,
        (Yaml::Sequence(_), _) => false,
        (Yaml::Mapping(_), _) => false,
        (Yaml::Tagged(_, _), _) => false,
    }
}

/// The position of a key among the entries, if it is there.
pub open spec fn spec_position(entries: Seq<(YamlTree, YamlTree)>, key: YamlTree) -> Option<int>
    decreases entries.len(),
{
    if entries.len() == 0 {
        None
    } else if entries.last().0 == key && spec_position(entries.drop_last(), key) is None {
        Some(entries.len() - 1)
    } else {
        spec_position(entries.drop_last(), key)
    }
}

/// The value that the entries give for a key.
pub open spec fn spec_get(entries: Seq<(YamlTree, YamlTree)>, key: YamlTree) -> Option<YamlTree> {
    match spec_position(entries, key) {
        Some(at) => Some(entries[at].1),
        None => None,
    }
}

/// The entries after a key was given a value: the value takes the place of
/// the one the key had, or the entry comes last where the key is new.
pub open spec fn spec_insert(entries: Seq<(YamlTree, YamlTree)>, key: YamlTree, value: YamlTree) -> Seq<
    (YamlTree, YamlTree),
> {
    match spec_position(entries, key) {
        Some(at) => entries.update(at, (key, value)),
        None => entries.push((key, value)),
    }
}

/// Whether no key occurs twice.
pub open spec fn spec_distinct(entries: Seq<(YamlTree, YamlTree)>) -> bool {
    forall|i: int, j: int|
        0 <= i < j < entries.len() ==> (#[trigger] entries[i]).0 != (#[trigger] entries[j]).0
}

/// The position that `spec_position` gives is that of the key, and it gives
/// none only where no entry has the key.
pub proof fn lemma_position(entries: Seq<(YamlTree, YamlTree)>, key: YamlTree)
    ensures
        match spec_position(entries, key) {
            Some(at) => 0 <= at < entries.len() && entries[at].0 == key && forall|j: int|
                0 <= j < at ==> (#[trigger] entries[j]).0 != key,
            None => forall|j: int| 0 <= j < entries.len() ==> (#[trigger] entries[j]).0 != key,
        },
    decreases entries.len(),
{
    if entries.len() > 0 {
        lemma_position(entries.drop_last(), key);
        assert forall|j: int| 0 <= j < entries.len() - 1 implies entries.drop_last()[j]
            == entries[j] by {}
        match spec_position(entries.drop_last(), key) {
            Some(at) => {
                assert(entries.drop_last()[at] == entries[at]);
                assert forall|j: int| 0 <= j < at implies (#[trigger] entries[j]).0 != key by {
                    assert(entries.drop_last()[j] == entries[j]);
                }
            },
            None => {
                assert forall|j: int| 0 <= j < entries.len() - 1 implies (#[trigger] entries[j]).0
                    != key by {
                    assert(entries.drop_last()[j] == entries[j]);
                }
            },
        }
    }
}

/// An entry that is first to have its key is where `spec_position` points.
pub proof fn lemma_position_is(entries: Seq<(YamlTree, YamlTree)>, key: YamlTree, at: int)
    requires
        0 <= at < entries.len(),
        entries[at].0 == key,
        forall|j: int| 0 <= j < at ==> (#[trigger] entries[j]).0 != key,
    ensures
        spec_position(entries, key) == Some(at),
{
    lemma_position(entries, key);
}

/// Giving a key a value keeps the keys distinct, and afterwards the key has
/// that value while every other key has what it had.
pub proof fn lemma_insert(
    entries: Seq<(YamlTree, YamlTree)>,
    key: YamlTree,
    value: YamlTree,
    other: YamlTree,
)
    requires
        spec_distinct(entries),
    ensures
        spec_distinct(spec_insert(entries, key, value)),
        spec_get(spec_insert(entries, key, value), key) == Some(value),
        other != key ==> spec_get(spec_insert(entries, key, value), other) == spec_get(
            entries,
            other,
        ),
{
    let after = spec_insert(entries, key, value);
    lemma_position(entries, key);
    lemma_position(entries, other);
    lemma_position(after, key);
    lemma_position(after, other);
    match spec_position(entries, key) {
        Some(at) => {
            assert(after[at].0 == key);
            if other != key {
                match spec_position(entries, other) {
                    Some(o) => {
                        assert(after[o] == entries[o]);
                        assert forall|j: int| 0 <= j < o implies (#[trigger] after[j]).0
                            != other by {
                            assert(entries[j].0 != other);
                        }
                        lemma_position_is(after, other, o);
                    },
                    None => {
                        assert forall|j: int| 0 <= j < after.len() implies (#[trigger] after[j]).0
                            != other by {
                            assert(entries[j].0 != other);
                        }
                    },
                }
            }
        },
        None => {
            assert(after[entries.len() as int].0 == key);
            assert forall|j: int| 0 <= j < entries.len() implies (#[trigger] after[j]).0
                != key by {
                assert(after[j] == entries[j]);
            }
            lemma_position_is(after, key, entries.len() as int);
            if other != key {
                match spec_position(entries, other) {
                    Some(o) => {
                        assert(after[o] == entries[o]);
                        assert forall|j: int| 0 <= j < o implies (#[trigger] after[j]).0
                            != other by {
                            assert(after[j] == entries[j]);
                        }
                        lemma_position_is(after, other, o);
                    },
                    None => {
                        assert forall|j: int| 0 <= j < after.len() implies (#[trigger] after[j]).0
                            != other by {
                            if j < entries.len() {
                                assert(after[j] == entries[j]);
                            }
                        }
                    },
                }
            }
        },
    }
    assert forall|i: int, j: int| 0 <= i < j < after.len() implies (#[trigger] after[i]).0 != (
    #[trigger] after[j]).0 by {
        match spec_position(entries, key) {
            Some(at) => {
                assert(entries[i].0 != entries[j].0);
            },
            None => {
                if j < entries.len() {
                    assert(entries[i].0 != entries[j].0);
                } else {
                    assert(entries[i].0 != key);
                }
            },
        }
    }
}

/// What a key holds after an overlay gave it a value: a mapping on both
/// sides is merged entry by entry, anything else is replaced by the
/// overlay's value. A sequence is replaced like any other value; nothing is
/// appended to it.
pub open spec fn spec_overlaid(held: YamlTree, value: YamlTree) -> YamlTree
    decreases value, 0nat,
{
    match (held, value) {
        (YamlTree::Mapping(base), YamlTree::Mapping(overlay)) => YamlTree::Mapping(
            spec_merge(base, overlay),
        ),
        _ => value,
    }
}

/// The entries after an overlay gave a key a value: the key keeps its place
/// and holds what the overlay makes of its value, or the entry comes last
/// where the key is new.
pub open spec fn spec_overlay_entry(
    entries: Seq<(YamlTree, YamlTree)>,
    key: YamlTree,
    value: YamlTree,
) -> Seq<(YamlTree, YamlTree)>
    decreases value, 1nat,
{
    match spec_position(entries, key) {
        Some(at) => entries.update(at, (key, spec_overlaid(entries[at].1, value))),
        None => entries.push((key, value)),
    }
}

/// The entries of `base` overlaid with those of `overlay`, one after the
/// other: a key that both have keeps its place, and where it holds a mapping
/// on both sides the two are merged in the same way, else it gets the
/// overlay's value; a key that only the overlay has comes behind.
pub open spec fn spec_merge(
    base: Seq<(YamlTree, YamlTree)>,
    overlay: Seq<(YamlTree, YamlTree)>,
) -> Seq<(YamlTree, YamlTree)>
    decreases overlay, 2nat,
{
    if overlay.len() == 0 {
        base
    } else {
        spec_overlay_entry(
            spec_merge(base, overlay.drop_last()),
            overlay.last().0,
            overlay.last().1,
        )
    }
}

/// An overlay keeps the keys distinct and in their places, and decides the
/// key it is given: afterwards the key holds what the overlay makes of its
/// value, while every other key holds what it held.
pub proof fn lemma_overlay_entry(
    entries: Seq<(YamlTree, YamlTree)>,
    key: YamlTree,
    value: YamlTree,
    other: YamlTree,
)
    requires
        spec_distinct(entries),
    ensures
        spec_distinct(spec_overlay_entry(entries, key, value)),
        spec_get(spec_overlay_entry(entries, key, value), key) == Some(
            match spec_get(entries, key) {
                Some(held) => spec_overlaid(held, value),
                None => value,
            },
        ),
        other != key ==> spec_get(spec_overlay_entry(entries, key, value), other) == spec_get(
            entries,
            other,
        ),
{
    let made = match spec_get(entries, key) {
        Some(held) => spec_overlaid(held, value),
        None => value,
    };
    lemma_position(entries, key);
    assert(spec_overlay_entry(entries, key, value) == spec_insert(entries, key, made));
    lemma_insert(entries, key, made, other);
}

/// An overlay keeps the keys of a mapping distinct.
pub proof fn lemma_merge_distinct(
    base: Seq<(YamlTree, YamlTree)>,
    overlay: Seq<(YamlTree, YamlTree)>,
)
    requires
        spec_distinct(base),
    ensures
        spec_distinct(spec_merge(base, overlay)),
    decreases overlay.len(),
{
    if overlay.len() > 0 {
        lemma_merge_distinct(base, overlay.drop_last());
        lemma_overlay_entry(
            spec_merge(base, overlay.drop_last()),
            overlay.last().0,
            overlay.last().1,
            overlay.last().0,
        );
    }
}

/// An overlay decides every key it has; the other keys keep what the base
/// gives them. A key of the overlay holds the overlay's value, merged with
/// what the base held where both are mappings.
pub proof fn lemma_merge(
    base: Seq<(YamlTree, YamlTree)>,
    overlay: Seq<(YamlTree, YamlTree)>,
    key: YamlTree,
)
    requires
        spec_distinct(base),
        spec_distinct(overlay),
    ensures
        spec_get(spec_merge(base, overlay), key) == match spec_get(overlay, key) {
            Some(value) => Some(
                match spec_get(base, key) {
                    Some(held) => spec_overlaid(held, value),
                    None => value,
                },
            ),
            None => spec_get(base, key),
        },
    decreases overlay.len(),
{
    if overlay.len() > 0 {
        let before = overlay.drop_last();
        assert forall|i: int, j: int| 0 <= i < j < before.len() implies (#[trigger] before[i]).0
            != (#[trigger] before[j]).0 by {
            assert(overlay[i].0 != overlay[j].0);
        }
        lemma_merge(base, before, key);
        lemma_merge(base, before, overlay.last().0);
        lemma_merge_distinct(base, before);
        lemma_overlay_entry(spec_merge(base, before), overlay.last().0, overlay.last().1, key);
        lemma_position(overlay, key);
        lemma_position(before, key);
        lemma_position(before, overlay.last().0);
        if overlay.last().0 == key {
            assert forall|j: int| 0 <= j < before.len() implies (#[trigger] before[j]).0
                != key by {
                assert(overlay[j].0 != overlay[overlay.len() - 1].0);
            }
        } else {
            match spec_position(before, key) {
                Some(at) => {
                    assert(before[at] == overlay[at]);
                },
                None => {},
            }
        }
    } else {
        lemma_position(overlay, key);
    }
}

impl Mapping {
    #[verifier::type_invariant]
    closed spec fn distinct_keys(&self) -> bool {
        spec_distinct(self.tree_entries())
    }

    /// A mapping without entries.
    pub fn new() -> (mapping: Mapping)
        ensures
            mapping@ == Seq::<(YamlTree, YamlTree)>::empty(),
    {
        let mapping = Mapping { entries: Vec::new() };
        assert(mapping@ =~= Seq::<(YamlTree, YamlTree)>::empty());
        mapping
    }

    /// The number of entries. No key occurs twice among them.
    pub fn len(&self) -> (len: usize)
        ensures
            len == self@.len(),
            spec_distinct(self@),
    {
        proof {
            use_type_invariant(self);
        }
        self.entries.len()
    }

    fn position(&self, key: &Yaml) -> (at: Option<usize>)
        ensures
            match at {
                Some(at) => spec_position(self@, key.tree()) == Some(at as int) && at < self@.len(),
                None => spec_position(self@, key.tree()) is None,
            },
    {
        let mut at: usize = 0;
        while at < self.entries.len()
            invariant
                at <= self.entries.len(),
                self@.len() == self.entries.len(),
                forall|j: int| 0 <= j < at ==> (#[trigger] self@[j]).0 != key.tree(),
            decreases self.entries.len() - at,
        {
            assert(self@[at as int].0 == self.entries@[at as int].0.tree());
            if same_yaml(&self.entries[at].0, key) {
                proof {
                    lemma_position_is(self@, key.tree(), at as int);
                }
                return Some(at);
            }
            at += 1;
        }
        proof {
            lemma_position(self@, key.tree());
        }
        None
    }

    fn position_of_text(&self, key: &str) -> (at: Option<usize>)
        ensures
            match at {
                Some(at) => spec_position(self@, YamlTree::Text(key@)) == Some(at as int) && at
                    < self@.len(),
                None => spec_position(self@, YamlTree::Text(key@)) is None,
            },
    {
        let mut at: usize = 0;
        while at < self.entries.len()
            invariant
                at <= self.entries.len(),
                self@.len() == self.entries.len(),
                forall|j: int| 0 <= j < at ==> (#[trigger] self@[j]).0 != YamlTree::Text(key@),
            decreases self.entries.len() - at,
        {
            assert(self@[at as int].0 == self.entries@[at as int].0.tree());
            let found = match &self.entries[at].0 {
                Yaml::Text(text) => same_text(text.as_str(), key),
                _ => false,
            };
            if found {
                proof {
                    lemma_position_is(self@, YamlTree::Text(key@), at as int);
                }
                return Some(at);
            }
            at += 1;
        }
        proof {
            lemma_position(self@, YamlTree::Text(key@));
        }
        None
    }

    /// The value that the mapping gives for a key that is a text.
    pub fn get(&self, key: &str) -> (value: Option<&Yaml>)
        ensures
            match value {
                Some(value) => spec_get(self@, YamlTree::Text(key@)) == Some(value.tree()),
                None => spec_get(self@, YamlTree::Text(key@)) is None,
            },
    {
        match self.position_of_text(key) {
            Some(at) => {
                assert(self@[at as int].1 == self.entries@[at as int].1.tree());
                Some(&self.entries[at].1)
            },
            None => None,
        }
    }

    /// The value that the mapping gives for a key of any kind.
    pub fn get_key(&self, key: &Yaml) -> (value: Option<&Yaml>)
        ensures
            match value {
                Some(value) => spec_get(self@, key.tree()) == Some(value.tree()),
                None => spec_get(self@, key.tree()) is None,
            },
    {
        match self.position(key) {
            Some(at) => {
                assert(self@[at as int].1 == self.entries@[at as int].1.tree());
                Some(&self.entries[at].1)
            },
            None => None,
        }
    }

    /// The key and the value of the entry at a position.
    pub fn entry(&self, at: usize) -> (entry: (&Yaml, &Yaml))
        requires
            at < self@.len(),
        ensures
            entry.0.tree() == self@[at as int].0,
            entry.1.tree() == self@[at as int].1,
    {
        (&self.entries[at].0, &self.entries[at].1)
    }

    /// The mapping with a key given a value: in place of the one it had, or
    /// as a new last entry.
    pub fn with_key(self, key: Yaml, value: Yaml) -> (mapping: Mapping)
        ensures
            mapping@ == spec_insert(self@, key.tree(), value.tree()),
            spec_distinct(mapping@),
    {
        proof {
            use_type_invariant(&self);
            lemma_insert(self@, key.tree(), value.tree(), key.tree());
        }
        let found = self.position(&key);
        let ghost before = self@;
        let Mapping { entries } = self;
        let mut entries = entries;
        match found {
            Some(at) => {
                entries.set(at, (key, value));
            },
            None => {
                entries.push((key, value));
            },
        }
        proof {
            match found {
                Some(at) => {
                    assert(spec_entry_trees(entries@) =~= before.update(
                        at as int,
                        (key.tree(), value.tree()),
                    ));
                },
                None => {
                    assert(spec_entry_trees(entries@) =~= before.push((key.tree(), value.tree())));
                },
            }
        }
        Mapping { entries }
    }

    /// The mapping with a key that is a text given a value.
    pub fn with(self, key: String, value: Yaml) -> (mapping: Mapping)
        ensures
            mapping@ == spec_insert(self@, YamlTree::Text(key@), value.tree()),
            spec_distinct(mapping@),
    {
        self.with_key(Yaml::Text(key), value)
    }

    /// The mapping after an overlay gave a key a value.
    fn overlaid(self, key: &Yaml, value: &Yaml) -> (mapping: Mapping)
        ensures
            mapping@ == spec_overlay_entry(self@, key.tree(), value.tree()),
            spec_distinct(mapping@),
        decreases value, 1int,
    {
        proof {
            use_type_invariant(&self);
            lemma_overlay_entry(self@, key.tree(), value.tree(), key.tree());
        }
        let found = self.position(key);
        let ghost before = self@;
        let Mapping { entries } = self;
        let mut entries = entries;
        let ghost items = entries@;
        proof {
            lemma_position(before, key.tree());
        }
        match found {
            Some(at) => {
                assert(before[at as int] == (items[at as int].0.tree(), items[at as int].1.tree()));
                let (held_key, held) = entries.remove(at);
                assert(held.tree() == before[at as int].1);
                assert(held_key.tree() == key.tree());
                let made = match (held, value) {
                    (Yaml::Mapping(base), Yaml::Mapping(overlay)) => Yaml::Mapping(
                        base.merge_from(overlay),
                    ),
                    _ => copy_yaml(value),
                };
                assert(made.tree() == spec_overlaid(before[at as int].1, value.tree()));
                entries.insert(at, (held_key, made));
                proof {
                    assert(spec_entry_trees(entries@) =~= before.update(
                        at as int,
                        (key.tree(), made.tree()),
                    ));
                }
            },
            None => {
                entries.push((copy_yaml(key), copy_yaml(value)));
                proof {
                    assert(spec_entry_trees(entries@) =~= before.push((key.tree(), value.tree())));
                }
            },
        }
        Mapping { entries }
    }

    /// The mapping overlaid with another, which is left as it is.
    pub fn merge_from(self, overlay: &Mapping) -> (merged: Mapping)
        ensures
            merged@ == spec_merge(self@, overlay@),
            spec_distinct(merged@),
        decreases overlay, 2int,
    {
        proof {
            use_type_invariant(&self);
        }
        let mut merged = self;
        let mut at: usize = 0;
        proof {
            assert(overlay@.take(0) =~= Seq::<(YamlTree, YamlTree)>::empty());
        }
        while at < overlay.entries.len()
            invariant
                at <= overlay.entries.len(),
                overlay@.len() == overlay.entries.len(),
                merged@ == spec_merge(self@, overlay@.take(at as int)),
                spec_distinct(merged@),
            decreases overlay.entries.len() - at,
        {
            proof {
                let next = overlay@.take(at + 1);
                assert(next.drop_last() =~= overlay@.take(at as int));
                assert(next.last() == overlay@[at as int]);
                assert(overlay@[at as int] == (
                    overlay.entries@[at as int].0.tree(),
                    overlay.entries@[at as int].1.tree(),
                ));
            }
            merged = merged.overlaid(&overlay.entries[at].0, &overlay.entries[at].1);
            at += 1;
        }
        proof {
            assert(overlay@.take(at as int) =~= overlay@);
        }
        merged
    }

    /// The mapping overlaid with another: a key that both have keeps its
    /// place and holds the overlay's value, merged in the same way where
    /// both hold a mapping; a key that only the overlay has comes behind.
    pub fn merge(self, overlay: Mapping) -> (merged: Mapping)
        ensures
            merged@ == spec_merge(self@, overlay@),
            spec_distinct(merged@),
    {
        self.merge_from(&overlay)
    }

    /// Gives a key of any kind a value: in place of the one it had, or as a
    /// new last entry.
    pub fn insert_key(&mut self, key: Yaml, value: Yaml)
        ensures
            final(self)@ == spec_insert(old(self)@, key.tree(), value.tree()),
            spec_distinct(final(self)@),
    {
        let mut taken = Mapping::new();
        core::mem::swap(self, &mut taken);
        *self = taken.with_key(key, value);
    }

    /// Gives a key that is a text a value: in place of the one it had, or
    /// as a new last entry.
    pub fn insert(&mut self, key: String, value: Yaml)
        ensures
            final(self)@ == spec_insert(old(self)@, YamlTree::Text(key@), value.tree()),
            spec_distinct(final(self)@),
    {
        self.insert_key(Yaml::Text(key), value)
    }
}

} // verus!
