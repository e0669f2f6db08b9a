//! The enhancement chain: the items that turn a base configuration into the
//! runtime configuration, and the order in which they apply.

use crate::variant::{same_text, ClashCore};
use crate::yaml::{spec_merge, Mapping, YamlTree};
use vstd::prelude::*;
use vstd::string::StringExecFns;

verus! {

/// The script that turns the `alpn` of a hysteria proxy from a string into
/// a list.
pub const HY_ALPN_SCRIPT: &'static str =
    "function main(config) {\n  if (Array.isArray(config.proxies)) {\n    config.proxies.forEach((p, i) => {\n      if (p.type === \"hysteria\" && typeof p.alpn === \"string\") {\n        config.proxies[i].alpn = [p.alpn];\n      }\n    });\n  }\n  return config;\n}\n";

/// The script that replaces the `script` mode, which the core does not
/// have, by the `rule` mode.
pub const META_GUARD_SCRIPT: &'static str =
    "function main(config) {\n  if (config.mode === \"script\") {\n    config.mode = \"rule\";\n  }\n  return config;\n}\n";

/// One unit of transformation of the configuration.
#[derive(Debug, Clone)]
pub struct ChainItem {
    pub uid: String,
    pub data: ChainType,
}

/// What a chain item does to the configuration.
#[derive(Debug, Clone)]
pub enum ChainType {
    /// Overlays the configuration with these entries.
    Merge(Mapping),
    /// Runs this script on the configuration.
    Script(String),
}

/// The core variants that a chain item is meant for.
#[derive(Debug, Clone, Copy, PartialEq, Eq, Structural)]
pub enum ChainSupport {
    Mihomo,
    All,
}

/// The kinds of stored file that make a chain item.
#[derive(Debug, Clone, Copy, PartialEq, Eq, Structural)]
pub enum ChainKind {
    Merge,
    Script,
}

/// What was found in the stored file of a profile item.
#[derive(Debug)]
pub enum ProfileFile {
    /// The file is not there or could not be read as its kind asks.
    Missing,
    /// The text of a script file.
    Script(String),
    /// The mapping of a merge file.
    Merge(Mapping),
}

impl ChainSupport {
    /// Whether an item with this tag applies under a core variant. Without
    /// a selected variant every item applies.
    pub open spec fn spec_is_support(self, core: Option<ClashCore>) -> bool {
        match core {
            Some(core) => self == ChainSupport::All || (self == ChainSupport::Mihomo && (core
                == ClashCore::Mihomo || core == ClashCore::MihomoAlpha)),
            None => true,
        }
    }

    pub fn is_support(&self, core: Option<&ClashCore>) -> (supported: bool)
        ensures
            supported == self.spec_is_support(
                match core {
                    Some(core) => Some(*core),
                    None => None,
                },
            ),
    {
        match core {
            Some(core) => match (self, core) {
                (ChainSupport::All, _) => true,
                (ChainSupport::Mihomo, ClashCore::Mihomo) => true,
                (ChainSupport::Mihomo, ClashCore::MihomoAlpha) => true,
            },
            None => true,
        }
    }
}

impl ChainKind {
    /// The kind that the type of a profile item names.
    pub open spec fn spec_of(itype: Option<Seq<char>>) -> Option<ChainKind> {
        match itype {
            Some(name) => if name == "script"@ {
                Some(ChainKind::Script)
            } else if name == "merge"@ {
                Some(ChainKind::Merge)
            } else {
                None
            },
            None => None,
        }
    }

    /// The kind of file to load for a profile item of this type, if the
    /// type makes a chain item at all.
    pub fn of(itype: Option<&str>) -> (kind: Option<ChainKind>)
        ensures
            kind == Self::spec_of(
                match itype {
                    Some(name) => Some(name@),
                    None => None,
                },
            ),
    {
        match itype {
            Some(name) => if same_text(name, "script") {
                Some(ChainKind::Script)
            } else if same_text(name, "merge") {
                Some(ChainKind::Merge)
            } else {
                None
            },
            None => None,
        }
    }
}

impl ChainItem {
    /// The items that are built into the application, each with the core
    /// variants it is meant for, in the order in which they apply.
    pub fn builtin() -> (items: Vec<(ChainSupport, ChainItem)>)
        ensures
            items@.len() == 2,
            items@[0].0 == ChainSupport::Mihomo,
            items@[0].1.uid@ == "verge_hy_alpn"@,
            items@[0].1.data matches ChainType::Script(source) && source@ == HY_ALPN_SCRIPT@,
            items@[1].0 == ChainSupport::Mihomo,
            items@[1].1.uid@ == "verge_meta_guard"@,
            items@[1].1.data matches ChainType::Script(source) && source@ == META_GUARD_SCRIPT@,
    {
        let meta_guard = ChainItem::to_script("verge_meta_guard", META_GUARD_SCRIPT);
        let hy_alpn = ChainItem::to_script("verge_hy_alpn", HY_ALPN_SCRIPT);
        let mut items: Vec<(ChainSupport, ChainItem)> = Vec::new();
        items.push((ChainSupport::Mihomo, hy_alpn));
        items.push((ChainSupport::Mihomo, meta_guard));
        items
    }

    /// A script item.
    pub fn to_script(uid: &str, data: &str) -> (item: ChainItem)
        ensures
            item.uid@ == uid@,
            item.data matches ChainType::Script(source) && source@ == data@,
    {
        ChainItem { uid: String::from_str(uid), data: ChainType::Script(String::from_str(data)) }
    }

    /// The chain item of a profile item, from the type of the profile item,
    /// its id and what its stored file gave. There is an item only where the
    /// file gave what the type asks for; an item without id gets the empty
    /// one.
    pub fn from_profile(itype: Option<&str>, uid: Option<String>, file: ProfileFile) -> (item:
        Option<ChainItem>)
        ensures
            match (
                ChainKind::spec_of(
                    match itype {
                        Some(name) => Some(name@),
                        None => None,
                    },
                ),
                file,
            ) {
                (Some(ChainKind::Script), ProfileFile::Script(text)) => item matches Some(found)
                    && found.data == ChainType::Script(text) && (match uid {
                    Some(uid) => found.uid == uid,
                    None => found.uid@ == Seq::<char>::empty(),
                }),
                (Some(ChainKind::Merge), ProfileFile::Merge(mapping)) => item matches Some(found)
                    && found.data == ChainType::Merge(mapping) && (match uid {
                    Some(uid) => found.uid == uid,
                    None => found.uid@ == Seq::<char>::empty(),
                }),
                _ => item is None,
            },
    {
        let uid = match uid {
            Some(uid) => uid,
            None => String::new(),
        };
        match (ChainKind::of(itype), file) {
            (Some(ChainKind::Script), ProfileFile::Script(text)) => Some(
                ChainItem { uid, data: ChainType::Script(text) },
            ),
            (Some(ChainKind::Merge), ProfileFile::Merge(mapping)) => Some(
                ChainItem { uid, data: ChainType::Merge(mapping) },
            ),
            _ => None,
        }
    }
}

/// The items whose tags a rule lets through, in their order.
pub open spec fn spec_kept(
    builtin: Seq<(ChainSupport, ChainItem)>,
    applies: spec_fn(ChainSupport) -> bool,
) -> Seq<ChainItem>
    decreases builtin.len(),
{
    if builtin.len() == 0 {
        Seq::empty()
    } else if applies(builtin.last().0) {
        spec_kept(builtin.drop_last(), applies).push(builtin.last().1)
    } else {
        spec_kept(builtin.drop_last(), applies)
    }
}

/// The built-in items that apply under a core variant, in their order.
pub open spec fn spec_supported(builtin: Seq<(ChainSupport, ChainItem)>, core: Option<ClashCore>) -> Seq<
    ChainItem,
> {
    spec_kept(builtin, |tag: ChainSupport| tag.spec_is_support(core))
}

/// The chain: the built-in items that apply, where they are enabled, and
/// behind them the user's items in the user's order.
pub open spec fn spec_chain(
    builtin: Seq<(ChainSupport, ChainItem)>,
    user: Seq<ChainItem>,
    core: Option<ClashCore>,
    enable_builtin: bool,
) -> Seq<ChainItem> {
    if enable_builtin {
        spec_supported(builtin, core) + user
    } else {
        user
    }
}

/// Puts the chain together.
pub fn build_chain(
    builtin: Vec<(ChainSupport, ChainItem)>,
    user: Vec<ChainItem>,
    core: Option<&ClashCore>,
    enable_builtin: bool,
) -> (chain: Vec<ChainItem>)
    ensures
        chain@ == spec_chain(
            builtin@,
            user@,
            match core {
                Some(core) => Some(*core),
                None => None,
            },
            enable_builtin,
        ),
{
    let ghost variant = match core {
        Some(core) => Some(*core),
        None => None,
    };
    let ghost all = builtin@;
    let ghost users = user@;
    let mut chain: Vec<ChainItem> = Vec::new();
    if enable_builtin {
        for entry in it: builtin
            invariant
                it.seq() == all,
                variant == match core {
                    Some(core) => Some(*core),
                    None => None,
                },
                chain@ == spec_supported(all.take(it.index() as int), variant),
        {
            proof {
                let at = it.index() as int;
                assert(all.take(at + 1).drop_last() =~= all.take(at));
                assert(all.take(at + 1).last() == all[at]);
            }
            let (support, item) = entry;
            if support.is_support(core) {
                chain.push(item);
            }
        }
        proof {
            assert(all.take(all.len() as int) =~= all);
        }
    }
    let ghost head = chain@;
    for item in it: user
        invariant
            it.seq() == users,
            chain@ == head + users.take(it.index() as int),
    {
        proof {
            let at = it.index() as int;
            assert(users.take(at + 1) =~= users.take(at).push(users[at]));
        }
        chain.push(item);
    }
    proof {
        assert(users.take(users.len() as int) =~= users);
        if !enable_builtin {
            assert(head + users =~= users);
        }
    }
    chain
}

/// The items kept of two lists, one behind the other, are those kept of the
/// first and behind them those kept of the second.
pub proof fn lemma_kept_concat(
    first: Seq<(ChainSupport, ChainItem)>,
    second: Seq<(ChainSupport, ChainItem)>,
    applies: spec_fn(ChainSupport) -> bool,
)
    ensures
        spec_kept(first + second, applies) == spec_kept(first, applies) + spec_kept(
            second,
            applies,
        ),
    decreases second.len(),
{
    if second.len() == 0 {
        assert(first + second =~= first);
        assert(spec_kept(first, applies) + Seq::<ChainItem>::empty() =~= spec_kept(
            first,
            applies,
        ));
    } else {
        let all = first + second;
        assert(all.drop_last() =~= first + second.drop_last());
        assert(all.last() == second.last());
        lemma_kept_concat(first, second.drop_last(), applies);
        if applies(second.last().0) {
            assert((spec_kept(first, applies) + spec_kept(second.drop_last(), applies)).push(
                second.last().1,
            ) =~= spec_kept(first, applies) + spec_kept(second, applies));
        }
    }
}

/// The chain holds the built-in items first and the user's items behind
/// them, each group in its own order, whatever the user's items are.
pub proof fn builtin_items_come_first(
    builtin: Seq<(ChainSupport, ChainItem)>,
    user: Seq<ChainItem>,
    core: Option<ClashCore>,
)
    ensures
        ({
            let chain = spec_chain(builtin, user, core, true);
            let first = spec_supported(builtin, core);
            &&& chain.len() == first.len() + user.len()
            &&& forall|i: int| 0 <= i < first.len() ==> chain[i] == first[i]
            &&& forall|j: int| 0 <= j < user.len() ==> chain[first.len() + j] == user[j]
        }),
{
}

/// An item whose tag the rule does not let through leaves what is kept as
/// it is without the item, wherever the item stands. The rule may be any:
/// the one in use lets a tag through when it supports the selected core
/// variant.
pub proof fn unsupported_item_leaves_chain(
    before: Seq<(ChainSupport, ChainItem)>,
    item: (ChainSupport, ChainItem),
    after: Seq<(ChainSupport, ChainItem)>,
    applies: spec_fn(ChainSupport) -> bool,
)
    requires
        !applies(item.0),
    ensures
        spec_kept(before + seq![item] + after, applies) == spec_kept(before + after, applies),
{
    lemma_kept_concat(before + seq![item], after, applies);
    lemma_kept_concat(before, seq![item], applies);
    lemma_kept_concat(before, after, applies);
    let one = seq![item];
    assert(one.last() == item);
    assert(one.drop_last() =~= Seq::<(ChainSupport, ChainItem)>::empty());
    assert(spec_kept(one.drop_last(), applies) =~= Seq::<ChainItem>::empty());
    assert(spec_kept(one, applies) =~= Seq::<ChainItem>::empty());
    assert(spec_kept(before, applies) + Seq::<ChainItem>::empty() =~= spec_kept(before, applies));
}

/// Under the core variants that there are, every tag applies: no built-in
/// item is left out of the chain.
pub proof fn every_tag_supports_every_core(tag: ChainSupport, core: Option<ClashCore>)
    ensures
        tag.spec_is_support(core),
{
}

/// What a run of the chain asks of the host.
#[derive(Debug)]
pub enum ChainAsk {
    /// Run the script of the item with this id on the configuration as it
    /// stands, and hand in what the script returned.
    RunScript { uid: String, source: String },
    /// Every item was applied.
    Done,
}

/// A run of the chain over a configuration, as plain values.
pub struct ChainRunView {
    /// The configuration as it stands.
    pub config: Seq<(YamlTree, YamlTree)>,
    /// The items that are still to apply, in their order.
    pub rest: Seq<ChainItem>,
    /// The scripts that failed, each with its id and what it reported.
    pub diagnostics: Seq<(String, String)>,
}

/// A run of the chain over a configuration. Merge items are applied by the
/// run itself; scripts are run by the host, one at a time, on the
/// configuration that the items before them have built.
#[derive(Debug)]
pub struct ChainRun {
    config: Mapping,
    rest: Vec<ChainItem>,
    diagnostics: Vec<(String, String)>,
}

impl View for ChainRun {
    type V = ChainRunView;

    closed spec fn view(&self) -> ChainRunView {
        ChainRunView {
            config: self.config@,
            rest: self.rest@,
            diagnostics: self.diagnostics@,
        }
    }
}

/// The configuration after the merge items at the head of the chain were
/// applied, and the chain from its first script on.
pub open spec fn spec_absorb(config: Seq<(YamlTree, YamlTree)>, rest: Seq<ChainItem>) -> (
    Seq<(YamlTree, YamlTree)>,
    Seq<ChainItem>,
)
    decreases rest.len(),
{
    if rest.len() == 0 {
        (config, rest)
    } else {
        match rest[0].data {
            ChainType::Merge(overlay) => spec_absorb(spec_merge(config, overlay@), rest.drop_first()),
            ChainType::Script(_) => (config, rest),
        }
    }
}

/// The configuration after a script was run: what the script returned, or
/// the configuration as it was where the script failed.
pub open spec fn spec_after_script(
    run: ChainRunView,
    uid: String,
    result: Result<Mapping, String>,
) -> ChainRunView {
    match result {
        Ok(config) => ChainRunView { config: config@, ..run },
        Err(why) => ChainRunView { diagnostics: run.diagnostics.push((uid, why)), ..run },
    }
}

impl ChainRun {
    /// A run of this chain over this base configuration.
    pub fn new(base: Mapping, chain: Vec<ChainItem>) -> (run: ChainRun)
        ensures
            run@.config == base@,
            run@.rest == chain@,
            run@.diagnostics == Seq::<(String, String)>::empty(),
    {
        ChainRun { config: base, rest: chain, diagnostics: Vec::new() }
    }

    /// Takes the run up to its next script: the merge items before it are
    /// applied, and the script is taken off the chain and handed out to be
    /// run. Where no script is left the whole chain is applied.
    pub fn advance(&mut self) -> (ask: ChainAsk)
        ensures
            final(self)@.config == spec_absorb(old(self)@.config, old(self)@.rest).0,
            final(self)@.diagnostics == old(self)@.diagnostics,
            ({
                let rest = spec_absorb(old(self)@.config, old(self)@.rest).1;
                if rest.len() == 0 {
                    ask is Done && final(self)@.rest == rest
                } else {
                    &&& final(self)@.rest == rest.drop_first()
                    &&& ask matches ChainAsk::RunScript { uid, source }
                    &&& uid == rest[0].uid
                    &&& rest[0].data == ChainType::Script(source)
                }
            }),
    {
        while self.rest.len() > 0
            invariant
                spec_absorb(self@.config, self@.rest) == spec_absorb(
                    old(self)@.config,
                    old(self)@.rest,
                ),
                self@.diagnostics == old(self)@.diagnostics,
            decreases self.rest.len(),
        {
            let ghost before = self@;
            let item = self.rest.remove(0);
            proof {
                assert(self@.rest =~= before.rest.drop_first());
                assert(item == before.rest[0]);
            }
            let ChainItem { uid, data } = item;
            match data {
                ChainType::Merge(overlay) => {
                    let mut config = Mapping::new();
                    core::mem::swap(&mut self.config, &mut config);
                    self.config = config.merge(overlay);
                },
                ChainType::Script(source) => {
                    return ChainAsk::RunScript { uid, source };
                },
            }
        }
        ChainAsk::Done
    }

    /// Takes in what the script of the item with this id returned: the new
    /// configuration, or the reason of its failure. A script that failed
    /// leaves the configuration as it was and is noted; the chain goes on
    /// either way.
    pub fn script_done(&mut self, uid: String, result: Result<Mapping, String>)
        ensures
            final(self)@ == spec_after_script(old(self)@, uid, result),
    {
        match result {
            Ok(config) => {
                self.config = config;
            },
            Err(why) => {
                self.diagnostics.push((uid, why));
            },
        }
    }

    /// The configuration as it stands.
    pub fn config(&self) -> (config: &Mapping)
        ensures
            config@ == self@.config,
    {
        &self.config
    }

    /// The number of items that are still to apply.
    pub fn remaining(&self) -> (count: usize)
        ensures
            count == self@.rest.len(),
    {
        self.rest.len()
    }

    /// Ends the run: the configuration as it stands, and the scripts that
    /// failed.
    pub fn finish(self) -> (out: (Mapping, Vec<(String, String)>))
        ensures
            out.0@ == self@.config,
            out.1@ == self@.diagnostics,
    {
        (self.config, self.diagnostics)
    }
}

/// A chain of merge items alone is applied in one step, each item over the
/// result of the one before.
pub proof fn merges_apply_in_order(
    config: Seq<(YamlTree, YamlTree)>,
    first: ChainItem,
    second: ChainItem,
)
    requires
        first.data is Merge,
        second.data is Merge,
    ensures
        spec_absorb(config, seq![first, second]) == (
            spec_merge(spec_merge(config, first.data->Merge_0@), second.data->Merge_0@),
            Seq::<ChainItem>::empty(),
        ),
{
    let chain = seq![first, second];
    assert(chain.drop_first() =~= seq![second]);
    assert(seq![second].drop_first() =~= Seq::<ChainItem>::empty());
    reveal_with_fuel(spec_absorb, 3);
}

/// A script that fails changes nothing of the configuration or of the
/// items that follow it; it only leaves a note.
pub proof fn failed_script_is_isolated(run: ChainRunView, uid: String, why: String)
    ensures
        spec_after_script(run, uid, Err(why)).config == run.config,
        spec_after_script(run, uid, Err(why)).rest == run.rest,
        spec_after_script(run, uid, Err(why)).diagnostics == run.diagnostics.push((uid, why)),
{
}

} // verus!
