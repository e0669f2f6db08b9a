use shadowrocket::chain::{
    build_chain, ChainAsk, ChainItem, ChainKind, ChainRun, ChainSupport, ChainType, ProfileFile,
    HY_ALPN_SCRIPT, META_GUARD_SCRIPT,
};
use shadowrocket::variant::ClashCore;
use shadowrocket::yaml::{Mapping, Yaml};

fn text(value: &str) -> Yaml {
    Yaml::Text(String::from(value))
}

fn mapping(entries: &[(&str, &str)]) -> Mapping {
    let mut mapping = Mapping::new();
    for (key, value) in entries {
        mapping.insert(String::from(*key), text(value));
    }
    mapping
}

fn entries(mapping: &Mapping) -> Vec<(String, String)> {
    let mut out = Vec::new();
    for at in 0..mapping.len() {
        match mapping.entry(at) {
            (Yaml::Text(key), Yaml::Text(value)) => out.push((key.clone(), value.clone())),
            other => panic!("unexpected entry {:?}", other),
        }
    }
    out
}

fn pairs(entries: &[(&str, &str)]) -> Vec<(String, String)> {
    entries.iter().map(|(k, v)| (String::from(*k), String::from(*v))).collect()
}

fn uids(chain: &[ChainItem]) -> Vec<&str> {
    chain.iter().map(|item| item.uid.as_str()).collect()
}

#[test]
fn every_tag_applies_under_the_cores_there_are() {
    for tag in [ChainSupport::Mihomo, ChainSupport::All] {
        assert!(tag.is_support(None));
        assert!(tag.is_support(Some(&ClashCore::Mihomo)));
        assert!(tag.is_support(Some(&ClashCore::MihomoAlpha)));
    }
}

#[test]
fn builtin_items_are_the_two_scripts() {
    let items = ChainItem::builtin();
    assert_eq!(items.len(), 2);
    assert_eq!(items[0].0, ChainSupport::Mihomo);
    assert_eq!(items[0].1.uid, "verge_hy_alpn");
    assert!(matches!(&items[0].1.data, ChainType::Script(source) if source == HY_ALPN_SCRIPT));
    assert_eq!(items[1].0, ChainSupport::Mihomo);
    assert_eq!(items[1].1.uid, "verge_meta_guard");
    assert!(matches!(&items[1].1.data, ChainType::Script(source) if source == META_GUARD_SCRIPT));
}

#[test]
fn to_script_makes_a_script_item() {
    let item = ChainItem::to_script("uid", "function main(c) { return c; }");
    assert_eq!(item.uid, "uid");
    assert!(matches!(item.data, ChainType::Script(source) if source == "function main(c) { return c; }"));
}

#[test]
fn kind_of_a_profile_type() {
    assert_eq!(ChainKind::of(Some("script")), Some(ChainKind::Script));
    assert_eq!(ChainKind::of(Some("merge")), Some(ChainKind::Merge));
    assert_eq!(ChainKind::of(Some("remote")), None);
    assert_eq!(ChainKind::of(Some("")), None);
    assert_eq!(ChainKind::of(None), None);
}

#[test]
fn profile_item_becomes_a_chain_item() {
    let item = ChainItem::from_profile(
        Some("script"),
        Some(String::from("s1")),
        ProfileFile::Script(String::from("code")),
    )
    .unwrap();
    assert_eq!(item.uid, "s1");
    assert!(matches!(item.data, ChainType::Script(source) if source == "code"));

    let item = ChainItem::from_profile(Some("merge"), None, ProfileFile::Merge(mapping(&[("a", "1")]))).unwrap();
    assert_eq!(item.uid, "");
    match item.data {
        ChainType::Merge(found) => assert_eq!(entries(&found), pairs(&[("a", "1")])),
        other => panic!("unexpected {:?}", other),
    }
}

#[test]
fn profile_item_without_its_file_contributes_nothing() {
    assert!(ChainItem::from_profile(Some("script"), Some(String::from("s")), ProfileFile::Missing).is_none());
    assert!(ChainItem::from_profile(Some("merge"), Some(String::from("s")), ProfileFile::Missing).is_none());
    assert!(ChainItem::from_profile(None, Some(String::from("s")), ProfileFile::Script(String::new())).is_none());
    assert!(ChainItem::from_profile(Some("remote"), None, ProfileFile::Script(String::new())).is_none());
    assert!(ChainItem::from_profile(Some("merge"), None, ProfileFile::Script(String::new())).is_none());
    assert!(ChainItem::from_profile(Some("script"), None, ProfileFile::Merge(Mapping::new())).is_none());
}

#[test]
fn builtin_items_come_before_user_items() {
    let user = vec![ChainItem::to_script("u2", "b"), ChainItem::to_script("u1", "a")];
    let chain = build_chain(ChainItem::builtin(), user, Some(&ClashCore::Mihomo), true);
    assert_eq!(uids(&chain), vec!["verge_hy_alpn", "verge_meta_guard", "u2", "u1"]);

    let user = vec![ChainItem::to_script("u1", "a"), ChainItem::to_script("u2", "b")];
    let chain = build_chain(ChainItem::builtin(), user, None, true);
    assert_eq!(uids(&chain), vec!["verge_hy_alpn", "verge_meta_guard", "u1", "u2"]);
}

#[test]
fn disabled_builtin_items_are_left_out() {
    let user = vec![ChainItem::to_script("u1", "a")];
    let chain = build_chain(ChainItem::builtin(), user, Some(&ClashCore::MihomoAlpha), false);
    assert_eq!(uids(&chain), vec!["u1"]);
    let chain = build_chain(Vec::new(), Vec::new(), None, true);
    assert!(chain.is_empty());
}

#[test]
fn merge_items_apply_in_order() {
    let chain = vec![
        ChainItem { uid: String::from("m1"), data: ChainType::Merge(mapping(&[("mode", "global"), ("port", "1")])) },
        ChainItem { uid: String::from("m2"), data: ChainType::Merge(mapping(&[("port", "2"), ("dns", "on")])) },
    ];
    let mut run = ChainRun::new(mapping(&[("port", "0"), ("mode", "rule")]), chain);
    assert_eq!(run.remaining(), 2);
    assert!(matches!(run.advance(), ChainAsk::Done));
    assert_eq!(run.remaining(), 0);
    let (config, diagnostics) = run.finish();
    assert_eq!(entries(&config), pairs(&[("port", "2"), ("mode", "global"), ("dns", "on")]));
    assert!(diagnostics.is_empty());
}

#[test]
fn scripts_run_on_the_config_built_so_far() {
    let chain = vec![
        ChainItem { uid: String::from("m1"), data: ChainType::Merge(mapping(&[("a", "1")])) },
        ChainItem::to_script("s1", "source one"),
        ChainItem { uid: String::from("m2"), data: ChainType::Merge(mapping(&[("b", "2")])) },
        ChainItem::to_script("s2", "source two"),
    ];
    let mut run = ChainRun::new(Mapping::new(), chain);
    match run.advance() {
        ChainAsk::RunScript { uid, source } => {
            assert_eq!((uid.as_str(), source.as_str()), ("s1", "source one"));
            assert_eq!(entries(run.config()), pairs(&[("a", "1")]));
            run.script_done(uid, Ok(mapping(&[("a", "1"), ("s", "x")])));
        }
        other => panic!("unexpected {:?}", other),
    }
    assert_eq!(run.remaining(), 2);
    match run.advance() {
        ChainAsk::RunScript { uid, source } => {
            assert_eq!((uid.as_str(), source.as_str()), ("s2", "source two"));
            assert_eq!(entries(run.config()), pairs(&[("a", "1"), ("s", "x"), ("b", "2")]));
            run.script_done(uid, Err(String::from("TypeError")));
        }
        other => panic!("unexpected {:?}", other),
    }
    assert!(matches!(run.advance(), ChainAsk::Done));
    let (config, diagnostics) = run.finish();
    assert_eq!(entries(&config), pairs(&[("a", "1"), ("s", "x"), ("b", "2")]));
    assert_eq!(diagnostics, vec![(String::from("s2"), String::from("TypeError"))]);
}

#[test]
fn failed_script_does_not_stop_the_chain() {
    let chain = vec![
        ChainItem::to_script("bad", "throw 1"),
        ChainItem { uid: String::from("m"), data: ChainType::Merge(mapping(&[("k", "v")])) },
    ];
    let mut run = ChainRun::new(mapping(&[("base", "1")]), chain);
    match run.advance() {
        ChainAsk::RunScript { uid, .. } => run.script_done(uid, Err(String::from("boom"))),
        other => panic!("unexpected {:?}", other),
    }
    assert_eq!(entries(run.config()), pairs(&[("base", "1")]));
    assert!(matches!(run.advance(), ChainAsk::Done));
    let (config, diagnostics) = run.finish();
    assert_eq!(entries(&config), pairs(&[("base", "1"), ("k", "v")]));
    assert_eq!(diagnostics, vec![(String::from("bad"), String::from("boom"))]);
}

#[test]
fn empty_chain_leaves_the_base() {
    let mut run = ChainRun::new(mapping(&[("a", "1")]), Vec::new());
    assert!(matches!(run.advance(), ChainAsk::Done));
    assert!(matches!(run.advance(), ChainAsk::Done));
    assert_eq!(entries(run.config()), pairs(&[("a", "1")]));
}

#[test]
fn merge_item_with_other_keys_is_made_and_applied() {
    let merge = shadowrocket::yaml_text::read_merge_mapping("1: a\ndns: {x: 1}\n").unwrap();
    let item = ChainItem::from_profile(Some("merge"), Some(String::from("m")), ProfileFile::Merge(merge)).unwrap();
    let base = shadowrocket::yaml_text::read_mapping("dns: {y: 2}\n").unwrap();
    let mut run = ChainRun::new(base, vec![item]);
    assert!(matches!(run.advance(), ChainAsk::Done));
    let (config, _) = run.finish();
    assert_eq!(shadowrocket::json::to_json(&config), "{\"dns\":{\"y\":2,\"x\":1},\"1\":\"a\"}");
}
