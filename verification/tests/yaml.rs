use shadowrocket::yaml::{same_yaml, Mapping, Yaml};
use shadowrocket::yaml_text::{
    mapping_from_yaml, read_mapping, read_merge_mapping, value_from_yaml, YamlError, MAX_DEPTH,
};

fn text(value: &str) -> Yaml {
    Yaml::Text(String::from(value))
}

fn key_text(key: &Yaml) -> String {
    match key {
        Yaml::Text(text) => text.clone(),
        other => format!("{:?}", other),
    }
}

fn keys(mapping: &Mapping) -> Vec<String> {
    (0..mapping.len()).map(|at| key_text(mapping.entry(at).0)).collect()
}

fn text_of<'a>(mapping: &'a Mapping, key: &str) -> Option<&'a str> {
    match mapping.get(key) {
        Some(Yaml::Text(value)) => Some(value.as_str()),
        _ => None,
    }
}

#[test]
fn insert_replaces_in_place_or_appends() {
    let mut mapping = Mapping::new();
    assert_eq!(mapping.len(), 0);
    assert!(mapping.get("a").is_none());
    mapping.insert(String::from("a"), text("1"));
    mapping.insert(String::from("b"), text("2"));
    mapping.insert(String::from("c"), text("3"));
    mapping.insert(String::from("b"), text("4"));
    assert_eq!(keys(&mapping), vec!["a", "b", "c"]);
    assert_eq!(text_of(&mapping, "a"), Some("1"));
    assert_eq!(text_of(&mapping, "b"), Some("4"));
    assert_eq!(text_of(&mapping, "c"), Some("3"));
    assert!(mapping.get("d").is_none());
    assert!(mapping.get("").is_none());
}

#[test]
fn with_gives_the_changed_mapping() {
    let mapping = Mapping::new().with(String::from("k"), Yaml::Bool(true)).with(String::from("k"), Yaml::Null);
    assert_eq!(mapping.len(), 1);
    assert!(matches!(mapping.get("k"), Some(Yaml::Null)));
    let (key, value) = mapping.entry(0);
    assert!(matches!(key, Yaml::Text(key) if key == "k"));
    assert!(matches!(value, Yaml::Null));
}

#[test]
fn merge_overrides_on_collision_and_appends_new_keys() {
    let mut base = Mapping::new();
    base.insert(String::from("port"), text("7890"));
    base.insert(String::from("mode"), text("rule"));
    let mut nested = Mapping::new();
    nested.insert(String::from("enable"), Yaml::Bool(true));
    base.insert(String::from("dns"), Yaml::Mapping(nested));
    let mut overlay = Mapping::new();
    overlay.insert(String::from("mode"), text("global"));
    overlay.insert(String::from("dns"), Yaml::Sequence(vec![text("1.1.1.1")]));
    overlay.insert(String::from("tun"), Yaml::Null);
    let merged = base.merge(overlay);
    assert_eq!(keys(&merged), vec!["port", "mode", "dns", "tun"]);
    assert_eq!(text_of(&merged, "port"), Some("7890"));
    assert_eq!(text_of(&merged, "mode"), Some("global"));
    assert!(matches!(merged.get("dns"), Some(Yaml::Sequence(items)) if items.len() == 1));
    assert!(matches!(merged.get("tun"), Some(Yaml::Null)));
}

#[test]
fn merge_with_nothing_changes_nothing() {
    let mut base = Mapping::new();
    base.insert(String::from("a"), text("1"));
    let merged = base.merge(Mapping::new());
    assert_eq!(keys(&merged), vec!["a"]);
    let merged = Mapping::new().merge(merged);
    assert_eq!(keys(&merged), vec!["a"]);
    assert_eq!(text_of(&merged, "a"), Some("1"));
}

#[test]
fn yaml_text_is_read_as_a_mapping() {
    let mapping = read_merge_mapping("mixed-port: 7890\nmode: rule\nallow-lan: false\nname: ~\nrules:\n  - a\n  - 1.5\n").unwrap();
    assert_eq!(keys(&mapping), vec!["mixed-port", "mode", "allow-lan", "name", "rules"]);
    assert!(matches!(mapping.get("mixed-port"), Some(Yaml::Number(n)) if n == "7890"));
    assert_eq!(text_of(&mapping, "mode"), Some("rule"));
    assert!(matches!(mapping.get("allow-lan"), Some(Yaml::Bool(false))));
    assert!(matches!(mapping.get("name"), Some(Yaml::Null)));
    match mapping.get("rules") {
        Some(Yaml::Sequence(items)) => {
            assert_eq!(items.len(), 2);
            assert!(matches!(&items[0], Yaml::Text(t) if t == "a"));
            assert!(matches!(&items[1], Yaml::Number(n) if n == "1.5"));
        }
        other => panic!("unexpected {:?}", other),
    }
}

#[test]
fn merge_keys_are_resolved() {
    let source = "base: &base\n  a: 1\n  b: 2\nuse:\n  <<: *base\n  b: 3\n";
    let mapping = read_merge_mapping(source).unwrap();
    match mapping.get("use") {
        Some(Yaml::Mapping(inner)) => {
            assert_eq!(keys(inner), vec!["b", "a"]);
            assert!(matches!(inner.get("a"), Some(Yaml::Number(n)) if n == "1"));
            assert!(matches!(inner.get("b"), Some(Yaml::Number(n)) if n == "3"));
            assert!(inner.get("<<").is_none());
        }
        other => panic!("unexpected {:?}", other),
    }
}

#[test]
fn tagged_values_keep_their_tag() {
    let mapping = read_merge_mapping("v: !thing 1\n").unwrap();
    match mapping.get("v") {
        Some(Yaml::Tagged(tag, inner)) => {
            assert_eq!(tag, "!thing");
            assert!(matches!(inner.as_ref(), Yaml::Number(n) if n == "1"));
        }
        other => panic!("unexpected {:?}", other),
    }
}

#[test]
fn text_that_is_no_mapping_is_rejected() {
    assert!(matches!(read_merge_mapping("- a\n- b\n"), Err(YamlError::NotMapping)));
    assert!(matches!(read_merge_mapping("just text"), Err(YamlError::NotMapping)));
    assert!(matches!(read_merge_mapping(""), Err(YamlError::NotMapping)));
    assert!(matches!(read_merge_mapping("a: [1, 2"), Err(YamlError::Parse(_))));
    assert!(matches!(read_merge_mapping("a:\n  <<: 1\n"), Err(YamlError::Merge(_))));
}

#[test]
fn keys_of_any_kind_are_kept() {
    let mapping = read_merge_mapping("1: a\n").unwrap();
    assert_eq!(mapping.len(), 1);
    let (key, value) = mapping.entry(0);
    assert!(matches!(key, Yaml::Number(n) if n == "1"));
    assert!(matches!(value, Yaml::Text(t) if t == "a"));
    assert!(mapping.get("1").is_none());
    assert!(matches!(mapping.get_key(&Yaml::Number(String::from("1"))), Some(Yaml::Text(t)) if t == "a"));

    let mapping = read_merge_mapping("a:\n  ? [x]\n  : 1\ntrue: b\n~: c\n\"1\": d\n1: e\n").unwrap();
    assert_eq!(mapping.len(), 5);
    match mapping.get("a") {
        Some(Yaml::Mapping(inner)) => {
            let (key, value) = inner.entry(0);
            assert!(matches!(key, Yaml::Sequence(items) if items.len() == 1));
            assert!(matches!(value, Yaml::Number(n) if n == "1"));
        }
        other => panic!("unexpected {:?}", other),
    }
    assert!(matches!(mapping.get_key(&Yaml::Bool(true)), Some(Yaml::Text(t)) if t == "b"));
    assert!(matches!(mapping.get_key(&Yaml::Null), Some(Yaml::Text(t)) if t == "c"));
    assert!(matches!(mapping.get("1"), Some(Yaml::Text(t)) if t == "d"));
    assert!(matches!(mapping.get_key(&Yaml::Number(String::from("1"))), Some(Yaml::Text(t)) if t == "e"));
    assert!(mapping.get_key(&Yaml::Bool(false)).is_none());
}

#[test]
fn tags_around_a_mapping_are_looked_through() {
    let mapping = read_merge_mapping("!config\na: 1\n").unwrap();
    assert_eq!(keys(&mapping), vec!["a"]);
    let mapping = read_mapping("!config {a: 1, b: !x 2}").unwrap();
    assert_eq!(keys(&mapping), vec!["a", "b"]);
    assert!(matches!(mapping.get("b"), Some(Yaml::Tagged(tag, _)) if tag == "!x"));
    assert!(matches!(read_mapping("!config [a]"), Err(YamlError::NotMapping)));
}

#[test]
fn nested_mappings_are_merged_entry_by_entry() {
    let base = read_mapping("dns: {enable: true, listen: a, deep: {x: 1, y: 2}}\nrules: [a, b]\nmode: rule\n").unwrap();
    let overlay = read_mapping("dns: {listen: b, deep: {y: 3, z: 4}, extra: 1}\nrules: [c]\nmode: {k: v}\nnew: {n: 1}\n").unwrap();
    let merged = base.merge(overlay);
    assert_eq!(
        shadowrocket::json::to_json(&merged),
        "{\"dns\":{\"enable\":true,\"listen\":\"b\",\"deep\":{\"x\":1,\"y\":3,\"z\":4},\"extra\":1},\"rules\":[\"c\"],\"mode\":{\"k\":\"v\"},\"new\":{\"n\":1}}"
    );
    let base = read_mapping("a: {b: 1}").unwrap();
    let overlay = read_mapping("a: 2").unwrap();
    assert_eq!(shadowrocket::json::to_json(&base.merge(overlay)), "{\"a\":2}");
}

#[test]
fn same_yaml_compares_all_the_way_down() {
    let a = read_mapping("k: [1, {a: ~, b: !t x}]").unwrap();
    let b = read_mapping("k: [1, {a: ~, b: !t x}]").unwrap();
    let c = read_mapping("k: [1, {a: ~, b: !t y}]").unwrap();
    let d = read_mapping("k: [1, {b: !t x, a: ~}]").unwrap();
    assert!(same_yaml(&Yaml::Mapping(a.clone()), &Yaml::Mapping(b)));
    assert!(!same_yaml(&Yaml::Mapping(a.clone()), &Yaml::Mapping(c)));
    assert!(!same_yaml(&Yaml::Mapping(a), &Yaml::Mapping(d)));
    assert!(same_yaml(&Yaml::Null, &Yaml::Null));
    assert!(!same_yaml(&Yaml::Null, &Yaml::Bool(false)));
    assert!(!same_yaml(&Yaml::Number(String::from("1")), &text("1")));
    assert!(!same_yaml(&Yaml::Sequence(vec![]), &Yaml::Sequence(vec![Yaml::Null])));
}

#[test]
fn values_of_yaml_become_values_of_the_library() {
    assert_eq!(MAX_DEPTH, 128);
    let value: serde_yaml::Value = serde_yaml::from_str("[[1], ~, {a: b}, !t x, 2.50, \"s\"]").unwrap();
    match value_from_yaml(value) {
        Yaml::Sequence(items) => {
            assert_eq!(items.len(), 6);
            assert!(matches!(&items[0], Yaml::Sequence(inner) if inner.len() == 1));
            assert!(matches!(&items[1], Yaml::Null));
            assert!(matches!(&items[2], Yaml::Mapping(inner) if inner.len() == 1));
            assert!(matches!(&items[3], Yaml::Tagged(tag, inner) if tag == "!t" && matches!(inner.as_ref(), Yaml::Text(t) if t == "x")));
            assert!(matches!(&items[4], Yaml::Number(n) if n == "2.5"));
            assert!(matches!(&items[5], Yaml::Text(t) if t == "s"));
        }
        other => panic!("unexpected {:?}", other),
    }
    let value: serde_yaml::Value = serde_yaml::from_str("a: 1").unwrap();
    assert_eq!(mapping_from_yaml(value).unwrap().len(), 1);
    let value: serde_yaml::Value = serde_yaml::from_str("!x !y {a: 1}").unwrap_or(serde_yaml::Value::Null);
    assert!(mapping_from_yaml(value).map(|m| m.len() <= 1).unwrap_or(true));
}

#[test]
fn clone_holds_what_the_value_holds() {
    let source = "a: 1\nb: [x, {c: ~, d: !t 2.5}]\ne:\n  f: true\n  g: \"q\\\"\"\n";
    let mapping = read_merge_mapping(source).unwrap();
    let copy = mapping.clone();
    assert_eq!(keys(&copy), keys(&mapping));
    assert_eq!(shadowrocket::json::to_json(&copy), shadowrocket::json::to_json(&mapping));
    assert_eq!(format!("{:?}", copy), format!("{:?}", mapping));
    let value = Yaml::Sequence(vec![Yaml::Mapping(copy), Yaml::Tagged(String::from("!t"), Box::new(text("x")))]);
    assert_eq!(format!("{:?}", value.clone()), format!("{:?}", value));
}

#[test]
fn entries_come_out_in_the_order_of_the_text() {
    let mapping = read_mapping("z: 1\na: 2\nm: {y: 1, b: 2}\n").unwrap();
    assert_eq!(keys(&mapping), vec!["z", "a", "m"]);
    match mapping.get("m") {
        Some(Yaml::Mapping(inner)) => assert_eq!(keys(inner), vec!["y", "b"]),
        other => panic!("unexpected {:?}", other),
    }
    assert!(matches!(read_mapping("a: [1, 2"), Err(YamlError::Parse(_))));
    assert!(matches!(read_mapping("- a"), Err(YamlError::NotMapping)));
    let mapping = read_mapping("a: {1: 2}").unwrap();
    assert!(matches!(mapping.get("a"), Some(Yaml::Mapping(inner)) if inner.len() == 1));
    assert!(read_mapping("a:\n  <<: 1\n").is_ok());
}
