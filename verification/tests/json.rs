use shadowrocket::json::{is_json_number, push_json, push_json_text, to_json};
use shadowrocket::yaml::{Mapping, Yaml};

fn text(value: &str) -> Yaml {
    Yaml::Text(String::from(value))
}

fn number(value: &str) -> Yaml {
    Yaml::Number(String::from(value))
}

fn json(value: &Yaml, depth: usize) -> String {
    let mut out = String::new();
    push_json(&mut out, value, depth);
    out
}

#[test]
fn strings_are_quoted_and_escaped() {
    let mut out = String::from("x");
    push_json_text(&mut out, "a\"b\\c\n\r\t\u{1}\u{1f}\u{7f}\u{e9}");
    assert_eq!(out, "x\"a\\\"b\\\\c\\n\\r\\t\\u0001\\u001f\u{7f}\u{e9}\"");
    let mut out = String::new();
    push_json_text(&mut out, "");
    assert_eq!(out, "\"\"");
}

#[test]
fn numbers_of_json() {
    for good in ["0", "-0", "7890", "-12", "1.5", "0.25", "1e21", "1E+2", "2.5e-7", "10"] {
        assert!(is_json_number(good), "{}", good);
    }
    for bad in ["", "-", "01", "-01", "1.", ".5", "1e", "1e+", "+1", ".inf", "-.inf", ".nan", "1.5x", " 1", "0x10", "1..2", "1e5.0"] {
        assert!(!is_json_number(bad), "{}", bad);
    }
}

#[test]
fn values_as_json() {
    assert_eq!(json(&Yaml::Null, 1), "null");
    assert_eq!(json(&Yaml::Bool(true), 1), "true");
    assert_eq!(json(&Yaml::Bool(false), 1), "false");
    assert_eq!(json(&number("7890"), 1), "7890");
    assert_eq!(json(&number(".inf"), 1), "null");
    assert_eq!(json(&text("rule"), 1), "\"rule\"");
    assert_eq!(json(&Yaml::Sequence(vec![]), 2), "[]");
    assert_eq!(json(&Yaml::Sequence(vec![number("1")]), 2), "[1]");
    assert_eq!(json(&Yaml::Sequence(vec![number("1"), text("a"), Yaml::Null]), 2), "[1,\"a\",null]");
    assert_eq!(json(&Yaml::Tagged(String::from("!t"), Box::new(number("3"))), 2), "3");
}

#[test]
fn depth_cuts_off_with_null() {
    let nested = Yaml::Sequence(vec![Yaml::Sequence(vec![number("1")])]);
    assert_eq!(json(&nested, 0), "null");
    assert_eq!(json(&nested, 1), "[null]");
    assert_eq!(json(&nested, 2), "[[null]]");
    assert_eq!(json(&nested, 3), "[[1]]");
}

#[test]
fn configuration_as_json() {
    let mut dns = Mapping::new();
    dns.insert(String::from("enable"), Yaml::Bool(true));
    let mut config = Mapping::new();
    config.insert(String::from("mixed-port"), number("7890"));
    config.insert(String::from("mode"), text("rule"));
    config.insert(String::from("dns"), Yaml::Mapping(dns));
    config.insert(String::from("proxies"), Yaml::Sequence(vec![text("a\"b")]));
    assert_eq!(
        to_json(&config),
        "{\"mixed-port\":7890,\"mode\":\"rule\",\"dns\":{\"enable\":true},\"proxies\":[\"a\\\"b\"]}"
    );
    assert_eq!(to_json(&Mapping::new()), "{}");
}

#[test]
fn json_reads_back_as_the_same_mapping() {
    let source = "mixed-port: 7890\nmode: \"ru\\\"le\"\nlist: [1, 2.5, ~, true]\nnested:\n  k: v\n";
    let mapping = shadowrocket::yaml_text::read_mapping(source).unwrap();
    let again = shadowrocket::yaml_text::read_mapping(&to_json(&mapping)).unwrap();
    assert_eq!(to_json(&again), to_json(&mapping));
    assert_eq!(
        to_json(&mapping),
        "{\"mixed-port\":7890,\"mode\":\"ru\\\"le\",\"list\":[1,2.5,null,true],\"nested\":{\"k\":\"v\"}}"
    );
}

#[test]
fn keys_that_are_no_text_are_written_by_their_json() {
    let mapping = shadowrocket::yaml_text::read_mapping("1: a\ntrue: b\n~: c\n[x]: d\nk: e\n").unwrap();
    assert_eq!(
        to_json(&mapping),
        "{\"1\":\"a\",\"true\":\"b\",\"null\":\"c\",\"[\\\"x\\\"]\":\"d\",\"k\":\"e\"}"
    );
}
