use relay_core::json::{extend_members, json_object, opt_json, same_json, text_json, Json, JsonObject};
use relay_core::ordered::{text_before, StringMap};
use relay_core::text::{
    any_text, begins_with, decimal_text, ends_with, holds_text, is_blank, join_texts, same_text, trimmed,
    without_end_char,
};

#[test]
fn texts_are_taken_apart_and_put_together() {
    assert_eq!(trimmed("\u{2003} a b\t\n"), "a b");
    assert_eq!(trimmed(" \u{85}"), "");
    assert!(is_blank("\u{a0}\r"));
    assert!(!is_blank("."));
    assert_eq!(without_end_char("http://a///", '/'), "http://a");
    assert_eq!(without_end_char("///", '/'), "");
    assert!(begins_with("abc", "ab") && !begins_with("a", "ab"));
    assert!(ends_with("abc", "bc") && !ends_with("c", "bc"));
    assert!(holds_text("abcd", "bc") && !holds_text("abd", "bc") && holds_text("x", ""));
    assert!(same_text("a", "a") && !same_text("a", "b"));
    assert_eq!(decimal_text(0), "0");
    assert_eq!(decimal_text(u64::MAX), "18446744073709551615");
    let list = vec!["a".to_string(), "b".to_string()];
    assert_eq!(join_texts(&list, "; "), "a; b");
    assert_eq!(join_texts(&vec![], "; "), "");
    assert!(any_text(&list, "b") && !any_text(&list, "c"));
}

#[test]
fn a_map_keeps_its_keys_in_order() {
    let mut map: StringMap<String> = StringMap::new();
    for key in ["b", "a", "", "ab", "b"] {
        map.insert(key.to_string(), format!("<{key}>"));
    }
    map.insert("a".to_string(), "new".to_string());
    assert_eq!(map.len(), 4);
    let keys: Vec<&str> = (0..map.len()).map(|i| map.key_at(i)).collect();
    assert_eq!(keys, vec!["", "a", "ab", "b"]);
    assert_eq!(map.value_at(1), "new");
    assert_eq!(map.get("ab").unwrap(), "<ab>");
    assert!(map.get("c").is_none() && !map.contains_key("c"));
    assert!(text_before("a", "ab") && !text_before("b", "ab") && !text_before("a", "a"));
}

#[test]
fn values_are_read_and_printed() {
    let text = r#"{"n": -1, "u": 18446744073709551615, "f": 1.5, "b": true, "z": null, "a": ["x"], "o": {}}"#;
    let value = Json::from_json(text).unwrap();
    let expected: serde_json::Value = serde_json::from_str(text).unwrap();
    assert_eq!(value.to_value(), expected);
    assert_eq!(Json::from_value(expected.clone()).to_value(), expected);
    assert_eq!(Json::from_yaml("n: 1\na: [x]\n").unwrap().to_yaml().unwrap(), "a:\n- x\nn: 1\n");
    assert!(Json::from_yaml("a: [").is_err());
    assert!(Json::from_json("{").is_err());
    assert_eq!(
        Json::from_json(r#"{"b":1,"a":2}"#).unwrap().to_pretty_json().unwrap(),
        "{\n  \"a\": 2,\n  \"b\": 1\n}"
    );
    assert_eq!(value.get("a").unwrap().to_value().to_string(), r#"["x"]"#);
    assert!(value.get("missing").is_none());
    assert!(text_json("t").is_text("t") && !text_json("t").is_text("u"));
    assert_eq!(text_json("t").as_text(), Some("t"));
    assert!(opt_json(&None).to_value().is_null());
    assert_eq!(opt_json(&Some("x".to_string())).as_text(), Some("x"));
}

#[test]
fn members_can_be_put_taken_and_joined() {
    let mut members = JsonObject::new();
    members.insert("b".to_string(), Json::Unsigned(1));
    members.insert("a".to_string(), Json::Bool(true));
    assert_eq!(members.len(), 2);
    assert_eq!(members.key_at(0), "a");
    assert!(members.take("a").is_some());
    assert!(members.take("a").is_none());
    let more = match json_object(vec![("b", Json::Null), ("c", text_json("x"))]) {
        Json::Object(more) => more,
        _ => panic!("an object was made"),
    };
    extend_members(&mut members, &more);
    assert_eq!(Json::Object(members).to_value().to_string(), r#"{"b":null,"c":"x"}"#);
}

#[test]
fn values_are_compared_by_what_they_hold() {
    let value = |text: &str| Json::from_json(text).unwrap();
    assert!(same_json(&value(r#"{"a": ["x", {}], "b": null}"#), &value(r#"{"b": null, "a": ["x", {}]}"#)));
    assert!(!same_json(&value(r#"{"a": 1}"#), &value(r#"{"a": 2}"#)));
    assert!(!same_json(&value(r#"["a"]"#), &value(r#"["a", "b"]"#)));
    assert!(!same_json(&value("1.5"), &value("1")));
}
