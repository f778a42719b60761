use openmcp::json::{string_equals_str, JsonObject, JsonValue};

fn text(v: Option<&JsonValue>) -> Option<String> {
    match v {
        Some(JsonValue::Text(t)) => Some(t.clone()),
        _ => None,
    }
}

#[test]
fn insert_replaces_and_keeps_keys_distinct() {
    let mut o = JsonObject::new();
    o.insert("a".to_owned(), JsonValue::Text("1".to_owned()));
    o.insert("b".to_owned(), JsonValue::Null);
    o.insert("a".to_owned(), JsonValue::Text("2".to_owned()));
    let mut keys = o.keys();
    keys.sort();
    assert_eq!(keys, vec!["a", "b"]);
    assert_eq!(text(o.get("a")), Some("2".to_owned()));
    assert!(o.contains_key("b"));
    assert!(!o.contains_key("c"));
}

#[test]
fn remove_and_take() {
    let mut o = JsonObject::new();
    o.insert("a".to_owned(), JsonValue::Text("1".to_owned()));
    o.insert("b".to_owned(), JsonValue::Bool(true));
    assert!(o.remove("a"));
    assert!(!o.remove("a"));
    match o.take("b") {
        Some(JsonValue::Bool(true)) => {}
        other => panic!("unexpected {:?}", other),
    }
    assert!(o.take("b").is_none());
    assert!(o.keys().is_empty());
}

#[test]
fn as_object_only_for_objects() {
    assert!(JsonValue::Object(JsonObject::new()).as_object().is_some());
    assert!(JsonValue::Array(vec![]).as_object().is_none());
    assert!(JsonValue::Number("1.5".to_owned()).as_object().is_none());
}

#[test]
fn text_equality() {
    assert!(string_equals_str(&"mcpServers".to_owned(), "mcpServers"));
    assert!(!string_equals_str(&"mcpServer".to_owned(), "mcpServers"));
    assert!(!string_equals_str(&"é".to_owned(), "e"));
}
