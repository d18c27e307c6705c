use rsp10::form::FormData;
use rsp10::json::{amend_json_value, JsonValue};
use rsp10::page::{amended_state_tree, initial_state_tree};

fn form(pairs: &[(&str, &str)]) -> FormData {
    let mut f = FormData::new();
    for (k, v) in pairs {
        f.insert(k.to_string(), v.to_string());
    }
    f
}

fn obj(fields: Vec<(&str, JsonValue)>) -> JsonValue {
    JsonValue::Object(fields.into_iter().map(|(k, v)| (k.to_string(), v)).collect())
}

fn num(s: &str) -> JsonValue {
    JsonValue::Number(s.to_string())
}

fn text(s: &str) -> JsonValue {
    JsonValue::String(s.to_string())
}

#[test]
fn overlay_changes_only_the_named_field() {
    let mut v = initial_state_tree(&form(&[("initial_state_json", r#"{"a": 1, "b": "x"}"#)])).unwrap();
    assert_eq!(v, obj(vec![("a", num("1")), ("b", text("x"))]));
    amend_json_value(&mut v, &form(&[("a", "5")]));
    assert_eq!(v, obj(vec![("a", num("5")), ("b", text("x"))]));
}

#[test]
fn checkbox_sentinel_sets_true() {
    let mut v = obj(vec![("cbFoo", JsonValue::Bool(false))]);
    amend_json_value(&mut v, &form(&[("cbFoo_sentinel", "true")]));
    assert_eq!(v, obj(vec![("cbFoo", JsonValue::Bool(true))]));
}

#[test]
fn checkbox_sentinel_false_word_clears() {
    let mut v = obj(vec![("cbFoo", JsonValue::Bool(true))]);
    amend_json_value(&mut v, &form(&[("cbFoo_sentinel", "")]));
    assert_eq!(v, obj(vec![("cbFoo", JsonValue::Bool(false))]));
}

#[test]
fn checkbox_words() {
    for (word, expected) in [("true", true), ("on", true), ("checked", true), ("yes", false), ("1", false)] {
        let mut v = obj(vec![("cb", JsonValue::Bool(!expected))]);
        amend_json_value(&mut v, &form(&[("cb", word)]));
        assert_eq!(v, obj(vec![("cb", JsonValue::Bool(expected))]));
    }
}

#[test]
fn string_leaf_takes_raw_text() {
    let mut v = obj(vec![("txtName", text("old"))]);
    amend_json_value(&mut v, &form(&[("txtName", "42")]));
    assert_eq!(v, obj(vec![("txtName", text("42"))]));
}

#[test]
fn malformed_number_keeps_old_value() {
    let mut v = obj(vec![("n", num("7"))]);
    amend_json_value(&mut v, &form(&[("n", "seven")]));
    assert_eq!(v, obj(vec![("n", num("7"))]));
}

#[test]
fn null_leaf_takes_parsed_json() {
    let mut v = obj(vec![("n", JsonValue::Null)]);
    amend_json_value(&mut v, &form(&[("n", "[1]")]));
    assert_eq!(v, obj(vec![("n", JsonValue::Array(vec![num("1")]))]));
}

#[test]
fn nested_paths_use_double_underscore() {
    let mut v = obj(vec![(
        "rows",
        JsonValue::Array(vec![obj(vec![("qty", num("1"))]), obj(vec![("qty", num("2"))])]),
    )]);
    amend_json_value(&mut v, &form(&[("rows__1__qty", "9")]));
    let expected = obj(vec![(
        "rows",
        JsonValue::Array(vec![obj(vec![("qty", num("1"))]), obj(vec![("qty", num("9"))])]),
    )]);
    assert_eq!(v, expected);
}

#[test]
fn top_level_array_paths_start_with_separator() {
    let mut v = JsonValue::Array(vec![text("a"), text("b")]);
    amend_json_value(&mut v, &form(&[("__0", "z"), ("1", "y")]));
    assert_eq!(v, JsonValue::Array(vec![text("z"), text("b")]));
}

#[test]
fn round_trip_without_overlay() {
    let mut m = serde_json::Map::new();
    m.insert("a".to_string(), serde_json::Value::from(1));
    m.insert("b".to_string(), serde_json::Value::from("x"));
    m.insert("c".to_string(), serde_json::Value::from(true));
    let written = serde_json::to_string(&serde_json::Value::Object(m)).unwrap();
    let f = form(&[("state_json", written.as_str())]);
    let tree = amended_state_tree(&f).unwrap();
    assert_eq!(tree, initial_state_tree(&form(&[("initial_state_json", written.as_str())])).unwrap());
    assert_eq!(tree, obj(vec![("a", num("1")), ("b", text("x")), ("c", JsonValue::Bool(true))]));
}

#[test]
fn state_tree_is_overlaid() {
    let f = form(&[("state_json", r#"{"a": 1, "b": "x"}"#), ("a", "5")]);
    assert_eq!(amended_state_tree(&f).unwrap(), obj(vec![("a", num("5")), ("b", text("x"))]));
}

#[test]
fn missing_or_bad_state_json_gives_none() {
    assert_eq!(amended_state_tree(&form(&[("a", "5")])), None);
    assert_eq!(amended_state_tree(&form(&[("state_json", "{not json")])), None);
}

#[test]
fn initial_tree_is_not_overlaid() {
    let f = form(&[("initial_state_json", r#"{"a": 1}"#), ("a", "5")]);
    assert_eq!(initial_state_tree(&f).unwrap(), obj(vec![("a", num("1"))]));
}

#[test]
fn baseline_text_must_be_json() {
    assert_eq!(initial_state_tree(&form(&[("initial_state_json", "{")])), None);
    assert_eq!(initial_state_tree(&form(&[("initial_state_json", "null")])), Some(JsonValue::Null));
    assert_eq!(initial_state_tree(&form(&[("initial_state_json", "[true, 2.5]")])), Some(JsonValue::Array(vec![JsonValue::Bool(true), num("2.5")])));
}
