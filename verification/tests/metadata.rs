use cjk_search::json::{normalize_metadata, render_json, JsonValue};

fn text(value: &str) -> JsonValue {
    JsonValue::Text(value.to_string())
}

#[test]
fn metadata_object_is_read_as_it_is() {
    let value = normalize_metadata("{\"country\":\"한국\",\"rank\":3,\"open\":true}");
    let mut expected = serde_json::Map::new();
    expected.insert("country".to_string(), serde_json::Value::String("한국".to_string()));
    expected.insert("rank".to_string(), serde_json::Value::from(3));
    expected.insert("open".to_string(), serde_json::Value::Bool(true));
    assert_eq!(value, serde_json::Value::Object(expected));
}

#[test]
fn metadata_that_is_not_json_becomes_the_empty_object() {
    let empty = serde_json::Value::Object(serde_json::Map::new());
    assert_eq!(normalize_metadata("not json"), empty);
    assert_eq!(normalize_metadata(""), empty);
    assert_eq!(normalize_metadata("{\"open\":"), empty);
    assert_eq!(normalize_metadata("{'single': 1}"), empty);
}

#[test]
fn metadata_that_is_json_but_no_object_is_kept() {
    assert_eq!(normalize_metadata("5"), serde_json::Value::from(5));
    assert_eq!(normalize_metadata("\"text\""), serde_json::Value::String("text".to_string()));
    assert_eq!(normalize_metadata("null"), serde_json::Value::Null);
    assert_eq!(
        normalize_metadata("[1, 2]"),
        serde_json::Value::Array(vec![serde_json::Value::from(1), serde_json::Value::from(2)])
    );
}

#[test]
fn empty_object_is_rendered_as_braces() {
    assert_eq!(render_json(&JsonValue::Object(Vec::new())), "{}");
}

#[test]
fn scalars_are_rendered_by_their_json_type() {
    assert_eq!(render_json(&JsonValue::Null), "null");
    assert_eq!(render_json(&JsonValue::Bool(true)), "true");
    assert_eq!(render_json(&JsonValue::Bool(false)), "false");
    assert_eq!(render_json(&JsonValue::Int(-42)), "-42");
    assert_eq!(render_json(&JsonValue::Int(i64::MIN)), "-9223372036854775808");
    assert_eq!(render_json(&JsonValue::UInt(u64::MAX)), "18446744073709551615");
    assert_eq!(render_json(&text("인천")), "\"인천\"");
    assert_eq!(render_json(&text("a\"b")), "\"a\\\"b\"");
    assert_eq!(render_json(&JsonValue::Raw(serde_json::Value::from(1.5))), "1.5");
}

#[test]
fn object_members_are_rendered_in_key_order() {
    let object = JsonValue::Object(vec![
        ("iata".to_string(), text("ICN")),
        ("city".to_string(), text("인천")),
        ("runways".to_string(), JsonValue::UInt(4)),
    ]);
    assert_eq!(render_json(&object), "{\"city\":\"인천\",\"iata\":\"ICN\",\"runways\":4}");
}

#[test]
fn later_member_replaces_earlier_one_with_the_same_key() {
    let object = JsonValue::Object(vec![
        ("k".to_string(), JsonValue::Int(1)),
        ("k".to_string(), JsonValue::Int(2)),
    ]);
    assert_eq!(render_json(&object), "{\"k\":2}");
}

#[test]
fn arrays_and_nested_values_are_rendered() {
    let value = JsonValue::Object(vec![(
        "tags".to_string(),
        JsonValue::Array(vec![text("a"), JsonValue::Int(1), JsonValue::Null, JsonValue::Array(Vec::new())]),
    )]);
    assert_eq!(render_json(&value), "{\"tags\":[\"a\",1,null,[]]}");
}
