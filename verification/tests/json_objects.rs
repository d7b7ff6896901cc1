use csd_jwt::json::{JsonMap, JsonNumber, JsonValue};
use csd_jwt::json_codec::{display_json, parse_json, serialize_json};

fn text(value: &str) -> JsonValue {
    JsonValue::Text(value.to_string())
}

fn keys(map: &JsonMap) -> Vec<String> {
    (0..map.len()).map(|i| map.key_at(i).clone()).collect()
}

#[test]
fn insert_then_get_returns_the_value() {
    let mut map = JsonMap::new();
    assert!(map.insert("name".to_string(), text("Alice")).is_none());
    assert_eq!(map.get("name"), Some(text("Alice")));
    assert_eq!(map.len(), 1);
    assert_eq!(map.get("email"), None);
}

#[test]
fn insert_of_an_existing_key_keeps_its_place_and_returns_the_old_value() {
    let mut map = JsonMap::new();
    map.insert("a".to_string(), text("1"));
    map.insert("b".to_string(), text("2"));
    map.insert("c".to_string(), text("3"));
    assert_eq!(map.insert("b".to_string(), text("two")), Some(text("2")));
    assert_eq!(keys(&map), vec!["a", "b", "c"]);
    assert_eq!(map.value_at(1), text("two"));
    assert_eq!(map.position("c"), Some(2));
    assert_eq!(map.position("d"), None);
}

#[test]
fn remove_moves_the_last_member_into_the_gap() {
    let mut map = JsonMap::new();
    map.insert("a".to_string(), text("1"));
    map.insert("b".to_string(), text("2"));
    map.insert("c".to_string(), text("3"));
    map.insert("d".to_string(), text("4"));
    assert_eq!(map.remove("b"), Some(text("2")));
    assert_eq!(keys(&map), vec!["a", "d", "c"]);
    assert_eq!(map.remove("b"), None);
    assert_eq!(map.remove("c"), Some(text("3")));
    assert_eq!(keys(&map), vec!["a", "d"]);
}

#[test]
fn a_copy_equals_its_source_and_is_independent_of_it() {
    let mut inner = JsonMap::new();
    inner.insert("k".to_string(), JsonValue::Array(vec![text("x"), JsonValue::Null]));
    let mut map = JsonMap::new();
    map.insert("inner".to_string(), JsonValue::Object(inner));
    map.insert("n".to_string(), JsonValue::Number(JsonNumber::NegInt(-3)));
    let mut copy = map.clone();
    assert_eq!(copy, map);
    copy.insert("n".to_string(), JsonValue::Bool(true));
    assert_ne!(copy, map);
    assert_eq!(map.get("n"), Some(JsonValue::Number(JsonNumber::NegInt(-3))));
}

#[test]
fn parse_then_serialize_gives_the_compact_text() {
    let value = parse_json("{ \"b\": [1, -2, 1.5, true, null], \"a\": \"x\" }").ok().expect("JSON");
    let text = serialize_json(&value).ok().expect("text");
    assert_eq!(text, "{\"b\":[1,-2,1.5,true,null],\"a\":\"x\"}");
    assert_eq!(display_json(&value), "{\"b\":[1,-2,1.5,true,null],\"a\":\"x\"}");
}

#[test]
fn parse_reads_every_kind_of_value() {
    let value = parse_json("[null, false, 7, -7, \"s\", [], {}]").ok().expect("JSON");
    match value {
        JsonValue::Array(items) => {
            assert_eq!(items[0], JsonValue::Null);
            assert_eq!(items[1], JsonValue::Bool(false));
            assert_eq!(items[2], JsonValue::Number(JsonNumber::PosInt(7)));
            assert_eq!(items[3], JsonValue::Number(JsonNumber::NegInt(-7)));
            assert_eq!(items[4], text("s"));
            assert_eq!(items[5], JsonValue::Array(vec![]));
            assert_eq!(items[6], JsonValue::Object(JsonMap::new()));
        }
        _ => panic!("an array"),
    }
}

#[test]
fn a_number_with_a_fraction_keeps_its_text() {
    let value = parse_json("[0.25, 1e100]").ok().expect("JSON");
    match &value {
        JsonValue::Array(items) => match &items[0] {
            JsonValue::Number(JsonNumber::Float(number)) => assert_eq!(number.text(), "0.25"),
            _ => panic!("a number with a fraction"),
        },
        _ => panic!("an array"),
    }
    assert_eq!(serialize_json(&value).ok().expect("text"), "[0.25,1e+100]");
}

#[test]
fn text_is_displayed_in_quotes() {
    assert_eq!(display_json(&text("Alice")), "\"Alice\"");
    assert_eq!(display_json(&JsonValue::Number(JsonNumber::PosInt(5))), "5");
}

#[test]
fn parse_refuses_what_is_not_json() {
    assert_eq!(parse_json("{\"a\": }").err(), Some(csd_jwt::error::SdError::Decoding));
    assert_eq!(parse_json("").err(), Some(csd_jwt::error::SdError::Decoding));
}

#[test]
fn serialize_then_parse_gives_the_document_back() {
    let mut inner = JsonMap::new();
    inner.insert("name".to_string(), text("Alice"));
    inner.insert("tags".to_string(), JsonValue::Array(vec![text("a"), JsonValue::Bool(false)]));
    let value = JsonValue::Object(inner);
    let text = serialize_json(&value).ok().expect("text");
    assert_eq!(parse_json(&text), Ok(value));
}
