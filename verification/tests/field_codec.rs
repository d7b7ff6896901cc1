use csd_jwt::error::SdError;
use csd_jwt::json::{JsonMap, JsonNumber, JsonValue};
use csd_jwt::sd_algorithms::accumulators::csd_jwt::CsdJwtInstance;
use csd_jwt::sd_algorithms::sd_algorithm::SdAlgorithm;

fn text(value: &str) -> JsonValue {
    JsonValue::Text(value.to_string())
}

#[test]
fn a_field_holds_the_json_text_in_base64url() {
    let mut map = JsonMap::new();
    assert_eq!(CsdJwtInstance::serialize_and_insert(&mut map, "f".to_string(), &text("abc")), Ok(()));
    assert_eq!(map.get("f"), Some(text("ImFiYyI")));
    let mut object = JsonMap::new();
    object.insert("a".to_string(), JsonValue::Number(JsonNumber::PosInt(1)));
    assert_eq!(
        CsdJwtInstance::serialize_and_insert(&mut map, "g".to_string(), &JsonValue::Object(object)),
        Ok(())
    );
    assert_eq!(map.get("g"), Some(text("eyJhIjoxfQ")));
}

#[test]
fn a_field_replaces_what_was_there() {
    let mut map = JsonMap::new();
    map.insert("f".to_string(), JsonValue::Bool(true));
    map.insert("g".to_string(), JsonValue::Null);
    assert_eq!(CsdJwtInstance::serialize_and_insert(&mut map, "f".to_string(), &text("abc")), Ok(()));
    assert_eq!(map.len(), 2);
    assert_eq!(map.key_at(0), "f");
    assert_eq!(map.value_at(0), text("ImFiYyI"));
}

#[test]
fn what_is_stored_in_a_field_is_read_back() {
    let mut inner = JsonMap::new();
    inner.insert("name".to_string(), JsonValue::Array(vec![text("w"), text("Alice")]));
    inner.insert("n".to_string(), JsonValue::Number(JsonNumber::NegInt(-12)));
    let values = vec![
        JsonValue::Null,
        JsonValue::Bool(true),
        JsonValue::Number(JsonNumber::PosInt(18446744073709551615)),
        text("Z\u{fc}rich \"quoted\""),
        JsonValue::Array(vec![JsonValue::Number(JsonNumber::PosInt(0)), text("")]),
        JsonValue::Object(inner),
    ];
    for value in values {
        let mut map = JsonMap::new();
        assert_eq!(CsdJwtInstance::serialize_and_insert(&mut map, "field".to_string(), &value), Ok(()));
        assert_eq!(CsdJwtInstance::get_and_decode(&map, "field".to_string()), Ok(value));
    }
}

#[test]
fn reading_an_absent_field_fails() {
    let map = JsonMap::new();
    assert_eq!(CsdJwtInstance::get_and_decode(&map, "wvc".to_string()), Err(SdError::MissingField));
}

#[test]
fn reading_a_field_that_is_no_text_fails() {
    let mut map = JsonMap::new();
    map.insert("wvc".to_string(), JsonValue::Bool(true));
    assert_eq!(CsdJwtInstance::get_and_decode(&map, "wvc".to_string()), Err(SdError::MalformedField));
}

#[test]
fn reading_a_field_that_is_not_base64url_fails() {
    let mut map = JsonMap::new();
    map.insert("wvc".to_string(), text("not base64!"));
    assert_eq!(CsdJwtInstance::get_and_decode(&map, "wvc".to_string()), Err(SdError::Decoding));
}

#[test]
fn reading_a_field_that_is_not_utf8_fails() {
    let mut map = JsonMap::new();
    map.insert("wvc".to_string(), text("_w"));
    assert_eq!(CsdJwtInstance::get_and_decode(&map, "wvc".to_string()), Err(SdError::Decoding));
}

#[test]
fn reading_a_field_that_is_not_json_fails() {
    let mut map = JsonMap::new();
    map.insert("wvc".to_string(), text("YWJj"));
    assert_eq!(CsdJwtInstance::get_and_decode(&map, "wvc".to_string()), Err(SdError::Decoding));
}
