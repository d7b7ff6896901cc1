//! What `serde_json` does for this library: it holds the members of an
//! object in its `Map`, writes a document out as text and reads one back. A
//! document crosses over as a `serde_json::Value`.

use vstd::prelude::*;
use crate::error::SdError;
use crate::json::{distinct_keys, inserted, lookup, removed, JsonFloat, JsonMap, JsonModel,
    JsonNumber, JsonValue, Members, NumberModel};

verus! {

#[verifier::external_type_specification]
#[verifier::external_body]
pub struct ExValue(serde_json::Value);

#[verifier::external_type_specification]
#[verifier::external_body]
#[verifier::reject_recursive_types(K)]
#[verifier::reject_recursive_types(V)]
pub struct ExMap<K, V>(serde_json::Map<K, V>);

#[verifier::external_type_specification]
#[verifier::external_body]
pub struct ExNumber(serde_json::Number);

#[verifier::external_type_specification]
#[verifier::external_body]
pub struct ExError(serde_json::Error);

/// The document that a `serde_json::Value` holds.
pub uninterp spec fn outside_value(v: serde_json::Value) -> JsonModel;

/// The members that a `serde_json::Map` holds, in its order of iteration.
pub uninterp spec fn outside_members(m: serde_json::Map<String, serde_json::Value>) -> Members;

/// The number that a `serde_json::Number` holds: a whole number where it
/// holds an integer, and else the text that is printed for it.
pub uninterp spec fn outside_number(n: serde_json::Number) -> NumberModel;

/// The text that `serde_json::to_string` writes for a document, where it
/// writes one.
pub uninterp spec fn serialized_json(document: JsonModel) -> Option<Seq<char>>;

/// The text that the `Display` of a `serde_json::Value` writes for a document.
pub uninterp spec fn displayed_json(document: JsonModel) -> Seq<char>;

/// The document that `serde_json::from_str` reads from a text, where it reads
/// one.
pub uninterp spec fn parsed_json(text: Seq<char>) -> Option<JsonModel>;

/// `Clone` of a `serde_json::Number`: the same number.
#[verifier::external_body]
pub(crate) fn number_clone(n: &serde_json::Number) -> (copy: serde_json::Number)
    ensures
        outside_number(copy) == outside_number(*n),
{
    n.clone()
}

/// `to_string` of a `serde_json::Number`: the text that is printed for it,
/// which is what stands for a number that is not whole.
#[verifier::external_body]
pub(crate) fn number_to_string(n: &serde_json::Number) -> (text: String)
    ensures
        outside_number(*n) matches NumberModel::Decimal(printed) ==> text@ == printed,
{
    n.to_string()
}

/// `Number::as_u64`: the number, where it is whole and lies in `u64`.
#[verifier::external_body]
pub(crate) fn number_as_u64(n: &serde_json::Number) -> (whole: Option<u64>)
    ensures
        match whole {
            Some(u) => outside_number(*n) == NumberModel::Integer(u as int),
            None => !(outside_number(*n) matches NumberModel::Integer(v) && 0 <= v <= u64::MAX),
        },
{
    n.as_u64()
}

/// `Number::as_i64`: the number, where it is whole and lies in `i64`.
#[verifier::external_body]
pub(crate) fn number_as_i64(n: &serde_json::Number) -> (whole: Option<i64>)
    ensures
        match whole {
            Some(i) => outside_number(*n) == NumberModel::Integer(i as int),
            None => !(outside_number(*n) matches NumberModel::Integer(v) && i64::MIN <= v
                <= i64::MAX),
        },
{
    n.as_i64()
}

/// The number that a `serde_json::Number` holds: whole numbers by their
/// value, any other number as it is.
pub(crate) fn number_from_outside(n: &serde_json::Number) -> (number: JsonNumber)
    ensures
        number.model() == outside_number(*n),
{
    match number_as_u64(n) {
        Some(u) => JsonNumber::PosInt(u),
        None => match number_as_i64(n) {
            Some(i) => JsonNumber::NegInt(i),
            None => JsonNumber::Float(JsonFloat::from_number(number_clone(n))),
        },
    }
}

/// `Map::new`: a map without members.
#[verifier::external_body]
pub(crate) fn map_new() -> (m: serde_json::Map<String, serde_json::Value>)
    ensures
        outside_members(m) == Members::empty(),
{
    serde_json::Map::new()
}

/// `Map::len`: the number of members of the map. Among that many members,
/// which are all that it holds, no key occurs twice.
#[verifier::external_body]
pub(crate) fn map_len(m: &serde_json::Map<String, serde_json::Value>) -> (n: usize)
    ensures
        n == outside_members(*m).len(),
        distinct_keys(outside_members(*m).take(n as int)),
{
    m.len()
}

/// `Map::keys`: the key of the member at a position in the order of
/// iteration.
#[verifier::external_body]
pub(crate) fn map_key_at(m: &serde_json::Map<String, serde_json::Value>, i: usize) -> (key: &String)
    requires
        i < outside_members(*m).len(),
    ensures
        key@ == outside_members(*m)[i as int].0,
{
    m.keys().nth(i).unwrap()
}

/// `Map::values`: the value of the member at a position in the order of
/// iteration.
#[verifier::external_body]
pub(crate) fn map_value_at(m: &serde_json::Map<String, serde_json::Value>, i: usize) -> (v:
    &serde_json::Value)
    requires
        i < outside_members(*m).len(),
    ensures
        outside_value(*v) == outside_members(*m)[i as int].1,
{
    m.values().nth(i).unwrap()
}

/// `Map::get`: the value stored under the key, where there is one.
#[verifier::external_body]
pub(crate) fn map_get<'a>(m: &'a serde_json::Map<String, serde_json::Value>, key: &str) -> (v:
    Option<&'a serde_json::Value>)
    ensures
        match v {
            Some(value) => lookup(outside_members(*m), key@) == Some(outside_value(*value)),
            None => lookup(outside_members(*m), key@).is_none(),
        },
{
    m.get(key)
}

/// `Map::insert`: stores the value under the key and returns the value that
/// was stored there. An existing member keeps its place; a new one goes to
/// the end. No key occurs twice in the map, before or after.
#[verifier::external_body]
pub(crate) fn map_insert(
    m: &mut serde_json::Map<String, serde_json::Value>,
    key: String,
    v: serde_json::Value,
) -> (previous: Option<serde_json::Value>)
    ensures
        outside_members(*final(m)) == inserted(outside_members(*old(m)), key@, outside_value(v)),
        distinct_keys(outside_members(*old(m))),
        distinct_keys(outside_members(*final(m))),
        match previous {
            Some(value) => lookup(outside_members(*old(m)), key@) == Some(outside_value(value)),
            None => lookup(outside_members(*old(m)), key@).is_none(),
        },
{
    m.insert(key, v)
}

/// `Map::remove`, which keeps the order of insertion but for one step: it
/// takes the member with the key out, moves the last member into its place,
/// and returns the value that was stored.
#[verifier::external_body]
pub(crate) fn map_remove(m: &mut serde_json::Map<String, serde_json::Value>, key: &str) -> (previous:
    Option<serde_json::Value>)
    ensures
        outside_members(*final(m)) == removed(outside_members(*old(m)), key@),
        match previous {
            Some(value) => lookup(outside_members(*old(m)), key@) == Some(outside_value(value)),
            None => lookup(outside_members(*old(m)), key@).is_none(),
        },
{
    m.remove(key)
}

/// `Clone` of a `serde_json::Map`: a map with the same members in the same
/// order.
#[verifier::external_body]
pub(crate) fn map_clone(m: &serde_json::Map<String, serde_json::Value>) -> (copy: serde_json::Map<
    String,
    serde_json::Value,
>)
    ensures
        outside_members(copy) == outside_members(*m),
{
    m.clone()
}

/// The `serde_json::Value` that holds the same document, built variant by
/// variant.
#[verifier::external_body]
pub(crate) fn value_to_outside(value: &JsonValue) -> (v: serde_json::Value)
    ensures
        outside_value(v) == value.model(),
{
    match value {
        JsonValue::Null => serde_json::Value::Null,
        JsonValue::Bool(b) => serde_json::Value::Bool(*b),
        JsonValue::Number(JsonNumber::PosInt(u)) => serde_json::Value::from(*u),
        JsonValue::Number(JsonNumber::NegInt(i)) => serde_json::Value::from(*i),
        JsonValue::Number(JsonNumber::Float(f)) => serde_json::Value::Number(f.number().clone()),
        JsonValue::Text(s) => serde_json::Value::String(s.clone()),
        JsonValue::Array(a) => serde_json::Value::Array(a.iter().map(value_to_outside).collect()),
        JsonValue::Object(m) => serde_json::Value::Object(m.outside().clone()),
    }
}

/// The `serde_json::Map` that holds the same members in the same order.
pub(crate) fn map_to_outside(map: &JsonMap) -> (m: serde_json::Map<String, serde_json::Value>)
    ensures
        outside_members(m) == map@,
{
    map_clone(map.outside())
}

/// The document that a `serde_json::Value` holds, read variant by variant.
#[verifier::external_body]
pub(crate) fn value_from_outside(v: &serde_json::Value) -> (value: JsonValue)
    ensures
        value.model() == outside_value(*v),
{
    match v {
        serde_json::Value::Null => JsonValue::Null,
        serde_json::Value::Bool(b) => JsonValue::Bool(*b),
        serde_json::Value::Number(n) => JsonValue::Number(number_from_outside(n)),
        serde_json::Value::String(s) => JsonValue::Text(s.clone()),
        serde_json::Value::Array(a) => JsonValue::Array(a.iter().map(value_from_outside).collect()),
        serde_json::Value::Object(m) => JsonValue::Object(JsonMap::from_outside(m.clone())),
    }
}

/// The object that has the members of a `serde_json::Map`.
pub(crate) fn map_from_outside(m: &serde_json::Map<String, serde_json::Value>) -> (map: JsonMap)
    ensures
        map@ == outside_members(*m),
{
    JsonMap::from_outside(map_clone(m))
}

/// `serde_json::to_string` on a `serde_json::Value`: the compact text of the
/// document, which depends on the document alone.
#[verifier::external_body]
fn outside_to_string(v: &serde_json::Value) -> (text: Result<String, serde_json::Error>)
    ensures
        match text {
            Ok(t) => serialized_json(outside_value(*v)) == Some(t@),
            Err(_) => serialized_json(outside_value(*v)).is_none(),
        },
{
    serde_json::to_string(v)
}

/// `to_string` of a `serde_json::Value`, which goes through its `Display`:
/// the text of the document, which depends on the document alone.
#[verifier::external_body]
fn outside_display(v: &serde_json::Value) -> (text: String)
    ensures
        text@ == displayed_json(outside_value(*v)),
{
    v.to_string()
}

/// `serde_json::from_str` for a `serde_json::Value`: the document that the
/// text denotes, or an error where it denotes none.
#[verifier::external_body]
fn outside_from_str(text: &str) -> (v: Result<serde_json::Value, serde_json::Error>)
    ensures
        match v {
            Ok(document) => parsed_json(text@) == Some(outside_value(document)),
            Err(_) => parsed_json(text@).is_none(),
        },
{
    serde_json::from_str(text)
}

/// The compact JSON text of a document.
pub fn serialize_json(value: &JsonValue) -> (text: Result<String, SdError>)
    ensures
        match text {
            Ok(t) => serialized_json(value.model()) == Some(t@),
            Err(e) => e == SdError::Encoding && serialized_json(value.model()).is_none(),
        },
{
    let outside = value_to_outside(value);
    match outside_to_string(&outside) {
        Ok(text) => Ok(text),
        Err(_) => Err(SdError::Encoding),
    }
}

/// The JSON text of a document as it is shown to a reader.
pub fn display_json(value: &JsonValue) -> (text: String)
    ensures
        text@ == displayed_json(value.model()),
{
    let outside = value_to_outside(value);
    outside_display(&outside)
}

/// The document that a JSON text denotes.
pub fn parse_json(text: &str) -> (value: Result<JsonValue, SdError>)
    ensures
        match value {
            Ok(v) => parsed_json(text@) == Some(v.model()),
            Err(e) => e == SdError::Decoding && parsed_json(text@).is_none(),
        },
{
    match outside_from_str(text) {
        Ok(outside) => Ok(value_from_outside(&outside)),
        Err(_) => Err(SdError::Decoding),
    }
}

} // verus!
