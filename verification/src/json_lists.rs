//! Lists of positions and of bytes as JSON arrays of whole numbers.

use vstd::prelude::*;
use crate::json::{lemma_array_model, JsonModel, JsonNumber, JsonValue, NumberModel};
use crate::json_codec::number_as_u64;

verus! {

/// The document of a whole number.
pub open spec fn whole(n: int) -> JsonModel {
    JsonModel::Number(NumberModel::Integer(n))
}

/// The whole number that a document holds, where it holds one.
pub open spec fn whole_of(item: JsonModel) -> Option<int> {
    match item {
        JsonModel::Number(NumberModel::Integer(n)) => Some(n),
        _ => None,
    }
}

/// Whether a document is a whole number from 0 to the limit.
pub open spec fn is_whole_up_to(item: JsonModel, limit: int) -> bool {
    whole_of(item) matches Some(n) && 0 <= n <= limit
}

/// The array that lists the positions.
pub open spec fn positions_document(positions: Seq<usize>) -> JsonModel {
    JsonModel::Array(positions.map_values(|p: usize| whole(p as int)))
}

/// The positions that an array lists, where it lists positions and nothing
/// else.
pub open spec fn document_positions(document: JsonModel) -> Option<Seq<usize>> {
    match document {
        JsonModel::Array(items) => if forall|i: int|
            0 <= i < items.len() ==> is_whole_up_to(#[trigger] items[i], usize::MAX as int) {
            Some(items.map_values(|item: JsonModel| whole_of(item).unwrap() as usize))
        } else {
            None
        },
        _ => None,
    }
}

/// The array that lists the bytes.
pub open spec fn bytes_document(bytes: Seq<u8>) -> JsonModel {
    JsonModel::Array(bytes.map_values(|b: u8| whole(b as int)))
}

/// The bytes that an array lists, where it lists bytes and nothing else.
pub open spec fn document_bytes(document: JsonModel) -> Option<Seq<u8>> {
    match document {
        JsonModel::Array(items) => if forall|i: int|
            0 <= i < items.len() ==> is_whole_up_to(#[trigger] items[i], 255) {
            Some(items.map_values(|item: JsonModel| whole_of(item).unwrap() as u8))
        } else {
            None
        },
        _ => None,
    }
}

/// The whole number from 0 to the limit that a document holds.
pub fn whole_number(item: &JsonValue, limit: u64) -> (n: Option<u64>)
    ensures
        match n {
            Some(value) => is_whole_up_to(item.model(), limit as int) && whole_of(item.model())
                == Some(value as int),
            None => !is_whole_up_to(item.model(), limit as int),
        },
{
    match item {
        JsonValue::Number(JsonNumber::PosInt(u)) => if *u <= limit {
            Some(*u)
        } else {
            None
        },
        JsonValue::Number(JsonNumber::NegInt(i)) => if *i >= 0 && (*i as u64) <= limit {
            Some(*i as u64)
        } else {
            None
        },
        JsonValue::Number(JsonNumber::Float(f)) => match number_as_u64(f.number()) {
            Some(u) => if u <= limit {
                Some(u)
            } else {
                None
            },
            None => None,
        },
        _ => None,
    }
}

/// The array that lists the positions.
pub fn positions_to_json(positions: &Vec<usize>) -> (document: JsonValue)
    ensures
        document.model() == positions_document(positions@),
{
    let mut items: Vec<JsonValue> = Vec::new();
    let mut i: usize = 0;
    while i < positions.len()
        invariant
            i <= positions.len(),
            items@.len() == i,
            forall|j: int| 0 <= j < i ==> (#[trigger] items@[j]).model() == whole(positions@[j] as int),
        decreases positions.len() - i,
    {
        items.push(JsonValue::Number(JsonNumber::PosInt(positions[i] as u64)));
        i += 1;
    }
    proof {
        lemma_array_model(items);
        assert(JsonValue::Array(items).model()->Array_0 =~= positions@.map_values(
            |p: usize| whole(p as int),
        ));
    }
    JsonValue::Array(items)
}

/// The positions that an array lists.
pub fn positions_from_json(document: &JsonValue) -> (positions: Option<Vec<usize>>)
    ensures
        match positions {
            Some(p) => document_positions(document.model()) == Some(p@),
            None => document_positions(document.model()).is_none(),
        },
{
    let items = match document {
        JsonValue::Array(items) => items,
        _ => {
            return None;
        },
    };
    proof {
        lemma_array_model(*items);
    }
    let ghost models = document.model()->Array_0;
    let mut positions: Vec<usize> = Vec::new();
    let mut i: usize = 0;
    while i < items.len()
        invariant
            i <= items.len(),
            positions@.len() == i,
            models.len() == items@.len(),
            document.model() == JsonModel::Array(models),
            forall|j: int| 0 <= j < items@.len() ==> models[j] == (#[trigger] items@[j]).model(),
            forall|j: int| 0 <= j < i ==> is_whole_up_to(#[trigger] models[j], usize::MAX as int),
            forall|j: int|
                0 <= j < i ==> (#[trigger] positions@[j]) as int == whole_of(models[j]).unwrap(),
        decreases items.len() - i,
    {
        match whole_number(&items[i], usize::MAX as u64) {
            Some(n) => {
                positions.push(n as usize);
            },
            None => {
                assert(!is_whole_up_to(models[i as int], usize::MAX as int));
                return None;
            },
        }
        i += 1;
    }
    proof {
        assert(positions@ =~= models.map_values(
            |item: JsonModel| whole_of(item).unwrap() as usize,
        ));
    }
    Some(positions)
}

/// The array that lists the bytes.
pub fn bytes_to_json(bytes: &Vec<u8>) -> (document: JsonValue)
    ensures
        document.model() == bytes_document(bytes@),
{
    let mut items: Vec<JsonValue> = Vec::new();
    let mut i: usize = 0;
    while i < bytes.len()
        invariant
            i <= bytes.len(),
            items@.len() == i,
            forall|j: int| 0 <= j < i ==> (#[trigger] items@[j]).model() == whole(bytes@[j] as int),
        decreases bytes.len() - i,
    {
        items.push(JsonValue::Number(JsonNumber::PosInt(bytes[i] as u64)));
        i += 1;
    }
    proof {
        lemma_array_model(items);
        assert(JsonValue::Array(items).model()->Array_0 =~= bytes@.map_values(
            |b: u8| whole(b as int),
        ));
    }
    JsonValue::Array(items)
}

/// The bytes that an array lists.
pub fn bytes_from_json(document: &JsonValue) -> (bytes: Option<Vec<u8>>)
    ensures
        match bytes {
            Some(b) => document_bytes(document.model()) == Some(b@),
            None => document_bytes(document.model()).is_none(),
        },
{
    let items = match document {
        JsonValue::Array(items) => items,
        _ => {
            return None;
        },
    };
    proof {
        lemma_array_model(*items);
    }
    let ghost models = document.model()->Array_0;
    let mut bytes: Vec<u8> = Vec::new();
    let mut i: usize = 0;
    while i < items.len()
        invariant
            i <= items.len(),
            bytes@.len() == i,
            models.len() == items@.len(),
            document.model() == JsonModel::Array(models),
            forall|j: int| 0 <= j < items@.len() ==> models[j] == (#[trigger] items@[j]).model(),
            forall|j: int| 0 <= j < i ==> is_whole_up_to(#[trigger] models[j], 255),
            forall|j: int| 0 <= j < i ==> (#[trigger] bytes@[j]) as int == whole_of(models[j]).unwrap(),
        decreases items.len() - i,
    {
        match whole_number(&items[i], 255) {
            Some(n) => {
                bytes.push(n as u8);
            },
            None => {
                assert(!is_whole_up_to(models[i as int], 255));
                return None;
            },
        }
        i += 1;
    }
    proof {
        assert(bytes@ =~= models.map_values(|item: JsonModel| whole_of(item).unwrap() as u8));
    }
    Some(bytes)
}

} // verus!
