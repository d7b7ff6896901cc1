//! JSON documents: numbers, values, and objects that keep their members in the
//! order in which they were inserted. An object is a `serde_json::Map`; what
//! its methods do is stated here over the members that it holds.

use vstd::prelude::*;
use crate::json_codec::{map_clone, map_get, map_insert, map_key_at, map_len, map_new, map_remove,
    map_value_at, number_clone, number_to_string, outside_members, outside_number,
    value_from_outside, value_to_outside};
use crate::text::text_equal;

verus! {

/// The mathematical value of a JSON number.
pub enum NumberModel {
    /// A whole number.
    Integer(int),
    /// Any other number, by the text that is printed for it.
    Decimal(Seq<char>),
}

/// The mathematical value of a JSON document.
pub enum JsonModel {
    Null,
    Bool(bool),
    Number(NumberModel),
    Text(Seq<char>),
    Array(Seq<JsonModel>),
    Object(Seq<(Seq<char>, JsonModel)>),
}

/// The members of a JSON object, in order.
pub type Members = Seq<(Seq<char>, JsonModel)>;

/// No key occurs twice among the members.
pub open spec fn distinct_keys(m: Members) -> bool {
    forall|i: int, j: int| 0 <= i < j < m.len() ==> m[i].0 != m[j].0
}

/// Some member has the key.
pub open spec fn has_key(m: Members, key: Seq<char>) -> bool {
    exists|i: int| 0 <= i < m.len() && #[trigger] m[i].0 == key
}

/// `i` is the position of the first member with the key.
pub open spec fn is_first_match(m: Members, key: Seq<char>, i: int) -> bool {
    &&& 0 <= i < m.len()
    &&& m[i].0 == key
    &&& forall|j: int| 0 <= j < i ==> m[j].0 != key
}

/// The position of the first member with the key, where there is one.
pub open spec fn key_position(m: Members, key: Seq<char>) -> int {
    choose|i: int| is_first_match(m, key, i)
}

/// The value stored under the key, where there is one.
pub open spec fn lookup(m: Members, key: Seq<char>) -> Option<JsonModel> {
    if has_key(m, key) {
        Some(m[key_position(m, key)].1)
    } else {
        None
    }
}

/// The members after `key` is set to `value`: an existing member keeps its
/// place, a new one goes to the end.
pub open spec fn inserted(m: Members, key: Seq<char>, value: JsonModel) -> Members {
    if has_key(m, key) {
        m.update(key_position(m, key), (key, value))
    } else {
        m.push((key, value))
    }
}

/// The members after the one at `i` is taken out and the last member is moved
/// into its place.
pub open spec fn swap_removed(m: Members, i: int) -> Members {
    m.update(i, m.last()).drop_last()
}

/// The members after `key` is removed.
pub open spec fn removed(m: Members, key: Seq<char>) -> Members {
    if has_key(m, key) {
        swap_removed(m, key_position(m, key))
    } else {
        m
    }
}

/// Where a first match exists, `key_position` is that match and no other.
pub proof fn lemma_first_match(m: Members, key: Seq<char>, i: int)
    requires
        is_first_match(m, key, i),
    ensures
        has_key(m, key),
        key_position(m, key) == i,
        lookup(m, key) == Some(m[i].1),
{
    let p = key_position(m, key);
    assert(is_first_match(m, key, p));
    if p < i {
        assert(m[p].0 != key);
    } else if i < p {
        assert(m[i].0 != key);
    }
}

/// Where the key is at `at`, some position is the first that holds it.
proof fn lemma_some_first_match(m: Members, key: Seq<char>, at: int)
    requires
        0 <= at < m.len(),
        m[at].0 == key,
    ensures
        exists|i: int| is_first_match(m, key, i),
    decreases at,
{
    if exists|j: int| 0 <= j < at && m[j].0 == key {
        let j = choose|j: int| 0 <= j < at && m[j].0 == key;
        lemma_some_first_match(m, key, j);
    } else {
        assert(is_first_match(m, key, at));
    }
}

/// Where some member has the key, `key_position` is the first that has it.
pub proof fn lemma_key_position(m: Members, key: Seq<char>)
    requires
        has_key(m, key),
    ensures
        is_first_match(m, key, key_position(m, key)),
{
    let at = choose|i: int| 0 <= i < m.len() && #[trigger] m[i].0 == key;
    lemma_some_first_match(m, key, at);
}

/// Setting a key keeps every key that was there.
pub proof fn lemma_inserted_keeps_keys(m: Members, key: Seq<char>, value: JsonModel, other: Seq<char>)
    requires
        has_key(m, other),
    ensures
        has_key(inserted(m, key, value), other),
{
    let i = choose|i: int| 0 <= i < m.len() && #[trigger] m[i].0 == other;
    let after = inserted(m, key, value);
    if has_key(m, key) {
        lemma_key_position(m, key);
    }
    assert(after[i].0 == other);
}

/// After a key is set, it is there with the value.
pub proof fn lemma_inserted_lookup(m: Members, key: Seq<char>, value: JsonModel)
    requires
        distinct_keys(m),
    ensures
        lookup(inserted(m, key, value), key) == Some(value),
        distinct_keys(inserted(m, key, value)),
{
    let after = inserted(m, key, value);
    if has_key(m, key) {
        let p = key_position(m, key);
        lemma_key_position(m, key);
        assert(is_first_match(after, key, p));
        lemma_first_match(after, key, p);
    } else {
        let p = m.len() as int;
        assert forall|j: int| 0 <= j < p implies after[j].0 != key by {
            assert(m[j].0 != key);
        }
        assert(is_first_match(after, key, p));
        lemma_first_match(after, key, p);
        assert forall|a: int, b: int| 0 <= a < b < after.len() implies after[a].0 != after[b].0 by {
            if b == p {
                assert(m[a].0 != key);
            }
        }
    }
}

/// Among distinct keys, the member at a position is the one that is looked up
/// under its key.
pub proof fn lemma_lookup_at(m: Members, i: int)
    requires
        distinct_keys(m),
        0 <= i < m.len(),
    ensures
        has_key(m, m[i].0),
        key_position(m, m[i].0) == i,
        lookup(m, m[i].0) == Some(m[i].1),
{
    assert(is_first_match(m, m[i].0, i));
    lemma_first_match(m, m[i].0, i);
}

/// Setting a key leaves what is stored under any other key.
pub proof fn lemma_inserted_other(m: Members, key: Seq<char>, value: JsonModel, other: Seq<char>)
    requires
        distinct_keys(m),
        other != key,
    ensures
        lookup(inserted(m, key, value), other) == lookup(m, other),
{
    let after = inserted(m, key, value);
    lemma_inserted_lookup(m, key, value);
    if has_key(m, key) {
        lemma_key_position(m, key);
    }
    if has_key(m, other) {
        lemma_key_position(m, other);
        let i = key_position(m, other);
        assert(after[i] == m[i]);
        lemma_lookup_at(after, i);
    } else {
        if has_key(after, other) {
            let j = choose|j: int| 0 <= j < after.len() && #[trigger] after[j].0 == other;
            if j < m.len() {
                assert(m[j].0 == other);
            }
        }
    }
}

/// Removing a key leaves what is stored under any other key, and leaves the
/// keys distinct.
pub proof fn lemma_removed_other(m: Members, key: Seq<char>, other: Seq<char>)
    requires
        distinct_keys(m),
        other != key,
    ensures
        lookup(removed(m, key), other) == lookup(m, other),
        distinct_keys(removed(m, key)),
{
    let after = removed(m, key);
    if has_key(m, key) {
        lemma_key_position(m, key);
        let p = key_position(m, key);
        let last = m.len() - 1;
        assert forall|j: int| 0 <= j < after.len() implies #[trigger] after[j] == m[if j == p {
            last
        } else {
            j
        }] by {}
        assert forall|a: int, b: int| 0 <= a < b < after.len() implies after[a].0 != after[b].0 by {
            let x = if a == p {
                last
            } else {
                a
            };
            let y = if b == p {
                last
            } else {
                b
            };
            assert(after[a] == m[x]);
            assert(after[b] == m[y]);
            if x < y {
                assert(m[x].0 != m[y].0);
            } else {
                assert(m[y].0 != m[x].0);
            }
        }
        if has_key(m, other) {
            lemma_key_position(m, other);
            let i = key_position(m, other);
            let at = if i == last {
                p
            } else {
                i
            };
            assert(after[at] == m[i]);
            lemma_lookup_at(after, at);
        } else {
            if has_key(after, other) {
                let j = choose|j: int| 0 <= j < after.len() && #[trigger] after[j].0 == other;
                let x = if j == p {
                    last
                } else {
                    j
                };
                assert(after[j] == m[x]);
                assert(m[x].0 == other);
            }
        }
    }
}

/// A JSON number as `serde_json` holds it. A document that was read holds
/// the numbers that are not whole in this form.
#[derive(Debug, PartialEq, Eq)]
pub struct JsonFloat {
    number: serde_json::Number,
}

impl JsonFloat {
    /// The mathematical value of the number.
    pub closed spec fn model(self) -> NumberModel {
        outside_number(self.number)
    }

    /// The number in this form.
    pub(crate) fn from_number(number: serde_json::Number) -> (held: Self)
        ensures
            held.model() == outside_number(number),
    {
        JsonFloat { number }
    }

    /// The number as `serde_json` holds it.
    pub(crate) fn number(&self) -> (number: &serde_json::Number)
        ensures
            outside_number(*number) == self.model(),
    {
        &self.number
    }

    /// The text that is printed for the number.
    pub fn text(&self) -> (text: String)
        ensures
            self.model() matches NumberModel::Decimal(printed) ==> text@ == printed,
    {
        number_to_string(&self.number)
    }
}

/// A JSON number.
#[derive(Debug, PartialEq, Eq)]
pub enum JsonNumber {
    /// A whole number that is not negative.
    PosInt(u64),
    /// A whole number, negative where the document was read from text.
    NegInt(i64),
    /// A number as it was read, where it is not whole.
    Float(JsonFloat),
}

impl JsonNumber {
    /// The mathematical value of the number. A whole number has the same
    /// value in either of its two forms.
    pub open spec fn model(self) -> NumberModel {
        match self {
            JsonNumber::PosInt(u) => NumberModel::Integer(u as int),
            JsonNumber::NegInt(i) => NumberModel::Integer(i as int),
            JsonNumber::Float(f) => f.model(),
        }
    }
}

/// A JSON document.
#[derive(Debug, PartialEq, Eq)]
pub enum JsonValue {
    Null,
    Bool(bool),
    Number(JsonNumber),
    Text(String),
    Array(Vec<JsonValue>),
    Object(JsonMap),
}

/// A JSON object: members with distinct keys, in insertion order, held in a
/// `serde_json::Map`.
#[derive(Debug, PartialEq, Eq)]
pub struct JsonMap {
    inner: serde_json::Map<String, serde_json::Value>,
}

impl JsonValue {
    /// The mathematical value of the document.
    pub open spec fn model(self) -> JsonModel
        decreases self,
    {
        match self {
            JsonValue::Null => JsonModel::Null,
            JsonValue::Bool(b) => JsonModel::Bool(b),
            JsonValue::Number(n) => JsonModel::Number(n.model()),
            JsonValue::Text(s) => JsonModel::Text(s@),
            JsonValue::Array(a) => JsonModel::Array(
                Seq::new(
                    a@.len(),
                    |i: int|
                        if 0 <= i < a@.len() {
                            a@[i].model()
                        } else {
                            JsonModel::Null
                        },
                ),
            ),
            JsonValue::Object(m) => JsonModel::Object(m.members()),
        }
    }
}

/// The model of an array holds the models of its items, in order.
pub proof fn lemma_array_model(items: Vec<JsonValue>)
    ensures
        JsonValue::Array(items).model() is Array,
        JsonValue::Array(items).model()->Array_0.len() == items@.len(),
        forall|i: int|
            0 <= i < items@.len() ==> JsonValue::Array(items).model()->Array_0[i]
                == #[trigger] items@[i].model(),
{
}

impl JsonMap {
    /// The members of the object, in order.
    pub closed spec fn members(self) -> Members {
        outside_members(self.inner)
    }

    /// An object without members.
    pub fn new() -> (m: Self)
        ensures
            m@ == Members::empty(),
    {
        JsonMap { inner: map_new() }
    }

    /// The object that a `serde_json::Map` is.
    pub(crate) fn from_outside(inner: serde_json::Map<String, serde_json::Value>) -> (m: Self)
        ensures
            m@ == outside_members(inner),
    {
        JsonMap { inner }
    }

    /// The `serde_json::Map` that the object is.
    pub(crate) fn outside(&self) -> (inner: &serde_json::Map<String, serde_json::Value>)
        ensures
            outside_members(*inner) == self@,
    {
        &self.inner
    }

    /// The number of members. No key occurs twice among them.
    pub fn len(&self) -> (n: usize)
        ensures
            n == self@.len(),
            distinct_keys(self@),
    {
        let n = map_len(&self.inner);
        assert(self@.take(n as int) =~= self@);
        n
    }

    /// The key of the member at `i`.
    pub fn key_at(&self, i: usize) -> (k: &String)
        requires
            i < self@.len(),
        ensures
            k@ == self@[i as int].0,
    {
        map_key_at(&self.inner, i)
    }

    /// The value of the member at `i`.
    pub fn value_at(&self, i: usize) -> (v: JsonValue)
        requires
            i < self@.len(),
        ensures
            v.model() == self@[i as int].1,
    {
        value_from_outside(map_value_at(&self.inner, i))
    }

    /// The position of the member with the key.
    pub fn position(&self, key: &str) -> (p: Option<usize>)
        ensures
            match p {
                Some(i) => is_first_match(self@, key@, i as int),
                None => !has_key(self@, key@),
            },
    {
        let count = self.len();
        let mut i: usize = 0;
        while i < count
            invariant
                i <= count,
                count == self@.len(),
                forall|j: int| 0 <= j < i ==> self@[j].0 != key@,
            decreases count - i,
        {
            if text_equal(self.key_at(i).as_str(), key) {
                return Some(i);
            }
            i += 1;
        }
        None
    }

    /// The value stored under the key.
    pub fn get(&self, key: &str) -> (v: Option<JsonValue>)
        ensures
            match v {
                Some(value) => lookup(self@, key@) == Some(value.model()),
                None => lookup(self@, key@).is_none(),
            },
    {
        match map_get(&self.inner, key) {
            Some(value) => Some(value_from_outside(value)),
            None => None,
        }
    }

    /// Sets `key` to `value` and returns the value that was stored under it.
    /// An existing member keeps its place; a new one goes to the end.
    pub fn insert(&mut self, key: String, value: JsonValue) -> (previous: Option<JsonValue>)
        ensures
            final(self)@ == inserted(old(self)@, key@, value.model()),
            distinct_keys(old(self)@),
            distinct_keys(final(self)@),
            match previous {
                Some(v) => lookup(old(self)@, key@) == Some(v.model()),
                None => lookup(old(self)@, key@).is_none(),
            },
    {
        match map_insert(&mut self.inner, key, value_to_outside(&value)) {
            Some(previous) => Some(value_from_outside(&previous)),
            None => None,
        }
    }

    /// Removes the member with the key and returns its value. The last member
    /// takes the place of the one removed.
    pub fn remove(&mut self, key: &str) -> (previous: Option<JsonValue>)
        ensures
            final(self)@ == removed(old(self)@, key@),
            match previous {
                Some(v) => lookup(old(self)@, key@) == Some(v.model()),
                None => lookup(old(self)@, key@).is_none(),
            },
    {
        match map_remove(&mut self.inner, key) {
            Some(previous) => Some(value_from_outside(&previous)),
            None => None,
        }
    }
}

impl Clone for JsonFloat {
    fn clone(&self) -> (copy: Self)
        ensures
            copy.model() == self.model(),
    {
        JsonFloat { number: number_clone(&self.number) }
    }
}

impl Clone for JsonNumber {
    fn clone(&self) -> (copy: Self)
        ensures
            copy.model() == self.model(),
    {
        match self {
            JsonNumber::PosInt(u) => JsonNumber::PosInt(*u),
            JsonNumber::NegInt(i) => JsonNumber::NegInt(*i),
            JsonNumber::Float(f) => JsonNumber::Float(f.clone()),
        }
    }
}

impl Clone for JsonValue {
    fn clone(&self) -> (copy: Self)
        ensures
            copy.model() == self.model(),
        decreases self,
    {
        match self {
            JsonValue::Null => JsonValue::Null,
            JsonValue::Bool(b) => JsonValue::Bool(*b),
            JsonValue::Number(n) => JsonValue::Number(n.clone()),
            JsonValue::Text(s) => JsonValue::Text(s.clone()),
            JsonValue::Array(items) => {
                let mut copies: Vec<JsonValue> = Vec::new();
                let mut i: usize = 0;
                while i < items.len()
                    invariant
                        i <= items.len(),
                        copies.len() == i,
                        *self == JsonValue::Array(*items),
                        decreases_to!(*self => *items),
                        forall|j: int| 0 <= j < i ==> copies@[j].model() == items@[j].model(),
                    decreases items.len() - i,
                {
                    assert(decreases_to!(*items => items[i as int]));
                    copies.push(items[i].clone());
                    i += 1;
                }
                let copy = JsonValue::Array(copies);
                assert(copy.model() =~= self.model()) by {
                    assert(copy.model()->Array_0 =~= self.model()->Array_0);
                }
                copy
            },
            JsonValue::Object(m) => JsonValue::Object(m.clone()),
        }
    }
}

impl Clone for JsonMap {
    fn clone(&self) -> (copy: Self)
        ensures
            copy@ == self@,
    {
        JsonMap { inner: map_clone(&self.inner) }
    }
}

impl View for JsonMap {
    type V = Members;

    open spec fn view(&self) -> Members {
        self.members()
    }
}

} // verus!
