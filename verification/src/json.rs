//! A JSON value as the request layer reads and builds it.
//!
//! Objects keep their members in order; a lookup finds the first member
//! with the key. Numbers keep the three forms that JSON texts carry:
//! non-negative integers, negative integers, and other numbers as their
//! decimal text. JSON text is read and written by serde_json, through the
//! trusted items at the end of this file.

use vstd::prelude::*;
use serde_json::Value;

verus! {

/// A JSON number.
#[derive(Debug)]
pub enum JsonNumber {
    /// A non-negative integer.
    PosInt(u64),
    /// A negative integer.
    NegInt(i64),
    /// Any other number, as its decimal text.
    Float(String),
}

/// A JSON value.
#[derive(Debug)]
pub enum JsonValue {
    Null,
    Bool(bool),
    Number(JsonNumber),
    Str(String),
    Array(Vec<JsonValue>),
    Object(Vec<(String, JsonValue)>),
}

/// The value of the first member of `entries` whose key is `key`.
pub open spec fn lookup(entries: Seq<(String, JsonValue)>, key: Seq<char>) -> Option<JsonValue>
    decreases entries.len(),
{
    if entries.len() == 0 {
        None
    } else if entries[0].0@ == key {
        Some(entries[0].1)
    } else {
        lookup(entries.drop_first(), key)
    }
}

/// `v[key]` for an object, nothing for any other value.
pub open spec fn get(v: JsonValue, key: Seq<char>) -> Option<JsonValue> {
    match v {
        JsonValue::Object(entries) => lookup(entries@, key),
        _ => None,
    }
}

pub open spec fn as_str(v: JsonValue) -> Option<Seq<char>> {
    match v {
        JsonValue::Str(s) => Some(s@),
        _ => None,
    }
}

pub open spec fn as_u64(v: JsonValue) -> Option<u64> {
    match v {
        JsonValue::Number(JsonNumber::PosInt(n)) => Some(n),
        _ => None,
    }
}

pub open spec fn as_bool(v: JsonValue) -> Option<bool> {
    match v {
        JsonValue::Bool(b) => Some(b),
        _ => None,
    }
}

pub open spec fn as_array(v: JsonValue) -> Option<Seq<JsonValue>> {
    match v {
        JsonValue::Array(items) => Some(items@),
        _ => None,
    }
}

/// `get` followed by `as_str`.
pub open spec fn get_str(v: JsonValue, key: Seq<char>) -> Option<Seq<char>> {
    match get(v, key) {
        Some(x) => as_str(x),
        None => None,
    }
}

/// `get` followed by `as_u64`.
pub open spec fn get_u64(v: JsonValue, key: Seq<char>) -> Option<u64> {
    match get(v, key) {
        Some(x) => as_u64(x),
        None => None,
    }
}

/// `get` followed by `as_bool`.
pub open spec fn get_bool(v: JsonValue, key: Seq<char>) -> Option<bool> {
    match get(v, key) {
        Some(x) => as_bool(x),
        None => None,
    }
}

/// `get` followed by `as_array`.
pub open spec fn get_array(v: JsonValue, key: Seq<char>) -> Option<Seq<JsonValue>> {
    match get(v, key) {
        Some(x) => as_array(x),
        None => None,
    }
}

pub open spec fn deref_opt<'a>(r: Option<&'a JsonValue>) -> Option<JsonValue> {
    match r {
        Some(x) => Some(*x),
        None => None,
    }
}

fn str_eq(a: &str, b: &str) -> (r: bool)
    ensures
        r == (a@ == b@),
{
    let x = crate::text::chars_of(a);
    let y = crate::text::chars_of(b);
    if x.len() != y.len() {
        return false;
    }
    let mut i: usize = 0;
    while i < x.len()
        invariant
            x@ == a@,
            y@ == b@,
            x.len() == y.len(),
            i <= x.len(),
            forall|j: int| 0 <= j < i ==> x@[j] == y@[j],
        decreases x.len() - i,
    {
        if x[i] != y[i] {
            return false;
        }
        i = i + 1;
    }
    assert(x@ =~= y@);
    true
}

/// Text equality of two strings.
pub fn text_eq(a: &str, b: &str) -> (r: bool)
    ensures
        r == (a@ == b@),
{
    str_eq(a, b)
}

/// `v[key]`: the value of the first member named `key`, if `v` is an object.
pub fn json_get<'a>(v: &'a JsonValue, key: &str) -> (r: Option<&'a JsonValue>)
    ensures
        deref_opt(r) == get(*v, key@),
{
    match v {
        JsonValue::Object(entries) => {
            let mut i: usize = 0;
            assert(entries@.subrange(0, entries@.len() as int) =~= entries@);
            while i < entries.len()
                invariant
                    *v == JsonValue::Object(*entries),
                    i <= entries.len(),
                    lookup(entries@, key@) == lookup(entries@.subrange(i as int, entries@.len() as int), key@),
                decreases entries.len() - i,
            {
                let ghost rest = entries@.subrange(i as int, entries@.len() as int);
                assert(rest.drop_first() =~= entries@.subrange(i + 1, entries@.len() as int));
                assert(rest[0] == entries@[i as int]);
                if str_eq(entries[i].0.as_str(), key) {
                    return Some(&entries[i].1);
                }
                i = i + 1;
            }
            None
        },
        _ => None,
    }
}

pub fn json_as_str(v: &JsonValue) -> (r: Option<&str>)
    ensures
        match r {
            Some(s) => as_str(*v) == Some(s@),
            None => as_str(*v) is None,
        },
{
    match v {
        JsonValue::Str(s) => Some(s.as_str()),
        _ => None,
    }
}

pub fn json_as_u64(v: &JsonValue) -> (r: Option<u64>)
    ensures
        r == as_u64(*v),
{
    match v {
        JsonValue::Number(JsonNumber::PosInt(n)) => Some(*n),
        _ => None,
    }
}

pub fn json_as_bool(v: &JsonValue) -> (r: Option<bool>)
    ensures
        r == as_bool(*v),
{
    match v {
        JsonValue::Bool(b) => Some(*b),
        _ => None,
    }
}

pub fn json_as_array(v: &JsonValue) -> (r: Option<&Vec<JsonValue>>)
    ensures
        match r {
            Some(a) => as_array(*v) == Some(a@),
            None => as_array(*v) is None,
        },
{
    match v {
        JsonValue::Array(items) => Some(items),
        _ => None,
    }
}

/// `i` is the position of the first member of `es` whose key is `key`.
pub open spec fn is_first_key(es: Seq<(String, JsonValue)>, key: Seq<char>, i: int) -> bool {
    &&& 0 <= i < es.len()
    &&& es[i].0@ == key
    &&& forall|j: int| 0 <= j < i ==> es[j].0@ != key
}

pub proof fn lemma_lookup_first(es: Seq<(String, JsonValue)>, key: Seq<char>, i: int)
    requires
        is_first_key(es, key, i),
    ensures
        lookup(es, key) == Some(es[i].1),
    decreases i,
{
    if i > 0 {
        assert(is_first_key(es.drop_first(), key, i - 1));
        lemma_lookup_first(es.drop_first(), key, i - 1);
    }
}

pub proof fn lemma_lookup_absent(es: Seq<(String, JsonValue)>, key: Seq<char>)
    requires
        forall|j: int| 0 <= j < es.len() ==> es[j].0@ != key,
    ensures
        lookup(es, key) is None,
    decreases es.len(),
{
    if es.len() > 0 {
        assert forall|j: int| 0 <= j < es.drop_first().len() implies es.drop_first()[j].0@ != key by {
            assert(es.drop_first()[j] == es[j + 1]);
        }
        lemma_lookup_absent(es.drop_first(), key);
    }
}

/// Removing the first member with one key leaves the lookups of every other key.
pub proof fn lemma_lookup_remove_other(es: Seq<(String, JsonValue)>, key: Seq<char>, i: int, other: Seq<char>)
    requires
        is_first_key(es, key, i),
        other != key,
    ensures
        lookup(es.remove(i), other) == lookup(es, other),
    decreases i,
{
    if i == 0 {
        assert(es.remove(0) =~= es.drop_first());
    } else {
        assert(es.remove(i).drop_first() =~= es.drop_first().remove(i - 1));
        assert(es.remove(i)[0] == es[0]);
        assert(is_first_key(es.drop_first(), key, i - 1));
        lemma_lookup_remove_other(es.drop_first(), key, i - 1, other);
    }
}

/// Takes the value of the first member named `key` out of `entries`; the
/// lookups of all other keys are left as they were.
pub fn take_member(entries: &mut Vec<(String, JsonValue)>, key: &str) -> (r: Option<JsonValue>)
    ensures
        r == lookup(old(entries)@, key@),
        forall|other: Seq<char>| other != key@ ==> lookup(final(entries)@, other) == lookup(old(entries)@, other),
{
    let mut i: usize = 0;
    while i < entries.len()
        invariant
            entries@ == old(entries)@,
            i <= entries.len(),
            forall|j: int| 0 <= j < i ==> entries@[j].0@ != key@,
        decreases entries.len() - i,
    {
        if str_eq(entries[i].0.as_str(), key) {
            let ghost before = entries@;
            proof {
                lemma_lookup_first(before, key@, i as int);
                assert forall|other: Seq<char>| other != key@ implies lookup(before.remove(i as int), other) == lookup(before, other) by {
                    lemma_lookup_remove_other(before, key@, i as int, other);
                }
            }
            let (_, v) = entries.remove(i);
            return Some(v);
        }
        i = i + 1;
    }
    proof {
        lemma_lookup_absent(entries@, key@);
    }
    None
}

/// A string value.
pub fn json_text(x: &str) -> (r: JsonValue)
    ensures
        r is Str,
        as_str(r) == Some(x@),
{
    JsonValue::Str(crate::text::string_of(x))
}

/// An object member.
pub fn json_member(k: &str, v: JsonValue) -> (r: (String, JsonValue))
    ensures
        r.0@ == k@,
        r.1 == v,
{
    (crate::text::string_of(k), v)
}

/// The JSON number of a non-negative integer.
pub open spec fn uint_json(n: u64) -> JsonValue {
    JsonValue::Number(JsonNumber::PosInt(n))
}

/// The JSON number of a non-negative integer.
pub fn json_u64(n: u64) -> (r: JsonValue)
    ensures
        r == uint_json(n),
{
    JsonValue::Number(JsonNumber::PosInt(n))
}

/// The JSON number of an integer.
pub open spec fn int_json(i: i64) -> JsonValue {
    if i < 0 {
        JsonValue::Number(JsonNumber::NegInt(i))
    } else {
        JsonValue::Number(JsonNumber::PosInt(i as u64))
    }
}

/// The JSON number of an integer.
pub fn json_int(i: i64) -> (r: JsonValue)
    ensures
        r == int_json(i),
{
    if i < 0 {
        JsonValue::Number(JsonNumber::NegInt(i))
    } else {
        JsonValue::Number(JsonNumber::PosInt(i as u64))
    }
}

/// The value that serde_json reads from a JSON text (`serde_json::from_str`
/// into a `serde_json::Value`, taken member by member into a `JsonValue`), or
/// nothing when the text is not JSON.
pub uninterp spec fn parsed_json(text: Seq<char>) -> Option<JsonValue>;

/// The message of serde_json's error for a text that is not JSON.
pub uninterp spec fn json_parse_error(text: Seq<char>) -> Seq<char>;

/// The JSON text that serde_json writes for a value (`Value::to_string`).
pub uninterp spec fn json_text_of(v: JsonValue) -> Seq<char>;

#[verifier::external_type_specification]
#[verifier::external_body]
pub struct ExSerdeValue(serde_json::Value);

/// Takes a `serde_json::Value` over into a `JsonValue`, variant by variant
/// (a number as the form serde_json holds it in). This is the conversion part
/// of `parse_json`, apart only because it recurses; it promises nothing.
#[verifier::external_body]
fn from_serde(v: Value) -> JsonValue {
    match v {
        Value::Null => JsonValue::Null,
        Value::Bool(b) => JsonValue::Bool(b),
        Value::Number(n) => JsonValue::Number(match (n.as_u64(), n.as_i64()) {
            (Some(u), _) => JsonNumber::PosInt(u),
            (None, Some(i)) => JsonNumber::NegInt(i),
            (None, None) => JsonNumber::Float(n.to_string()),
        }),
        Value::String(s) => JsonValue::Str(s),
        Value::Array(items) => JsonValue::Array(items.into_iter().map(from_serde).collect()),
        Value::Object(members) => JsonValue::Object(members.into_iter().map(|(k, v)| (k, from_serde(v))).collect()),
    }
}

/// Takes a `JsonValue` over into a `serde_json::Value`, variant by variant
/// (a number written as decimal text is read back by serde_json). This is the
/// conversion part of `to_json_text`, apart only because it recurses; it
/// promises nothing.
#[verifier::external_body]
fn to_serde(v: &JsonValue) -> Value {
    match v {
        JsonValue::Null => Value::Null,
        JsonValue::Bool(b) => Value::Bool(*b),
        JsonValue::Number(JsonNumber::PosInt(u)) => Value::from(*u),
        JsonValue::Number(JsonNumber::NegInt(i)) => Value::from(*i),
        JsonValue::Number(JsonNumber::Float(t)) => t.parse().map(Value::Number).unwrap_or(Value::Null),
        JsonValue::Str(s) => Value::String(s.clone()),
        JsonValue::Array(items) => Value::Array(items.iter().map(to_serde).collect()),
        JsonValue::Object(members) => Value::Object(members.iter().map(|(k, v)| (k.clone(), to_serde(v))).collect()),
    }
}

/// serde_json's `from_str` on a JSON text, its result named by `parsed_json`
/// and its error message by `json_parse_error`.
#[verifier::external_body]
pub(crate) fn parse_json(text: &str) -> (r: Result<JsonValue, String>)
    ensures
        match parsed_json(text@) {
            Some(v) => r matches Ok(w) && w == v,
            None => r matches Err(e) && e@ == json_parse_error(text@),
        },
{
    match serde_json::from_str::<Value>(text) {
        Ok(v) => Ok(from_serde(v)),
        Err(e) => Err(e.to_string()),
    }
}

/// serde_json's `to_string` of a value, its result named by `json_text_of`.
#[verifier::external_body]
pub(crate) fn to_json_text(v: &JsonValue) -> (r: String)
    ensures
        r@ == json_text_of(*v),
{
    to_serde(v).to_string()
}

} // verus!
