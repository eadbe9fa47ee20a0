//! The boundary to `serde_json`.
//!
//! A [`serde_json::Value`] is opaque to the verifier. This module gives it a
//! mathematical content, [`Json`], and states for each `serde_json` operation
//! the library uses what the operation does to that content. Nothing in this
//! file is proved: every function here is a statement about `serde_json`
//! as it is built here, without its features `preserve_order` and
//! `arbitrary_precision`: an object keeps its members by key, and a number
//! is an integer of 64 bits or a float.

use crate::named::{distinct_names, entries_map};
use serde_json::Value;
use vstd::prelude::*;

verus! {

/// `serde_json::Value`, known to the verifier as a type and no more: what a
/// value holds is said by `json_of`.
#[verifier::external_type_specification]
#[verifier::external_body]
pub struct ExValue(serde_json::Value);

/// `serde_json::Error`, known to the verifier as a type and no more.
#[verifier::external_type_specification]
#[verifier::external_body]
pub struct ExJsonError(serde_json::Error);

/// A JSON document as a mathematical value.
pub enum Json {
    Null,
    Bool(bool),
    /// An integer number. `serde_json` holds the integers from `i64::MIN` to
    /// `u64::MAX`.
    Int(int),
    /// A number written with a fraction or an exponent. The payload tells
    /// such numbers apart; the library never looks inside.
    Real(int),
    Str(Seq<char>),
    Array(Seq<Json>),
    Object(Map<Seq<char>, Json>),
}

impl Json {
    /// The member of an object under `key`; `None` for a missing key and for
    /// anything that is not an object.
    pub open spec fn member(self, key: Seq<char>) -> Option<Json> {
        match self {
            Json::Object(fields) => if fields.contains_key(key) {
                Some(fields[key])
            } else {
                None
            },
            _ => None,
        }
    }

    /// The integer, where it fits `i64`.
    pub open spec fn as_i64(self) -> Option<i64> {
        match self {
            Json::Int(n) => if i64::MIN <= n <= i64::MAX {
                Some(n as i64)
            } else {
                None
            },
            _ => None,
        }
    }

    /// The integer, where it fits `u64`.
    pub open spec fn as_u64(self) -> Option<u64> {
        match self {
            Json::Int(n) => if 0 <= n <= u64::MAX {
                Some(n as u64)
            } else {
                None
            },
            _ => None,
        }
    }

    /// The text, of a string.
    pub open spec fn as_str(self) -> Option<Seq<char>> {
        match self {
            Json::Str(s) => Some(s),
            _ => None,
        }
    }

    /// The truth value, of a boolean.
    pub open spec fn as_bool(self) -> Option<bool> {
        match self {
            Json::Bool(b) => Some(b),
            _ => None,
        }
    }

    /// The items, of an array.
    pub open spec fn as_array(self) -> Option<Seq<Json>> {
        match self {
            Json::Array(items) => Some(items),
            _ => None,
        }
    }

    /// The object with `key` set to `value`, whatever it held there before.
    pub open spec fn with(self, key: Seq<char>, value: Json) -> Json {
        Json::Object(self->Object_0.insert(key, value))
    }

    /// The object without members.
    pub open spec fn empty_object() -> Json {
        Json::Object(Map::empty())
    }
}

/// The content of a `serde_json::Value`.
pub uninterp spec fn json_of(value: Value) -> Json;

/// What `serde_json::from_str` reads from a text: the document, or `None`
/// where the text is not one JSON document.
pub uninterp spec fn json_parse(text: Seq<char>) -> Option<Json>;

/// What `serde_json::to_string` writes for a document: the compact text, or
/// `None` where it writes none.
pub uninterp spec fn json_text(json: Json) -> Option<Seq<char>>;

/// What `serde_json::to_string_pretty` writes for a document: the indented
/// text, or `None` where it writes none.
pub uninterp spec fn json_pretty_text(json: Json) -> Option<Seq<char>>;

/// The content of a value that may be missing.
pub open spec fn optional_json(value: Option<Value>) -> Option<Json> {
    match value {
        Some(value) => Some(json_of(value)),
        None => None,
    }
}

/// The contents of a sequence of values, item by item.
pub open spec fn jsons_of(values: Seq<Value>) -> Seq<Json> {
    Seq::new(values.len(), |i: int| json_of(values[i]))
}

/// `serde_json::from_str::<Value>`: parses one JSON document. Claimed: the
/// call succeeds exactly on the texts that `json_parse` reads, and the value
/// holds the document read.
#[verifier::external_body]
pub(crate) fn parse(text: &str) -> (result: Result<Value, serde_json::Error>)
    ensures
        match result {
            Ok(value) => json_parse(text@) == Some(json_of(value)),
            Err(_) => json_parse(text@) is None,
        },
{
    serde_json::from_str::<Value>(text)
}

/// Whether a text holds no line feed.
pub open spec fn single_line(text: Seq<char>) -> bool {
    forall|i: int| 0 <= i < text.len() ==> text[i] != '\n'
}

/// `serde_json::to_string` on a `Value`. Claimed: whether a text comes back,
/// and which, rests on the value's content alone, as `json_text` says; and a
/// text that comes back holds no line feed: the compact form has no
/// whitespace between its parts, and line feeds inside strings are written
/// as escapes.
#[verifier::external_body]
pub(crate) fn to_text(value: &Value) -> (result: Result<String, serde_json::Error>)
    ensures
        match result {
            Ok(text) => json_text(json_of(*value)) == Some(text@) && single_line(text@),
            Err(_) => json_text(json_of(*value)) is None,
        },
{
    serde_json::to_string(value)
}

/// `serde_json::to_string_pretty` on a `Value`. Claimed: whether a text
/// comes back, and which, rests on the value's content alone, as
/// `json_pretty_text` says.
#[verifier::external_body]
pub(crate) fn to_pretty_text(value: &Value) -> (result: Result<String, serde_json::Error>)
    ensures
        match result {
            Ok(text) => json_pretty_text(json_of(*value)) == Some(text@),
            Err(_) => json_pretty_text(json_of(*value)) is None,
        },
{
    serde_json::to_string_pretty(value)
}

/// The `Display` text of a `serde_json::Error`. Nothing is claimed of it.
#[verifier::external_body]
pub(crate) fn error_text(error: &serde_json::Error) -> String {
    error.to_string()
}

/// `Clone` for `Value`. Claimed: the copy has the same content.
#[verifier::external_body]
pub(crate) fn copy(value: &Value) -> (result: Value)
    ensures
        json_of(result) == json_of(*value),
{
    value.clone()
}

/// `Value::get` with a string index. Claimed: it finds the member of an
/// object under `key`, and nothing in any other value.
#[verifier::external_body]
pub(crate) fn member<'a>(value: &'a Value, key: &str) -> (result: Option<&'a Value>)
    ensures
        match result {
            Some(found) => json_of(*value).member(key@) == Some(json_of(*found)),
            None => json_of(*value).member(key@) is None,
        },
{
    value.get(key)
}

/// `Value::as_i64`. Claimed: `Some` exactly for an integer within `i64`.
#[verifier::external_body]
pub(crate) fn as_i64(value: &Value) -> (result: Option<i64>)
    ensures
        result == json_of(*value).as_i64(),
{
    value.as_i64()
}

/// `Value::as_u64`. Claimed: `Some` exactly for an integer within `u64`.
#[verifier::external_body]
pub(crate) fn as_u64(value: &Value) -> (result: Option<u64>)
    ensures
        result == json_of(*value).as_u64(),
{
    value.as_u64()
}

/// `Value::as_str`. Claimed: `Some` exactly for a string, with its text.
#[verifier::external_body]
pub(crate) fn as_str<'a>(value: &'a Value) -> (result: Option<&'a str>)
    ensures
        match result {
            Some(text) => json_of(*value).as_str() == Some(text@),
            None => json_of(*value).as_str() is None,
        },
{
    value.as_str()
}

/// `Value::as_bool`. Claimed: `Some` exactly for a boolean.
#[verifier::external_body]
pub(crate) fn as_bool(value: &Value) -> (result: Option<bool>)
    ensures
        result == json_of(*value).as_bool(),
{
    value.as_bool()
}

/// `Value::is_null`.
#[verifier::external_body]
pub(crate) fn is_null(value: &Value) -> (result: bool)
    ensures
        result == (json_of(*value) is Null),
{
    value.is_null()
}

/// `Value::is_object`.
#[verifier::external_body]
pub(crate) fn is_object(value: &Value) -> (result: bool)
    ensures
        result == (json_of(*value) is Object),
{
    value.is_object()
}

/// `Value::as_array`. Claimed: `Some` exactly for an array, with its items
/// in order.
#[verifier::external_body]
pub(crate) fn as_array<'a>(value: &'a Value) -> (result: Option<&'a Vec<Value>>)
    ensures
        match result {
            Some(items) => json_of(*value).as_array() == Some(jsons_of(items@)),
            None => json_of(*value).as_array() is None,
        },
{
    value.as_array()
}

/// The names and contents of a list of named values.
pub open spec fn named_jsons(list: Seq<(String, Value)>) -> Seq<(Seq<char>, Json)> {
    Seq::new(list.len(), |i: int| (list[i].0@, json_of(list[i].1)))
}

/// `Value::as_object` and a walk over the map, each entry copied. Claimed:
/// `Some` exactly for an object; the list then names no key twice, and the
/// map that it stands for is the object.
#[verifier::external_body]
pub(crate) fn entries(value: &Value) -> (result: Option<Vec<(String, Value)>>)
    ensures
        match result {
            Some(list) => distinct_names(named_jsons(list@)) && json_of(*value) == Json::Object(
                entries_map(named_jsons(list@)),
            ),
            None => !(json_of(*value) is Object),
        },
{
    value.as_object().map(|map| map.iter().map(|(k, v)| (k.clone(), v.clone())).collect())
}

/// `Value::Null`.
#[verifier::external_body]
pub(crate) fn null() -> (result: Value)
    ensures
        json_of(result) == Json::Null,
{
    Value::Null
}

/// `Value::from(bool)`.
#[verifier::external_body]
pub(crate) fn boolean(flag: bool) -> (result: Value)
    ensures
        json_of(result) == Json::Bool(flag),
{
    Value::from(flag)
}

/// `Value::from(i64)`.
#[verifier::external_body]
pub(crate) fn integer(number: i64) -> (result: Value)
    ensures
        json_of(result) == Json::Int(number as int),
{
    Value::from(number)
}

/// `Value::from(u64)`.
#[verifier::external_body]
pub(crate) fn unsigned(number: u64) -> (result: Value)
    ensures
        json_of(result) == Json::Int(number as int),
{
    Value::from(number)
}

/// `Value::from(&str)`.
#[verifier::external_body]
pub(crate) fn string(text: &str) -> (result: Value)
    ensures
        json_of(result) == Json::Str(text@),
{
    Value::from(text)
}

/// `Value::from(Vec<Value>)`. Claimed: an array of the items in order.
#[verifier::external_body]
pub(crate) fn array(items: Vec<Value>) -> (result: Value)
    ensures
        json_of(result) == Json::Array(jsons_of(items@)),
{
    Value::from(items)
}

/// `Value::Object` of an empty `serde_json::Map`.
#[verifier::external_body]
pub(crate) fn object() -> (result: Value)
    ensures
        json_of(result) == Json::empty_object(),
{
    Value::Object(serde_json::Map::new())
}

/// Assignment through `Value`'s `IndexMut<&str>`. On an object it sets the
/// member under `key`, new or not; on other values but null it panics, which
/// `requires` leaves out.
#[verifier::external_body]
pub(crate) fn set_member(target: &mut Value, key: &str, value: Value)
    requires
        json_of(*old(target)) is Object,
    ensures
        json_of(*final(target)) == json_of(*old(target)).with(key@, json_of(value)),
{
    target[key] = value;
}

} // verus!
