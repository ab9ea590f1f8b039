//! JSON values as the gateway exchanges them, held in `serde_json::Value`.
//!
//! A `Value` is opaque to the verifier. What it holds is described by
//! [`json_model`], and every function here that touches a `Value` states its
//! effect in terms of that model. None of these functions is proved: each
//! hands its arguments to `serde_json` and says what `serde_json` does.
//!
//! `serde_json` is used with its default features: the members of an object
//! are a map that is ordered by key, and a number is an unsigned integer, a
//! negative integer or a finite double.

use std::str::FromStr;
use vstd::prelude::*;

verus! {

/// A JSON number, told apart the way `serde_json` keeps it.
pub enum JsonNumber {
    /// A non-negative integer.
    PosInt(u64),
    /// An integer below zero.
    NegInt(i64),
    /// A finite double, identified by its bit pattern.
    Float(int),
}

/// The content of a JSON value.
pub enum JsonModel {
    Null,
    Bool(bool),
    Number(JsonNumber),
    Text(Seq<char>),
    Array(Seq<JsonModel>),
    Object(Map<Seq<char>, JsonModel>),
}

impl JsonModel {
    /// The member of an object under a key.
    pub open spec fn get(self, key: Seq<char>) -> Option<JsonModel> {
        match self {
            JsonModel::Object(members) if members.contains_key(key) => Some(members[key]),
            _ => None,
        }
    }

    /// The integer of a number that is a non-negative integer.
    pub open spec fn as_u64(self) -> Option<u64> {
        match self {
            JsonModel::Number(JsonNumber::PosInt(n)) => Some(n),
            _ => None,
        }
    }

    /// The text of a string.
    pub open spec fn as_str(self) -> Option<Seq<char>> {
        match self {
            JsonModel::Text(content) => Some(content),
            _ => None,
        }
    }

    /// The items of an array.
    pub open spec fn as_array(self) -> Option<Seq<JsonModel>> {
        match self {
            JsonModel::Array(items) => Some(items),
            _ => None,
        }
    }
}

/// `serde_json::Value`, carried as it is; nothing is known of its inside.
#[verifier::external_type_specification]
#[verifier::external_body]
pub struct ExValue(serde_json::Value);

/// `serde_json::Error`, carried as it is; nothing is known of its inside.
#[verifier::external_type_specification]
#[verifier::external_body]
pub struct ExJsonError(serde_json::Error);

/// What a `serde_json::Value` holds.
pub uninterp spec fn json_model(value: serde_json::Value) -> JsonModel;

/// The value that `serde_json` reads from a text; `None` where it rejects the text.
pub uninterp spec fn json_parse(text: Seq<char>) -> Option<JsonModel>;

/// The compact text that `serde_json` prints for a value.
pub uninterp spec fn json_text(model: JsonModel) -> Seq<char>;

/// The contents of a sequence of values, item by item.
pub open spec fn models(values: Seq<serde_json::Value>) -> Seq<JsonModel> {
    values.map_values(|v: serde_json::Value| json_model(v))
}

/// `<serde_json::Value as FromStr>::from_str`: whether the text is accepted
/// and what the value then holds depends on the text alone, and is what
/// [`json_parse`] names.
#[verifier::external_body]
pub(crate) fn parse(text: &str) -> (parsed: Result<serde_json::Value, serde_json::Error>)
    ensures
        match parsed {
            Ok(value) => json_parse(text@) == Some(json_model(value)),
            Err(_) => json_parse(text@) is None,
        },
{
    serde_json::Value::from_str(text)
}

/// `ToString::to_string` on a `serde_json::Value`, which prints the value
/// through its `Display` impl in compact form: the text depends on the
/// content alone, and is what [`json_text`] names.
#[verifier::external_body]
pub(crate) fn to_text(value: &serde_json::Value) -> (text: String)
    ensures
        text@ == json_text(json_model(*value)),
{
    value.to_string()
}

/// `serde_json::Value::as_u64`: the integer of a number that is a
/// non-negative integer, `None` for every other value.
#[verifier::external_body]
pub(crate) fn as_u64(value: &serde_json::Value) -> (number: Option<u64>)
    ensures
        number == json_model(*value).as_u64(),
{
    value.as_u64()
}

/// `serde_json::Value::as_str`: the text of a string, `None` for every other
/// value.
#[verifier::external_body]
pub(crate) fn as_str(value: &serde_json::Value) -> (text: Option<&str>)
    ensures
        match json_model(*value).as_str() {
            Some(content) => text is Some && text->0@ == content,
            None => text is None,
        },
{
    value.as_str()
}

/// `serde_json::Value::as_array`: the items of an array in their order,
/// `None` for every other value.
#[verifier::external_body]
pub(crate) fn as_array(value: &serde_json::Value) -> (items: Option<&Vec<serde_json::Value>>)
    ensures
        match json_model(*value).as_array() {
            Some(content) => items is Some && models(items->0@) == content,
            None => items is None,
        },
{
    value.as_array()
}

/// `serde_json::Value::get` with a string key: the member of an object under
/// that key, `None` where the value is no object or has no such member.
#[verifier::external_body]
pub(crate) fn get<'a>(value: &'a serde_json::Value, key: &str) -> (member: Option<
    &'a serde_json::Value,
>)
    ensures
        match json_model(*value).get(key@) {
            Some(content) => member is Some && json_model(*member->0) == content,
            None => member is None,
        },
{
    value.get(key)
}

/// `serde_json::Map::new`, wrapped as a value: the object without members.
#[verifier::external_body]
pub(crate) fn object() -> (value: serde_json::Value)
    ensures
        json_model(value) == JsonModel::Object(Map::empty()),
{
    serde_json::Value::Object(serde_json::Map::new())
}

/// `serde_json::Value::from` on a `u64`: the number that is this integer.
#[verifier::external_body]
pub(crate) fn number(n: u64) -> (value: serde_json::Value)
    ensures
        json_model(value) == JsonModel::Number(JsonNumber::PosInt(n)),
{
    serde_json::Value::from(n)
}

/// `serde_json::Value::from` on a string slice: the string with this text.
#[verifier::external_body]
pub(crate) fn string(text: &str) -> (value: serde_json::Value)
    ensures
        json_model(value) == JsonModel::Text(text@),
{
    serde_json::Value::from(text)
}

/// `serde_json::Value::from` on a vector of values: the array of these items
/// in their order.
#[verifier::external_body]
pub(crate) fn array(items: Vec<serde_json::Value>) -> (value: serde_json::Value)
    ensures
        json_model(value) == JsonModel::Array(models(items@)),
{
    serde_json::Value::from(items)
}

/// Assignment through `serde_json::Value::index_mut` with a string key: on an
/// object it sets the member under that key and leaves the other members. On
/// a value that is neither an object nor null the indexing panics, so only
/// objects are admitted.
#[verifier::external_body]
pub(crate) fn insert(object: &mut serde_json::Value, key: &str, member: serde_json::Value)
    requires
        json_model(*old(object)) is Object,
    ensures
        json_model(*final(object)) == JsonModel::Object(
            json_model(*old(object))->Object_0.insert(key@, json_model(member)),
        ),
{
    object[key] = member;
}

} // verus!
