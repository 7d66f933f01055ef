//! JSON values.
//!
//! Values are those of `serde_json`. What an object holds is modelled by a map
//! from its keys to [`Json`] values.

use vstd::prelude::*;

use crate::text::{opt_text, texts};

verus! {

/// `serde_json::Value`, a JSON value.
#[verifier::external_type_specification]
#[verifier::external_body]
pub struct ExValue(serde_json::Value);

/// `serde_json::Error`.
#[verifier::external_type_specification]
#[verifier::external_body]
pub struct ExJsonError(serde_json::Error);

/// The model of a member of a JSON object.
pub enum Json {
    Null,
    Bool(bool),
    /// A number that a `u64` can hold.
    Uint(u64),
    Str(Seq<char>),
    /// An array of strings.
    Strings(Seq<Seq<char>>),
    /// Anything else, by its text.
    Other(Seq<char>),
}

/// The members of a JSON value that is an object.
pub uninterp spec fn json_object(v: serde_json::Value) -> Option<Map<Seq<char>, Json>>;

/// The member of an object under `key`.
pub open spec fn member(object: Option<Map<Seq<char>, Json>>, key: Seq<char>) -> Option<Json> {
    match object {
        Some(m) => if m.dom().contains(key) {
            Some(m[key])
        } else {
            None
        },
        None => None,
    }
}

/// The number that a member holds.
pub open spec fn uint(j: Option<Json>) -> Option<u64> {
    match j {
        Some(Json::Uint(n)) => Some(n),
        _ => None,
    }
}

/// The string that a member holds.
pub open spec fn string(j: Option<Json>) -> Option<Seq<char>> {
    match j {
        Some(Json::Str(s)) => Some(s),
        _ => None,
    }
}

/// The number under `key`, where the value is an object that has one there.
///
/// Trusted: `serde_json::Value::get` and `as_u64`.
#[verifier::external_body]
pub(crate) fn member_u64(value: &serde_json::Value, key: &str) -> (r: Option<u64>)
    ensures
        r == uint(member(json_object(*value), key@)),
{
    value.get(key).and_then(serde_json::Value::as_u64)
}

/// The string under `key`, where the value is an object that has one there.
///
/// Trusted: `serde_json::Value::get` and `as_str`.
#[verifier::external_body]
pub(crate) fn member_str(value: &serde_json::Value, key: &str) -> (r: Option<String>)
    ensures
        opt_text(r) == string(member(json_object(*value), key@)),
{
    value.get(key).and_then(serde_json::Value::as_str).map(str::to_owned)
}

/// A copy of a JSON value.
///
/// Trusted: `serde_json::Value::clone` gives an equal value.
#[verifier::external_body]
pub(crate) fn copy_value(value: &serde_json::Value) -> (r: serde_json::Value)
    ensures
        r == *value,
{
    value.clone()
}

/// The JSON text of an object with the given members.
pub uninterp spec fn json_text(members: Map<Seq<char>, Json>) -> Seq<u8>;

/// An object after a member has been added, unless it has one under the key.
pub open spec fn with_member(
    object: Option<Map<Seq<char>, Json>>,
    key: Seq<char>,
    value: Json,
) -> Option<Map<Seq<char>, Json>> {
    match object {
        Some(m) => Some(
            if m.dom().contains(key) {
                m
            } else {
                m.insert(key, value)
            },
        ),
        None => None,
    }
}

/// Adds an array of strings under `key`, where the value is an object that has
/// nothing there.
///
/// Trusted: `serde_json::Value::as_object_mut`, then `entry` and
/// `or_insert_with` of `serde_json::Map`, and `Value::from` of a list of
/// strings.
#[verifier::external_body]
pub(crate) fn insert_strings(value: &mut serde_json::Value, key: &str, strings: &Vec<String>)
    ensures
        json_object(*final(value)) == with_member(
            json_object(*old(value)),
            key@,
            Json::Strings(texts(strings@)),
        ),
{
    if let Some(object) = value.as_object_mut() {
        object.entry(key).or_insert_with(|| serde_json::Value::from(strings.clone()));
    }
}

/// The JSON text of a value.
///
/// Trusted: `serde_json::to_vec`. A value can always be written; the text of an
/// object depends on its members alone, which are kept in the order of their
/// keys.
#[verifier::external_body]
pub(crate) fn value_bytes(value: &serde_json::Value) -> (r: Result<Vec<u8>, serde_json::Error>)
    ensures
        r is Ok,
        r matches Ok(b) ==> json_object(*value) is Some ==> b@ == json_text(json_object(*value)->0),
{
    serde_json::to_vec(value)
}

} // verus!
