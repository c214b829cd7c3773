//! What the library believes of the JSON reader that the glyph tables come
//! through.
//!
//! Nothing in this file is proved. Each function hands one call on to
//! `serde_json`, and its contract says what that call is documented to
//! return, over a plain picture of a JSON value.

use vstd::prelude::*;

verus! {

/// A JSON value of `serde_json`. The library never looks inside one; it asks
/// through the functions below.
#[verifier::external_type_specification]
#[verifier::external_body]
pub struct ExJsonValue(serde_json::Value);

/// A JSON object of `serde_json`: members by name.
#[verifier::external_type_specification]
#[verifier::external_body]
#[verifier::reject_recursive_types(K)]
#[verifier::reject_recursive_types(V)]
pub struct ExJsonMap<K, V>(serde_json::Map<K, V>);

/// The error that `serde_json` gives for a text that is no JSON value.
#[verifier::external_type_specification]
#[verifier::external_body]
pub struct ExJsonError(serde_json::Error);

/// The picture of a JSON value, as far as the glyph tables need it: a whole
/// number that fits `i64`, an object, or anything else.
pub enum Json {
    Int(i64),
    Object(Map<Seq<char>, Json>),
    Other,
}

/// What a JSON value holds.
pub uninterp spec fn json_value(v: serde_json::Value) -> Json;

/// The members of a JSON object, by name.
pub uninterp spec fn json_members(m: serde_json::Map<String, serde_json::Value>) -> Map<
    Seq<char>,
    Json,
>;

/// What a text holds when it is read as one JSON value, or `None` where it
/// is not one.
pub uninterp spec fn json_parsed(text: Seq<char>) -> Option<Json>;

/// `serde_json::from_str`, asked for a `Value`: reads the whole text as one
/// JSON value. What comes back depends on the text alone.
#[verifier::external_body]
pub(crate) fn parse_json(text: &str) -> (r: Result<serde_json::Value, serde_json::Error>)
    ensures
        match r {
            Ok(v) => json_parsed(text@) == Some(json_value(v)),
            Err(_) => json_parsed(text@) is None,
        },
{
    serde_json::from_str::<serde_json::Value>(text)
}

/// `Value::as_object`: the members of a value that is an object, `None` for
/// any other value.
#[verifier::external_body]
pub(crate) fn value_as_object(v: &serde_json::Value) -> (r: Option<
    &serde_json::Map<String, serde_json::Value>,
>)
    ensures
        match r {
            Some(m) => json_value(*v) == Json::Object(json_members(*m)),
            None => !(json_value(*v) is Object),
        },
{
    v.as_object()
}

/// `Value::as_i64`: the number of a value that is a whole number and fits
/// `i64`, `None` for any other value.
#[verifier::external_body]
pub(crate) fn value_as_i64(v: &serde_json::Value) -> (r: Option<i64>)
    ensures
        r == match json_value(*v) {
            Json::Int(i) => Some(i),
            _ => None,
        },
{
    v.as_i64()
}

/// `Map::get`: the member of the given name, `None` where the object has
/// none of that name.
#[verifier::external_body]
pub(crate) fn map_get<'a>(m: &'a serde_json::Map<String, serde_json::Value>, key: &str) -> (r:
    Option<&'a serde_json::Value>)
    ensures
        match r {
            Some(v) => json_members(*m).contains_key(key@) && json_members(*m)[key@]
                == json_value(*v),
            None => !json_members(*m).contains_key(key@),
        },
{
    m.get(key)
}

} // verus!
