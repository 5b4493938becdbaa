//! JSON documents, read through `serde_json`.
//!
//! A parsed document is a `serde_json::Value`, which the verifier cannot look
//! into. The contracts speak of what a value holds through the model `Json`;
//! the few functions below that touch a value are believed, not proved.

use vstd::prelude::*;

verus! {

/// Makes `serde_json::Value` known as a type whose inside is not looked into.
#[verifier::external_type_specification]
#[verifier::external_body]
pub struct ExValue(serde_json::Value);

/// Makes `serde_json::Error` known as a type whose inside is not looked into.
#[verifier::external_type_specification]
#[verifier::external_body]
pub struct ExJsonError(serde_json::Error);

/// What a JSON value holds. A number's value is left out: nothing in this
/// library reads one.
pub enum Json {
    Null,
    Bool(bool),
    Number,
    Text(Seq<char>),
    Array(Seq<Json>),
    Object(Map<Seq<char>, Json>),
}

/// What `value` holds.
pub uninterp spec fn json_of(value: serde_json::Value) -> Json;

/// What the JSON text `bytes` holds when `serde_json` reads it as a value;
/// none where it refuses the text.
pub uninterp spec fn json_document(bytes: Seq<u8>) -> Option<Json>;

impl Json {
    /// The member `key` of an object; none for a missing key and for a value
    /// that is no object.
    pub open spec fn member(self, key: Seq<char>) -> Option<Json> {
        match self {
            Json::Object(members) => if members.contains_key(key) {
                Some(members[key])
            } else {
                None
            },
            _ => None,
        }
    }

    /// The characters of a string value; none for any other value.
    pub open spec fn text(self) -> Option<Seq<char>> {
        match self {
            Json::Text(t) => Some(t),
            _ => None,
        }
    }

    /// The items of an array; none for any other value.
    pub open spec fn items(self) -> Option<Seq<Json>> {
        match self {
            Json::Array(items) => Some(items),
            _ => None,
        }
    }
}

/// Calls `serde_json::from_slice` for a `Value`. Believed: the call succeeds
/// exactly on the texts that `json_document` accepts, and the value it gives
/// holds what `json_document` says.
#[verifier::external_body]
pub(crate) fn parse_document(bytes: &[u8]) -> (r: Result<serde_json::Value, serde_json::Error>)
    ensures
        match r {
            Ok(value) => json_document(bytes@) == Some(json_of(value)),
            Err(_) => json_document(bytes@).is_none(),
        },
{
    serde_json::from_slice::<serde_json::Value>(bytes)
}

/// Calls `Value::get` with a string key. Believed: the result is the member
/// of that name where the value is an object that has one, and none
/// otherwise.
#[verifier::external_body]
pub(crate) fn member<'a>(value: &'a serde_json::Value, key: &str) -> (r: Option<
    &'a serde_json::Value,
>)
    ensures
        match r {
            Some(found) => json_of(*value).member(key@) == Some(json_of(*found)),
            None => json_of(*value).member(key@).is_none(),
        },
{
    value.get(key)
}

/// Calls `Value::as_str`. Believed: the result is the string's characters
/// where the value is a string, and none otherwise.
#[verifier::external_body]
pub(crate) fn text<'a>(value: &'a serde_json::Value) -> (r: Option<&'a str>)
    ensures
        match r {
            Some(t) => json_of(*value).text() == Some(t@),
            None => json_of(*value).text().is_none(),
        },
{
    value.as_str()
}

/// What each value of `values` holds, in order.
pub open spec fn json_of_each(values: Seq<serde_json::Value>) -> Seq<Json> {
    values.map_values(|value: serde_json::Value| json_of(value))
}

/// Calls `Value::as_array`. Believed: the result is the array's items, in
/// order, where the value is an array, and none otherwise.
#[verifier::external_body]
pub(crate) fn items<'a>(value: &'a serde_json::Value) -> (r: Option<&'a Vec<serde_json::Value>>)
    ensures
        match r {
            Some(found) => json_of(*value).items() == Some(json_of_each(found@)),
            None => json_of(*value).items().is_none(),
        },
{
    value.as_array()
}

/// Renders a `serde_json::Error` through its `Display` form. Nothing is
/// claimed of the text.
#[verifier::external_body]
pub(crate) fn error_text(error: &serde_json::Error) -> (text: String) {
    error.to_string()
}

} // verus!
