//! The configuration document: a JSON object of values by key.
//!
//! The document is read and written with `serde_json` as one of its maps of
//! values. The contracts speak of what such a map holds through
//! `config_entries`.

use vstd::prelude::*;
use std::collections::HashMap;
use crate::json::{error_text, json_of, Json};
use crate::storage::{Document, StoreError};

verus! {

/// Makes `serde_json::Map` known as a type whose inside is not looked into.
#[verifier::external_type_specification]
#[verifier::external_body]
#[verifier::reject_recursive_types(K)]
#[verifier::reject_recursive_types(V)]
pub struct ExJsonMap<K, V>(serde_json::Map<K, V>);

/// The configuration values, by key.
#[derive(Debug)]
pub struct Config {
    pub values: HashMap<String, serde_json::Value>,
}

/// What a map of configuration values holds: for each key, what its value
/// holds.
pub uninterp spec fn config_entries(values: serde_json::Map<String, serde_json::Value>) -> Map<
    Seq<char>,
    Json,
>;

/// What the JSON text `text` holds when `serde_json` reads it as a map of
/// values; none where it refuses the text.
pub uninterp spec fn config_document(text: Seq<char>) -> Option<Map<Seq<char>, Json>>;

/// The indented JSON text that `serde_json` writes for a map of values;
/// none where it refuses to write one.
pub uninterp spec fn config_text(values: serde_json::Map<String, serde_json::Value>) -> Option<
    Seq<char>,
>;

/// The characters of an optional string slice.
pub open spec fn optional_str(text: Option<&str>) -> Option<Seq<char>> {
    match text {
        Some(t) => Some(t@),
        None => None,
    }
}

/// A configuration that holds nothing.
pub open spec fn no_entries() -> Map<Seq<char>, Json> {
    Map::empty()
}

/// What a stored configuration holds: nothing where there is no document;
/// none where the document cannot be parsed.
pub open spec fn stored_config(content: Option<Seq<char>>) -> Option<Map<Seq<char>, Json>> {
    match content {
        None => Some(no_entries()),
        Some(text) => config_document(text),
    }
}

/// What a lookup of `key` in a stored configuration gives.
pub open spec fn config_lookup(content: Option<Seq<char>>, key: Seq<char>) -> Option<
    Option<Json>,
> {
    match stored_config(content) {
        Some(entries) => Some(
            if entries.contains_key(key) {
                Some(entries[key])
            } else {
                None
            },
        ),
        None => None,
    }
}

/// The entries to build on when a value is set: those of the stored
/// document, or none where there is no document or it cannot be parsed.
pub open spec fn config_base(content: Option<Seq<char>>) -> Map<Seq<char>, Json> {
    match stored_config(content) {
        Some(entries) => entries,
        None => no_entries(),
    }
}

/// Calls `serde_json::from_str` for a `serde_json::Map`. Believed: the call
/// succeeds exactly on the texts that `config_document` accepts, and the map
/// it gives holds what `config_document` says.
#[verifier::external_body]
fn parse_config(text: &str) -> (r: Result<
    serde_json::Map<String, serde_json::Value>,
    serde_json::Error,
>)
    ensures
        match r {
            Ok(values) => config_document(text@) == Some(config_entries(values)),
            Err(_) => config_document(text@).is_none(),
        },
{
    serde_json::from_str::<serde_json::Map<String, serde_json::Value>>(text)
}

/// Calls `serde_json::Map::new`. Believed: the map holds nothing.
#[verifier::external_body]
fn empty_config() -> (values: serde_json::Map<String, serde_json::Value>)
    ensures
        config_entries(values) == no_entries(),
{
    serde_json::Map::new()
}

/// Calls `serde_json::Map::get`. Believed: the result is the value kept
/// under `key`, none where the map has no such key.
#[verifier::external_body]
fn config_get<'a>(values: &'a serde_json::Map<String, serde_json::Value>, key: &str) -> (r:
    Option<&'a serde_json::Value>)
    ensures
        match r {
            Some(found) => config_entries(*values).contains_key(key@) && config_entries(
                *values,
            )[key@] == json_of(*found),
            None => !config_entries(*values).contains_key(key@),
        },
{
    values.get(key)
}

/// Calls `serde_json::Map::insert` and drops the value that it replaced.
/// Believed: afterwards the map holds `value` under `key` and is otherwise as
/// before.
#[verifier::external_body]
fn config_insert(
    values: &mut serde_json::Map<String, serde_json::Value>,
    key: String,
    value: serde_json::Value,
)
    ensures
        config_entries(*final(values)) == config_entries(*old(values)).insert(
            key@,
            json_of(value),
        ),
{
    values.insert(key, value);
}

/// Calls `Value::clone`. Believed: the copy holds what `value` holds.
#[verifier::external_body]
fn clone_value(value: &serde_json::Value) -> (copy: serde_json::Value)
    ensures
        json_of(copy) == json_of(*value),
{
    value.clone()
}

/// Calls `serde_json::to_string_pretty` on a map of values. Believed: the
/// call succeeds exactly on the maps for which `config_text` names a text,
/// and gives that text.
#[verifier::external_body]
fn render_config(values: &serde_json::Map<String, serde_json::Value>) -> (r: Result<
    String,
    serde_json::Error,
>)
    ensures
        match r {
            Ok(text) => config_text(*values) == Some(text@),
            Err(_) => config_text(*values).is_none(),
        },
{
    serde_json::to_string_pretty(values)
}

/// Looks up `key` in the configuration. `content` is the text of the
/// configuration document, none where there is no document yet. Without a
/// document there is no value; a document that cannot be parsed is an error;
/// otherwise the value is the one kept under the key, if any.
pub fn get_config(content: Option<&str>, key: &str) -> (r: Result<
    Option<serde_json::Value>,
    StoreError,
>)
    ensures
        match config_lookup(optional_str(content), key@) {
            Some(Some(expected)) => r matches Ok(Some(found)) && json_of(found) == expected,
            Some(None) => r matches Ok(None),
            None => r matches Err(StoreError::Parse { document, .. }) && document
                == Document::Config,
        },
{
    let text = match content {
        Some(text) => text,
        None => {
            return Ok(None);
        },
    };
    match parse_config(text) {
        Ok(values) => match config_get(&values, key) {
            Some(found) => Ok(Some(clone_value(found))),
            None => Ok(None),
        },
        Err(error) => Err(
            StoreError::Parse { document: Document::Config, cause: error_text(&error) },
        ),
    }
}

/// The configuration with `value` kept under `key`. `content` is the text of
/// the configuration document, none where there is none yet; a document that
/// cannot be parsed counts as empty.
pub fn merge_config(content: Option<&str>, key: String, value: serde_json::Value) -> (values:
    serde_json::Map<String, serde_json::Value>)
    ensures
        config_entries(values) == config_base(optional_str(content)).insert(key@, json_of(value)),
{
    let mut values = match content {
        Some(text) => match parse_config(text) {
            Ok(values) => values,
            Err(_) => empty_config(),
        },
        None => empty_config(),
    };
    config_insert(&mut values, key, value);
    values
}

/// Whether `r` is what writing `values` gives: their text, or the error of
/// a configuration that cannot be written.
pub open spec fn is_written(
    r: Result<String, StoreError>,
    values: serde_json::Map<String, serde_json::Value>,
) -> bool {
    match config_text(values) {
        Some(text) => r matches Ok(written) && written@ == text,
        None => r matches Err(StoreError::Serialize { document, .. }) && document
            == Document::Config,
    }
}

/// Renders a configuration as the text to store.
pub fn write_config(values: &serde_json::Map<String, serde_json::Value>) -> (r: Result<
    String,
    StoreError,
>)
    ensures
        is_written(r, *values),
{
    match render_config(values) {
        Ok(text) => Ok(text),
        Err(error) => Err(
            StoreError::Serialize { document: Document::Config, cause: error_text(&error) },
        ),
    }
}

/// Keeps `value` under `key` in the configuration and gives the text to
/// store: that of a configuration which holds `value` under `key` and
/// otherwise what the stored one held.
pub fn set_config(content: Option<&str>, key: String, value: serde_json::Value) -> (r: Result<
    String,
    StoreError,
>)
    ensures
        exists|values: serde_json::Map<String, serde_json::Value>|
            #![trigger config_entries(values)]
            config_entries(values) == config_base(optional_str(content)).insert(
                key@,
                json_of(value),
            ) && is_written(r, values),
{
    let values = merge_config(content, key, value);
    write_config(&values)
}

} // verus!
