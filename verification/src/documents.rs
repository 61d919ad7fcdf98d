//! The documents a build reads: the TOML text of a `Cargo.toml` (parsed by the
//! `toml` crate) and the JSON output of `cargo metadata` (parsed by
//! `serde_json`), both as the library's `JsonValue`, and what is read from
//! them.
use vstd::prelude::*;

use crate::build_config::spec_opt_string;
use crate::build_plan::{declares_workspace, package_name, spec_package_name};
use crate::json::{spec_as_str, spec_get, JsonValue};

verus! {

#[verifier::external_type_specification]
#[verifier::external_body]
pub struct ExTomlValue(toml::Value);

#[verifier::external_type_specification]
#[verifier::external_body]
pub struct ExSerdeJsonValue(serde_json::Value);

/// The document that the TOML text `content` holds, as a JSON value; `None`
/// when it is no TOML.
pub uninterp spec fn toml_document(content: Seq<char>) -> Option<JsonValue>;

/// The document that the JSON text `bytes` holds; `None` when it is no JSON.
pub uninterp spec fn json_document(bytes: Seq<u8>) -> Option<JsonValue>;

/// The library's form of a parsed TOML value: strings, booleans, arrays and
/// tables as themselves; numbers and date-times, which no lookup here reads
/// as text, as a number without its value. Called only by `parse_toml`.
#[verifier::external_body]
fn toml_value_to_json(value: &toml::Value) -> JsonValue {
    match value {
        toml::Value::String(s) => JsonValue::Str(s.clone()),
        toml::Value::Integer(_) | toml::Value::Float(_) | toml::Value::Datetime(_) => JsonValue::Number,
        toml::Value::Boolean(b) => JsonValue::Bool(*b),
        toml::Value::Array(items) => JsonValue::Array(items.iter().map(toml_value_to_json).collect()),
        toml::Value::Table(t) => JsonValue::Object(
            t.iter().map(|(k, v)| (k.clone(), toml_value_to_json(v))).collect(),
        ),
    }
}

/// Parses TOML text with the `toml` crate (`toml::from_str` into
/// `toml::Value`). Claimed: the result depends on the text alone, so it is
/// given by the name `toml_document`.
#[verifier::external_body]
fn parse_toml(content: &str) -> (doc: Option<JsonValue>)
    ensures
        doc == toml_document(content@),
{
    toml::from_str::<toml::Value>(content).ok().map(|v| toml_value_to_json(&v))
}

/// The library's form of a parsed JSON value, one for one, numbers without
/// their value. Called only by `parse_json`.
#[verifier::external_body]
fn serde_json_value_to_json(value: &serde_json::Value) -> JsonValue {
    match value {
        serde_json::Value::Null => JsonValue::Null,
        serde_json::Value::Bool(b) => JsonValue::Bool(*b),
        serde_json::Value::Number(_) => JsonValue::Number,
        serde_json::Value::String(s) => JsonValue::Str(s.clone()),
        serde_json::Value::Array(items) => JsonValue::Array(items.iter().map(serde_json_value_to_json).collect()),
        serde_json::Value::Object(m) => JsonValue::Object(
            m.iter().map(|(k, v)| (k.clone(), serde_json_value_to_json(v))).collect(),
        ),
    }
}

/// Parses JSON text with `serde_json::from_slice` into `serde_json::Value`.
/// Claimed: the result depends on the bytes alone, so it is given by the name
/// `json_document`.
#[verifier::external_body]
fn parse_json(bytes: &[u8]) -> (doc: Option<JsonValue>)
    ensures
        doc == json_document(bytes@),
{
    serde_json::from_slice::<serde_json::Value>(bytes).ok().map(|v| serde_json_value_to_json(&v))
}

/// The package name that the text of a `Cargo.toml` gives: the string
/// `package.name` of the TOML document; `None` when the text is no TOML or
/// has no such string.
pub fn manifest_package_name(content: &str) -> (name: Option<String>)
    ensures
        spec_opt_string(name) == match toml_document(content@) {
            Some(d) => spec_package_name(d),
            None => None,
        },
{
    match parse_toml(content) {
        Some(doc) => package_name(&doc),
        None => None,
    }
}

/// Whether the text of a `Cargo.toml` declares a workspace: whether it is a
/// TOML document with a `workspace` table.
pub fn manifest_declares_workspace(content: &str) -> (declares: bool)
    ensures
        declares == match toml_document(content@) {
            Some(d) => spec_get(d, "workspace"@) is Some,
            None => false,
        },
{
    match parse_toml(content) {
        Some(doc) => declares_workspace(&doc),
        None => false,
    }
}

/// The target directory that the output of `cargo metadata` names: the
/// string `target_directory` of the JSON document; `None` when the output is
/// no JSON or has no such string.
pub fn metadata_target_directory(bytes: &[u8]) -> (dir: Option<String>)
    ensures
        spec_opt_string(dir) == match json_document(bytes@) {
            Some(d) => spec_as_str(spec_get(d, "target_directory"@)),
            None => None,
        },
{
    match parse_json(bytes) {
        Some(doc) => match doc.get("target_directory") {
            Some(v) => match v.as_str() {
                Some(s) => Some(String::from_str(s)),
                None => None,
            },
            None => None,
        },
        None => None,
    }
}

} // verus!
