//! The grammars themselves. Parsing a text and re-encoding a document are the
//! work of `serde_json`, `serde_yaml` and `toml`; this module is the only place
//! that calls them.
//!
//! Nothing here is proved. A document is opaque to proofs, and what a parser
//! or an encoder returns is far too long to write down, so each of them gets a
//! name: a function of the arguments that stands for the result. The contract
//! of each call says no more than that the call returns what its name stands
//! for, with a failure taken as the text it displays as.

use vstd::prelude::*;

verus! {

/// A JSON document, as `serde_json` holds it.
#[verifier::external_type_specification]
#[verifier::external_body]
pub struct ExJsonValue(serde_json::Value);

/// A YAML document, as `serde_yaml` holds it.
#[verifier::external_type_specification]
#[verifier::external_body]
pub struct ExYamlValue(serde_yaml::Value);

/// A TOML document, as `toml` holds it.
#[verifier::external_type_specification]
#[verifier::external_body]
pub struct ExTomlValue(toml::Value);

/// An outcome whose failure is a message, with the message as its characters.
pub open spec fn failure_as_text<T>(r: Result<T, String>) -> Result<T, Seq<char>> {
    match r {
        Ok(v) => Ok(v),
        Err(m) => Err(m@),
    }
}

/// What `serde_json::from_str` makes of a text when asked for a
/// `serde_json::Value`: the document, or the text of the parser's complaint.
pub uninterp spec fn json_from_text(src: Seq<char>) -> Result<serde_json::Value, Seq<char>>;

/// What `serde_yaml::from_str` makes of a text when asked for a
/// `serde_yaml::Value`: the document, or the text of the parser's complaint.
pub uninterp spec fn yaml_from_text(src: Seq<char>) -> Result<serde_yaml::Value, Seq<char>>;

/// What `toml::from_str` makes of a text when asked for a `toml::Value`: the
/// document, or the text of the parser's complaint.
pub uninterp spec fn toml_from_text(src: Seq<char>) -> Result<toml::Value, Seq<char>>;

/// What `serde_json::to_value` makes of a TOML document: its JSON form, or the
/// text of the encoder's complaint.
pub uninterp spec fn json_from_toml(doc: toml::Value) -> Result<serde_json::Value, Seq<char>>;

/// What `serde_json::to_value` makes of a YAML document: its JSON form, or the
/// text of the encoder's complaint.
pub uninterp spec fn json_from_yaml(doc: serde_yaml::Value) -> Result<serde_json::Value, Seq<char>>;

/// What `serde_yaml::to_value` makes of a JSON document: its YAML form, or the
/// text of the encoder's complaint.
pub uninterp spec fn yaml_from_json(doc: serde_json::Value) -> Result<serde_yaml::Value, Seq<char>>;

/// What `serde_yaml::to_value` makes of a TOML document: its YAML form, or the
/// text of the encoder's complaint.
pub uninterp spec fn yaml_from_toml(doc: toml::Value) -> Result<serde_yaml::Value, Seq<char>>;

/// Calls `serde_json::from_str` for a `serde_json::Value` and, on failure,
/// formats the `serde_json::Error` through its `Display` impl. Trusted: the
/// outcome is a function of the text alone.
#[verifier::external_body]
pub(crate) fn parse_json(src: &str) -> (r: Result<serde_json::Value, String>)
    ensures
        failure_as_text(r) == json_from_text(src@),
{
    match serde_json::from_str::<serde_json::Value>(src) {
        Ok(doc) => Ok(doc),
        Err(e) => Err(e.to_string()),
    }
}

/// Calls `serde_yaml::from_str` for a `serde_yaml::Value` and, on failure,
/// formats the `serde_yaml::Error` through its `Display` impl. Trusted: the
/// outcome is a function of the text alone.
#[verifier::external_body]
pub(crate) fn parse_yaml(src: &str) -> (r: Result<serde_yaml::Value, String>)
    ensures
        failure_as_text(r) == yaml_from_text(src@),
{
    match serde_yaml::from_str::<serde_yaml::Value>(src) {
        Ok(doc) => Ok(doc),
        Err(e) => Err(e.to_string()),
    }
}

/// Calls `toml::from_str` for a `toml::Value` and, on failure, formats the
/// `toml::de::Error` through its `Display` impl. Trusted: the outcome is a
/// function of the text alone.
#[verifier::external_body]
pub(crate) fn parse_toml(src: &str) -> (r: Result<toml::Value, String>)
    ensures
        failure_as_text(r) == toml_from_text(src@),
{
    match toml::from_str::<toml::Value>(src) {
        Ok(doc) => Ok(doc),
        Err(e) => Err(e.to_string()),
    }
}

/// Calls `serde_json::to_value` on a TOML document and, on failure, formats
/// the `serde_json::Error`. Trusted: the outcome is a function of the document
/// alone.
#[verifier::external_body]
pub(crate) fn toml_to_json(doc: &toml::Value) -> (r: Result<serde_json::Value, String>)
    ensures
        failure_as_text(r) == json_from_toml(*doc),
{
    match serde_json::to_value(doc) {
        Ok(json) => Ok(json),
        Err(e) => Err(e.to_string()),
    }
}

/// Calls `serde_json::to_value` on a YAML document and, on failure, formats
/// the `serde_json::Error`. Trusted: the outcome is a function of the document
/// alone.
#[verifier::external_body]
pub(crate) fn yaml_to_json(doc: &serde_yaml::Value) -> (r: Result<serde_json::Value, String>)
    ensures
        failure_as_text(r) == json_from_yaml(*doc),
{
    match serde_json::to_value(doc) {
        Ok(json) => Ok(json),
        Err(e) => Err(e.to_string()),
    }
}

/// Calls `serde_yaml::to_value` on a JSON document and, on failure, formats
/// the `serde_yaml::Error`. Trusted: the outcome is a function of the document
/// alone.
#[verifier::external_body]
pub(crate) fn json_to_yaml(doc: &serde_json::Value) -> (r: Result<serde_yaml::Value, String>)
    ensures
        failure_as_text(r) == yaml_from_json(*doc),
{
    match serde_yaml::to_value(doc) {
        Ok(yaml) => Ok(yaml),
        Err(e) => Err(e.to_string()),
    }
}

/// Calls `serde_yaml::to_value` on a TOML document and, on failure, formats
/// the `serde_yaml::Error`. Trusted: the outcome is a function of the document
/// alone.
#[verifier::external_body]
pub(crate) fn toml_to_yaml(doc: &toml::Value) -> (r: Result<serde_yaml::Value, String>)
    ensures
        failure_as_text(r) == yaml_from_toml(*doc),
{
    match serde_yaml::to_value(doc) {
        Ok(yaml) => Ok(yaml),
        Err(e) => Err(e.to_string()),
    }
}

/// Calls `Clone::clone` of `serde_json::Value`, which is derived: the copy is
/// the same document.
#[verifier::external_body]
pub(crate) fn clone_json(doc: &serde_json::Value) -> (copy: serde_json::Value)
    ensures
        copy == *doc,
{
    doc.clone()
}

/// Calls `Clone::clone` of `serde_yaml::Value`, which is derived: the copy is
/// the same document.
#[verifier::external_body]
pub(crate) fn clone_yaml(doc: &serde_yaml::Value) -> (copy: serde_yaml::Value)
    ensures
        copy == *doc,
{
    doc.clone()
}

/// Calls `Clone::clone` of `toml::Value`, which is derived: the copy is the
/// same document.
#[verifier::external_body]
pub(crate) fn clone_toml(doc: &toml::Value) -> (copy: toml::Value)
    ensures
        copy == *doc,
{
    doc.clone()
}

} // verus!
