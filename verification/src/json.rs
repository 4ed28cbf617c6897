//! Reading single fields out of JSON documents.
//!
//! The documents are parsed by `serde_json`; nothing here is proved of what
//! the parser finds. Each result is named by a function of the document's
//! text, so that the contracts of the callers can speak of it.

use vstd::prelude::*;
use crate::sandbox::opt_text;

verus! {

/// The string under `key` in the JSON object that `doc` spells; `None` where
/// `doc` is no JSON, no object, or holds no string under that key.
pub uninterp spec fn json_text(doc: Seq<char>, key: Seq<char>) -> Option<Seq<char>>;

/// The string under `inner` in the object under `outer` in the JSON object
/// that `doc` spells; `None` where there is none.
pub uninterp spec fn json_nested_text(doc: Seq<char>, outer: Seq<char>, inner: Seq<char>) -> Option<
    Seq<char>,
>;

/// The number under `key` in the JSON object that `doc` spells, where it is an
/// integer that fits in 64 bits without a sign.
pub uninterp spec fn json_unsigned(doc: Seq<char>, key: Seq<char>) -> Option<u64>;

/// The number under `key` in the JSON object that `doc` spells, where it is an
/// integer that fits in 64 bits with a sign.
pub uninterp spec fn json_signed(doc: Seq<char>, key: Seq<char>) -> Option<i64>;

/// Parses `doc` with `serde_json::from_str`, looks `key` up with
/// `Value::get` and reads the value found with `Value::as_str`. The result is
/// a function of the two texts alone.
#[verifier::external_body]
pub(crate) fn text_field(doc: &str, key: &str) -> (out: Option<String>)
    ensures
        opt_text(out) == json_text(doc@, key@),
{
    let value: serde_json::Value = serde_json::from_str(doc).ok()?;
    value.get(key)?.as_str().map(|s| s.to_owned())
}

/// Parses `doc` with `serde_json::from_str`, looks up `outer` and then `inner`
/// with `Value::get` and reads the value found with `Value::as_str`.
#[verifier::external_body]
pub(crate) fn nested_text_field(doc: &str, outer: &str, inner: &str) -> (out: Option<String>)
    ensures
        opt_text(out) == json_nested_text(doc@, outer@, inner@),
{
    let value: serde_json::Value = serde_json::from_str(doc).ok()?;
    value.get(outer)?.get(inner)?.as_str().map(|s| s.to_owned())
}

/// Parses `doc` with `serde_json::from_str`, looks `key` up with
/// `Value::get` and reads the value found with `Value::as_u64`.
#[verifier::external_body]
pub(crate) fn unsigned_field(doc: &str, key: &str) -> (out: Option<u64>)
    ensures
        out == json_unsigned(doc@, key@),
{
    let value: serde_json::Value = serde_json::from_str(doc).ok()?;
    value.get(key)?.as_u64()
}

/// Parses `doc` with `serde_json::from_str`, looks `key` up with
/// `Value::get` and reads the value found with `Value::as_i64`.
#[verifier::external_body]
pub(crate) fn signed_field(doc: &str, key: &str) -> (out: Option<i64>)
    ensures
        out == json_signed(doc@, key@),
{
    let value: serde_json::Value = serde_json::from_str(doc).ok()?;
    value.get(key)?.as_i64()
}

/// The text of an optional value, or a default.
pub open spec fn text_or(o: Option<Seq<char>>, default: Seq<char>) -> Seq<char> {
    match o {
        Some(s) => s,
        None => default,
    }
}

/// The string under `key` in `doc`, or `default` where there is none.
pub fn text_field_or(doc: &str, key: &str, default: &str) -> (out: String)
    ensures
        out@ == text_or(json_text(doc@, key@), default@),
{
    match text_field(doc, key) {
        Some(s) => s,
        None => default.to_owned(),
    }
}

} // verus!
