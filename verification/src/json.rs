//! The JSON codec that the filter relies on, and what is taken on trust of it.
//!
//! Nothing in this file is proved. Each function hands its arguments to
//! `serde_json` and returns what came back. Its contract claims one thing
//! only: that the result is a function of the arguments, which it names, so
//! that the rest of the crate can say exactly what it does with the result.
//! What the codec returns on given arguments is stated nowhere.

use vstd::prelude::*;

verus! {

/// `serde_json::Value`, a JSON document or a part of one. Nothing is known
/// of what a value holds but through the functions below.
#[verifier::external_type_specification]
#[verifier::external_body]
pub struct ExValue(serde_json::Value);

/// `serde_json::Error`, the codec's account of a failure.
#[verifier::external_type_specification]
#[verifier::external_body]
pub struct ExError(serde_json::Error);

/// The document that the codec reads from `bytes` as one JSON text, or
/// `None` where it rejects them.
pub uninterp spec fn json_document(bytes: Seq<u8>) -> Option<serde_json::Value>;

/// The member that the codec finds in `doc` under `key`, or `None` where it
/// finds none: `doc` is no object, or has no such member.
pub uninterp spec fn json_member(doc: serde_json::Value, key: Seq<char>) -> Option<
    serde_json::Value,
>;

/// The text that the codec reads `value` as: that of a JSON string, and
/// `None` for anything else.
pub uninterp spec fn json_text(value: serde_json::Value) -> Option<Seq<char>>;

/// The number that the codec reads `value` as: that of a JSON integer from
/// 0 to `u64::MAX`, and `None` for anything else.
pub uninterp spec fn json_unsigned(value: serde_json::Value) -> Option<u64>;

/// The JSON string literal that the codec writes for `text`, quotes and
/// escapes included, or `None` where it reports a failure.
pub uninterp spec fn json_quoted(text: Seq<char>) -> Option<Seq<char>>;

/// Calls `serde_json::from_slice` at `serde_json::Value`. Taken on trust:
/// whether it succeeds, and the document that it returns, depend on the
/// bytes alone.
#[verifier::external_body]
pub(crate) fn parse_document(bytes: &[u8]) -> (parsed: Result<serde_json::Value, serde_json::Error>)
    ensures
        match parsed {
            Ok(doc) => json_document(bytes@) == Some(doc),
            Err(_) => json_document(bytes@) is None,
        },
{
    serde_json::from_slice::<serde_json::Value>(bytes)
}

/// Calls `serde_json::Value::get` with a string index. Taken on trust: the
/// member that it returns, or that it returns none, depends on the document
/// and the key alone.
#[verifier::external_body]
pub(crate) fn member<'a>(doc: &'a serde_json::Value, key: &str) -> (found: Option<
    &'a serde_json::Value,
>)
    ensures
        match found {
            Some(value) => json_member(*doc, key@) == Some(*value),
            None => json_member(*doc, key@) is None,
        },
{
    doc.get(key)
}

/// Calls `serde_json::Value::as_str`. Taken on trust: the text that it
/// returns, or that it returns none, depends on the value alone.
#[verifier::external_body]
pub(crate) fn as_text<'a>(value: &'a serde_json::Value) -> (text: Option<&'a str>)
    ensures
        match text {
            Some(s) => json_text(*value) == Some(s@),
            None => json_text(*value) is None,
        },
{
    value.as_str()
}

/// Calls `serde_json::Value::as_u64`. Taken on trust: the number that it
/// returns, or that it returns none, depends on the value alone.
#[verifier::external_body]
pub(crate) fn as_unsigned(value: &serde_json::Value) -> (number: Option<u64>)
    ensures
        number == json_unsigned(*value),
{
    value.as_u64()
}

/// Calls `serde_json::to_string` at `str`. Taken on trust: whether it
/// succeeds, and the literal that it returns, depend on the text alone.
#[verifier::external_body]
pub(crate) fn quote(text: &str) -> (quoted: Result<String, serde_json::Error>)
    ensures
        match quoted {
            Ok(literal) => json_quoted(text@) == Some(literal@),
            Err(_) => json_quoted(text@) is None,
        },
{
    serde_json::to_string(text)
}

/// Calls `to_string` on a `serde_json::Error`, which gives the text of its
/// `Display`: the reason of a failure, for a human reader. Nothing is
/// claimed of it.
#[verifier::external_body]
pub(crate) fn error_text(error: &serde_json::Error) -> (reason: String) {
    error.to_string()
}

} // verus!
