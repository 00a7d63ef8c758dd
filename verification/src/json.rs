//! Reading JSON documents through `serde_json`.
//!
//! A `serde_json::Value` is opaque to the verifier.  What the pipeline reads
//! of one is named by the four specification functions below, and every
//! function in this module states its result in terms of those names.  The
//! contracts of this module are trusted: they restate what `serde_json`
//! documents and are not proved here.

use serde_json::Value;
use vstd::prelude::*;

verus! {

#[verifier::external_type_specification]
#[verifier::external_body]
pub struct ExValue(serde_json::Value);

#[verifier::external_type_specification]
#[verifier::external_body]
pub struct ExJsonError(serde_json::Error);

/// The value that `serde_json::from_str` reads from a text, or `None` where
/// it rejects the text.
pub uninterp spec fn json_document(text: Seq<char>) -> Option<Value>;

/// The member that `Value::get` finds under a string key: `None` unless the
/// value is an object that has the key.
pub uninterp spec fn json_member(value: Value, key: Seq<char>) -> Option<Value>;

/// The text that `Value::as_str` returns: `None` unless the value is a
/// string.
pub uninterp spec fn json_text(value: Value) -> Option<Seq<char>>;

/// The elements that `Value::as_array` returns, in order: `None` unless the
/// value is an array.
pub uninterp spec fn json_items(value: Value) -> Option<Seq<Value>>;

/// Calls `serde_json::from_str` at type `Value`.  The outcome depends on the
/// text alone: the value read is `json_document` of the text, and an error
/// comes back exactly where `json_document` is `None`.
#[verifier::external_body]
pub(crate) fn parse_document(text: &str) -> (outcome: Result<Value, serde_json::Error>)
    ensures
        match outcome {
            Ok(value) => json_document(text@) == Some(value),
            Err(_) => json_document(text@) is None,
        },
{
    serde_json::from_str(text)
}

/// Calls `Value::get` with a string key.  The member returned is
/// `json_member` of the value and the key.
#[verifier::external_body]
pub(crate) fn member<'a>(value: &'a Value, key: &str) -> (found: Option<&'a Value>)
    ensures
        match found {
            Some(inner) => json_member(*value, key@) == Some(*inner),
            None => json_member(*value, key@) is None,
        },
{
    value.get(key)
}

/// Calls `Value::as_str`.  The text returned is `json_text` of the value.
#[verifier::external_body]
pub(crate) fn text<'a>(value: &'a Value) -> (found: Option<&'a str>)
    ensures
        match found {
            Some(inner) => json_text(*value) == Some(inner@),
            None => json_text(*value) is None,
        },
{
    value.as_str()
}

/// Calls `Value::as_array`.  The vector returned holds `json_items` of the
/// value.
#[verifier::external_body]
pub(crate) fn items<'a>(value: &'a Value) -> (found: Option<&'a Vec<Value>>)
    ensures
        match found {
            Some(inner) => json_items(*value) == Some(inner@),
            None => json_items(*value) is None,
        },
{
    value.as_array()
}

} // verus!
