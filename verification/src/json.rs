//! The parts of `serde_json` that the library calls.

use vstd::prelude::*;

verus! {

/// A parsed JSON document, as `serde_json` represents it. Opaque to the
/// library: what it holds is reached through the names below.
#[verifier::external_type_specification]
#[verifier::external_body]
pub struct ExJsonValue(serde_json::Value);

/// The error that `serde_json` reports when a value cannot be written out.
#[verifier::external_type_specification]
#[verifier::external_body]
pub struct ExJsonError(serde_json::Error);

/// The elements of `v` when `v` is a JSON array, and `None` for any other
/// kind of JSON value.
pub uninterp spec fn json_array(v: serde_json::Value) -> Option<Seq<serde_json::Value>>;

/// The compact JSON text that `serde_json::to_string` writes for `v`.
pub uninterp spec fn json_text(v: serde_json::Value) -> Seq<char>;

/// Calls `serde_json::Value::as_array`, which returns the vector of elements
/// of an array value and `None` for every other variant. The contract claims
/// exactly that, through the name `json_array`.
#[verifier::external_body]
pub(crate) fn json_as_array(v: &serde_json::Value) -> (r: Option<&Vec<serde_json::Value>>)
    ensures
        match r {
            Some(items) => json_array(*v) == Some(items@),
            None => json_array(*v) is None,
        },
{
    v.as_array()
}

/// Calls `serde_json::to_string` on a JSON value. The contract claims that
/// the call succeeds and returns the text named `json_text(v)`: writing a
/// `Value` cannot fail, since its object keys are strings, its numbers are
/// finite, and the output goes to a vector of bytes.
#[verifier::external_body]
pub(crate) fn json_to_string(v: &serde_json::Value) -> (r: Result<String, serde_json::Error>)
    ensures
        r is Ok,
        match r {
            Ok(s) => s@ == json_text(*v),
            Err(_) => false,
        },
{
    serde_json::to_string(v)
}

/// Whether `v` is a JSON array.
pub fn is_json_array(v: &serde_json::Value) -> (r: bool)
    ensures
        r == json_array(*v) is Some,
{
    json_as_array(v).is_some()
}

} // verus!
