//! Trusted view of serde_json's types: the opaque JSON value carried
//! through subscription results, the parse error, and whether a text is
//! well-formed JSON.

use vstd::prelude::*;

verus! {

#[verifier::external_type_specification]
#[verifier::external_body]
pub struct ExValue(serde_json::Value);

#[verifier::external_type_specification]
#[verifier::external_body]
pub struct ExJsonError(serde_json::Error);

/// Whether a text is a well-formed JSON document.
pub uninterp spec fn json_text_ok(s: Seq<char>) -> bool;

/// Relies on the Display impl of serde_json::Error: renders the parse
/// error.
#[verifier::external_body]
pub fn json_error_text(e: &serde_json::Error) -> String {
    e.to_string()
}

} // verus!
