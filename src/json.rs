//! Decoding a request body as a JSON update, through serde_json.
use vstd::prelude::*;

verus! {

#[verifier::external_type_specification]
#[verifier::external_body]
pub struct ExJsonValue(serde_json::Value);

#[verifier::external_type_specification]
#[verifier::external_body]
pub struct ExJsonError(serde_json::Error);

/// Whether serde_json accepts `text` as one JSON document.
pub uninterp spec fn json_accepts(text: Seq<char>) -> bool;

/// Relies on serde_json::from_str: decodes `input` as a JSON value, or
/// reports why it is not one. Whether it succeeds depends on the text alone.
#[verifier::external_body]
pub(crate) fn decode_json(input: &str) -> (r: Result<serde_json::Value, serde_json::Error>)
    ensures
        r is Ok == json_accepts(input@),
{
    serde_json::from_str::<serde_json::Value>(input)
}

} // verus!
