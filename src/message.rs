use vstd::prelude::*;

verus! {

#[verifier::external_type_specification]
#[verifier::external_body]
pub struct ExJsonValue(serde_json::Value);

#[verifier::external_type_specification]
#[verifier::external_body]
pub struct ExJsonError(serde_json::Error);

/// Whether `serde_json` decodes the text as one JSON value.
pub uninterp spec fn json_accepts(s: Seq<char>) -> bool;

/// Relies on `serde_json::from_str` into a `serde_json::Value`: whether it
/// succeeds depends on the text alone, and the empty text is refused.
#[verifier::external_body]
pub(crate) fn decode_json(s: &str) -> (r: Result<serde_json::Value, serde_json::Error>)
    ensures
        r is Ok == json_accepts(s@),
        s@.len() == 0 ==> r is Err,
{
    serde_json::from_str::<serde_json::Value>(s)
}

} // verus!
