//! Reading a configuration payload, done by the `serde_json` crate.
//!
//! Nothing in this module is proved. The contract below is what the rest of
//! the crate assumes of the decoder.

use serde_json::Value;
use vstd::prelude::*;

verus! {

/// What `serde_json` reads in the JSON text `payload`: `None` when the text
/// is no JSON or its value is no object; otherwise the members of the object,
/// each with its name and, if its value is a string, that string.
pub uninterp spec fn json_members(payload: Seq<char>) -> Option<
    Seq<(Seq<char>, Option<Seq<char>>)>,
>;

/// Parses `payload` with `serde_json::from_str` into a `serde_json::Value`
/// and, if that is an object, hands its members out one by one: the name of
/// each, and the text of each whose value is a string.
///
/// Assumed: the outcome is a function of the text of `payload` alone, which
/// [`json_members`] names.
#[verifier::external_body]
pub(crate) fn members(payload: &str) -> (found: Option<Vec<(String, Option<String>)>>)
    ensures
        found.deep_view() == json_members(payload@),
{
    match serde_json::from_str::<Value>(payload) {
        Ok(Value::Object(object)) => Some(
            object.into_iter().map(
                |(name, value)|
                    match value {
                        Value::String(text) => (name, Some(text)),
                        _ => (name, None),
                    },
            ).collect(),
        ),
        _ => None,
    }
}

} // verus!
