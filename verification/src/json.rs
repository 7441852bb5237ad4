//! Reading single fields of the JSON messages the speech engine sends.
use vstd::prelude::*;
use crate::state::opt_view;

verus! {

/// What `serde_json` gives for the string field `key` of the JSON text
/// `text`: `None` when the text is not JSON, has no such field, or the field
/// is not a string.
pub uninterp spec fn json_string_field(text: Seq<char>, key: Seq<char>) -> Option<Seq<char>>;

/// What `serde_json` gives for the field `key` of the JSON text `text` read as
/// an unsigned 64-bit integer: `None` when the text is not JSON, has no such
/// field, or the field is not a non-negative integer that fits.
pub uninterp spec fn json_u64_field(text: Seq<char>, key: Seq<char>) -> Option<u64>;

/// Trusted: `serde_json::from_str::<serde_json::Value>` followed by
/// `Value::get(key)` and `Value::as_str`. The result is a fixed function of the
/// text and the key, named `json_string_field`.
#[verifier::external_body]
pub(crate) fn json_str_field(text: &str, key: &str) -> (r: Option<String>)
    ensures
        opt_view(r) == json_string_field(text@, key@),
{
    serde_json::from_str::<serde_json::Value>(text)
        .ok()
        .and_then(|v| v.get(key).and_then(|f| f.as_str()).map(|s| s.to_string()))
}

/// Trusted: `serde_json::from_str::<serde_json::Value>` followed by
/// `Value::get(key)` and `Value::as_u64`. The result is a fixed function of the
/// text and the key, named `json_u64_field`.
#[verifier::external_body]
pub(crate) fn json_u64(text: &str, key: &str) -> (r: Option<u64>)
    ensures
        r == json_u64_field(text@, key@),
{
    serde_json::from_str::<serde_json::Value>(text).ok().and_then(|v| v.get(key).and_then(|f| f.as_u64()))
}

} // verus!
