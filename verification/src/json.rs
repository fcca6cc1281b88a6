//! The JSON work delegated to serde_json: syntax checking of a payload and
//! the sorted-key pretty rendering of a response body.

use vstd::prelude::*;

verus! {

/// Whether a text parses as a single well-formed JSON value.
pub uninterp spec fn json_parse_ok(s: Seq<char>) -> bool;

/// The pretty-printed rendering, with object keys in lexicographic order, of
/// a text that parses as JSON.
pub uninterp spec fn json_pretty_sorted(s: Seq<char>) -> Seq<char>;

/// Relies on serde_json::from_str::<Value> and serde_json::to_string_pretty:
/// whether a text parses, and the pretty form of what it parses to, depend on
/// the text alone. With serde_json's default features an object's members are
/// held in a BTreeMap, so the pretty output lists keys in sorted order.
/// to_string_pretty cannot fail on a Value: object keys are strings and
/// Value's Serialize implementation never errors, so the unwrap never panics.
#[verifier::external_body]
pub(crate) fn json_reformat(s: &str) -> (r: Option<String>)
    ensures
        r is Some <==> json_parse_ok(s@),
        r matches Some(t) ==> t@ == json_pretty_sorted(s@),
{
    match serde_json::from_str::<serde_json::Value>(s) {
        Ok(v) => Some(serde_json::to_string_pretty(&v).unwrap()),
        Err(_) => None,
    }
}

} // verus!
