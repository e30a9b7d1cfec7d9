//! Trusted boundary around `serde_json`: one extraction step that parses a
//! line of the output stream and reads the members the routing logic
//! decides on, as plain values.
//!
//! With the default `BTreeMap`-backed `serde_json::Value`, parsing, member
//! lookup and compact rendering are all functions of the line text alone,
//! so each extracted member is given a name; the extraction wrapper pins
//! its result to those names, and everything downstream is verified
//! against them.

use vstd::prelude::*;

use crate::wire::LineFields;

verus! {

/// Whether a text is one well-formed JSON value, exactly as
/// `serde_json::from_str::<Value>` accepts it.
pub uninterp spec fn json_wf(s: Seq<char>) -> bool;

/// The top-level `event` member of the parsed text, when it is a string.
pub uninterp spec fn event_member_of(s: Seq<char>) -> Option<Seq<char>>;

/// The top-level `id` member, when it is an unsigned integer.
pub uninterp spec fn id_member_of(s: Seq<char>) -> Option<u64>;

/// The top-level `error` member when present, with its `message` member
/// when that is a string.
pub uninterp spec fn error_message_of(s: Seq<char>) -> Option<Option<Seq<char>>>;

/// The compact rendering of the top-level `result` member, when present.
pub uninterp spec fn result_text_of(s: Seq<char>) -> Option<Seq<char>>;

/// The compact rendering of the top-level `data` member, when present.
pub uninterp spec fn data_text_of(s: Seq<char>) -> Option<Seq<char>>;

/// Relies on `serde_json::from_str::<Value>`, `Value::get`, `Value::as_str`,
/// `Value::as_u64` and `serde_json::to_string`: parsing succeeds exactly
/// when the text is well-formed JSON, and each member read or rendered is a
/// deterministic function of the text alone (the default `Value` keeps its
/// objects in ordered maps).
#[verifier::external_body]
pub(crate) fn extract_fields(s: &str) -> (r: Option<LineFields>)
    ensures
        r is Some == json_wf(s@),
        r matches Some(f) ==> {
            &&& f.event.deep_view() == event_member_of(s@)
            &&& f.id == id_member_of(s@)
            &&& f.error.deep_view() == error_message_of(s@)
            &&& f.result.deep_view() == result_text_of(s@)
            &&& f.data.deep_view() == data_text_of(s@)
        },
{
    let v: serde_json::Value = serde_json::from_str(s).ok()?;
    let event = v.get("event").and_then(|e| e.as_str()).map(|e| e.to_owned());
    let id = v.get("id").and_then(|n| n.as_u64());
    let error = v.get("error").map(
        |e| e.get("message").and_then(|m| m.as_str()).map(|m| m.to_owned()),
    );
    let result = v.get("result").map(|r| serde_json::to_string(r).unwrap_or_default());
    let data = v.get("data").map(|d| serde_json::to_string(d).unwrap_or_default());
    Some(LineFields { event, id, error, result, data })
}

} // verus!
