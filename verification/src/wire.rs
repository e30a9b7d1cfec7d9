//! Classifying one line of the worker's primary output stream.
//!
//! The trusted extraction step hands over the plain members a line is
//! routed by; `classify` — whose contract pins the outcome for every
//! combination of members — turns them into an event, a response, or a
//! discard, and `decode_line` ties the whole step to the line text through
//! the extraction's named members.

use vstd::prelude::*;
use vstd::string::*;

use crate::jsonval::{data_text_of, error_message_of, event_member_of, extract_fields,
    id_member_of, json_wf, result_text_of};

verus! {

/// The outcome a response line carries for its request: the compact JSON
/// text of `result`, or the message of `error`.
pub enum Outcome {
    Success(String),
    Failure(String),
}

/// One classified line of the primary output stream.
pub enum Incoming {
    /// An unsolicited event: `{"event": name, "data": ...}`.
    Event { name: String, data: String },
    /// A response to the request with the given id.
    Reply { id: u64, outcome: Outcome },
    /// The line was not well-formed JSON; it is logged and dropped.
    Malformed,
    /// Well-formed JSON of some other shape; it is dropped.
    Unrouted,
}

/// The top-level members a protocol message is classified by, as plain
/// values: `event` when it is a string, `id` when it is an unsigned integer,
/// `error` (with its `message` when that is a string), and the compact
/// renderings of `result` and `data`.
pub struct LineFields {
    pub event: Option<String>,
    pub id: Option<u64>,
    pub error: Option<Option<String>>,
    pub result: Option<String>,
    pub data: Option<String>,
}

/// The members of a line, at the specification level.
pub ghost struct LineMembers {
    pub event: Option<Seq<char>>,
    pub id: Option<u64>,
    pub error: Option<Option<Seq<char>>>,
    pub result: Option<Seq<char>>,
    pub data: Option<Seq<char>>,
}

impl View for LineFields {
    type V = LineMembers;

    open spec fn view(&self) -> LineMembers {
        LineMembers {
            event: self.event.deep_view(),
            id: self.id,
            error: self.error.deep_view(),
            result: self.result.deep_view(),
            data: self.data.deep_view(),
        }
    }
}

/// The named members of one line of text, assembled from the trusted
/// extraction's names.
pub open spec fn members_of(s: Seq<char>) -> LineMembers {
    LineMembers {
        event: event_member_of(s),
        id: id_member_of(s),
        error: error_message_of(s),
        result: result_text_of(s),
        data: data_text_of(s),
    }
}

/// A member text, with JSON `null` standing in where the member is absent.
pub open spec fn text_or_null(t: Option<Seq<char>>) -> Seq<char> {
    match t {
        Some(s) => s,
        None => "null"@,
    }
}

/// The message of an error member, with a fixed text standing in where the
/// worker gave none.
pub open spec fn message_or_default(m: Option<Seq<char>>) -> Seq<char> {
    match m {
        Some(s) => s,
        None => "Unknown sidecar error"@,
    }
}

/// How a set of extracted members is classified: a string `event` member
/// makes the line an event; otherwise an unsigned `id` makes it a response,
/// failed when an `error` member is present; any other shape is dropped.
pub open spec fn classifies(m: LineMembers, r: Incoming) -> bool {
    match m.event {
        Some(name) => r matches Incoming::Event { name: n, data: d } && n@ == name && d@
            == text_or_null(m.data),
        None => match m.id {
            Some(id) => match m.error {
                Some(e) => r matches Incoming::Reply {
                    id: rid,
                    outcome: Outcome::Failure(msg),
                } && rid == id && msg@ == message_or_default(e),
                None => r matches Incoming::Reply {
                    id: rid,
                    outcome: Outcome::Success(res),
                } && rid == id && res@ == text_or_null(m.result),
            },
            None => r is Unrouted,
        },
    }
}

/// Classifies one set of extracted members, exactly as `classifies` says.
pub fn classify(f: LineFields) -> (r: Incoming)
    ensures
        classifies(f@, r),
        !(r is Malformed),
{
    let LineFields { event, id, error, result, data } = f;
    match event {
        Some(name) => {
            let d = match data {
                Some(d) => d,
                None => String::from_str("null"),
            };
            Incoming::Event { name, data: d }
        },
        None => match id {
            Some(id) => match error {
                Some(m) => {
                    let msg = match m {
                        Some(s) => s,
                        None => String::from_str("Unknown sidecar error"),
                    };
                    Incoming::Reply { id, outcome: Outcome::Failure(msg) }
                },
                None => {
                    let res = match result {
                        Some(s) => s,
                        None => String::from_str("null"),
                    };
                    Incoming::Reply { id, outcome: Outcome::Success(res) }
                },
            },
            None => Incoming::Unrouted,
        },
    }
}

/// Classifies one raw line. A line that is not well-formed JSON — and only
/// such a line — comes back `Malformed`, to be logged and dropped without
/// affecting anything else; every well-formed line is classified exactly as
/// `classifies` says of its named members.
pub fn decode_line(line: &str) -> (r: Incoming)
    ensures
        r is Malformed <==> !json_wf(line@),
        json_wf(line@) ==> classifies(members_of(line@), r),
{
    match extract_fields(line) {
        None => Incoming::Malformed,
        Some(f) => classify(f),
    }
}

} // verus!
