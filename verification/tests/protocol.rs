//! Wire-level tests: framing of outgoing request lines and classification of
//! incoming lines.

use sidecar_rpc::encode::{encode_request, encode_u64, json_escape};
use sidecar_rpc::wire::{decode_line, Incoming, Outcome};

#[test]
fn encode_get_servers_line() {
    let line = encode_request(1, "getServers", "{}");
    assert_eq!(line, "{\"id\":1,\"method\":\"getServers\",\"params\":{}}\n");
}

#[test]
fn encode_terminates_with_single_newline() {
    let line = encode_request(2, "startBot", "{\"serverKey\":\"srv-a\"}");
    assert!(line.ends_with('\n'));
    assert_eq!(line.matches('\n').count(), 1);
}

#[test]
fn encode_escapes_method_characters() {
    let line = encode_request(7, "a\"b\\c\nd", "{}");
    assert_eq!(line, "{\"id\":7,\"method\":\"a\\\"b\\\\c\\u000ad\",\"params\":{}}\n");
    assert_eq!(line.matches('\n').count(), 1);
}

#[test]
fn encode_u64_digits() {
    assert_eq!(encode_u64(0), "0");
    assert_eq!(encode_u64(30), "30");
    assert_eq!(encode_u64(u64::MAX), "18446744073709551615");
}

#[test]
fn json_escape_controls() {
    assert_eq!(json_escape("plain"), "plain");
    assert_eq!(json_escape("tab\there"), "tab\\u0009here");
    assert_eq!(json_escape("q\"s\\"), "q\\\"s\\\\");
}

#[test]
fn decode_result_line() {
    let r = decode_line("{\"id\":1,\"result\":[\"srv-a\",\"srv-b\"]}");
    match r {
        Incoming::Reply { id, outcome: Outcome::Success(text) } => {
            assert_eq!(id, 1);
            assert_eq!(text, "[\"srv-a\",\"srv-b\"]");
        }
        _ => panic!("expected a successful reply"),
    }
}

#[test]
fn decode_error_line() {
    let r = decode_line("{\"id\":2,\"error\":{\"message\":\"boom\"}}");
    match r {
        Incoming::Reply { id, outcome: Outcome::Failure(msg) } => {
            assert_eq!(id, 2);
            assert_eq!(msg, "boom");
        }
        _ => panic!("expected a failed reply"),
    }
}

#[test]
fn decode_error_without_message_gets_default() {
    let r = decode_line("{\"id\":3,\"error\":{}}");
    match r {
        Incoming::Reply { id, outcome: Outcome::Failure(msg) } => {
            assert_eq!(id, 3);
            assert_eq!(msg, "Unknown sidecar error");
        }
        _ => panic!("expected a failed reply"),
    }
}

#[test]
fn decode_missing_result_is_null() {
    let r = decode_line("{\"id\":5}");
    match r {
        Incoming::Reply { id, outcome: Outcome::Success(text) } => {
            assert_eq!(id, 5);
            assert_eq!(text, "null");
        }
        _ => panic!("expected a successful reply"),
    }
}

#[test]
fn decode_event_line() {
    let r = decode_line("{\"event\":\"logUpdate\",\"data\":{\"level\":\"info\",\"msg\":\"tick\"}}");
    match r {
        Incoming::Event { name, data } => {
            assert_eq!(name, "logUpdate");
            assert_eq!(data, "{\"level\":\"info\",\"msg\":\"tick\"}");
        }
        _ => panic!("expected an event"),
    }
}

#[test]
fn decode_event_without_data_is_null() {
    let r = decode_line("{\"event\":\"ping\"}");
    match r {
        Incoming::Event { name, data } => {
            assert_eq!(name, "ping");
            assert_eq!(data, "null");
        }
        _ => panic!("expected an event"),
    }
}

#[test]
fn decode_malformed_line() {
    assert!(matches!(decode_line("not json {{"), Incoming::Malformed));
    assert!(matches!(decode_line(""), Incoming::Malformed));
}

#[test]
fn decode_unrouted_shapes() {
    assert!(matches!(decode_line("{}"), Incoming::Unrouted));
    assert!(matches!(decode_line("{\"id\":\"seven\"}"), Incoming::Unrouted));
    assert!(matches!(decode_line("{\"id\":-4}"), Incoming::Unrouted));
    assert!(matches!(decode_line("[1,2,3]"), Incoming::Unrouted));
}

#[test]
fn decode_nonstring_event_falls_through_to_reply() {
    let r = decode_line("{\"event\":5,\"id\":4,\"result\":1}");
    match r {
        Incoming::Reply { id, outcome: Outcome::Success(text) } => {
            assert_eq!(id, 4);
            assert_eq!(text, "1");
        }
        _ => panic!("expected a reply when the event member is not a string"),
    }
}
