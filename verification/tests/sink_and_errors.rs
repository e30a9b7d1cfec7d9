//! Tests of the event sink's fan-out and of the error texts.

use sidecar_rpc::sink::EventSink;
use sidecar_rpc::CallError;

#[test]
fn publish_with_no_subscribers_is_discarded() {
    let sink = EventSink::new();
    let delivered = sink.publish("logUpdate");
    assert!(delivered.is_empty());
}

#[test]
fn publish_reaches_matching_subscribers_in_order() {
    let mut sink = EventSink::new();
    let a = sink.subscribe(String::from("logUpdate"));
    let b = sink.subscribe(String::from("statusChanged"));
    let c = sink.subscribe(String::from("logUpdate"));
    assert_eq!(sink.publish("logUpdate"), vec![a, c]);
    assert_eq!(sink.publish("statusChanged"), vec![b]);
    assert_eq!(sink.publish("never"), Vec::<u64>::new());
}

#[test]
fn subscription_tokens_are_distinct() {
    let mut sink = EventSink::new();
    let a = sink.subscribe(String::from("x"));
    let b = sink.subscribe(String::from("x"));
    let c = sink.subscribe(String::from("y"));
    assert!(a != b && b != c && a != c);
}

#[test]
fn error_messages() {
    assert_eq!(CallError::SpawnError.message(), "Failed to spawn sidecar");
    assert_eq!(CallError::NotStarted.message(), "Sidecar not started");
    assert_eq!(CallError::WriteFailure.message(), "Failed to write to sidecar");
    assert_eq!(
        CallError::RemoteError(String::from("no such server")).message(),
        "no such server"
    );
    assert_eq!(CallError::Timeout.message(), "Sidecar call timed out (30s)");
    assert_eq!(
        CallError::ChannelClosed.message(),
        "Sidecar response channel closed"
    );
}

#[test]
fn call_timeout_is_thirty_seconds() {
    assert_eq!(sidecar_rpc::CALL_TIMEOUT_SECS, 30);
}
