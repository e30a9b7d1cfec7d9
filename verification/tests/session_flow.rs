//! Session-level tests: call preparation, correlation, timeouts, and the
//! routing of output lines.

use sidecar_rpc::session::{PreparedCall, RaceOutcome, Report, RouteAction, Session};
use sidecar_rpc::wire::{Incoming, Outcome};
use sidecar_rpc::CallError;

fn prepared(s: &mut Session, method: &str, params: &str) -> PreparedCall {
    match s.prepare_call(method, params) {
        Ok(pc) => pc,
        Err(_) => panic!("expected the call to be prepared"),
    }
}

#[test]
fn session_becomes_live_once_started() {
    let mut s = Session::new();
    assert!(!s.live());
    s.on_started();
    assert!(s.live());
    s.on_started();
    assert!(s.live());
    assert_eq!(s.peek_next_id(), 1);
}

#[test]
fn call_before_start_is_not_started() {
    let mut s = Session::new();
    match s.prepare_call("getServers", "{}") {
        Err(CallError::NotStarted) => {}
        _ => panic!("expected NotStarted before the session is live"),
    }
}

#[test]
fn ids_are_distinct_and_increasing() {
    let mut s = Session::new();
    s.on_started();
    let a = prepared(&mut s, "getServers", "{}");
    let b = prepared(&mut s, "getStatus", "{\"serverKey\":\"srv-a\"}");
    let c = prepared(&mut s, "getQueue", "{\"serverKey\":\"srv-a\"}");
    assert_eq!(a.id, 1);
    assert_eq!(b.id, 2);
    assert_eq!(c.id, 3);
    assert!(a.id != b.id && b.id != c.id && a.id != c.id);
}

#[test]
fn reply_resolves_its_own_call() {
    let mut s = Session::new();
    s.on_started();
    let mut pc = prepared(&mut s, "getServers", "{}");
    assert_eq!(pc.line, "{\"id\":1,\"method\":\"getServers\",\"params\":{}}\n");
    let report = s.handle_line("{\"id\":1,\"result\":[\"srv-a\",\"srv-b\"]}");
    match report {
        Report::Fulfilled { id, delivered } => {
            assert_eq!(id, 1);
            assert!(delivered);
        }
        _ => panic!("expected the pending call to be fulfilled"),
    }
    match pc.rx.try_recv() {
        Ok(Outcome::Success(text)) => assert_eq!(text, "[\"srv-a\",\"srv-b\"]"),
        _ => panic!("expected the caller to receive its own result"),
    }
}

#[test]
fn reply_reaches_only_its_own_id() {
    let mut s = Session::new();
    s.on_started();
    let mut first = prepared(&mut s, "getStatus", "{\"serverKey\":\"srv-a\"}");
    let mut second = prepared(&mut s, "getStatus", "{\"serverKey\":\"srv-b\"}");
    let report = s.handle_line("{\"id\":2,\"result\":\"b-status\"}");
    assert!(matches!(report, Report::Fulfilled { id: 2, delivered: true }));
    match second.rx.try_recv() {
        Ok(Outcome::Success(text)) => assert_eq!(text, "\"b-status\""),
        _ => panic!("expected the second caller to receive its result"),
    }
    assert!(first.rx.try_recv().is_err());
    let report = s.handle_line("{\"id\":1,\"result\":\"a-status\"}");
    assert!(matches!(report, Report::Fulfilled { id: 1, delivered: true }));
    match first.rx.try_recv() {
        Ok(Outcome::Success(text)) => assert_eq!(text, "\"a-status\""),
        _ => panic!("expected the first caller to receive its result"),
    }
}

#[test]
fn route_hands_out_the_handle_of_the_replied_id() {
    let mut s = Session::new();
    s.on_started();
    let mut first = prepared(&mut s, "getStatus", "{\"serverKey\":\"srv-a\"}");
    let mut second = prepared(&mut s, "getStatus", "{\"serverKey\":\"srv-b\"}");
    let msg = Incoming::Reply { id: first.id, outcome: Outcome::Success(String::from("\"idle\"")) };
    match s.route(msg) {
        RouteAction::Fulfil { id, to, outcome } => {
            assert_eq!(id, first.id);
            assert!(to.send(outcome).is_ok());
        }
        _ => panic!("expected the reply to be routed to its pending call"),
    }
    match first.rx.try_recv() {
        Ok(Outcome::Success(text)) => assert_eq!(text, "\"idle\""),
        _ => panic!("expected the first caller's handle to be fulfilled"),
    }
    assert!(second.rx.try_recv().is_err());
    let msg = Incoming::Reply { id: first.id, outcome: Outcome::Success(String::from("again")) };
    match s.route(msg) {
        RouteAction::DiscardStale { id } => assert_eq!(id, first.id),
        _ => panic!("expected a second reply for the same id to be stale"),
    }
}

#[test]
fn timeout_cleanup_then_late_reply_is_dropped() {
    let mut s = Session::new();
    s.on_started();
    let mut pc = prepared(&mut s, "startBot", "{\"serverKey\":\"srv-a\"}");
    assert_eq!(pc.id, 1);
    assert!(s.cancel_call(pc.id));
    assert!(!s.cancel_call(pc.id));
    let report = s.handle_line("{\"id\":1,\"result\":\"ok\"}");
    assert!(matches!(report, Report::DroppedStale { id: 1 }));
    assert!(pc.rx.try_recv().is_err());
}

#[test]
fn error_reply_fails_its_call() {
    let mut s = Session::new();
    s.on_started();
    let mut pc = prepared(&mut s, "openPage", "{\"serverKey\":\"srv-a\"}");
    let report = s.handle_line("{\"id\":1,\"error\":{\"message\":\"no such server\"}}");
    assert!(matches!(report, Report::Fulfilled { id: 1, delivered: true }));
    match pc.rx.try_recv() {
        Ok(Outcome::Failure(msg)) => assert_eq!(msg, "no such server"),
        _ => panic!("expected the caller to receive the failure"),
    }
}

#[test]
fn event_leaves_pending_calls_untouched() {
    let mut s = Session::new();
    s.on_started();
    let mut pc = prepared(&mut s, "getServers", "{}");
    let report = s.handle_line("{\"event\":\"logUpdate\",\"data\":{\"level\":\"info\",\"msg\":\"tick\"}}");
    match report {
        Report::Published { name, data } => {
            assert_eq!(name, "logUpdate");
            assert_eq!(data, "{\"level\":\"info\",\"msg\":\"tick\"}");
        }
        _ => panic!("expected the event to be published"),
    }
    let report = s.handle_line("{\"id\":1,\"result\":\"late but fine\"}");
    assert!(matches!(report, Report::Fulfilled { id: 1, delivered: true }));
    assert!(pc.rx.try_recv().is_ok());
}

#[test]
fn malformed_line_does_not_stop_the_stream() {
    let mut s = Session::new();
    s.on_started();
    let mut pc = prepared(&mut s, "getConfig", "{\"serverKey\":null}");
    assert!(matches!(s.handle_line("oops ]["), Report::DroppedMalformed));
    let report = s.handle_line("{\"id\":1,\"result\":{}}");
    assert!(matches!(report, Report::Fulfilled { id: 1, delivered: true }));
    match pc.rx.try_recv() {
        Ok(Outcome::Success(text)) => assert_eq!(text, "{}"),
        _ => panic!("expected the next line to be processed normally"),
    }
}

#[test]
fn fulfilment_reports_a_gone_caller() {
    let mut s = Session::new();
    s.on_started();
    let pc = prepared(&mut s, "getLogs", "{}");
    drop(pc.rx);
    let report = s.handle_line("{\"id\":1,\"result\":[]}");
    assert!(matches!(report, Report::Fulfilled { id: 1, delivered: false }));
}

#[test]
fn settle_call_maps_each_race_end() {
    let mut s = Session::new();
    s.on_started();
    let pc = prepared(&mut s, "getStatus", "{\"serverKey\":\"srv-a\"}");

    match s.settle_call(pc.id, RaceOutcome::Resolved(Outcome::Success(String::from("\"ok\"")))) {
        Ok(text) => assert_eq!(text, "\"ok\""),
        Err(_) => panic!("expected the fulfilled handle to yield its text"),
    }
    match s.settle_call(pc.id, RaceOutcome::Resolved(Outcome::Failure(String::from("boom")))) {
        Err(CallError::RemoteError(msg)) => assert_eq!(msg, "boom"),
        _ => panic!("expected a remote error"),
    }
    match s.settle_call(pc.id, RaceOutcome::Closed) {
        Err(CallError::ChannelClosed) => {}
        _ => panic!("expected ChannelClosed for an abandoned handle"),
    }
}

#[test]
fn settle_call_timeout_removes_the_pending_entry() {
    let mut s = Session::new();
    s.on_started();
    let pc = prepared(&mut s, "startBot", "{\"serverKey\":\"srv-a\"}");
    match s.settle_call(pc.id, RaceOutcome::TimedOut) {
        Err(CallError::Timeout) => {}
        _ => panic!("expected Timeout when the timer fires first"),
    }
    let report = s.handle_line("{\"id\":1,\"result\":\"ok\"}");
    assert!(matches!(report, Report::DroppedStale { id: 1 }));
}

#[test]
fn exit_closes_outstanding_handles() {
    let mut s = Session::new();
    s.on_started();
    let mut pc = prepared(&mut s, "requestScan", "{\"serverKey\":\"srv-a\"}");
    s.on_exit();
    assert!(pc.rx.try_recv().is_err());
    match s.prepare_call("getServers", "{}") {
        Err(CallError::NotStarted) => {}
        _ => panic!("expected NotStarted after teardown"),
    }
    let report = s.handle_line("{\"id\":1,\"result\":\"ok\"}");
    assert!(matches!(report, Report::DroppedStale { id: 1 }));
}
