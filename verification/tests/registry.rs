use smelt_remote::events::{Event, EventKind, TaggedResult, TerminalResult};
use smelt_remote::registry::{Delivery, EventOutcome, RegistryError, TraceTable};
use smelt_remote::sink::EventSink;
use tokio::sync::oneshot;
use tokio::sync::oneshot::error::TryRecvError;

fn result_for(trace: &str, command: &str, exit_code: i32) -> TaggedResult {
    TaggedResult {
        trace_id: trace.to_string(),
        result: TerminalResult {
            command_name: command.to_string(),
            exit_code,
            artifacts: Vec::new(),
        },
    }
}

fn stdout_event(trace: &str, command: &str, line: &str) -> Event {
    Event {
        trace_id: trace.to_string(),
        command_name: command.to_string(),
        kind: EventKind::Stdout(line.to_string()),
    }
}

#[test]
fn delivered_result_reaches_the_awaiting_side() {
    let mut table = TraceTable::new();
    assert_eq!(table.register("t1".to_string(), EventSink::new(8)), Ok(()));
    let (tx, mut rx) = oneshot::channel();
    assert_eq!(table.register_pending("t1", "build".to_string(), tx), Ok(()));
    assert!(table.is_pending("t1", "build"));
    assert_eq!(rx.try_recv(), Err(TryRecvError::Empty));

    assert_eq!(table.on_result(result_for("t1", "build", 0)), Delivery::Fulfilled);

    let got = rx.try_recv().expect("the result was delivered");
    assert_eq!(got.exit_code, 0);
    assert_eq!(got.command_name, "build");
    assert!(!table.is_pending("t1", "build"));
    assert!(table.is_registered("t1"));
}

#[test]
fn deregistering_cancels_pending_commands() {
    let mut table = TraceTable::new();
    assert_eq!(table.register("t1".to_string(), EventSink::new(8)), Ok(()));
    let (tx, mut rx) = oneshot::channel();
    assert_eq!(table.register_pending("t1", "build".to_string(), tx), Ok(()));

    assert!(table.deregister("t1"));

    assert_eq!(rx.try_recv(), Err(TryRecvError::Closed));
    assert!(!table.is_registered("t1"));
    assert!(!table.is_pending("t1", "build"));
    assert_eq!(table.on_result(result_for("t1", "build", 0)), Delivery::UnknownTrace);
    assert_eq!(rx.try_recv(), Err(TryRecvError::Closed));
}

#[test]
fn two_traces_with_the_same_command_are_routed_apart() {
    let mut table = TraceTable::new();
    assert_eq!(table.register("t1".to_string(), EventSink::new(8)), Ok(()));
    assert_eq!(table.register("t2".to_string(), EventSink::new(8)), Ok(()));
    let (tx1, mut rx1) = oneshot::channel();
    let (tx2, mut rx2) = oneshot::channel();
    assert_eq!(table.register_pending("t1", "build".to_string(), tx1), Ok(()));
    assert_eq!(table.register_pending("t2", "build".to_string(), tx2), Ok(()));

    assert_eq!(table.on_result(result_for("t2", "build", 7)), Delivery::Fulfilled);
    assert_eq!(rx1.try_recv(), Err(TryRecvError::Empty));
    assert_eq!(rx2.try_recv().map(|r| r.exit_code), Ok(7));
    assert!(table.is_pending("t1", "build"));

    assert_eq!(table.on_result(result_for("t1", "build", 3)), Delivery::Fulfilled);
    assert_eq!(rx1.try_recv().map(|r| r.exit_code), Ok(3));
}

#[test]
fn a_trace_cannot_be_registered_twice() {
    let mut table = TraceTable::new();
    assert_eq!(table.register("t1".to_string(), EventSink::new(2)), Ok(()));
    let (tx, mut rx) = oneshot::channel();
    assert_eq!(table.register_pending("t1", "build".to_string(), tx), Ok(()));

    assert_eq!(
        table.register("t1".to_string(), EventSink::new(2)),
        Err(RegistryError::DuplicateRegistration)
    );
    // The first entry is kept, with what was pending under it.
    assert!(table.is_pending("t1", "build"));
    assert_eq!(rx.try_recv(), Err(TryRecvError::Empty));

    assert!(table.deregister("t1"));
    assert_eq!(table.register("t1".to_string(), EventSink::new(2)), Ok(()));
    assert!(!table.is_pending("t1", "build"));
}

#[test]
fn a_command_cannot_be_pending_twice() {
    let mut table = TraceTable::new();
    assert_eq!(table.register("t1".to_string(), EventSink::new(2)), Ok(()));
    let (first, mut first_rx) = oneshot::channel();
    let (second, mut second_rx) = oneshot::channel();
    assert_eq!(table.register_pending("t1", "build".to_string(), first), Ok(()));
    assert_eq!(
        table.register_pending("t1", "build".to_string(), second),
        Err(RegistryError::DuplicateRegistration)
    );
    assert_eq!(second_rx.try_recv(), Err(TryRecvError::Closed));

    assert_eq!(table.on_result(result_for("t1", "build", 1)), Delivery::Fulfilled);
    assert_eq!(first_rx.try_recv().map(|r| r.exit_code), Ok(1));
}

#[test]
fn pending_registration_needs_a_live_trace() {
    let mut table = TraceTable::new();
    let (tx, _rx) = oneshot::channel();
    assert_eq!(
        table.register_pending("nobody", "build".to_string(), tx),
        Err(RegistryError::UnknownTrace)
    );
    assert!(!table.is_registered("nobody"));
}

#[test]
fn a_second_delivery_is_discarded() {
    let mut table = TraceTable::new();
    assert_eq!(table.register("t1".to_string(), EventSink::new(2)), Ok(()));
    let (tx, mut rx) = oneshot::channel();
    assert_eq!(table.register_pending("t1", "build".to_string(), tx), Ok(()));

    assert_eq!(table.on_result(result_for("t1", "build", 0)), Delivery::Fulfilled);
    assert_eq!(table.on_result(result_for("t1", "build", 9)), Delivery::UnknownCommand);

    assert_eq!(rx.try_recv().map(|r| r.exit_code), Ok(0));
    assert_eq!(rx.try_recv(), Err(TryRecvError::Closed));
}

#[test]
fn a_result_nobody_awaits_any_more_is_reported() {
    let mut table = TraceTable::new();
    assert_eq!(table.register("t1".to_string(), EventSink::new(2)), Ok(()));
    let (tx, rx) = oneshot::channel();
    assert_eq!(table.register_pending("t1", "build".to_string(), tx), Ok(()));
    drop(rx);
    assert_eq!(table.on_result(result_for("t1", "build", 0)), Delivery::ReceiverGone);
    assert!(!table.is_pending("t1", "build"));
}

#[test]
fn deregistering_works_with_any_number_of_pending_commands() {
    let mut table = TraceTable::new();
    assert!(!table.deregister("t0"));

    assert_eq!(table.register("t0".to_string(), EventSink::new(2)), Ok(()));
    assert!(table.deregister("t0"));
    assert!(!table.is_registered("t0"));

    assert_eq!(table.register("many".to_string(), EventSink::new(2)), Ok(()));
    let mut receivers = Vec::new();
    for name in ["a", "b", "c"] {
        let (tx, rx) = oneshot::channel();
        assert_eq!(table.register_pending("many", name.to_string(), tx), Ok(()));
        receivers.push(rx);
    }
    assert!(table.deregister("many"));
    assert!(!table.is_registered("many"));
    for rx in receivers.iter_mut() {
        assert_eq!(rx.try_recv(), Err(TryRecvError::Closed));
    }
}

#[test]
fn messages_for_unknown_traces_are_dropped() {
    let mut table = TraceTable::new();
    assert_eq!(table.register("t1".to_string(), EventSink::new(4)), Ok(()));
    let (tx, mut rx) = oneshot::channel();
    assert_eq!(table.register_pending("t1", "build".to_string(), tx), Ok(()));
    assert_eq!(table.on_event(stdout_event("t1", "build", "kept")), EventOutcome::Forwarded);

    assert_eq!(table.on_event(stdout_event("ghost", "build", "lost")), EventOutcome::UnknownTrace);
    assert_eq!(table.on_result(result_for("ghost", "build", 0)), Delivery::UnknownTrace);

    assert!(!table.is_registered("ghost"));
    assert!(table.is_pending("t1", "build"));
    assert_eq!(rx.try_recv(), Err(TryRecvError::Empty));
    assert_eq!(table.next_event("t1"), Some(stdout_event("t1", "build", "kept")));
    assert_eq!(table.next_event("t1"), None);
}

#[test]
fn events_are_forwarded_in_order() {
    let mut table = TraceTable::new();
    assert_eq!(table.register("t1".to_string(), EventSink::new(4)), Ok(()));
    for line in ["one", "two", "three"] {
        assert_eq!(table.on_event(stdout_event("t1", "build", line)), EventOutcome::Forwarded);
    }
    assert_eq!(table.next_event("t1"), Some(stdout_event("t1", "build", "one")));
    assert_eq!(table.next_event("t1"), Some(stdout_event("t1", "build", "two")));
    assert_eq!(table.next_event("t1"), Some(stdout_event("t1", "build", "three")));
    assert_eq!(table.next_event("t1"), None);
    assert_eq!(table.next_event("nobody"), None);
}

#[test]
fn a_full_sink_gives_up_its_oldest_event() {
    let mut table = TraceTable::new();
    assert_eq!(table.register("t1".to_string(), EventSink::new(2)), Ok(()));
    for line in ["one", "two", "three"] {
        assert_eq!(table.on_event(stdout_event("t1", "build", line)), EventOutcome::Forwarded);
    }
    assert_eq!(table.next_event("t1"), Some(stdout_event("t1", "build", "two")));
    assert_eq!(table.next_event("t1"), Some(stdout_event("t1", "build", "three")));
    assert_eq!(table.next_event("t1"), None);
}

#[test]
fn sink_reports_what_it_dropped() {
    let mut sink = EventSink::new(1);
    assert_eq!(sink.len(), 0);
    assert!(!sink.forward(stdout_event("t", "c", "a")));
    assert!(sink.forward(stdout_event("t", "c", "b")));
    assert_eq!(sink.len(), 1);
    assert_eq!(sink.next_event(), Some(stdout_event("t", "c", "b")));
    assert_eq!(sink.next_event(), None);
}
