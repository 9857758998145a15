use smelt_remote::events::EventKind;
use smelt_remote::executor::{
    step, teardown_due, ExecutorAction, ExecutorEvent, ExecutorState, Failure,
};
use smelt_remote::worker::{
    exit_code_of, line_event, started_event, terminal_result, upload_warning, Worker, WorkerAction,
    WorkerInput, WorkerState, MISSING_EXIT_CODE,
};

#[test]
fn a_successful_execution_walks_every_state() {
    let (s, a) = step(ExecutorState::Idle, ExecutorEvent::Start { trace_registered: false });
    assert_eq!((s, a), (ExecutorState::Registering, ExecutorAction::RegisterTrace));
    let (s, a) = step(s, ExecutorEvent::Registered);
    assert_eq!((s, a), (ExecutorState::Preparing, ExecutorAction::PrepareWorkspace));
    let (s, a) = step(s, ExecutorEvent::Prepared);
    assert_eq!((s, a), (ExecutorState::Submitting, ExecutorAction::Submit));
    let (s, a) = step(s, ExecutorEvent::Submitted);
    assert_eq!((s, a), (ExecutorState::Awaiting, ExecutorAction::AwaitResult));
    assert!(!teardown_due(s));
    let (s, a) = step(s, ExecutorEvent::ResultArrived { exit_code: 0 });
    assert_eq!(
        (s, a),
        (ExecutorState::Completed { exit_code: 0 }, ExecutorAction::ReportCompleted { exit_code: 0 })
    );
    assert!(teardown_due(s));
}

#[test]
fn a_registered_trace_skips_registration() {
    assert_eq!(
        step(ExecutorState::Idle, ExecutorEvent::Start { trace_registered: true }),
        (ExecutorState::Preparing, ExecutorAction::PrepareWorkspace)
    );
}

#[test]
fn a_closed_channel_is_a_cancellation() {
    let (s, a) = step(ExecutorState::Awaiting, ExecutorEvent::ChannelClosed);
    assert_eq!((s, a), (ExecutorState::Abandoned, ExecutorAction::ReportCancelled));
    assert!(teardown_due(s));
    assert_ne!(s, ExecutorState::Completed { exit_code: 0 });
}

#[test]
fn failures_end_the_execution_and_ask_for_teardown() {
    for (state, failure) in [
        (ExecutorState::Registering, Failure::ListenerUnavailable),
        (ExecutorState::Registering, Failure::DuplicateRegistration),
        (ExecutorState::Preparing, Failure::Configuration),
        (ExecutorState::Preparing, Failure::Preparation),
        (ExecutorState::Submitting, Failure::Submission),
        (ExecutorState::Submitting, Failure::DuplicateRegistration),
    ] {
        let (s, a) = step(state, ExecutorEvent::StepFailed(failure));
        assert_eq!((s, a), (ExecutorState::Failed(failure), ExecutorAction::ReportFailure(failure)));
        assert!(teardown_due(s));
    }
}

#[test]
fn events_out_of_turn_are_ignored() {
    assert_eq!(
        step(ExecutorState::Idle, ExecutorEvent::ResultArrived { exit_code: 0 }),
        (ExecutorState::Idle, ExecutorAction::Ignore)
    );
    assert_eq!(
        step(ExecutorState::Submitting, ExecutorEvent::ResultArrived { exit_code: 0 }),
        (ExecutorState::Submitting, ExecutorAction::Ignore)
    );
    assert_eq!(
        step(ExecutorState::Awaiting, ExecutorEvent::StepFailed(Failure::Submission)),
        (ExecutorState::Awaiting, ExecutorAction::Ignore)
    );
    assert_eq!(
        step(ExecutorState::Completed { exit_code: 2 }, ExecutorEvent::ChannelClosed),
        (ExecutorState::Completed { exit_code: 2 }, ExecutorAction::Ignore)
    );
    assert_eq!(
        step(ExecutorState::Abandoned, ExecutorEvent::ResultArrived { exit_code: 0 }),
        (ExecutorState::Abandoned, ExecutorAction::Ignore)
    );
}

#[test]
fn missing_wait_status_has_its_own_exit_code() {
    assert_eq!(MISSING_EXIT_CODE, -555);
    assert_eq!(exit_code_of(None), -555);
    assert_eq!(exit_code_of(Some(0)), 0);
    assert_eq!(exit_code_of(Some(3)), 3);
    assert_eq!(exit_code_of(Some(-1)), -1);
}

#[test]
fn terminal_result_is_tagged() {
    let tagged = terminal_result("build", "t1", Some(2));
    assert_eq!(tagged.trace_id, "t1");
    assert_eq!(tagged.result.command_name, "build");
    assert_eq!(tagged.result.exit_code, 2);
    assert!(tagged.result.artifacts.is_empty());
    assert_eq!(terminal_result("build", "t1", None).result.exit_code, -555);
}

#[test]
fn worker_events() {
    let started = started_event("build", "t1");
    assert_eq!(started.trace_id, "t1");
    assert_eq!(started.command_name, "build");
    assert_eq!(started.kind, EventKind::CommandStarted);

    assert_eq!(line_event("build", "t1", "hello", true), None);
    let line = line_event("build", "t1", "hello", false).unwrap();
    assert_eq!(line.trace_id, "t1");
    assert_eq!(line.command_name, "build");
    assert_eq!(line.kind, EventKind::Stdout("hello".to_string()));

    let warning = upload_warning("timeout", "t1");
    assert_eq!(warning.trace_id, "t1");
    assert_eq!(
        warning.kind,
        EventKind::Warning("Could not upload artifacts to s3 due to timeout".to_string())
    );
}

#[test]
fn worker_reports_after_draining() {
    let mut worker = Worker::new("build", "t1", false);
    assert_eq!(worker.state, WorkerState::Running);

    let action = worker.step(WorkerInput::Line("hello".to_string()));
    assert_eq!(
        action,
        WorkerAction::Capture {
            line: "hello".to_string(),
            event: line_event("build", "t1", "hello", false),
        }
    );
    assert_eq!(worker.step(WorkerInput::Exited(Some(4))), WorkerAction::Drain);
    assert_eq!(worker.state, WorkerState::Draining { exit_code: 4 });
    assert_eq!(
        worker.step(WorkerInput::Line("tail".to_string())),
        WorkerAction::Capture {
            line: "tail".to_string(),
            event: line_event("build", "t1", "tail", false),
        }
    );
    assert_eq!(
        worker.step(WorkerInput::OutputClosed),
        WorkerAction::Report(terminal_result("build", "t1", Some(4)))
    );
    assert_eq!(worker.state, WorkerState::Reported);
    assert_eq!(worker.step(WorkerInput::OutputClosed), WorkerAction::Ignore);
    assert_eq!(worker.step(WorkerInput::UploadDone), WorkerAction::Stop);
    assert_eq!(worker.state, WorkerState::Finished);
    assert_eq!(worker.step(WorkerInput::OutputClosed), WorkerAction::Ignore);
}

#[test]
fn worker_without_wait_status_reports_the_marker_code() {
    let mut worker = Worker::new("build", "t1", true);
    assert_eq!(
        worker.step(WorkerInput::Line("quiet".to_string())),
        WorkerAction::Capture { line: "quiet".to_string(), event: None }
    );
    let sample = started_event("build", "t1");
    assert_eq!(worker.step(WorkerInput::Sample(sample.clone())), WorkerAction::Forward(sample));
    assert_eq!(worker.step(WorkerInput::Exited(None)), WorkerAction::Drain);
    assert_eq!(worker.state, WorkerState::Draining { exit_code: -555 });
    assert_eq!(
        worker.step(WorkerInput::OutputClosed),
        WorkerAction::Report(terminal_result("build", "t1", None))
    );
    assert_eq!(
        worker.step(WorkerInput::UploadFailed("timeout".to_string())),
        WorkerAction::Warn(upload_warning("timeout", "t1"))
    );
    assert_eq!(worker.state, WorkerState::Finished);
}

#[test]
fn worker_gives_up_when_waiting_fails() {
    let mut worker = Worker::new("build", "t1", true);
    assert_eq!(worker.step(WorkerInput::WaitFailed), WorkerAction::Fail);
    assert_eq!(worker.state, WorkerState::Failed);
    assert_eq!(worker.step(WorkerInput::OutputClosed), WorkerAction::Ignore);
    assert_eq!(worker.step(WorkerInput::Exited(Some(0))), WorkerAction::Ignore);
}
