//! What the worker reports back: an event per output line and, once, the
//! terminal result.

use vstd::prelude::*;
use crate::events::{Event, EventKind, TaggedResult, TerminalResult};

verus! {

/// The exit code reported where the script's wait status carries none.
pub const MISSING_EXIT_CODE: i32 = -555;

/// The exit code to report for a wait status.
pub fn exit_code_of(status: Option<i32>) -> (code: i32)
    ensures
        code == match status {
            Some(c) => c,
            None => MISSING_EXIT_CODE,
        },
{
    match status {
        Some(c) => c,
        None => MISSING_EXIT_CODE,
    }
}

/// The terminal result of a command whose script ended with `status`. The
/// worker itself lists no artifacts.
pub fn terminal_result(command_name: &str, trace_id: &str, status: Option<i32>) -> (tagged:
    TaggedResult)
    ensures
        tagged.trace_id@ == trace_id@,
        tagged.result.command_name@ == command_name@,
        tagged.result.exit_code == match status {
            Some(c) => c,
            None => MISSING_EXIT_CODE,
        },
        tagged.result.artifacts@ == Seq::<String>::empty(),
{
    TaggedResult {
        trace_id: String::from_str(trace_id),
        result: TerminalResult {
            command_name: String::from_str(command_name),
            exit_code: exit_code_of(status),
            artifacts: Vec::new(),
        },
    }
}

/// The event that announces the start of a command.
pub fn started_event(command_name: &str, trace_id: &str) -> (event: Event)
    ensures
        event.trace_id@ == trace_id@,
        event.command_name@ == command_name@,
        event.kind is CommandStarted,
{
    Event {
        trace_id: String::from_str(trace_id),
        command_name: String::from_str(command_name),
        kind: EventKind::CommandStarted,
    }
}

/// The event to stream for one line of the script's standard output; none
/// where the worker was told to keep lines to itself.
pub fn line_event(command_name: &str, trace_id: &str, line: &str, avoid_message: bool) -> (event:
    Option<Event>)
    ensures
        event is None == avoid_message,
        event matches Some(e) ==> {
            &&& e.trace_id@ == trace_id@
            &&& e.command_name@ == command_name@
            &&& e.kind matches EventKind::Stdout(text)
            &&& text@ == line@
        },
{
    if avoid_message {
        None
    } else {
        Some(
            Event {
                trace_id: String::from_str(trace_id),
                command_name: String::from_str(command_name),
                kind: EventKind::Stdout(String::from_str(line)),
            },
        )
    }
}

/// The warning that tells of artifacts that could not be uploaded.
pub fn upload_warning(reason: &str, trace_id: &str) -> (event: Event)
    ensures
        event.trace_id@ == trace_id@,
        event.command_name@ == Seq::<char>::empty(),
        event.kind matches EventKind::Warning(text) && text@
            == "Could not upload artifacts to s3 due to "@ + reason@,
{
    let mut text = String::from_str("Could not upload artifacts to s3 due to ");
    text.append(reason);
    Event { trace_id: String::from_str(trace_id), command_name: String::new(), kind: EventKind::Warning(text) }
}

/// Where a worker stands in the life of its script.
#[derive(Debug, PartialEq, Eq, Clone, Copy, Structural)]
pub enum WorkerState {
    /// The script runs; its output is streamed.
    Running,
    /// The script has ended; what is left of its standard output is read.
    Draining { exit_code: i32 },
    /// The terminal result was reported.
    Reported,
    /// Nothing is left to do.
    Finished,
    /// Waiting for the script failed; no result is reported.
    Failed,
}

/// What the worker's surroundings tell it.
#[derive(Debug, Clone, PartialEq, Eq)]
pub enum WorkerInput {
    /// The script wrote a line to standard output or standard error.
    Line(String),
    /// The profiler took a sample.
    Sample(Event),
    /// The script ended with this wait status.
    Exited(Option<i32>),
    /// Waiting for the script failed.
    WaitFailed,
    /// The script's standard output is exhausted.
    OutputClosed,
    /// The artifacts were uploaded, or there were none to upload.
    UploadDone,
    /// The artifacts could not be uploaded, for this reason.
    UploadFailed(String),
}

/// What the worker's surroundings have to do next.
#[derive(Debug, Clone, PartialEq, Eq)]
pub enum WorkerAction {
    /// Append the line to the captured output and, if there is an event,
    /// stream it.
    Capture { line: String, event: Option<Event> },
    /// Stream the event.
    Forward(Event),
    /// Read what is left of standard output.
    Drain,
    /// Report the terminal result, then upload the artifacts if credentials
    /// are configured.
    Report(TaggedResult),
    /// Stream the warning and stop.
    Warn(Event),
    /// Stop.
    Stop,
    /// Give up with the error of the failed wait.
    Fail,
    /// The input does not concern the current state: do nothing.
    Ignore,
}

/// The worker of one command.
pub struct Worker {
    pub command_name: String,
    pub trace_id: String,
    /// Whether output lines are kept from the listener.
    pub avoid_message: bool,
    pub state: WorkerState,
}

/// The state that follows `state` on `input`.
pub open spec fn next_worker_state(state: WorkerState, input: WorkerInput) -> WorkerState {
    match (state, input) {
        (WorkerState::Running, WorkerInput::Exited(status)) => WorkerState::Draining {
            exit_code: match status {
                Some(c) => c,
                None => MISSING_EXIT_CODE,
            },
        },
        (WorkerState::Running, WorkerInput::WaitFailed) => WorkerState::Failed,
        (WorkerState::Draining { .. }, WorkerInput::OutputClosed) => WorkerState::Reported,
        (WorkerState::Reported, WorkerInput::UploadDone) => WorkerState::Finished,
        (WorkerState::Reported, WorkerInput::UploadFailed(_)) => WorkerState::Finished,
        _ => state,
    }
}

/// Whether `action` captures `line` for `worker`: the line itself and, unless
/// lines are kept back, the event that carries it.
pub open spec fn captures(worker: Worker, line: String, action: WorkerAction) -> bool {
    &&& action matches WorkerAction::Capture { line: captured, event }
    &&& captured@ == line@
    &&& event is None == worker.avoid_message
    &&& event matches Some(e) ==> {
        &&& e.trace_id@ == worker.trace_id@
        &&& e.command_name@ == worker.command_name@
        &&& e.kind matches EventKind::Stdout(text)
        &&& text@ == line@
    }
}

/// Whether `action` is what `worker` owes on `input`.
pub open spec fn action_fits(worker: Worker, input: WorkerInput, action: WorkerAction) -> bool {
    match (worker.state, input) {
        (WorkerState::Running, WorkerInput::Line(line)) => captures(worker, line, action),
        (WorkerState::Draining { .. }, WorkerInput::Line(line)) => captures(worker, line, action),
        (WorkerState::Running, WorkerInput::Sample(sample)) => action == WorkerAction::Forward(
            sample,
        ),
        (WorkerState::Running, WorkerInput::Exited(_)) => action is Drain,
        (WorkerState::Running, WorkerInput::WaitFailed) => action is Fail,
        (WorkerState::Draining { exit_code }, WorkerInput::OutputClosed) => {
            &&& action matches WorkerAction::Report(tagged)
            &&& tagged.trace_id@ == worker.trace_id@
            &&& tagged.result.command_name@ == worker.command_name@
            &&& tagged.result.exit_code == exit_code
            &&& tagged.result.artifacts@ == Seq::<String>::empty()
        },
        (WorkerState::Reported, WorkerInput::UploadDone) => action is Stop,
        (WorkerState::Reported, WorkerInput::UploadFailed(reason)) => {
            &&& action matches WorkerAction::Warn(e)
            &&& e.trace_id@ == worker.trace_id@
            &&& e.kind matches EventKind::Warning(text)
            &&& text@ == "Could not upload artifacts to s3 due to "@ + reason@
        },
        _ => action is Ignore,
    }
}

impl Worker {
    /// A worker whose script is about to run.
    pub fn new(command_name: &str, trace_id: &str, avoid_message: bool) -> (worker: Worker)
        ensures
            worker.command_name@ == command_name@,
            worker.trace_id@ == trace_id@,
            worker.avoid_message == avoid_message,
            worker.state == WorkerState::Running,
    {
        Worker {
            command_name: String::from_str(command_name),
            trace_id: String::from_str(trace_id),
            avoid_message,
            state: WorkerState::Running,
        }
    }

    /// Takes one input and says what is to be done about it.
    pub fn step(&mut self, input: WorkerInput) -> (action: WorkerAction)
        ensures
            final(self).command_name == old(self).command_name,
            final(self).trace_id == old(self).trace_id,
            final(self).avoid_message == old(self).avoid_message,
            final(self).state == next_worker_state(old(self).state, input),
            action_fits(*old(self), input, action),
    {
        match (self.state, input) {
            (WorkerState::Running, WorkerInput::Line(line)) => {
                let event = line_event(
                    self.command_name.as_str(),
                    self.trace_id.as_str(),
                    line.as_str(),
                    self.avoid_message,
                );
                WorkerAction::Capture { line, event }
            },
            (WorkerState::Draining { exit_code: _ }, WorkerInput::Line(line)) => {
                let event = line_event(
                    self.command_name.as_str(),
                    self.trace_id.as_str(),
                    line.as_str(),
                    self.avoid_message,
                );
                WorkerAction::Capture { line, event }
            },
            (WorkerState::Running, WorkerInput::Sample(sample)) => WorkerAction::Forward(sample),
            (WorkerState::Running, WorkerInput::Exited(status)) => {
                self.state = WorkerState::Draining { exit_code: exit_code_of(status) };
                WorkerAction::Drain
            },
            (WorkerState::Running, WorkerInput::WaitFailed) => {
                self.state = WorkerState::Failed;
                WorkerAction::Fail
            },
            (WorkerState::Draining { exit_code }, WorkerInput::OutputClosed) => {
                self.state = WorkerState::Reported;
                WorkerAction::Report(
                    terminal_result(
                        self.command_name.as_str(),
                        self.trace_id.as_str(),
                        Some(exit_code),
                    ),
                )
            },
            (WorkerState::Reported, WorkerInput::UploadDone) => {
                self.state = WorkerState::Finished;
                WorkerAction::Stop
            },
            (WorkerState::Reported, WorkerInput::UploadFailed(reason)) => {
                self.state = WorkerState::Finished;
                WorkerAction::Warn(upload_warning(reason.as_str(), self.trace_id.as_str()))
            },
            _ => WorkerAction::Ignore,
        }
    }
}

/// A worker reports at most once: a terminal result is due only when the
/// output of an ended script is exhausted, and the state reached then never
/// asks for a report again.
pub proof fn law_worker_reports_once(worker: Worker, input: WorkerInput, action: WorkerAction)
    requires
        action_fits(worker, input, action),
        action is Report,
    ensures
        worker.state is Draining,
        input is OutputClosed,
        next_worker_state(worker.state, input) == WorkerState::Reported,
        forall|later: WorkerInput, then: WorkerAction|
            action_fits(Worker { state: WorkerState::Reported, ..worker }, later, then) ==> !(
            then is Report),
        forall|later: WorkerInput, then: WorkerAction|
            action_fits(Worker { state: WorkerState::Finished, ..worker }, later, then) ==> !(
            then is Report),
{
}

} // verus!
