//! The executor's state machine for one command: which step follows which,
//! and what the caller has to do next. The caller performs each action and
//! hands back the event that it ended in.

use vstd::prelude::*;
use crate::submission::{ConfigError, ListenerInfo, SlurmConfig};
use crate::text::push_char;

verus! {

/// Why a submission did not reach the point of awaiting its result.
#[derive(Debug, PartialEq, Eq, Clone, Copy, Structural)]
pub enum Failure {
    /// The proxy listener could not be started.
    ListenerUnavailable,
    /// The trace or the command was registered already.
    DuplicateRegistration,
    /// The configuration names no workspace variant.
    Configuration,
    /// The workspace could not be written.
    Preparation,
    /// The batch submission program could not be run.
    Submission,
}

/// Where the execution of one command stands.
#[derive(Debug, PartialEq, Eq, Clone, Copy, Structural)]
pub enum ExecutorState {
    Idle,
    Registering,
    Preparing,
    Submitting,
    Awaiting,
    /// The terminal result arrived.
    Completed { exit_code: i32 },
    /// The trace was torn down before a result arrived.
    Abandoned,
    /// The submission failed before a result could be awaited.
    Failed(Failure),
}

/// What happened since the last action.
#[derive(Debug, PartialEq, Eq, Clone, Copy, Structural)]
pub enum ExecutorEvent {
    /// The caller asks for the command to be executed; `trace_registered`
    /// says whether its trace is registered in this process already.
    Start { trace_registered: bool },
    /// The listener is running and the trace was registered.
    Registered,
    /// The workspace was written.
    Prepared,
    /// The pending command was registered and the job was handed to the
    /// batch scheduler.
    Submitted,
    /// The receptor was fulfilled with a terminal result.
    ResultArrived { exit_code: i32 },
    /// The receptor was dropped unfulfilled.
    ChannelClosed,
    /// The current step failed.
    StepFailed(Failure),
}

/// What the caller has to do next.
#[derive(Debug, PartialEq, Eq, Clone, Copy, Structural)]
pub enum ExecutorAction {
    /// Start the listener if need be, and register the trace.
    RegisterTrace,
    /// Write the workspace.
    PrepareWorkspace,
    /// Register the pending command, then run the batch submission program.
    Submit,
    /// Wait on the receptor.
    AwaitResult,
    /// Report the exit code to the caller.
    ReportCompleted { exit_code: i32 },
    /// Report a cancellation to the caller.
    ReportCancelled,
    /// Report the failure to the caller.
    ReportFailure(Failure),
    /// The event does not concern the current state: do nothing.
    Ignore,
}

/// Whether the execution has ended, in whichever way.
pub open spec fn is_terminal(state: ExecutorState) -> bool {
    state is Completed || state is Abandoned || state is Failed
}

/// The state that follows `state` on `event`, and the action that is due.
/// An event that does not concern the state changes nothing.
pub open spec fn transition(state: ExecutorState, event: ExecutorEvent) -> (
    ExecutorState,
    ExecutorAction,
) {
    match (state, event) {
        (ExecutorState::Idle, ExecutorEvent::Start { trace_registered }) => if trace_registered {
            (ExecutorState::Preparing, ExecutorAction::PrepareWorkspace)
        } else {
            (ExecutorState::Registering, ExecutorAction::RegisterTrace)
        },
        (ExecutorState::Registering, ExecutorEvent::Registered) => (
            ExecutorState::Preparing,
            ExecutorAction::PrepareWorkspace,
        ),
        (ExecutorState::Preparing, ExecutorEvent::Prepared) => (
            ExecutorState::Submitting,
            ExecutorAction::Submit,
        ),
        (ExecutorState::Submitting, ExecutorEvent::Submitted) => (
            ExecutorState::Awaiting,
            ExecutorAction::AwaitResult,
        ),
        (ExecutorState::Awaiting, ExecutorEvent::ResultArrived { exit_code }) => (
            ExecutorState::Completed { exit_code },
            ExecutorAction::ReportCompleted { exit_code },
        ),
        (ExecutorState::Awaiting, ExecutorEvent::ChannelClosed) => (
            ExecutorState::Abandoned,
            ExecutorAction::ReportCancelled,
        ),
        (ExecutorState::Registering, ExecutorEvent::StepFailed(failure)) => (
            ExecutorState::Failed(failure),
            ExecutorAction::ReportFailure(failure),
        ),
        (ExecutorState::Preparing, ExecutorEvent::StepFailed(failure)) => (
            ExecutorState::Failed(failure),
            ExecutorAction::ReportFailure(failure),
        ),
        (ExecutorState::Submitting, ExecutorEvent::StepFailed(failure)) => (
            ExecutorState::Failed(failure),
            ExecutorAction::ReportFailure(failure),
        ),
        _ => (state, ExecutorAction::Ignore),
    }
}

/// Advances the execution by one event.
pub fn step(state: ExecutorState, event: ExecutorEvent) -> (next: (ExecutorState, ExecutorAction))
    ensures
        next == transition(state, event),
{
    match (state, event) {
        (ExecutorState::Idle, ExecutorEvent::Start { trace_registered }) => {
            if trace_registered {
                (ExecutorState::Preparing, ExecutorAction::PrepareWorkspace)
            } else {
                (ExecutorState::Registering, ExecutorAction::RegisterTrace)
            }
        },
        (ExecutorState::Registering, ExecutorEvent::Registered) => (
            ExecutorState::Preparing,
            ExecutorAction::PrepareWorkspace,
        ),
        (ExecutorState::Preparing, ExecutorEvent::Prepared) => (
            ExecutorState::Submitting,
            ExecutorAction::Submit,
        ),
        (ExecutorState::Submitting, ExecutorEvent::Submitted) => (
            ExecutorState::Awaiting,
            ExecutorAction::AwaitResult,
        ),
        (ExecutorState::Awaiting, ExecutorEvent::ResultArrived { exit_code }) => (
            ExecutorState::Completed { exit_code },
            ExecutorAction::ReportCompleted { exit_code },
        ),
        (ExecutorState::Awaiting, ExecutorEvent::ChannelClosed) => (
            ExecutorState::Abandoned,
            ExecutorAction::ReportCancelled,
        ),
        (ExecutorState::Registering, ExecutorEvent::StepFailed(failure)) => (
            ExecutorState::Failed(failure),
            ExecutorAction::ReportFailure(failure),
        ),
        (ExecutorState::Preparing, ExecutorEvent::StepFailed(failure)) => (
            ExecutorState::Failed(failure),
            ExecutorAction::ReportFailure(failure),
        ),
        (ExecutorState::Submitting, ExecutorEvent::StepFailed(failure)) => (
            ExecutorState::Failed(failure),
            ExecutorAction::ReportFailure(failure),
        ),
        (state, _) => (state, ExecutorAction::Ignore),
    }
}

/// Whether the trace has to be deregistered now: it has to on every way out,
/// whichever terminal state was reached.
pub fn teardown_due(state: ExecutorState) -> (due: bool)
    ensures
        due == is_terminal(state),
{
    match state {
        ExecutorState::Completed { .. } => true,
        ExecutorState::Abandoned => true,
        ExecutorState::Failed(_) => true,
        _ => false,
    }
}

/// The state after a run of events, taken one after another.
pub open spec fn run(state: ExecutorState, events: Seq<ExecutorEvent>) -> ExecutorState
    decreases events.len(),
{
    if events.len() == 0 {
        state
    } else {
        run(transition(state, events[0]).0, events.drop_first())
    }
}

/// A terminal state is final: no event leads out of it or asks for an action.
pub proof fn law_terminal_states_absorb(state: ExecutorState, event: ExecutorEvent)
    requires
        is_terminal(state),
    ensures
        transition(state, event) == (state, ExecutorAction::Ignore),
{
}

/// Success is never made up: an execution completes only while it awaits and
/// only on a result that arrived, with that result's exit code. A closed
/// channel ends the wait as abandoned, never as completed.
pub proof fn law_completion_needs_result(state: ExecutorState, event: ExecutorEvent)
    requires
        !is_terminal(state),
    ensures
        transition(state, event).0 is Completed ==> state is Awaiting && event
            == (ExecutorEvent::ResultArrived {
            exit_code: transition(state, event).0->exit_code,
        }),
        state is Awaiting && event is ChannelClosed ==> transition(state, event)
            == (ExecutorState::Abandoned, ExecutorAction::ReportCancelled),
{
}

/// Whatever events follow, an execution that has ended stays as it ended.
pub proof fn law_ended_runs_stay_ended(state: ExecutorState, events: Seq<ExecutorEvent>)
    requires
        is_terminal(state),
    ensures
        run(state, events) == state,
    decreases events.len(),
{
    if events.len() > 0 {
        law_ended_runs_stay_ended(state, events.drop_first());
    }
}

/// The executors that a configuration can ask for.
#[derive(Debug, Clone, PartialEq, Eq)]
pub enum InitExecutor {
    Local,
    Docker,
    Slurm(SlurmConfig),
}

/// The cluster executor's configuration out of the global one: an error
/// where no executor, or one of another kind, was configured.
pub fn slurm_config(init: Option<InitExecutor>) -> (cfg: Result<SlurmConfig, ConfigError>)
    ensures
        match init {
            Some(InitExecutor::Slurm(slurm)) => cfg == Ok::<SlurmConfig, ConfigError>(slurm),
            Some(_) => cfg == Err::<SlurmConfig, ConfigError>(ConfigError::WrongExecutor),
            None => cfg == Err::<SlurmConfig, ConfigError>(ConfigError::MissingExecutor),
        },
{
    match init {
        Some(InitExecutor::Slurm(slurm)) => Ok(slurm),
        Some(_) => Err(ConfigError::WrongExecutor),
        None => Err(ConfigError::MissingExecutor),
    }
}

/// Where the worker binary is placed under the workspace root.
pub fn get_bin(root: &str) -> (path: String)
    ensures
        path@ == root@ + seq!['/'] + "workerguy"@,
{
    let mut path = String::from_str(root);
    push_char(&mut path, '/');
    path.append("workerguy");
    path
}

/// The host name and port to ask the listener for: those of the
/// configuration, with an empty host name counting as none, and port zero
/// (any free port) where nothing is configured.
pub fn listener_request(info: &Option<ListenerInfo>) -> (request: (Option<String>, u16))
    ensures
        match *info {
            Some(i) => request.1 == i.port && if i.hostname@.len() == 0 {
                request.0 is None
            } else {
                request.0 is Some && request.0->0@ == i.hostname@
            },
            None => request.0 is None && request.1 == 0,
        },
{
    match info {
        Some(i) => {
            if i.hostname.as_str().unicode_len() == 0 {
                (None, i.port)
            } else {
                (Some(i.hostname.clone()), i.port)
            }
        },
        None => (None, 0),
    }
}

} // verus!
