//! The messages that travel between a remote worker and the proxy listener.

use vstd::prelude::*;

verus! {

/// One reading of the resources a running command uses.
#[derive(Debug, Clone, PartialEq, Eq)]
pub struct ResourceSample {
    pub memory_bytes: u64,
    pub cpu_millis: u64,
}

/// What an event reports.
#[derive(Debug, Clone, PartialEq, Eq)]
pub enum EventKind {
    CommandStarted,
    Stdout(String),
    Stderr(String),
    Resource(ResourceSample),
    Warning(String),
}

/// A message streamed while a command runs, tagged with its trace and command.
#[derive(Debug, Clone, PartialEq, Eq)]
pub struct Event {
    pub trace_id: String,
    pub command_name: String,
    pub kind: EventKind,
}

/// The outcome a worker reports once for a command.
#[derive(Debug, Clone, PartialEq, Eq)]
pub struct TerminalResult {
    pub command_name: String,
    pub exit_code: i32,
    pub artifacts: Vec<String>,
}

/// A terminal result tagged with the trace it belongs to.
#[derive(Debug, Clone, PartialEq, Eq)]
pub struct TaggedResult {
    pub trace_id: String,
    pub result: TerminalResult,
}

} // verus!
