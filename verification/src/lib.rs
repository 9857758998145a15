//! Remote command execution for a build orchestrator: the registry of live
//! traces and their pending commands, the routing decisions of the proxy
//! listener, the rendering of submission scripts, and the state machines of
//! the executor and of the worker, each with a machine-checked contract.
//!
//! Beside these stand a few self-contained helpers: byte-pair encoding over
//! integer units, a builder and a checker for regular expressions, and the
//! size of typed buffers.

pub mod events;
pub mod sink;
pub mod tables;
pub mod registry;
pub mod registry_laws;
pub mod text;
pub mod listener;
pub mod submission;
pub mod workspace;
pub mod executor;
pub mod worker;
pub mod bpe;
pub mod regex_parts;
pub mod iregexp;
pub mod convert;
