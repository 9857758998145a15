//! The concurrent maps that hold the registry, and what is taken on trust of
//! them. Every operation here is stated for a caller that holds the map
//! exclusively.

use vstd::prelude::*;
use crate::events::TerminalResult;
use crate::registry::{EntryView, RemoteServerEntry};

verus! {

/// The concurrent hash map of the `scc` crate, carried as an opaque value.
#[verifier::external_type_specification]
#[verifier::external_body]
#[verifier::reject_recursive_types(K)]
#[verifier::reject_recursive_types(V)]
#[verifier::reject_recursive_types(H)]
pub struct ExConcurrentMap<K, V, H: core::hash::BuildHasher>(scc::HashMap<K, V, H>);

/// The sending half of tokio's one-shot channel, carried as an opaque value.
#[verifier::external_type_specification]
#[verifier::external_body]
#[verifier::reject_recursive_types(T)]
pub struct ExResultSender<T>(tokio::sync::oneshot::Sender<T>);

/// The command names that a pending command table holds.
pub uninterp spec fn pending_names(
    table: scc::HashMap<String, tokio::sync::oneshot::Sender<TerminalResult>>,
) -> Set<Seq<char>>;

/// The traces that a trace table holds, each with the view of its entry.
pub uninterp spec fn trace_entries(table: scc::HashMap<String, RemoteServerEntry>) -> Map<
    Seq<char>,
    EntryView,
>;

/// `scc::HashMap::new`: an empty pending command table.
#[verifier::external_body]
pub(crate) fn pending_new() -> (table: scc::HashMap<
    String,
    tokio::sync::oneshot::Sender<TerminalResult>,
>)
    ensures
        pending_names(table) == Set::<Seq<char>>::empty(),
{
    scc::HashMap::new()
}

/// `scc::HashMap::insert`: adds the command unless its name is present, in
/// which case the table is left as it was and the call fails.
#[verifier::external_body]
pub(crate) fn pending_insert(
    table: &mut scc::HashMap<String, tokio::sync::oneshot::Sender<TerminalResult>>,
    command: String,
    receptor: tokio::sync::oneshot::Sender<TerminalResult>,
) -> (inserted: bool)
    ensures
        inserted == !pending_names(*old(table)).contains(command@),
        inserted ==> pending_names(*final(table)) == pending_names(*old(table)).insert(command@),
        !inserted ==> pending_names(*final(table)) == pending_names(*old(table)),
{
    table.insert(command, receptor).is_ok()
}

/// `scc::HashMap::remove`: takes the command's receptor out if the name is
/// present, and returns `None` with the table unchanged if it is not.
#[verifier::external_body]
pub(crate) fn pending_remove(
    table: &mut scc::HashMap<String, tokio::sync::oneshot::Sender<TerminalResult>>,
    command: &str,
) -> (receptor: Option<tokio::sync::oneshot::Sender<TerminalResult>>)
    ensures
        receptor is Some == pending_names(*old(table)).contains(command@),
        pending_names(*final(table)) == pending_names(*old(table)).remove(command@),
{
    table.remove(command).map(|pair| pair.1)
}

/// `scc::HashMap::contains`: whether the command name is present.
#[verifier::external_body]
pub(crate) fn pending_contains(
    table: &scc::HashMap<String, tokio::sync::oneshot::Sender<TerminalResult>>,
    command: &str,
) -> (present: bool)
    ensures
        present == pending_names(*table).contains(command@),
{
    table.contains(command)
}

/// `scc::HashMap::new`: an empty trace table.
#[verifier::external_body]
pub(crate) fn traces_new() -> (table: scc::HashMap<String, RemoteServerEntry>)
    ensures
        trace_entries(table).dom() == Set::<Seq<char>>::empty(),
{
    scc::HashMap::new()
}

/// `scc::HashMap::insert`: adds the entry unless the trace is present, in
/// which case the table is left as it was and the entry is handed back.
#[verifier::external_body]
pub(crate) fn traces_insert(
    table: &mut scc::HashMap<String, RemoteServerEntry>,
    trace_id: String,
    entry: RemoteServerEntry,
) -> (refused: Option<RemoteServerEntry>)
    ensures
        refused is Some == trace_entries(*old(table)).contains_key(trace_id@),
        refused matches Some(back) ==> back == entry && trace_entries(*final(table))
            == trace_entries(*old(table)),
        refused is None ==> trace_entries(*final(table)) == trace_entries(*old(table)).insert(
            trace_id@,
            entry@,
        ),
{
    table.insert(trace_id, entry).err().map(|pair| pair.1)
}

/// `scc::HashMap::remove`: takes the trace's entry out, with the key it was
/// stored under, if the trace is present; returns `None` with the table
/// unchanged if it is not.
#[verifier::external_body]
pub(crate) fn traces_remove(table: &mut scc::HashMap<String, RemoteServerEntry>, trace_id: &str) -> (taken:
    Option<(String, RemoteServerEntry)>)
    ensures
        taken is Some == trace_entries(*old(table)).contains_key(trace_id@),
        taken matches Some(pair) ==> pair.0@ == trace_id@ && pair.1@ == trace_entries(
            *old(table),
        )[trace_id@],
        trace_entries(*final(table)) == trace_entries(*old(table)).remove(trace_id@),
{
    table.remove(trace_id)
}

/// `scc::HashMap::contains`: whether the trace is present.
#[verifier::external_body]
pub(crate) fn traces_contains(table: &scc::HashMap<String, RemoteServerEntry>, trace_id: &str) -> (present:
    bool)
    ensures
        present == trace_entries(*table).contains_key(trace_id@),
{
    table.contains(trace_id)
}

/// `tokio::sync::oneshot::Sender::send`: hands the result to the receiving
/// half. Whether it is taken depends on whether that half is still alive;
/// a result that was not taken comes back unchanged.
#[verifier::external_body]
pub(crate) fn send_result(
    receptor: tokio::sync::oneshot::Sender<TerminalResult>,
    result: TerminalResult,
) -> (returned: Option<TerminalResult>)
    ensures
        returned matches Some(back) ==> back == result,
{
    receptor.send(result).err()
}

} // verus!
