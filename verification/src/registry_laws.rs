//! Laws of the registry, stated over the views that its operations are
//! specified with.

use vstd::prelude::*;
use crate::events::Event;
use crate::registry::{awaited, with_event, with_pending, without_pending, EntryView};

verus! {

/// A trace has at most one entry: once it is registered, a second
/// registration finds it present, and is therefore refused, until the trace
/// is deregistered.
pub proof fn law_trace_registered_once(
    table: Map<Seq<char>, EntryView>,
    trace: Seq<char>,
    entry: EntryView,
)
    ensures
        table.insert(trace, entry).contains_key(trace),
        !table.insert(trace, entry).remove(trace).contains_key(trace),
{
}

/// A command that was registered as pending under a live trace is awaited,
/// so that a second registration of it is refused.
pub proof fn law_pending_registered_once(
    table: Map<Seq<char>, EntryView>,
    trace: Seq<char>,
    command: Seq<char>,
)
    requires
        table.contains_key(trace),
    ensures
        awaited(with_pending(table, trace, command), trace, command),
{
}

/// A terminal result is consumed once: delivering it takes the pending entry
/// out, so that a second delivery for the same trace and command finds the
/// trace live but nothing awaited, and changes nothing.
pub proof fn law_result_consumed_once(
    table: Map<Seq<char>, EntryView>,
    trace: Seq<char>,
    command: Seq<char>,
)
    requires
        awaited(table, trace, command),
    ensures
        without_pending(table, trace, command).contains_key(trace),
        !awaited(without_pending(table, trace, command), trace, command),
        without_pending(without_pending(table, trace, command), trace, command)
            == without_pending(table, trace, command),
{
}

/// Deregistering a trace removes its entry whatever is pending under it, and
/// leaves none of its commands awaited: a result that arrives afterwards is
/// discarded and fulfils nothing.
pub proof fn law_deregister_abandons_pending(
    table: Map<Seq<char>, EntryView>,
    trace: Seq<char>,
    command: Seq<char>,
)
    ensures
        !table.remove(trace).contains_key(trace),
        !awaited(table.remove(trace), trace, command),
        without_pending(table.remove(trace), trace, command) == table.remove(trace),
{
}

/// An event or a result for a trace that is not live leaves the table as it
/// was.
pub proof fn law_unknown_trace_changes_nothing(
    table: Map<Seq<char>, EntryView>,
    event: Event,
    command: Seq<char>,
)
    requires
        !table.contains_key(event.trace_id@),
    ensures
        with_event(table, event) == table,
        without_pending(table, event.trace_id@, command) == table,
{
}

/// Events of one trace are queued in the order in which they arrive: while
/// there is room, two events routed one after the other stand at the end of
/// the queue in that order, behind what was queued before.
pub proof fn law_events_keep_their_order(
    table: Map<Seq<char>, EntryView>,
    first: Event,
    second: Event,
)
    requires
        table.contains_key(first.trace_id@),
        second.trace_id@ == first.trace_id@,
        table[first.trace_id@].queued.len() + 2 <= table[first.trace_id@].capacity,
    ensures
        with_event(with_event(table, first), second)[first.trace_id@].queued
            == table[first.trace_id@].queued.push(first).push(second),
{
}

/// Whatever is routed to one trace, live or not, every other trace keeps its
/// entry as it was.
pub proof fn law_other_traces_untouched(
    table: Map<Seq<char>, EntryView>,
    event: Event,
    command: Seq<char>,
    entry: EntryView,
    other: Seq<char>,
)
    requires
        other != event.trace_id@,
    ensures
        with_event(table, event).contains_key(other) == table.contains_key(other),
        with_event(table, event)[other] == table[other],
        without_pending(table, event.trace_id@, command).contains_key(other)
            == table.contains_key(other),
        without_pending(table, event.trace_id@, command)[other] == table[other],
        table.insert(event.trace_id@, entry).contains_key(other) == table.contains_key(other),
        table.insert(event.trace_id@, entry)[other] == table[other],
        table.remove(event.trace_id@).contains_key(other) == table.contains_key(other),
        table.remove(event.trace_id@)[other] == table[other],
{
}

} // verus!
