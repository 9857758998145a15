//! The two-level registry of live traces: each trace owns an event sink and a
//! table of the commands whose terminal result is still awaited.

use vstd::prelude::*;
use crate::events::{Event, TaggedResult, TerminalResult};
use crate::sink::{offered, EventSink};
use crate::tables::{
    pending_contains, pending_insert, pending_names, pending_new, pending_remove, send_result,
    trace_entries, traces_contains, traces_insert, traces_new, traces_remove,
};

verus! {

/// Why a registration was refused.
#[derive(Debug, PartialEq, Eq, Clone, Copy, Structural)]
pub enum RegistryError {
    /// The trace, or the command under its trace, is already registered.
    DuplicateRegistration,
    /// The trace named by the request has no entry.
    UnknownTrace,
}

/// What became of an event handed to the listener.
#[derive(Debug, PartialEq, Eq, Clone, Copy, Structural)]
pub enum EventOutcome {
    /// The event was queued on its trace's sink.
    Forwarded,
    /// The event's trace has no entry; the event was dropped.
    UnknownTrace,
}

/// What became of a terminal result handed to the listener.
#[derive(Debug, PartialEq, Eq, Clone, Copy, Structural)]
pub enum Delivery {
    /// The pending entry was removed and its receptor took the result.
    Fulfilled,
    /// The pending entry was removed, but nobody was awaiting its receptor.
    ReceiverGone,
    /// The result's trace has no entry; the result was discarded.
    UnknownTrace,
    /// The trace has no pending command of that name; the result was discarded.
    UnknownCommand,
}

/// The state of one live trace as contracts see it.
pub ghost struct EntryView {
    /// The events queued for the local consumer, oldest first.
    pub queued: Seq<Event>,
    /// The capacity of that queue.
    pub capacity: nat,
    /// The names of the commands whose result is awaited.
    pub pending: Set<Seq<char>>,
}

/// The record of one live trace: the sink for its events and the table of
/// its pending commands, each with the receptor that awaits the result.
pub struct RemoteServerEntry {
    sink: EventSink,
    pending: scc::HashMap<String, tokio::sync::oneshot::Sender<TerminalResult>>,
}

impl RemoteServerEntry {
    /// The entry as contracts see it.
    pub closed spec fn view(&self) -> EntryView {
        EntryView {
            queued: self.sink@,
            capacity: self.sink.capacity(),
            pending: pending_names(self.pending),
        }
    }

    /// A record with the given sink and no pending command.
    pub fn new(sink: EventSink) -> (entry: RemoteServerEntry)
        ensures
            entry@ == (EntryView {
                queued: sink@,
                capacity: sink.capacity(),
                pending: Set::<Seq<char>>::empty(),
            }),
    {
        RemoteServerEntry { sink, pending: pending_new() }
    }
}

/// The queue of an entry is within its capacity.
pub open spec fn entry_wf(entry: EntryView) -> bool {
    &&& entry.capacity >= 1
    &&& entry.queued.len() <= entry.capacity
}

/// Whether a result for `command` is awaited under `trace`.
pub open spec fn awaited(
    table: Map<Seq<char>, EntryView>,
    trace: Seq<char>,
    command: Seq<char>,
) -> bool {
    table.contains_key(trace) && table[trace].pending.contains(command)
}

/// The table after `event` was routed: queued on its trace's sink if the trace
/// is live, and dropped otherwise.
pub open spec fn with_event(table: Map<Seq<char>, EntryView>, event: Event) -> Map<
    Seq<char>,
    EntryView,
> {
    let trace = event.trace_id@;
    if table.contains_key(trace) {
        table.insert(
            trace,
            EntryView {
                queued: offered(table[trace].queued, table[trace].capacity, event),
                ..table[trace]
            },
        )
    } else {
        table
    }
}

/// The table after the oldest queued event of `trace` was taken; unchanged
/// where the trace is not live or has nothing queued.
pub open spec fn without_first_event(table: Map<Seq<char>, EntryView>, trace: Seq<char>) -> Map<
    Seq<char>,
    EntryView,
> {
    if table.contains_key(trace) && table[trace].queued.len() > 0 {
        table.insert(
            trace,
            EntryView { queued: table[trace].queued.drop_first(), ..table[trace] },
        )
    } else {
        table
    }
}

/// The table after `command` was added to the pending commands of `trace`.
pub open spec fn with_pending(
    table: Map<Seq<char>, EntryView>,
    trace: Seq<char>,
    command: Seq<char>,
) -> Map<Seq<char>, EntryView> {
    table.insert(
        trace,
        EntryView { pending: table[trace].pending.insert(command), ..table[trace] },
    )
}

/// The table after the pending entry of `command` under `trace` was taken
/// out; unchanged where there is no such entry.
pub open spec fn without_pending(
    table: Map<Seq<char>, EntryView>,
    trace: Seq<char>,
    command: Seq<char>,
) -> Map<Seq<char>, EntryView> {
    if awaited(table, trace, command) {
        table.insert(
            trace,
            EntryView { pending: table[trace].pending.remove(command), ..table[trace] },
        )
    } else {
        table
    }
}

/// Every entry of the table is well formed.
pub open spec fn table_wf(table: Map<Seq<char>, EntryView>) -> bool {
    forall|trace: Seq<char>| #[trigger] table.contains_key(trace) ==> entry_wf(table[trace])
}

proof fn lemma_wf_insert(table: Map<Seq<char>, EntryView>, trace: Seq<char>, entry: EntryView)
    requires
        table_wf(table),
        entry_wf(entry),
    ensures
        table_wf(table.insert(trace, entry)),
{
    assert forall|t: Seq<char>| #[trigger] table.insert(trace, entry).contains_key(t) implies entry_wf(
        table.insert(trace, entry)[t],
    ) by {
        if t != trace {
            assert(table.contains_key(t));
        }
    }
}

proof fn lemma_wf_remove(table: Map<Seq<char>, EntryView>, trace: Seq<char>)
    requires
        table_wf(table),
    ensures
        table_wf(table.remove(trace)),
{
    assert forall|t: Seq<char>| #[trigger] table.remove(trace).contains_key(t) implies entry_wf(
        table.remove(trace)[t],
    ) by {
        assert(table.contains_key(t));
    }
}

/// The table of live traces.
pub struct TraceTable {
    entries: scc::HashMap<String, RemoteServerEntry>,
}

impl TraceTable {
    /// The live traces, each with the state of its entry.
    pub closed spec fn view(&self) -> Map<Seq<char>, EntryView> {
        trace_entries(self.entries)
    }

    /// Every live trace's queue is within its capacity.
    pub open spec fn wf(&self) -> bool {
        table_wf(self@)
    }

    /// A table with no live trace.
    pub fn new() -> (table: TraceTable)
        ensures
            table.wf(),
            table@ == Map::<Seq<char>, EntryView>::empty(),
    {
        let table = TraceTable { entries: traces_new() };
        assert(table@ =~= Map::<Seq<char>, EntryView>::empty());
        table
    }

    /// Whether `trace_id` is live.
    pub fn is_registered(&self, trace_id: &str) -> (live: bool)
        ensures
            live == self@.contains_key(trace_id@),
    {
        traces_contains(&self.entries, trace_id)
    }

    /// Begins a trace: gives it an entry with `sink` and no pending command.
    /// A trace that is already live is refused and keeps its entry.
    pub fn register(&mut self, trace_id: String, sink: EventSink) -> (outcome: Result<
        (),
        RegistryError,
    >)
        requires
            old(self).wf(),
            sink.wf(),
        ensures
            final(self).wf(),
            old(self)@.contains_key(trace_id@) ==> outcome == Err::<(), RegistryError>(
                RegistryError::DuplicateRegistration,
            ) && final(self)@ == old(self)@,
            !old(self)@.contains_key(trace_id@) ==> outcome is Ok && final(self)@ == old(
                self,
            )@.insert(
                trace_id@,
                EntryView {
                    queued: sink@,
                    capacity: sink.capacity(),
                    pending: Set::<Seq<char>>::empty(),
                },
            ),
    {
        let entry = RemoteServerEntry::new(sink);
        proof {
            lemma_wf_insert(self@, trace_id@, entry@);
        }
        match traces_insert(&mut self.entries, trace_id, entry) {
            Some(_refused) => Err(RegistryError::DuplicateRegistration),
            None => Ok(()),
        }
    }

    /// Ends a trace: removes its entry together with every command still
    /// pending under it. The receptors of those commands are dropped
    /// unfulfilled, which their awaiting sides observe as a closed channel.
    /// Returns whether the trace was live.
    pub fn deregister(&mut self, trace_id: &str) -> (was_live: bool)
        requires
            old(self).wf(),
        ensures
            final(self).wf(),
            was_live == old(self)@.contains_key(trace_id@),
            final(self)@ == old(self)@.remove(trace_id@),
    {
        proof {
            lemma_wf_remove(self@, trace_id@);
        }
        let taken = traces_remove(&mut self.entries, trace_id);
        taken.is_some()
    }

    /// Whether a result for `command` is awaited under `trace_id`.
    pub fn is_pending(&mut self, trace_id: &str, command: &str) -> (pending: bool)
        requires
            old(self).wf(),
        ensures
            final(self).wf(),
            final(self)@ == old(self)@,
            pending == awaited(old(self)@, trace_id@, command@),
    {
        match traces_remove(&mut self.entries, trace_id) {
            None => {
                assert(self@ =~= old(self)@);
                false
            },
            Some((key, entry)) => {
                let present = pending_contains(&entry.pending, command);
                let _refused = traces_insert(&mut self.entries, key, entry);
                assert(self@ =~= old(self)@);
                present
            },
        }
    }

    /// Records that a result for `command` is awaited under `trace_id`, to be
    /// handed to `receptor`. Refused, with the table unchanged, if the trace
    /// is not live or the command is already pending under it.
    pub fn register_pending(
        &mut self,
        trace_id: &str,
        command: String,
        receptor: tokio::sync::oneshot::Sender<TerminalResult>,
    ) -> (outcome: Result<(), RegistryError>)
        requires
            old(self).wf(),
        ensures
            final(self).wf(),
            !old(self)@.contains_key(trace_id@) ==> outcome == Err::<(), RegistryError>(
                RegistryError::UnknownTrace,
            ) && final(self)@ == old(self)@,
            awaited(old(self)@, trace_id@, command@) ==> outcome == Err::<(), RegistryError>(
                RegistryError::DuplicateRegistration,
            ) && final(self)@ == old(self)@,
            old(self)@.contains_key(trace_id@) && !awaited(old(self)@, trace_id@, command@)
                ==> outcome is Ok && final(self)@ == with_pending(
                old(self)@,
                trace_id@,
                command@,
            ),
    {
        match traces_remove(&mut self.entries, trace_id) {
            None => {
                assert(self@ =~= old(self)@);
                Err(RegistryError::UnknownTrace)
            },
            Some((key, mut entry)) => {
                let ghost name = command@;
                assert(old(self)@.contains_key(trace_id@));
                let inserted = pending_insert(&mut entry.pending, command, receptor);
                proof {
                    lemma_wf_remove(old(self)@, trace_id@);
                    lemma_wf_insert(self@, key@, entry@);
                }
                let _refused = traces_insert(&mut self.entries, key, entry);
                if inserted {
                    assert(self@ =~= with_pending(old(self)@, trace_id@, name));
                    Ok(())
                } else {
                    assert(self@ =~= old(self)@);
                    Err(RegistryError::DuplicateRegistration)
                }
            },
        }
    }

    /// Routes an event: queues it on the sink of its trace, where a full sink
    /// gives up its oldest event; drops it if the trace is not live.
    pub fn on_event(&mut self, event: Event) -> (outcome: EventOutcome)
        requires
            old(self).wf(),
        ensures
            final(self).wf(),
            final(self)@ == with_event(old(self)@, event),
            outcome == if old(self)@.contains_key(event.trace_id@) {
                EventOutcome::Forwarded
            } else {
                EventOutcome::UnknownTrace
            },
    {
        match traces_remove(&mut self.entries, event.trace_id.as_str()) {
            None => {
                assert(self@ =~= old(self)@);
                EventOutcome::UnknownTrace
            },
            Some((key, mut entry)) => {
                assert(old(self)@.contains_key(event.trace_id@));
                let _dropped = entry.sink.forward(event);
                proof {
                    lemma_wf_remove(old(self)@, event.trace_id@);
                    lemma_wf_insert(self@, key@, entry@);
                }
                let _refused = traces_insert(&mut self.entries, key, entry);
                assert(self@ =~= with_event(old(self)@, event));
                EventOutcome::Forwarded
            },
        }
    }

    /// Takes the oldest event queued for the local consumer of `trace_id`;
    /// none where the trace is not live or nothing is queued.
    pub fn next_event(&mut self, trace_id: &str) -> (event: Option<Event>)
        requires
            old(self).wf(),
        ensures
            final(self).wf(),
            final(self)@ == without_first_event(old(self)@, trace_id@),
            event == if old(self)@.contains_key(trace_id@) && old(self)@[trace_id@].queued.len()
                > 0 {
                Some(old(self)@[trace_id@].queued[0])
            } else {
                None
            },
    {
        match traces_remove(&mut self.entries, trace_id) {
            None => {
                assert(self@ =~= old(self)@);
                None
            },
            Some((key, mut entry)) => {
                assert(old(self)@.contains_key(trace_id@));
                let event = entry.sink.next_event();
                proof {
                    lemma_wf_remove(old(self)@, trace_id@);
                    lemma_wf_insert(self@, key@, entry@);
                }
                let _refused = traces_insert(&mut self.entries, key, entry);
                assert(self@ =~= without_first_event(old(self)@, trace_id@));
                event
            },
        }
    }

    /// Routes a terminal result: if its command is pending under its trace,
    /// removes the pending entry and hands the result to the receptor;
    /// otherwise discards the result and leaves the table as it was.
    pub fn on_result(&mut self, tagged: TaggedResult) -> (outcome: Delivery)
        requires
            old(self).wf(),
        ensures
            final(self).wf(),
            final(self)@ == without_pending(
                old(self)@,
                tagged.trace_id@,
                tagged.result.command_name@,
            ),
            outcome is UnknownTrace <==> !old(self)@.contains_key(tagged.trace_id@),
            outcome is UnknownCommand <==> old(self)@.contains_key(tagged.trace_id@) && !awaited(
                old(self)@,
                tagged.trace_id@,
                tagged.result.command_name@,
            ),
    {
        let TaggedResult { trace_id, result } = tagged;
        match traces_remove(&mut self.entries, trace_id.as_str()) {
            None => {
                assert(self@ =~= old(self)@);
                Delivery::UnknownTrace
            },
            Some((key, mut entry)) => {
                assert(old(self)@.contains_key(trace_id@));
                let receptor = pending_remove(&mut entry.pending, result.command_name.as_str());
                proof {
                    lemma_wf_remove(old(self)@, trace_id@);
                    lemma_wf_insert(self@, key@, entry@);
                }
                let _refused = traces_insert(&mut self.entries, key, entry);
                match receptor {
                    None => {
                        assert(entry@.pending =~= old(self)@[trace_id@].pending);
                        assert(self@ =~= old(self)@);
                        Delivery::UnknownCommand
                    },
                    Some(receptor) => {
                        assert(self@ =~= without_pending(
                            old(self)@,
                            trace_id@,
                            result.command_name@,
                        ));
                        delivery_of(send_result(receptor, result))
                    },
                }
            },
        }
    }
}

/// What a delivery amounts to, given what the receptor handed back: a result
/// that came back was not taken.
pub fn delivery_of(returned: Option<TerminalResult>) -> (outcome: Delivery)
    ensures
        outcome == if returned is Some {
            Delivery::ReceiverGone
        } else {
            Delivery::Fulfilled
        },
{
    match returned {
        Some(_) => Delivery::ReceiverGone,
        None => Delivery::Fulfilled,
    }
}

} // verus!
