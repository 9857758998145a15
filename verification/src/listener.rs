//! The process-wide proxy listener: whether it has been started, the address
//! it is bound to, and the table of live traces it routes to.
//!
//! Binding a socket is left to the caller. The listener decides whether a bind
//! is due and records its outcome; a caller holds the listener exclusively
//! from the decision to the record, so that first uses cannot race.

use vstd::prelude::*;
use crate::registry::TraceTable;
use crate::text::{decimal, push_char, push_decimal};

verus! {

/// The address a listener is bound to.
#[derive(Debug, Clone, PartialEq, Eq)]
pub struct BoundAddress {
    /// The host part, as text.
    pub host: String,
    /// The port that was assigned.
    pub port: u16,
}

/// A bound address as contracts see it.
pub ghost struct AddressView {
    pub host: Seq<char>,
    pub port: u16,
}

impl BoundAddress {
    pub open spec fn view(&self) -> AddressView {
        AddressView { host: self.host@, port: self.port }
    }

    /// A copy of the address.
    pub fn duplicate(&self) -> (copy: BoundAddress)
        ensures
            copy@ == self@,
    {
        BoundAddress { host: self.host.clone(), port: self.port }
    }
}

/// What a caller that asks for the listener has to do.
#[derive(Debug, Clone, PartialEq, Eq)]
pub enum StartAction {
    /// The listener is running; this is its address.
    UseExisting(BoundAddress),
    /// No listener is running: bind this port (zero stands for any free
    /// port), serve on it, and record the address that was bound.
    Bind { port: u16 },
}

/// Why the listener could not be started.
#[derive(Debug, PartialEq, Eq, Clone, Copy, Structural)]
pub enum StartError {
    /// The socket could not be bound.
    BindFailed,
}

/// The state after a start request against `bound`, where `fresh` is the
/// address that a bind would obtain.
pub open spec fn started(bound: Option<AddressView>, fresh: AddressView) -> AddressView {
    match bound {
        Some(existing) => existing,
        None => fresh,
    }
}

/// The number of binds made by a run of start requests served one after
/// another, where the `i`-th request would obtain `fresh[i]` if it had to
/// bind.
pub open spec fn binds_made(bound: Option<AddressView>, fresh: Seq<AddressView>) -> nat
    decreases fresh.len(),
{
    if fresh.len() == 0 {
        0
    } else {
        let first: nat = if bound is None {
            1
        } else {
            0
        };
        first + binds_made(Some(started(bound, fresh[0])), fresh.drop_first())
    }
}

/// The address that the `i`-th request of such a run observes.
pub open spec fn observed(bound: Option<AddressView>, fresh: Seq<AddressView>, i: int) -> AddressView
    recommends
        0 <= i < fresh.len(),
    decreases fresh.len(),
{
    if fresh.len() == 0 {
        arbitrary()
    } else if i <= 0 {
        started(bound, fresh[0])
    } else {
        observed(Some(started(bound, fresh[0])), fresh.drop_first(), i - 1)
    }
}

/// Once a listener is bound, no later request binds and every later request
/// observes the bound address.
pub proof fn law_running_listener_is_stable(
    existing: AddressView,
    fresh: Seq<AddressView>,
    i: int,
)
    requires
        0 <= i < fresh.len(),
    ensures
        binds_made(Some(existing), fresh) == 0,
        observed(Some(existing), fresh, i) == existing,
    decreases fresh.len(),
{
    if fresh.len() > 1 {
        if i > 0 {
            law_running_listener_is_stable(existing, fresh.drop_first(), i - 1);
        } else {
            law_running_listener_is_stable(existing, fresh.drop_first(), 0);
        }
    } else {
        assert(binds_made(Some(existing), fresh.drop_first()) == 0);
    }
}

/// However many requests reach a listener that was not started, exactly one
/// of them binds, and all of them observe the address that this one bound.
pub proof fn law_single_bind(fresh: Seq<AddressView>, i: int)
    requires
        0 <= i < fresh.len(),
    ensures
        binds_made(None, fresh) == 1,
        observed(None, fresh, i) == fresh[0],
{
    if fresh.len() > 1 {
        if i > 0 {
            law_running_listener_is_stable(fresh[0], fresh.drop_first(), i - 1);
        } else {
            law_running_listener_is_stable(fresh[0], fresh.drop_first(), 0);
        }
    } else {
        assert(binds_made(Some(fresh[0]), fresh.drop_first()) == 0);
    }
}

/// Whether the listener was started, and where it is bound.
pub struct ListenerState {
    bound: Option<BoundAddress>,
}

/// The process-wide state: the listener and the table of live traces that it
/// routes to.
pub struct ProxyState {
    pub listener: ListenerState,
    pub traces: TraceTable,
}

impl ProxyState {
    /// A listener that was not started, with no live trace.
    pub fn new() -> (state: ProxyState)
        ensures
            state.listener.address() is None,
            state.traces.wf(),
            state.traces@ == Map::<Seq<char>, crate::registry::EntryView>::empty(),
    {
        ProxyState { listener: ListenerState::new(), traces: TraceTable::new() }
    }
}

impl ListenerState {
    /// The bound address, if the listener was started.
    pub closed spec fn address(&self) -> Option<AddressView> {
        match self.bound {
            Some(address) => Some(address@),
            None => None,
        }
    }

    /// A listener that was not started.
    pub fn new() -> (state: ListenerState)
        ensures
            state.address() is None,
    {
        ListenerState { bound: None }
    }

    /// The bound address, if the listener was started.
    pub fn bound_address(&self) -> (address: Option<BoundAddress>)
        ensures
            address is Some == self.address() is Some,
            address matches Some(a) ==> Some(a@) == self.address(),
    {
        match &self.bound {
            Some(address) => Some(address.duplicate()),
            None => None,
        }
    }

    /// Decides what a start request has to do: a running listener answers
    /// with its address whatever port is asked for, and one that was not
    /// started asks for a bind of the preferred port.
    pub fn ensure_started(&self, preferred_port: u16) -> (action: StartAction)
        ensures
            match self.address() {
                Some(existing) => action matches StartAction::UseExisting(a) && a@ == existing,
                None => action matches StartAction::Bind { port } && port == preferred_port,
            },
    {
        match &self.bound {
            Some(address) => StartAction::UseExisting(address.duplicate()),
            None => StartAction::Bind { port: preferred_port },
        }
    }

    /// Records the outcome of a bind and answers the start request. A failed
    /// bind leaves the listener as it was and is reported. An address is
    /// assigned once: where one is in force already it stays, and the request
    /// is answered with it.
    pub fn complete_start(&mut self, outcome: Option<BoundAddress>) -> (answer: Result<
        BoundAddress,
        StartError,
    >)
        ensures
            final(self).address() == match old(self).address() {
                Some(existing) => Some(existing),
                None => match outcome {
                    Some(fresh) => Some(fresh@),
                    None => None,
                },
            },
            outcome matches Some(fresh) ==> final(self).address() == Some(
                started(old(self).address(), fresh@),
            ),
            answer is Ok <==> (old(self).address() is Some || outcome is Some),
            answer matches Ok(a) ==> Some(a@) == final(self).address(),
            answer matches Err(e) ==> e == StartError::BindFailed,
    {
        match &self.bound {
            Some(address) => Ok(address.duplicate()),
            None => match outcome {
                Some(fresh) => {
                    let answer = fresh.duplicate();
                    self.bound = Some(fresh);
                    Ok(answer)
                },
                None => Err(StartError::BindFailed),
            },
        }
    }
}

/// The text `host:port` of an address, with the port in decimal.
pub open spec fn address_text(host: Seq<char>, port: u16) -> Seq<char> {
    host + seq![':'] + decimal(port as nat)
}

/// The host name that workers call back under: the configured name, unless
/// there is none or it is empty, in which case it is the host the listener is
/// bound to.
pub open spec fn callback_host(hostname: Option<Seq<char>>, address: AddressView) -> Seq<char> {
    match hostname {
        Some(name) => if name.len() > 0 {
            name
        } else {
            address.host
        },
        None => address.host,
    }
}

/// The address that workers are told to call back: the callback host and the
/// bound port.
pub fn callback_address(hostname: &Option<String>, address: &BoundAddress) -> (text: String)
    ensures
        text@ == address_text(
            callback_host(
                match *hostname {
                    Some(name) => Some(name@),
                    None => None,
                },
                address@,
            ),
            address.port,
        ),
{
    let mut text = match hostname {
        Some(name) => if name.as_str().unicode_len() > 0 {
            name.clone()
        } else {
            address.host.clone()
        },
        None => address.host.clone(),
    };
    push_char(&mut text, ':');
    push_decimal(&mut text, address.port as u64);
    text
}

} // verus!
