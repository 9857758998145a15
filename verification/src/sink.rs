//! The bounded queue through which a trace's events reach its local consumer.

use std::collections::VecDeque;
use vstd::prelude::*;
use crate::events::Event;

verus! {

/// What a bounded queue holds after one more item is offered to it: the item
/// is appended, and the oldest one leaves if the queue was full.
pub open spec fn offered(queue: Seq<Event>, capacity: nat, event: Event) -> Seq<Event> {
    if queue.len() < capacity {
        queue.push(event)
    } else {
        queue.drop_first().push(event)
    }
}

/// A first-in first-out queue of events with a fixed capacity.
pub struct EventSink {
    queue: VecDeque<Event>,
    capacity: usize,
}

impl EventSink {
    /// The events waiting to be consumed, oldest first.
    pub closed spec fn view(&self) -> Seq<Event> {
        self.queue@
    }

    /// The number of events the queue can hold.
    pub closed spec fn capacity(&self) -> nat {
        self.capacity as nat
    }

    /// The queue never holds more than its capacity, which is at least one.
    pub open spec fn wf(&self) -> bool {
        &&& self.capacity() >= 1
        &&& self@.len() <= self.capacity()
    }

    /// An empty queue with room for `capacity` events.
    pub fn new(capacity: usize) -> (sink: EventSink)
        requires
            capacity >= 1,
        ensures
            sink.wf(),
            sink@ == Seq::<Event>::empty(),
            sink.capacity() == capacity,
    {
        EventSink { queue: VecDeque::new(), capacity }
    }

    /// Queues `event`; a full queue gives up its oldest event first. Returns
    /// whether an event was given up.
    pub fn forward(&mut self, event: Event) -> (dropped: bool)
        requires
            old(self).wf(),
        ensures
            final(self).wf(),
            final(self).capacity() == old(self).capacity(),
            final(self)@ == offered(old(self)@, old(self).capacity(), event),
            dropped == (old(self)@.len() == old(self).capacity()),
    {
        let full = self.queue.len() >= self.capacity;
        if full {
            let _oldest = self.queue.pop_front();
        }
        self.queue.push_back(event);
        full
    }

    /// Takes the oldest waiting event, if there is one.
    pub fn next_event(&mut self) -> (event: Option<Event>)
        requires
            old(self).wf(),
        ensures
            final(self).wf(),
            final(self).capacity() == old(self).capacity(),
            old(self)@.len() == 0 ==> event is None && final(self)@ == old(self)@,
            old(self)@.len() > 0 ==> event == Some(old(self)@[0]) && final(self)@ == old(
                self,
            )@.drop_first(),
    {
        self.queue.pop_front()
    }

    /// The number of waiting events.
    pub fn len(&self) -> (n: usize)
        ensures
            n == self@.len(),
    {
        self.queue.len()
    }
}

} // verus!
