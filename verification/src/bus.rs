//! The event bus: one queue for everything that happens.
//!
//! Every source of events emits into the bus, and the session takes events
//! out of it one at a time, in the order in which they came. Once the bus is
//! closed it takes no more events.

use vstd::prelude::*;
use std::collections::VecDeque;
use crate::events::{Events, EventsView};

verus! {

/// The events of a queue, each by its view.
pub open spec fn event_views(events: Seq<Events>) -> Seq<EventsView> {
    events.map_values(|e: Events| e@)
}

/// The queue after `event` was emitted: it goes to the back of an open bus,
/// and a closed bus drops it.
pub open spec fn emitted(queue: Seq<EventsView>, closed: bool, event: EventsView) -> Seq<
    EventsView,
> {
    if closed {
        queue
    } else {
        queue.push(event)
    }
}

/// The queue after all of `events` were emitted, one after the other.
pub open spec fn emitted_all(queue: Seq<EventsView>, closed: bool, events: Seq<EventsView>) -> Seq<
    EventsView,
>
    decreases events.len(),
{
    if events.len() == 0 {
        queue
    } else {
        emitted_all(emitted(queue, closed, events[0]), closed, events.drop_first())
    }
}

/// The queue of events and the mark that closes it.
#[derive(Debug)]
pub struct EventBus {
    queue: VecDeque<Events>,
    closed: bool,
}

impl View for EventBus {
    type V = Seq<EventsView>;

    closed spec fn view(&self) -> Seq<EventsView> {
        event_views(self.queue@)
    }
}

impl EventBus {
    /// Whether the bus was closed.
    pub closed spec fn spec_is_closed(&self) -> bool {
        self.closed
    }

    /// An open bus with no events.
    pub fn new() -> (bus: EventBus)
        ensures
            bus@ == Seq::<EventsView>::empty(),
            !bus.is_closed(),
    {
        let bus = EventBus { queue: VecDeque::new(), closed: false };
        assert(bus@ =~= Seq::<EventsView>::empty());
        bus
    }

    #[verifier::when_used_as_spec(spec_is_closed)]
    pub fn is_closed(&self) -> (closed: bool)
        ensures
            closed == self.is_closed(),
    {
        self.closed
    }

    /// The number of events that wait.
    pub fn len(&self) -> (n: usize)
        ensures
            n == self@.len(),
    {
        self.queue.len()
    }

    /// Puts `event` at the back of the queue and says whether the bus took
    /// it: a closed bus takes nothing.
    pub fn emit(&mut self, event: Events) -> (accepted: bool)
        ensures
            accepted == !old(self).is_closed(),
            final(self)@ == emitted(old(self)@, old(self).is_closed(), event@),
            final(self).is_closed() == old(self).is_closed(),
    {
        if self.closed {
            false
        } else {
            self.queue.push_back(event);
            assert(self@ =~= old(self)@.push(event@));
            true
        }
    }

    /// Takes the event at the front of the queue, if there is one. Events
    /// that were emitted before the bus was closed can still be taken.
    pub fn next(&mut self) -> (event: Option<Events>)
        ensures
            final(self).is_closed() == old(self).is_closed(),
            match event {
                Some(e) => old(self)@.len() > 0 && e@ == old(self)@[0] && final(self)@ == old(
                    self,
                )@.drop_first(),
                None => old(self)@.len() == 0 && final(self)@ == old(self)@,
            },
    {
        let event = self.queue.pop_front();
        assert(event is Some ==> self@ =~= old(self)@.drop_first());
        event
    }

    /// Closes the bus. The events that wait stay in the queue.
    pub fn close(&mut self)
        ensures
            final(self).is_closed(),
            final(self)@ == old(self)@,
    {
        self.closed = true;
    }
}

/// An open bus hands out events in the order in which they were emitted:
/// what was emitted onto a queue stands behind it, in order.
pub proof fn lemma_bus_is_fifo(queue: Seq<EventsView>, events: Seq<EventsView>)
    ensures
        emitted_all(queue, false, events) == queue + events,
    decreases events.len(),
{
    if events.len() == 0 {
        assert(queue + events =~= queue);
    } else {
        lemma_bus_is_fifo(queue.push(events[0]), events.drop_first());
        assert(queue.push(events[0]) + events.drop_first() =~= queue + events);
    }
}

/// A closed bus takes no event, whatever is emitted.
pub proof fn lemma_closed_bus_takes_nothing(queue: Seq<EventsView>, events: Seq<EventsView>)
    ensures
        emitted_all(queue, true, events) == queue,
    decreases events.len(),
{
    if events.len() > 0 {
        lemma_closed_bus_takes_nothing(queue, events.drop_first());
    }
}

} // verus!
