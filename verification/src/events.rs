//! The event bus: the queue of lifecycle events between the terminal, which
//! produces them, and the host, which consumes them.

use vstd::prelude::*;
use std::collections::VecDeque;
use crate::action::{Event, EventView};

verus! {

/// The values of a sequence of events.
pub open spec fn views(events: Seq<Event>) -> Seq<EventView> {
    Seq::new(events.len(), |i: int| events[i]@)
}

/// The queue after a wake-up has been asked for: `Woken` joins the queue
/// unless it is the newest event already. A wake-up is a hint to draw
/// again, so several in a row say no more than one.
pub open spec fn woken(queue: Seq<EventView>) -> Seq<EventView> {
    if queue.len() > 0 && queue.last() == EventView::Woken {
        queue
    } else {
        queue.push(EventView::Woken)
    }
}

/// A queue of events. Its view is the events waiting, oldest first.
/// Events leave in the order in which they came, and none is dropped.
pub struct EventBus {
    queue: VecDeque<Event>,
}

impl View for EventBus {
    type V = Seq<EventView>;

    closed spec fn view(&self) -> Seq<EventView> {
        views(self.queue@)
    }
}

impl EventBus {
    /// An empty queue.
    pub fn new() -> (bus: EventBus)
        ensures
            bus@ == Seq::<EventView>::empty(),
    {
        let bus = EventBus { queue: VecDeque::new() };
        assert(bus@ =~= Seq::<EventView>::empty());
        bus
    }

    /// The number of events waiting.
    pub fn len(&self) -> (n: usize)
        ensures
            n == self@.len(),
    {
        self.queue.len()
    }

    /// Puts `event` at the end of the queue.
    pub fn push(&mut self, event: Event)
        ensures
            final(self)@ == old(self)@.push(event@),
    {
        self.queue.push_back(event);
        assert(self@ =~= old(self)@.push(event@));
    }

    /// Asks the host to draw again.
    pub fn wake(&mut self)
        ensures
            final(self)@ == woken(old(self)@),
    {
        let n = self.queue.len();
        let newest_is_wake = if n == 0 {
            false
        } else {
            match &self.queue[n - 1] {
                Event::Woken => true,
                _ => false,
            }
        };
        assert(newest_is_wake == (self@.len() > 0 && self@.last() == EventView::Woken));
        if !newest_is_wake {
            self.push(Event::Woken);
        }
    }

    /// Takes the oldest event out of the queue; `None` if the queue is empty.
    pub fn pop(&mut self) -> (event: Option<Event>)
        ensures
            match event {
                Some(e) => old(self)@.len() > 0 && e@ == old(self)@[0] && final(self)@ == old(self)@.skip(1),
                None => old(self)@.len() == 0 && final(self)@ == old(self)@,
            },
    {
        let event = self.queue.pop_front();
        assert(event is Some ==> self@ =~= old(self)@.skip(1));
        event
    }

    /// Takes every event out of the queue, oldest first.
    pub fn drain(&mut self) -> (events: Vec<Event>)
        ensures
            views(events@) == old(self)@,
            final(self)@ == Seq::<EventView>::empty(),
    {
        let mut events: Vec<Event> = Vec::new();
        loop
            invariant
                views(events@) + self@ == old(self)@,
            ensures
                self@.len() == 0,
            decreases self@.len(),
        {
            match self.pop() {
                Some(e) => {
                    let ghost before = events@;
                    events.push(e);
                    assert(views(events@) =~= views(before).push(e@));
                    assert(views(events@) + self@ =~= old(self)@);
                },
                None => {
                    break ;
                },
            }
        }
        assert(views(events@) =~= old(self)@);
        assert(self@ =~= Seq::<EventView>::empty());
        events
    }
}

} // verus!
