//! A bounded first-in first-out queue of events: the channel that merges the
//! producers. A push into a full queue is refused, and the producer waits.
use vstd::prelude::*;
use crate::event::Event;

verus! {

/// The contents after a push, or `None` where the queue is full.
pub open spec fn pushed(s: Seq<Event>, capacity: nat, e: Event) -> Option<Seq<Event>> {
    if s.len() < capacity {
        Some(s.push(e))
    } else {
        None
    }
}

/// A bounded FIFO queue of events.
pub struct EventQueue {
    items: Vec<Event>,
    capacity: usize,
}

impl View for EventQueue {
    type V = Seq<Event>;

    /// The queued events, oldest first.
    closed spec fn view(&self) -> Seq<Event> {
        self.items@
    }
}

impl EventQueue {
    /// The number of events the queue holds at most.
    pub closed spec fn cap(&self) -> nat {
        self.capacity as nat
    }

    /// The queue never holds more than its capacity.
    pub closed spec fn wf(&self) -> bool {
        self.items@.len() <= self.capacity
    }

    /// An empty queue of the given capacity.
    pub fn new(capacity: usize) -> (q: EventQueue)
        ensures
            q.wf(),
            q@ == Seq::<Event>::empty(),
            q.cap() == capacity,
    {
        EventQueue { items: Vec::new(), capacity }
    }

    pub fn capacity(&self) -> (r: usize)
        ensures
            r == self.cap(),
    {
        self.capacity
    }

    pub fn len(&self) -> (r: usize)
        ensures
            r == self@.len(),
    {
        self.items.len()
    }

    pub fn is_full(&self) -> (r: bool)
        requires
            self.wf(),
        ensures
            r == (self@.len() >= self.cap()),
    {
        self.items.len() >= self.capacity
    }

    /// Appends `e` where there is room and says whether it did; on a full
    /// queue nothing changes and the producer has to wait.
    pub fn push(&mut self, e: Event) -> (r: bool)
        requires
            old(self).wf(),
        ensures
            final(self).wf(),
            final(self).cap() == old(self).cap(),
            r == (pushed(old(self)@, old(self).cap(), e) is Some),
            r ==> Some(final(self)@) == pushed(old(self)@, old(self).cap(), e),
            !r ==> final(self)@ == old(self)@,
    {
        if self.items.len() < self.capacity {
            self.items.push(e);
            true
        } else {
            false
        }
    }

    /// Takes the oldest event, or `None` from an empty queue.
    pub fn pop(&mut self) -> (r: Option<Event>)
        requires
            old(self).wf(),
        ensures
            final(self).wf(),
            final(self).cap() == old(self).cap(),
            old(self)@.len() == 0 ==> r is None && final(self)@ == old(self)@,
            old(self)@.len() > 0 ==> r == Some(old(self)@[0]) && final(self)@
                == old(self)@.drop_first(),
    {
        if self.items.len() == 0 {
            None
        } else {
            let e = self.items.remove(0);
            assert(self.items@ =~= old(self)@.drop_first());
            Some(e)
        }
    }
}

/// A full queue refuses a push and keeps its contents; once one event has
/// been taken, exactly one push succeeds and the one after it is refused.
pub proof fn lemma_backpressure(s: Seq<Event>, capacity: nat, x: Event, y: Event)
    requires
        capacity > 0,
        s.len() == capacity,
    ensures
        pushed(s, capacity, x) is None,
        pushed(s.drop_first(), capacity, x) is Some,
        pushed(pushed(s.drop_first(), capacity, x)->0, capacity, y) is None,
{
}

/// Events leave the queue in the order they entered it.
pub proof fn lemma_fifo(s: Seq<Event>, capacity: nat, e: Event)
    requires
        s.len() < capacity,
        s.len() > 0,
    ensures
        pushed(s, capacity, e)->0[0] == s[0],
        pushed(s, capacity, e)->0.drop_first() == pushed(s.drop_first(), capacity, e)->0,
{
    assert(s.push(e).drop_first() =~= s.drop_first().push(e));
}

} // verus!
