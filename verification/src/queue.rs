//! The bounded, ordered, single-consumer queue that carries stream-status
//! events from the feed task to the reconciler.
//!
//! The queue is a FIFO of fixed capacity. The producer gets the message
//! back when the queue is full (the caller then waits and retries, which
//! is the backpressure discipline: no message is ever dropped), and the
//! consumer takes messages strictly in arrival order.

use vstd::prelude::*;

use crate::inter_comm::{InterComm, InterCommView};

verus! {

/// Bounded FIFO of stream-status messages.
pub struct IngestQueue {
    items: Vec<InterComm>,
    capacity: usize,
}

impl View for IngestQueue {
    type V = Seq<InterCommView>;

    closed spec fn view(&self) -> Seq<InterCommView> {
        self.items@.map_values(|m: InterComm| m@)
    }
}

impl IngestQueue {
    /// The fixed capacity the queue was created with.
    pub closed spec fn spec_capacity(&self) -> nat {
        self.capacity as nat
    }

    /// A queue holds at most as many messages as its capacity.
    pub open spec fn wf(&self) -> bool {
        self@.len() <= self.spec_capacity()
    }

    /// Creates an empty queue of the given capacity.
    pub fn new(capacity: usize) -> (q: IngestQueue)
        ensures
            q@ =~= Seq::<InterCommView>::empty(),
            q.spec_capacity() == capacity,
            q.wf(),
    {
        IngestQueue { items: Vec::new(), capacity }
    }

    /// Number of messages waiting.
    pub fn len(&self) -> (n: usize)
        ensures
            n == self@.len(),
    {
        self.items.len()
    }

    /// The capacity the queue was created with.
    pub fn capacity(&self) -> (n: usize)
        ensures
            n == self.spec_capacity(),
    {
        self.capacity
    }

    /// Appends a message at the tail, or hands it back when the queue is
    /// full so the producer can wait and retry.
    pub fn push(&mut self, m: InterComm) -> (r: Result<(), InterComm>)
        requires
            old(self).wf(),
        ensures
            final(self).wf(),
            final(self).spec_capacity() == old(self).spec_capacity(),
            old(self)@.len() < old(self).spec_capacity() ==> {
                &&& r is Ok
                &&& final(self)@ =~= old(self)@.push(m@)
            },
            old(self)@.len() >= old(self).spec_capacity() ==> {
                &&& r matches Err(back) && back@ == m@
                &&& final(self)@ =~= old(self)@
            },
    {
        if self.items.len() < self.capacity {
            self.items.push(m);
            Ok(())
        } else {
            Err(m)
        }
    }

    /// Removes and returns the oldest message, or `None` on an empty queue.
    pub fn pop(&mut self) -> (r: Option<InterComm>)
        requires
            old(self).wf(),
        ensures
            final(self).wf(),
            final(self).spec_capacity() == old(self).spec_capacity(),
            old(self)@.len() == 0 ==> r is None && final(self)@ =~= old(self)@,
            old(self)@.len() > 0 ==> {
                &&& r matches Some(front) && front@ == old(self)@[0]
                &&& final(self)@ =~= old(self)@.drop_first()
            },
    {
        if self.items.len() == 0 {
            None
        } else {
            Some(self.items.remove(0))
        }
    }
}

} // verus!
