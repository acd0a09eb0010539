//! A bounded single-producer/single-consumer queue of event values.
//!
//! The scheduler tick pushes values as `EmitEvent` steps execute and the host
//! drains them in first-in-first-out order with [`EventQueue::pop`].  The
//! queue is bounded; when a push arrives while the queue is full, the oldest
//! value is dropped and an overflow counter is raised, so a stalled consumer
//! loses the oldest history rather than blocking the producer.

use vstd::prelude::*;

verus! {

/// A bounded FIFO queue of event values with a drop-oldest overflow policy.
pub struct EventQueue {
    items: Vec<u64>,
    capacity: usize,
    overflows: u64,
}

impl EventQueue {
    /// The queued values, oldest first.
    pub closed spec fn contents(&self) -> Seq<u64> {
        self.items@
    }

    /// The most values the queue will hold at once.
    pub closed spec fn capacity(&self) -> int {
        self.capacity as int
    }

    /// How many values have been dropped because the queue was full.
    pub closed spec fn overflows(&self) -> int {
        self.overflows as int
    }

    pub open spec fn wf(&self) -> bool {
        &&& self.capacity() >= 1
        &&& self.contents().len() <= self.capacity()
    }

    /// Creates an empty queue that holds at most `capacity` values.
    pub fn new(capacity: usize) -> (q: EventQueue)
        requires
            capacity >= 1,
        ensures
            q.wf(),
            q.contents() == Seq::<u64>::empty(),
            q.capacity() == capacity as int,
            q.overflows() == 0,
    {
        EventQueue { items: Vec::new(), capacity, overflows: 0 }
    }

    /// Appends `value`; when the queue is already full, the oldest value is
    /// dropped first and the overflow counter is raised (it saturates rather
    /// than wrapping).
    pub fn push(&mut self, value: u64)
        requires
            old(self).wf(),
        ensures
            final(self).wf(),
            final(self).capacity() == old(self).capacity(),
            old(self).contents().len() < old(self).capacity() ==> {
                &&& final(self).contents() == old(self).contents().push(value)
                &&& final(self).overflows() == old(self).overflows()
            },
            old(self).contents().len() == old(self).capacity() ==> {
                &&& final(self).contents() == old(self).contents().skip(1).push(value)
                &&& final(self).overflows() == if old(self).overflows() < u64::MAX {
                    old(self).overflows() + 1
                } else {
                    old(self).overflows()
                }
            },
    {
        if self.items.len() == self.capacity {
            self.items.remove(0);
            if self.overflows < u64::MAX {
                self.overflows = self.overflows + 1;
            }
        }
        self.items.push(value);
    }

    /// Removes and returns the oldest value, or `None` when the queue is
    /// empty.  Never blocks.
    pub fn pop(&mut self) -> (r: Option<u64>)
        requires
            old(self).wf(),
        ensures
            final(self).wf(),
            final(self).capacity() == old(self).capacity(),
            final(self).overflows() == old(self).overflows(),
            old(self).contents().len() == 0 ==> {
                &&& r is None
                &&& final(self).contents() == old(self).contents()
            },
            old(self).contents().len() > 0 ==> {
                &&& r == Some(old(self).contents()[0])
                &&& final(self).contents() == old(self).contents().skip(1)
            },
    {
        if self.items.len() == 0 {
            None
        } else {
            let v = self.items.remove(0);
            Some(v)
        }
    }

    /// How many values are queued.
    pub fn len(&self) -> (n: usize)
        ensures
            n as int == self.contents().len(),
    {
        self.items.len()
    }

    /// Whether the queue holds no values.
    pub fn is_empty(&self) -> (r: bool)
        ensures
            r <==> self.contents().len() == 0,
    {
        self.items.len() == 0
    }

    /// How many values have been dropped to overflow so far.
    pub fn overflow_count(&self) -> (n: u64)
        ensures
            n as int == self.overflows(),
    {
        self.overflows
    }
}

} // verus!
