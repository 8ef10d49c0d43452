//! The bounded client-intake boundary: a small queue whose producer is
//! the gateway and whose sole consumer is the driver loop.  A full
//! queue refuses the submission and hands the item back intact, so the
//! producer can suspend and retry once the driver pops a slot free;
//! nothing is ever dropped silently.

use vstd::prelude::*;
use crate::data::ConsensusItem;

verus! {

/// A bounded first-in-first-out intake queue of client items.
pub struct IntakeQueue {
    /// Queued items, oldest first.
    pub items: Vec<ConsensusItem>,
    /// Fixed capacity, at least one.
    pub capacity: usize,
}

impl IntakeQueue {
    /// Structural invariant: the queue never holds more than its capacity.
    pub open spec fn wf(self) -> bool {
        &&& 1 <= self.capacity
        &&& self.items@.len() <= self.capacity
    }

    /// Whether a further submission must wait.
    pub open spec fn is_full(self) -> bool {
        self.items@.len() == self.capacity
    }

    /// An empty queue of the given capacity.
    pub fn new(capacity: usize) -> (r: Self)
        requires
            1 <= capacity,
        ensures
            r.wf(),
            r.capacity == capacity,
            r.items@.len() == 0,
    {
        IntakeQueue { items: Vec::new(), capacity }
    }

    /// Offers one item.  A queue with a free slot appends it; a full
    /// queue refuses and returns the very item, unchanged, so the
    /// caller can suspend and try again.
    pub fn try_push(&mut self, item: ConsensusItem) -> (r: Result<(), ConsensusItem>)
        requires
            old(self).wf(),
        ensures
            final(self).wf(),
            final(self).capacity == old(self).capacity,
            !old(self).is_full() ==> r is Ok && final(self).items@ == old(self).items@.push(item),
            old(self).is_full() ==> final(self).items@ == old(self).items@ && (r matches Err(
                back,
            ) && back == item),
    {
        if self.items.len() < self.capacity {
            self.items.push(item);
            Ok(())
        } else {
            Err(item)
        }
    }

    /// Pops the oldest item, if any.
    pub fn pop(&mut self) -> (r: Option<ConsensusItem>)
        requires
            old(self).wf(),
        ensures
            final(self).wf(),
            final(self).capacity == old(self).capacity,
            old(self).items@.len() == 0 ==> r is None && final(self).items@ == old(self).items@,
            old(self).items@.len() > 0 ==> final(self).items@ == old(self).items@.drop_first() && (
            r matches Some(x) && x == old(self).items@[0]),
    {
        if self.items.len() > 0 {
            let x = self.items.remove(0);
            assert(self.items@ =~= old(self).items@.drop_first());
            Some(x)
        } else {
            None
        }
    }
}

/// Backpressure: a full queue refuses a submission — `try_push`'s
/// contract then hands the item back untouched, so nothing is dropped
/// and the submitter can only wait — while one pop frees exactly one
/// slot, after which the same queue accepts the retried submission
/// and still respects its bound.
pub proof fn lemma_backpressure(q: IntakeQueue)
    requires
        q.wf(),
        q.is_full(),
    ensures
        !(q.items@.len() < q.capacity),
        q.items@.drop_first().len() < q.capacity,
        q.items@.drop_first().len() + 1 <= q.capacity,
{
}

} // verus!
