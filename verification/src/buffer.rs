//! The request-buffering facet of the mint's consensus state, as the
//! driver relies on it: client items are buffered at any time,
//! independently of any in-flight epoch, and a proposal drains the
//! buffer in submission order.

use vstd::prelude::*;
use crate::data::ConsensusItem;

verus! {

/// Why a client submission was not buffered.  Rejection is surfaced to
/// the caller and never crashes the driver.
#[derive(Debug)]
pub enum RejectReason {
    /// The buffer already holds its maximum of not-yet-proposed items.
    BufferFull,
}

/// Buffered client items awaiting inclusion in a proposal.  The bound
/// keeps the proposal that drains the buffer bounded as well.
pub struct RequestBuffer {
    /// Items in submission order, oldest first.
    pub pending: Vec<ConsensusItem>,
    /// Most items buffered at once, at least one.
    pub max_pending: usize,
}

impl RequestBuffer {
    /// Structural invariant: the buffer respects its bound.
    pub open spec fn wf(self) -> bool {
        &&& 1 <= self.max_pending
        &&& self.pending@.len() <= self.max_pending
    }

    /// An empty buffer with the given bound.
    pub fn new(max_pending: usize) -> (r: Self)
        requires
            1 <= max_pending,
        ensures
            r.wf(),
            r.max_pending == max_pending,
            r.pending@.len() == 0,
    {
        RequestBuffer { pending: Vec::new(), max_pending }
    }

    /// Buffers one client item for a future proposal.  Succeeds exactly
    /// when the bound leaves room; a full buffer rejects and stays
    /// unchanged.
    pub fn submit_client_request(&mut self, item: ConsensusItem) -> (r: Result<(), RejectReason>)
        requires
            old(self).wf(),
        ensures
            final(self).wf(),
            final(self).max_pending == old(self).max_pending,
            r is Ok <==> old(self).pending@.len() < old(self).max_pending,
            r is Ok ==> final(self).pending@ == old(self).pending@.push(item),
            r is Err ==> final(self).pending@ == old(self).pending@ && r matches Err(
                RejectReason::BufferFull,
            ),
    {
        if self.pending.len() < self.max_pending {
            self.pending.push(item);
            Ok(())
        } else {
            Err(RejectReason::BufferFull)
        }
    }

    /// Drains the buffered items into a proposal for the current epoch:
    /// every buffered item, in submission order, and nothing else.  Does
    /// not block; an empty buffer yields an empty proposal.
    pub fn get_consensus_proposal(&mut self) -> (r: Vec<ConsensusItem>)
        requires
            old(self).wf(),
        ensures
            final(self).wf(),
            final(self).max_pending == old(self).max_pending,
            final(self).pending@.len() == 0,
            r@ == old(self).pending@,
    {
        let mut drained: Vec<ConsensusItem> = Vec::new();
        core::mem::swap(&mut drained, &mut self.pending);
        drained
    }
}

} // verus!
