//! Plain data the driver agrees on: consensus items, per-peer
//! contributions and agreed batches.

use vstd::prelude::*;

verus! {

/// One opaque unit of agreement content, e.g. an encoded client request.
/// The driver never interprets the payload; validation and semantics
/// belong to the mint's consensus state.
#[derive(Debug)]
pub struct ConsensusItem {
    /// Encoded content of the item.
    pub payload: Vec<u8>,
}

impl View for ConsensusItem {
    type V = Seq<u8>;

    open spec fn view(&self) -> Seq<u8> {
        self.payload@
    }
}

/// The ordered sequence of items one peer contributed to an epoch.
#[derive(Debug)]
pub struct PeerContribution {
    /// The contributing federation member.
    pub peer: u64,
    /// That peer's accepted items, in proposal order.
    pub items: Vec<ConsensusItem>,
}

/// The agreed output of one epoch: each contributing peer's ordered
/// items.  Once observed, a batch is final and identical at every
/// correct peer; the driver only routes it.
#[derive(Debug)]
pub struct AgreedBatch {
    /// The epoch this batch closes; each epoch produces at most one batch.
    pub epoch: u64,
    /// The agreed contributions, one entry per contributing peer.
    pub contributions: Vec<PeerContribution>,
}

impl AgreedBatch {
    /// Whether `id` appears among the contributors of this batch.
    pub open spec fn has_contribution_from(self, id: u64) -> bool {
        exists|i: int| 0 <= i < self.contributions@.len() && self.contributions@[i].peer == id
    }

    /// Checks whether `id` contributed to this batch.
    pub fn contains_contribution(&self, id: u64) -> (r: bool)
        ensures
            r == self.has_contribution_from(id),
    {
        let mut k: usize = 0;
        while k < self.contributions.len()
            invariant
                k <= self.contributions@.len(),
                forall|i: int| 0 <= i < k ==> self.contributions@[i].peer != id,
            decreases self.contributions@.len() - k,
        {
            if self.contributions[k].peer == id {
                return true;
            }
            k = k + 1;
        }
        false
    }
}

/// The epochs of a run of batches, in the order the engine emitted them.
pub open spec fn epochs_of(output: Seq<AgreedBatch>) -> Seq<u64> {
    output.map_values(|b: AgreedBatch| b.epoch)
}

/// Collects the epoch of each batch, preserving order.
pub fn batch_epochs(output: &Vec<AgreedBatch>) -> (r: Vec<u64>)
    ensures
        r@ == epochs_of(output@),
{
    let mut r: Vec<u64> = Vec::new();
    let mut k: usize = 0;
    while k < output.len()
        invariant
            k <= output@.len(),
            r@ =~= output@.subrange(0, k as int).map_values(|b: AgreedBatch| b.epoch),
        decreases output@.len() - k,
    {
        r.push(output[k].epoch);
        assert(output@.subrange(0, k + 1 as int) =~= output@.subrange(0, k as int).push(
            output@[k as int],
        ));
        k = k + 1;
    }
    assert(output@.subrange(0, output@.len() as int) =~= output@);
    r
}

} // verus!
