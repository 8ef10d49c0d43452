//! Adaptive proposal pacing: the driver proposes on a recurring timer
//! whose period shrinks while this node's contributions fail to land.

use vstd::prelude::*;
use crate::data::AgreedBatch;

verus! {

/// Timer period while the node is keeping pace, in milliseconds.
pub const NOMINAL_PERIOD_MS: u64 = 5000;

/// Fast-retry timer period while the node is falling behind, in milliseconds.
pub const FAST_RETRY_PERIOD_MS: u64 = 500;

/// The node keeps pace when every batch of a step's output carries its
/// own contribution.  An empty output says nothing against the node,
/// so it counts as keeping pace.
pub open spec fn keeping_pace(output: Seq<AgreedBatch>, own_id: u64) -> bool {
    forall|i: int| 0 <= i < output.len() ==> output[i].has_contribution_from(own_id)
}

/// The period of the next proposal timer: nominal when every output
/// batch carries this node's contribution, fast-retry when any batch
/// lacks it.
pub fn next_timer_period(output: &Vec<AgreedBatch>, own_id: u64) -> (r: u64)
    ensures
        r == if keeping_pace(output@, own_id) {
            NOMINAL_PERIOD_MS
        } else {
            FAST_RETRY_PERIOD_MS
        },
{
    let mut k: usize = 0;
    while k < output.len()
        invariant
            k <= output@.len(),
            forall|i: int| 0 <= i < k ==> output@[i].has_contribution_from(own_id),
        decreases output@.len() - k,
    {
        if !output[k].contains_contribution(own_id) {
            return FAST_RETRY_PERIOD_MS;
        }
        k = k + 1;
    }
    NOMINAL_PERIOD_MS
}

} // verus!
