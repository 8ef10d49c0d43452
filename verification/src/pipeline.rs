//! The single-in-flight batch pipeline.  Post-consensus processing of
//! an agreed batch runs in one background task; the driver replaces
//! that task only after the previous one has been awaited, so batches
//! reach the mint's ledger strictly in the order, and hence in the
//! epoch order, the engine emitted them.

use vstd::prelude::*;

verus! {

/// A run of epochs is ascending when any earlier element is smaller
/// than any later one.
pub open spec fn ascending(s: Seq<u64>) -> bool {
    forall|i: int, j: int| 0 <= i < j < s.len() ==> s[i] < s[j]
}

/// Dispatching out of epoch order would violate the ledger's contract;
/// the driver treats it as fatal.
#[derive(Debug)]
pub enum DispatchError {
    /// The engine handed the driver output whose epochs do not extend
    /// the already dispatched history in ascending order.
    OutOfOrderOutput,
}

/// The handle for at most one outstanding background batch-processing
/// job.  `await_and_dispatch` is the only way to start a job, and it
/// first records the completion of the previous one; the ghost history
/// carries every epoch ever dispatched, in dispatch order.
pub struct BatchPipeline {
    /// Whether a started job has not yet been awaited.
    pub busy: bool,
    /// The highest epoch dispatched so far, if any.
    pub last_epoch: Option<u64>,
    /// Every epoch ever dispatched, in dispatch order.
    pub dispatched: Ghost<Seq<u64>>,
    /// How many background jobs were ever started.
    pub tasks_started: Ghost<nat>,
    /// How many background jobs were awaited to completion.
    pub tasks_completed: Ghost<nat>,
}

impl BatchPipeline {
    /// Structural invariant: completions never outrun starts, at most
    /// one job is outstanding, and the dispatch history ascends with
    /// `last_epoch` as its end.
    pub open spec fn wf(self) -> bool {
        &&& self.tasks_started@ == self.tasks_completed@ + (if self.busy {
            1nat
        } else {
            0nat
        })
        &&& ascending(self.dispatched@)
        &&& match self.last_epoch {
            Some(e) => self.dispatched@.len() > 0 && self.dispatched@.last() == e,
            None => self.dispatched@.len() == 0,
        }
    }

    /// New output is admissible when its epochs ascend and begin above
    /// everything already dispatched.
    pub open spec fn admissible(self, epochs: Seq<u64>) -> bool {
        &&& ascending(epochs)
        &&& match self.last_epoch {
            Some(e) => epochs.len() > 0 ==> e < epochs[0],
            None => true,
        }
    }

    /// The transition `await_and_dispatch` performs on success: the
    /// previous job, if any, is completed first, then exactly one new
    /// job starts, extending the dispatch history by `epochs`.
    pub open spec fn dispatch_transition(
        pre: BatchPipeline,
        post: BatchPipeline,
        epochs: Seq<u64>,
    ) -> bool {
        &&& post.busy
        &&& post.tasks_completed@ == pre.tasks_completed@ + (if pre.busy {
            1nat
        } else {
            0nat
        })
        &&& post.tasks_started@ == pre.tasks_started@ + 1
        &&& post.dispatched@ == pre.dispatched@ + epochs
        &&& post.last_epoch == Some(epochs.last())
    }

    /// Both pipelines describe the same state.
    pub open spec fn same_state(pre: BatchPipeline, post: BatchPipeline) -> bool {
        &&& post.busy == pre.busy
        &&& post.last_epoch == pre.last_epoch
        &&& post.dispatched@ == pre.dispatched@
        &&& post.tasks_started@ == pre.tasks_started@
        &&& post.tasks_completed@ == pre.tasks_completed@
    }

    /// An idle pipeline with an empty history.
    pub fn new() -> (r: Self)
        ensures
            r.wf(),
            !r.busy,
            r.dispatched@ == Seq::<u64>::empty(),
            r.tasks_started@ == 0,
            r.tasks_completed@ == 0,
            r.last_epoch is None,
    {
        BatchPipeline {
            busy: false,
            last_epoch: None,
            dispatched: Ghost(Seq::empty()),
            tasks_started: Ghost(0),
            tasks_completed: Ghost(0),
        }
    }

    /// Atomically replaces the one outstanding job: completes the
    /// previous job (the caller awaits it exactly when `busy` held
    /// before), then dispatches the batches with the given epochs.
    /// Output that does not extend the history in ascending epoch
    /// order is refused and changes nothing.
    pub fn await_and_dispatch(&mut self, epochs: &Vec<u64>) -> (r: Result<(), DispatchError>)
        requires
            old(self).wf(),
            epochs@.len() > 0,
        ensures
            final(self).wf(),
            r is Ok <==> old(self).admissible(epochs@),
            r is Ok ==> Self::dispatch_transition(*old(self), *final(self), epochs@),
            r is Err ==> Self::same_state(*old(self), *final(self)) && r matches Err(
                DispatchError::OutOfOrderOutput,
            ),
    {
        let mut prev: Option<u64> = self.last_epoch;
        let mut k: usize = 0;
        while k < epochs.len()
            invariant
                self.wf(),
                Self::same_state(*old(self), *self),
                k <= epochs@.len(),
                forall|i: int, j: int| 0 <= i < j < k ==> epochs@[i] < epochs@[j],
                k == 0 ==> prev == self.last_epoch,
                k > 0 ==> prev == Some(epochs@[k - 1]),
                k > 0 ==> (self.last_epoch matches Some(le) ==> le < epochs@[0]),
            decreases epochs@.len() - k,
        {
            let e = epochs[k];
            match prev {
                Some(p) => {
                    if p >= e {
                        proof {
                            if k > 0 {
                                assert(!ascending(epochs@)) by {
                                    if ascending(epochs@) {
                                        assert(epochs@[k as int - 1] < epochs@[k as int]);
                                    }
                                }
                            }
                        }
                        return Err(DispatchError::OutOfOrderOutput);
                    }
                },
                None => {},
            }
            proof {
                assert forall|i: int| 0 <= i < k implies epochs@[i] < epochs@[k as int] by {
                    if i < k as int - 1 {
                        assert(epochs@[i] < epochs@[k as int - 1]);
                    }
                }
            }
            prev = Some(e);
            k = k + 1;
        }
        proof {
            let pre = *old(self);
            let d = pre.dispatched@.len() as int;
            let whole = pre.dispatched@ + epochs@;
            assert forall|i: int, j: int| 0 <= i < j < whole.len() implies whole[i] < whole[j] by {
                if j < d {
                    assert(pre.dispatched@[i] < pre.dispatched@[j]);
                } else if i >= d {
                    assert(epochs@[i - d] < epochs@[j - d]);
                } else {
                    assert(whole[i] == pre.dispatched@[i]);
                    assert(whole[j] == epochs@[j - d]);
                    assert(pre.dispatched@.last() < epochs@[0]);
                    if i < d - 1 {
                        assert(pre.dispatched@[i] < pre.dispatched@[d - 1]);
                    }
                    if j - d > 0 {
                        assert(epochs@[0] < epochs@[j - d]);
                    }
                }
            }
        }
        self.dispatched = Ghost(self.dispatched@ + epochs@);
        self.tasks_completed = Ghost(
            self.tasks_completed@ + (if self.busy {
                1nat
            } else {
                0nat
            }),
        );
        self.tasks_started = Ghost(self.tasks_started@ + 1);
        self.busy = true;
        self.last_epoch = Some(epochs[epochs.len() - 1]);
        Ok(())
    }
}

/// Single-flight invariant: whatever steps the engine produced, at most
/// one batch-processing job has been started and not yet awaited.
pub proof fn lemma_single_flight(p: BatchPipeline)
    requires
        p.wf(),
    ensures
        p.tasks_completed@ <= p.tasks_started@,
        p.tasks_started@ - p.tasks_completed@ <= 1,
{
}

/// Order preservation: of any two epochs in the dispatch history, the
/// earlier-dispatched one is the smaller, so batches reach the ledger
/// in strictly increasing epoch order.
pub proof fn lemma_order_preservation(p: BatchPipeline, i: int, j: int)
    requires
        p.wf(),
        0 <= i < j < p.dispatched@.len(),
    ensures
        p.dispatched@[i] < p.dispatched@[j],
{
}

} // verus!
