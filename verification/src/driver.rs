//! The epoch driver: the single coordinating state machine behind the
//! event loop.  The surrounding process races the proposal timer, the
//! peer transport and the client intake queue, and calls one driver
//! entry point per event; every decision the loop takes — skip or
//! propose on a tick, how to re-pace the timer, when the one
//! background batch task may be replaced — is made and verified here.

use vstd::prelude::*;
use crate::buffer::{RejectReason, RequestBuffer};
use crate::data::{batch_epochs, epochs_of, AgreedBatch, ConsensusItem};
use crate::engine::{
    engine_handle_message, engine_has_input, engine_propose, BftEngine, EngineError, EngineStep,
    OutboundMessage, WireMessage,
};
use crate::pacing::{keeping_pace, next_timer_period, FAST_RETRY_PERIOD_MS, NOMINAL_PERIOD_MS};
use crate::pipeline::{BatchPipeline, DispatchError};

verus! {

/// What a timer tick may do.
pub enum TickDecision {
    /// Drain the buffer and submit the proposal.
    Propose,
    /// Leave the engine alone.
    Skip,
}

/// The tick rule: a tick proposes exactly when the engine does not
/// already hold pending input for the current epoch.  While a proposal
/// is pending, a tick never triggers a second one.
pub fn decide_tick(pending_input: bool) -> (r: TickDecision)
    ensures
        r == if pending_input {
            TickDecision::Skip
        } else {
            TickDecision::Propose
        },
{
    if pending_input {
        TickDecision::Skip
    } else {
        TickDecision::Propose
    }
}

/// What a timer tick came to.
pub enum TickOutcome {
    /// The engine already holds this epoch's proposal: the tick is a
    /// no-op, and in particular no second proposal is submitted.
    Skipped,
    /// A proposal was submitted and the engine returned this step.
    Stepped { step: EngineStep },
    /// The engine failed while taking the proposal: fatal.
    Failed { fault: EngineError },
}

/// What the loop owes after a step was absorbed: messages for the
/// transport in engine order, batches for the single background task,
/// faults to report, and the period of the recreated timer.
#[derive(Debug)]
pub struct Directives {
    /// Protocol messages to send, in the order the engine produced them.
    pub outbound: Vec<OutboundMessage>,
    /// Batches the background task applies in order; empty when the
    /// step brought no new output, and then no task is replaced.
    pub dispatch: Vec<AgreedBatch>,
    /// How many non-fatal fault reports to surface; never fatal.
    pub fault_count: usize,
    /// Period of the recreated proposal timer, whose first tick the
    /// loop consumes immediately.
    pub timer_period_ms: u64,
}

/// The driver's own state: everything the loop decides with, apart
/// from the opaque engine it drives.
pub struct EpochDriver {
    /// This node's identity among the federation members.
    pub own_id: u64,
    /// Current proposal timer period.
    pub timer_period_ms: u64,
    /// Buffered client items awaiting a proposal.
    pub buffer: RequestBuffer,
    /// The single-in-flight batch pipeline.
    pub pipeline: BatchPipeline,
    /// How many proposals were ever submitted to the engine.
    pub proposals_submitted: Ghost<nat>,
    /// The payloads of the most recently submitted proposal, in order.
    pub last_proposal: Ghost<Seq<Seq<u8>>>,
}

impl EpochDriver {
    /// Structural invariant: the parts are well-formed and the timer
    /// only ever runs at one of the two designed periods.
    pub open spec fn wf(self) -> bool {
        &&& self.buffer.wf()
        &&& self.pipeline.wf()
        &&& (self.timer_period_ms == NOMINAL_PERIOD_MS || self.timer_period_ms
            == FAST_RETRY_PERIOD_MS)
    }

    /// Nothing about the driver changed.
    pub open spec fn unchanged_state(pre: EpochDriver, post: EpochDriver) -> bool {
        &&& post.own_id == pre.own_id
        &&& post.timer_period_ms == pre.timer_period_ms
        &&& post.buffer.pending@ == pre.buffer.pending@
        &&& post.buffer.max_pending == pre.buffer.max_pending
        &&& BatchPipeline::same_state(pre.pipeline, post.pipeline)
        &&& post.proposals_submitted@ == pre.proposals_submitted@
        &&& post.last_proposal@ == pre.last_proposal@
    }

    /// A client submission was buffered behind the end of the pending
    /// items; nothing else — in particular not the pipeline and not the
    /// proposal history — moved.
    pub open spec fn accepted_submission(
        pre: EpochDriver,
        post: EpochDriver,
        item: ConsensusItem,
    ) -> bool {
        &&& post.buffer.pending@ == pre.buffer.pending@.push(item)
        &&& post.buffer.max_pending == pre.buffer.max_pending
        &&& post.own_id == pre.own_id
        &&& post.timer_period_ms == pre.timer_period_ms
        &&& BatchPipeline::same_state(pre.pipeline, post.pipeline)
        &&& post.proposals_submitted@ == pre.proposals_submitted@
        &&& post.last_proposal@ == pre.last_proposal@
    }

    /// A timer tick turned the whole buffer, in submission order, into
    /// the one proposal this epoch gets.
    pub open spec fn proposed_from_buffer(pre: EpochDriver, post: EpochDriver) -> bool {
        &&& post.last_proposal@ == pre.buffer.pending@.map_values(|i: ConsensusItem| i@)
        &&& post.buffer.pending@.len() == 0
        &&& post.buffer.max_pending == pre.buffer.max_pending
        &&& post.own_id == pre.own_id
        &&& post.timer_period_ms == pre.timer_period_ms
        &&& BatchPipeline::same_state(pre.pipeline, post.pipeline)
        &&& post.proposals_submitted@ == pre.proposals_submitted@ + 1
    }

    /// The buffer was drained for a proposal but the engine failed
    /// before accepting it; the driver is about to stop, nothing else
    /// moved.
    pub open spec fn drained_without_proposal(pre: EpochDriver, post: EpochDriver) -> bool {
        &&& post.buffer.pending@.len() == 0
        &&& post.buffer.max_pending == pre.buffer.max_pending
        &&& post.own_id == pre.own_id
        &&& post.timer_period_ms == pre.timer_period_ms
        &&& BatchPipeline::same_state(pre.pipeline, post.pipeline)
        &&& post.proposals_submitted@ == pre.proposals_submitted@
        &&& post.last_proposal@ == pre.last_proposal@
    }

    /// A fresh driver: timer at the nominal period, no pending batch
    /// task, nothing buffered, nothing proposed.
    pub fn new(own_id: u64, max_pending: usize) -> (r: Self)
        requires
            1 <= max_pending,
        ensures
            r.wf(),
            r.own_id == own_id,
            r.timer_period_ms == NOMINAL_PERIOD_MS,
            !r.pipeline.busy,
            r.pipeline.last_epoch is None,
            r.pipeline.dispatched@ == Seq::<u64>::empty(),
            r.pipeline.tasks_started@ == 0,
            r.pipeline.tasks_completed@ == 0,
            r.buffer.pending@.len() == 0,
            r.buffer.max_pending == max_pending,
            r.proposals_submitted@ == 0,
    {
        EpochDriver {
            own_id,
            timer_period_ms: NOMINAL_PERIOD_MS,
            buffer: RequestBuffer::new(max_pending),
            pipeline: BatchPipeline::new(),
            proposals_submitted: Ghost(0),
            last_proposal: Ghost(Seq::empty()),
        }
    }

    /// One timer tick.  If the engine already holds this epoch's
    /// proposal the tick is skipped and the driver stays exactly as it
    /// was: a tick never triggers a second proposal.  Otherwise the
    /// buffer is drained into a proposal and submitted.
    pub fn handle_timer_tick(&mut self, engine: &mut BftEngine) -> (r: TickOutcome)
        requires
            old(self).wf(),
        ensures
            final(self).wf(),
            r is Skipped ==> Self::unchanged_state(*old(self), *final(self)),
            r is Stepped ==> Self::proposed_from_buffer(*old(self), *final(self)),
            r is Failed ==> Self::drained_without_proposal(*old(self), *final(self)),
    {
        match decide_tick(engine_has_input(engine)) {
            TickDecision::Skip => {
                return TickOutcome::Skipped;
            },
            TickDecision::Propose => {},
        }
        let proposal = self.buffer.get_consensus_proposal();
        let ghost payloads = proposal@.map_values(|i: ConsensusItem| i@);
        match engine_propose(engine, proposal) {
            Ok(step) => {
                self.last_proposal = Ghost(payloads);
                self.proposals_submitted = Ghost(self.proposals_submitted@ + 1);
                TickOutcome::Stepped { step }
            },
            Err(fault) => TickOutcome::Failed { fault },
        }
    }

    /// One inbound peer protocol message, handed to the engine.  The
    /// driver's own state plays no part here; whatever step comes back
    /// is absorbed by `absorb_step`, which is verified for every
    /// possible step.
    pub fn handle_peer_message(
        &self,
        engine: &mut BftEngine,
        sender: u64,
        msg: WireMessage,
    ) -> (r: Result<EngineStep, EngineError>) {
        engine_handle_message(engine, sender, msg)
    }

    /// One client submission, buffered for a future proposal.  Client
    /// intake is decoupled from proposal timing: the engine is not
    /// involved, the pipeline — a batch task may well be in flight — is
    /// not touched, and a rejection is surfaced, never fatal.
    pub fn submit_client_request(&mut self, item: ConsensusItem) -> (r: Result<(), RejectReason>)
        requires
            old(self).wf(),
        ensures
            final(self).wf(),
            r is Ok <==> old(self).buffer.pending@.len() < old(self).buffer.max_pending,
            r is Ok ==> Self::accepted_submission(*old(self), *final(self), item),
            r is Err ==> Self::unchanged_state(*old(self), *final(self)) && (r matches Err(
                RejectReason::BufferFull,
            )),
    {
        self.buffer.submit_client_request(item)
    }

    /// Absorbs one engine step.  The timer is re-paced from the step's
    /// output: nominal while every batch carries this node's own
    /// contribution, fast-retry the moment one lacks it.  Non-empty
    /// output replaces the single background task — completing the
    /// previous one first — and is handed back for dispatch in emission
    /// order; output that does not extend the dispatched history in
    /// ascending epoch order is fatal.  Faults are counted, reported
    /// and nothing more.
    pub fn absorb_step(&mut self, step: EngineStep) -> (r: Result<Directives, DispatchError>)
        requires
            old(self).wf(),
        ensures
            final(self).wf(),
            final(self).own_id == old(self).own_id,
            final(self).buffer.pending@ == old(self).buffer.pending@,
            final(self).buffer.max_pending == old(self).buffer.max_pending,
            final(self).proposals_submitted@ == old(self).proposals_submitted@,
            final(self).last_proposal@ == old(self).last_proposal@,
            final(self).timer_period_ms == if keeping_pace(step.output@, old(self).own_id) {
                NOMINAL_PERIOD_MS
            } else {
                FAST_RETRY_PERIOD_MS
            },
            r is Ok <==> (step.output@.len() == 0 || old(self).pipeline.admissible(
                epochs_of(step.output@),
            )),
            r matches Ok(d) ==> d.outbound@ == step.outbound@,
            r matches Ok(d) ==> d.dispatch@ == step.output@,
            r matches Ok(d) ==> d.fault_count == step.fault_count,
            r matches Ok(d) ==> d.timer_period_ms == final(self).timer_period_ms,
            step.output@.len() == 0 ==> BatchPipeline::same_state(
                old(self).pipeline,
                final(self).pipeline,
            ),
            step.output@.len() > 0 && r is Ok ==> BatchPipeline::dispatch_transition(
                old(self).pipeline,
                final(self).pipeline,
                epochs_of(step.output@),
            ),
            r is Err ==> BatchPipeline::same_state(old(self).pipeline, final(self).pipeline)
                && r matches Err(DispatchError::OutOfOrderOutput),
    {
        let EngineStep { output, outbound, fault_count } = step;
        self.timer_period_ms = next_timer_period(&output, self.own_id);
        if output.len() == 0 {
            Ok(
                Directives {
                    outbound,
                    dispatch: output,
                    fault_count,
                    timer_period_ms: self.timer_period_ms,
                },
            )
        } else {
            let epochs = batch_epochs(&output);
            match self.pipeline.await_and_dispatch(&epochs) {
                Ok(()) => Ok(
                    Directives {
                        outbound,
                        dispatch: output,
                        fault_count,
                        timer_period_ms: self.timer_period_ms,
                    },
                ),
                Err(e) => Err(e),
            }
        }
    }
}

/// Decoupling: a client submission the driver accepts — also while a
/// batch-processing task is still in flight — leaves the pipeline
/// untouched and is part of the very next proposal a timer tick
/// submits, behind everything buffered before it.
pub proof fn lemma_decoupling(
    d0: EpochDriver,
    d1: EpochDriver,
    d2: EpochDriver,
    item: ConsensusItem,
)
    requires
        EpochDriver::accepted_submission(d0, d1, item),
        EpochDriver::proposed_from_buffer(d1, d2),
    ensures
        BatchPipeline::same_state(d0.pipeline, d1.pipeline),
        d2.last_proposal@ == d0.buffer.pending@.map_values(|i: ConsensusItem| i@).push(item@),
        d2.last_proposal@.contains(item@),
{
    let f = |i: ConsensusItem| i@;
    assert(d2.last_proposal@ == d0.buffer.pending@.push(item).map_values(f));
    assert(d0.buffer.pending@.push(item).map_values(f) =~= d0.buffer.pending@.map_values(f).push(
        item@,
    ));
    assert(d2.last_proposal@[d2.last_proposal@.len() - 1] == item@);
}

} // verus!
