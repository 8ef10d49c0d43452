//! The boundary to the external agreement engine, hbbft's Honey
//! Badger.  The engine's internal agreement algorithm is out of the
//! driver's scope: the driver submits at most one proposal per epoch,
//! feeds it inbound peer messages, and consumes the steps it returns.
//! Each step is carried over, field by field, into plain driver data;
//! what the driver then does with a step is verified for every value
//! the engine could possibly return.

use vstd::prelude::*;
use crate::data::{AgreedBatch, ConsensusItem, PeerContribution};

verus! {

#[verifier::external_type_specification]
#[verifier::external_body]
#[verifier::reject_recursive_types(C)]
#[verifier::reject_recursive_types(N)]
pub struct ExHoneyBadger<C, N>(hbbft::honey_badger::HoneyBadger<C, N>);

#[verifier::external_type_specification]
#[verifier::external_body]
#[verifier::reject_recursive_types(N)]
pub struct ExHbMessage<N>(hbbft::honey_badger::Message<N>);

#[verifier::external_type_specification]
#[verifier::external_body]
#[verifier::reject_recursive_types(M)]
#[verifier::reject_recursive_types(N)]
pub struct ExTargetedMessage<M, N>(hbbft::TargetedMessage<M, N>);

/// The engine instance this node drives: Honey Badger agreeing on runs
/// of raw item payloads, with peers named by small integers.
pub type BftEngine = hbbft::honey_badger::HoneyBadger<Vec<Vec<u8>>, u64>;

/// One inbound protocol message for this node's engine.  Its payload
/// format belongs to the engine and is opaque to the driver.
pub type WireMessage = hbbft::honey_badger::Message<u64>;

/// One outbound protocol message together with its target, exactly as
/// the engine produced it; the transport delivers it unopened.
pub type OutboundMessage = hbbft::TargetedMessage<hbbft::honey_badger::Message<u64>, u64>;

/// Unrecoverable failure inside the agreement engine.  The driver
/// cannot patch agreement state locally, so this is fatal (crash-only
/// recovery from the durable ledger).
#[derive(Debug)]
pub struct EngineError;

/// What one engine interaction produced, in plain driver terms: newly
/// agreed batches in emission order, protocol messages to send in
/// production order, and the number of non-fatal fault reports.
#[derive(Debug)]
pub struct EngineStep {
    /// Newly agreed batches; more than one only when the engine caught
    /// up across several epochs.
    pub output: Vec<AgreedBatch>,
    /// Messages owed to the peers, in the order the engine produced them.
    pub outbound: Vec<OutboundMessage>,
    /// How many non-fatal anomaly reports the step carried.
    pub fault_count: usize,
}

/// Relies on hbbft's `HoneyBadger::has_input`: true once this node's
/// proposal for the current epoch has been submitted (or the node is
/// not a validator and never proposes).
#[verifier::external_body]
pub(crate) fn engine_has_input(engine: &BftEngine) -> bool {
    engine.has_input()
}

/// Relies on hbbft's `HoneyBadger::propose`: submits this node's
/// contribution for the current epoch.  Each item's payload becomes
/// one element of the engine's contribution; the returned step is
/// carried over field by field, with each output batch's epoch and
/// per-peer contributions copied in order.
#[verifier::external_body]
pub(crate) fn engine_propose(engine: &mut BftEngine, proposal: Vec<ConsensusItem>) -> (r: Result<
    EngineStep,
    EngineError,
>) {
    let payloads: Vec<Vec<u8>> = proposal.into_iter().map(|i| i.payload).collect();
    match engine.propose(&payloads, &mut rand::thread_rng()) {
        Ok(s) => Ok(EngineStep {
            output: s.output.into_iter().map(|b| AgreedBatch {
                epoch: b.epoch,
                contributions: b.contributions.into_iter().map(|(peer, c)| PeerContribution {
                    peer,
                    items: c.into_iter().map(|payload| ConsensusItem { payload }).collect(),
                }).collect(),
            }).collect(),
            outbound: s.messages,
            fault_count: s.fault_log.0.len(),
        }),
        Err(_) => Err(EngineError),
    }
}

/// Relies on hbbft's `HoneyBadger::handle_message`: feeds one inbound
/// protocol message from the given sender; the returned step is
/// carried over exactly as in `engine_propose`.
#[verifier::external_body]
pub(crate) fn engine_handle_message(engine: &mut BftEngine, sender: u64, msg: WireMessage) -> (r:
    Result<EngineStep, EngineError>) {
    match engine.handle_message(&sender, msg) {
        Ok(s) => Ok(EngineStep {
            output: s.output.into_iter().map(|b| AgreedBatch {
                epoch: b.epoch,
                contributions: b.contributions.into_iter().map(|(peer, c)| PeerContribution {
                    peer,
                    items: c.into_iter().map(|payload| ConsensusItem { payload }).collect(),
                }).collect(),
            }).collect(),
            outbound: s.messages,
            fault_count: s.fault_log.0.len(),
        }),
        Err(_) => Err(EngineError),
    }
}

} // verus!
