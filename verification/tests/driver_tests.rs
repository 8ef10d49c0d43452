use std::sync::Arc;

use hbbft::honey_badger::HoneyBadger;
use hbbft::NetworkInfo;
use rand::Rng;

use minimint::buffer::RejectReason;
use minimint::data::{AgreedBatch, ConsensusItem, PeerContribution};
use minimint::driver::{EpochDriver, TickOutcome};
use minimint::engine::{BftEngine, EngineStep};
use minimint::pacing::{FAST_RETRY_PERIOD_MS, NOMINAL_PERIOD_MS};
use minimint::pipeline::DispatchError;

fn engine_for(own_id: u64, ids: Vec<u64>) -> BftEngine {
    let mut rng = rand::thread_rng();
    let mut netinfos = NetworkInfo::generate_map(ids, &mut rng).expect("key generation");
    let netinfo = netinfos.remove(&own_id).expect("own network info");
    HoneyBadger::builder(Arc::new(netinfo)).build()
}

fn item(bytes: &[u8]) -> ConsensusItem {
    ConsensusItem { payload: bytes.to_vec() }
}

fn batch(epoch: u64, peers: &[u64]) -> AgreedBatch {
    AgreedBatch {
        epoch,
        contributions: peers
            .iter()
            .map(|p| PeerContribution { peer: *p, items: vec![item(&[9])] })
            .collect(),
    }
}

fn step_with_output(output: Vec<AgreedBatch>) -> EngineStep {
    EngineStep { output, outbound: Vec::new(), fault_count: 0 }
}

#[test]
fn single_node_proposal_includes_request() {
    let mut driver = EpochDriver::new(0, 4);
    let mut engine = engine_for(0, vec![0]);

    driver.submit_client_request(item(&[1, 2, 3])).expect("buffered");
    let step = match driver.handle_timer_tick(&mut engine) {
        TickOutcome::Stepped { step } => step,
        _ => panic!("expected a step from the tick"),
    };

    // The only validator's proposal is agreed immediately.
    assert_eq!(step.output.len(), 1);
    let agreed = &step.output[0];
    assert!(agreed.contains_contribution(0));
    assert_eq!(agreed.contributions.len(), 1);
    assert_eq!(agreed.contributions[0].peer, 0);
    assert_eq!(agreed.contributions[0].items.len(), 1);
    assert_eq!(agreed.contributions[0].items[0].payload, vec![1, 2, 3]);

    let directives = driver.absorb_step(step).expect("in-order output");
    assert_eq!(directives.dispatch.len(), 1);
    // Our own contribution is in every batch: the timer stays nominal.
    assert_eq!(directives.timer_period_ms, NOMINAL_PERIOD_MS);
    assert_eq!(driver.timer_period_ms, NOMINAL_PERIOD_MS);
}

#[test]
fn tick_skipped_while_input_pending() {
    let mut driver = EpochDriver::new(0, 4);
    // Two validators: this node's proposal cannot complete alone, so the
    // engine keeps holding pending input.
    let mut engine = engine_for(0, vec![0, 1]);

    driver.submit_client_request(item(&[7])).expect("buffered");
    let step = match driver.handle_timer_tick(&mut engine) {
        TickOutcome::Stepped { step } => step,
        _ => panic!("expected the first tick to propose"),
    };
    assert!(step.output.is_empty());

    // A second tick must not propose again into the same epoch.
    match driver.handle_timer_tick(&mut engine) {
        TickOutcome::Skipped => {}
        _ => panic!("expected the second tick to be skipped"),
    }
}

#[test]
fn pacing_adapts_to_missing_contribution() {
    let mut driver = EpochDriver::new(0, 4);

    // Three consecutive epochs without our contribution: fast retry, and
    // it stays there.
    for epoch in 1..=3 {
        let d = driver
            .absorb_step(step_with_output(vec![batch(epoch, &[7, 8])]))
            .expect("in-order output");
        assert_eq!(d.timer_period_ms, FAST_RETRY_PERIOD_MS);
        assert_eq!(driver.timer_period_ms, FAST_RETRY_PERIOD_MS);
    }

    // A batch carrying our contribution again: back to nominal.
    let d = driver
        .absorb_step(step_with_output(vec![batch(4, &[0, 7, 8])]))
        .expect("in-order output");
    assert_eq!(d.timer_period_ms, NOMINAL_PERIOD_MS);

    // Any single batch missing us among several drops the period again.
    let d = driver
        .absorb_step(step_with_output(vec![batch(5, &[0]), batch(6, &[8])]))
        .expect("in-order output");
    assert_eq!(d.timer_period_ms, FAST_RETRY_PERIOD_MS);
}

#[test]
fn empty_output_leaves_pipeline_alone() {
    let mut driver = EpochDriver::new(3, 4);
    let d = driver.absorb_step(step_with_output(Vec::new())).expect("nothing to dispatch");
    assert!(d.dispatch.is_empty());
    assert_eq!(d.timer_period_ms, NOMINAL_PERIOD_MS);
    assert!(!driver.pipeline.busy);
    assert_eq!(driver.pipeline.last_epoch, None);
}

#[test]
fn single_flight_replaces_task_in_epoch_order() {
    let mut driver = EpochDriver::new(0, 4);

    let d1 = driver.absorb_step(step_with_output(vec![batch(1, &[0])])).expect("first dispatch");
    assert_eq!(d1.dispatch.len(), 1);
    assert!(driver.pipeline.busy);
    assert_eq!(driver.pipeline.last_epoch, Some(1));

    // While epoch 1 is still being applied, epoch 2 arrives: the one
    // background task is replaced (the previous one awaited first).
    let d2 = driver.absorb_step(step_with_output(vec![batch(2, &[0])])).expect("second dispatch");
    assert_eq!(d2.dispatch.len(), 1);
    assert_eq!(d2.dispatch[0].epoch, 2);
    assert!(driver.pipeline.busy);
    assert_eq!(driver.pipeline.last_epoch, Some(2));
}

#[test]
fn stale_epoch_output_is_fatal() {
    let mut driver = EpochDriver::new(0, 4);
    driver.absorb_step(step_with_output(vec![batch(5, &[0])])).expect("first dispatch");

    let err = driver
        .absorb_step(step_with_output(vec![batch(5, &[0])]))
        .expect_err("epoch 5 was already dispatched");
    assert!(matches!(err, DispatchError::OutOfOrderOutput));
    // The refused output left the pipeline as it was.
    assert_eq!(driver.pipeline.last_epoch, Some(5));
}

#[test]
fn unordered_epochs_within_step_are_fatal() {
    let mut driver = EpochDriver::new(0, 4);
    let err = driver
        .absorb_step(step_with_output(vec![batch(2, &[0]), batch(1, &[0])]))
        .expect_err("descending epochs in one step");
    assert!(matches!(err, DispatchError::OutOfOrderOutput));
}

#[test]
fn submission_during_inflight_task_reaches_next_proposal() {
    let mut driver = EpochDriver::new(0, 4);
    let mut engine = engine_for(0, vec![0]);

    // A batch task is in flight.
    driver.absorb_step(step_with_output(vec![batch(1, &[0])])).expect("dispatch");
    assert!(driver.pipeline.busy);

    // A submission accepted meanwhile is buffered, not blocked.
    driver.submit_client_request(item(&[42])).expect("buffered");
    assert!(driver.pipeline.busy);

    // The next proposal carries it.
    let step = match driver.handle_timer_tick(&mut engine) {
        TickOutcome::Stepped { step } => step,
        _ => panic!("expected a step"),
    };
    assert_eq!(step.output.len(), 1);
    assert_eq!(step.output[0].contributions[0].items[0].payload, vec![42]);
}

#[test]
fn buffer_rejects_when_full() {
    let mut driver = EpochDriver::new(0, 2);
    driver.submit_client_request(item(&[1])).expect("first fits");
    driver.submit_client_request(item(&[2])).expect("second fits");
    let rejected = driver.submit_client_request(item(&[3])).expect_err("third is over the bound");
    assert!(matches!(rejected, RejectReason::BufferFull));
}

#[test]
fn unknown_sender_is_an_engine_error() {
    let driver = EpochDriver::new(0, 4);
    let mut engine = engine_for(0, vec![0, 1]);
    let msg = rand::thread_rng().gen::<hbbft::honey_badger::Message<u64>>();
    // Sender 9 is no federation member: the engine refuses, which the
    // driver treats as fatal.
    assert!(driver.handle_peer_message(&mut engine, 9, msg).is_err());
}

#[test]
fn outbound_messages_pass_through_in_order() {
    let mut driver = EpochDriver::new(0, 4);
    // With a second validator the proposal produces protocol messages
    // that the transport still owes to the peers.
    let mut engine = engine_for(0, vec![0, 1]);

    driver.submit_client_request(item(&[5])).expect("buffered");
    let step = match driver.handle_timer_tick(&mut engine) {
        TickOutcome::Stepped { step } => step,
        _ => panic!("expected a step"),
    };
    assert!(!step.outbound.is_empty());

    let sent = step.outbound.len();
    let d = driver.absorb_step(step).expect("no output yet");
    assert_eq!(d.outbound.len(), sent);
    assert!(d.dispatch.is_empty());
}

#[test]
fn timer_periods_have_designed_values() {
    assert_eq!(NOMINAL_PERIOD_MS, 5000);
    assert_eq!(FAST_RETRY_PERIOD_MS, 500);
    let driver = EpochDriver::new(0, 4);
    assert_eq!(driver.timer_period_ms, NOMINAL_PERIOD_MS);
    assert!(!driver.pipeline.busy);
}

#[test]
fn pending_input_always_skips_the_tick() {
    assert!(matches!(minimint::driver::decide_tick(true), minimint::driver::TickDecision::Skip));
    assert!(matches!(
        minimint::driver::decide_tick(false),
        minimint::driver::TickDecision::Propose
    ));
}
