//! Round-driving core of a federated mint.
//!
//! A fixed set of peer servers agree, epoch by epoch, on a batch of
//! client-submitted items through a Byzantine-fault-tolerant agreement
//! engine.  This crate holds the epoch driver: the coordinating state
//! machine that multiplexes a proposal timer, inbound peer protocol
//! messages and client submissions, drives the engine, adapts its own
//! pacing to observed lag, and pipelines the post-consensus processing
//! of each agreed batch while keeping batches strictly ordered.
//!
//! The agreement engine itself, the peer transport and the mint's
//! ledger are external collaborators; the driver consumes them at
//! their interface boundary.  The surrounding process owns the event
//! loop and all I/O and calls into the driver for every decision.

pub mod buffer;
pub mod data;
pub mod driver;
pub mod engine;
pub mod pacing;
pub mod pipeline;
pub mod queue;
