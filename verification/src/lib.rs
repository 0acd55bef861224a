//! A reliability layer for a message producer talking to a partitioned,
//! broker-based event streaming service over an AMQP-style link protocol.
//!
//! The library covers the producer's decision logic: lazily establishing and
//! caching send links per destination path, classifying and retrying
//! transient failures, accumulating payloads into bounded batches, and
//! translating terminal delivery outcomes into caller-facing results. The
//! wire-level protocol engine itself is an external collaborator, reached
//! through a small set of trusted declarations.

pub mod batch;
pub mod cache;
pub mod connection;
pub mod error;
pub mod outcome;
pub mod producer;
pub mod retry;

use vstd::prelude::*;

verus! {

/// The numeric format tag carried with a batch envelope, signaling to the
/// broker that the payload is a composite of independently addressable
/// messages rather than one message.
pub const BATCH_MESSAGE_FORMAT: u32 = 0x80013700;

/// The numeric format tag carried with a single message submission.
pub const SINGLE_MESSAGE_FORMAT: u32 = 0;

} // verus!
