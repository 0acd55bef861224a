//! Terminal delivery outcomes and their translation into caller results.
//!
//! Every send attempt ends in exactly one terminal outcome. Only a rejection
//! is a caller-visible failure: an accepted, released or modified delivery
//! all mean the message left this client's responsibility, so they are
//! treated as success.

use vstd::prelude::*;

use crate::error::{AmqpDescribedError, ErrorKind, EventHubsError};

verus! {

/// How a delivery was modified by the broker, when the outcome was
/// `Modified`.
#[derive(Clone, Debug, PartialEq, Eq)]
pub struct SendModification {
    /// Whether the broker considers the delivery to have failed.
    pub delivery_failed: Option<bool>,
    /// Whether the message is undeliverable on this link.
    pub undeliverable_here: Option<bool>,
    /// Annotations the broker attached to the modification.
    pub message_annotations: Option<Vec<(String, String)>>,
}

/// The terminal result of one send attempt.
#[derive(Clone, Debug, PartialEq, Eq)]
pub enum SendOutcome {
    /// The broker accepted the delivery.
    Accepted,
    /// The broker rejected the delivery, possibly with a described error.
    Rejected(Option<AmqpDescribedError>),
    /// The broker released the delivery without processing it.
    Released,
    /// The broker modified the delivery.
    Modified(SendModification),
}

/// What the translation of a terminal outcome must yield: success for
/// everything but a rejection, and for a rejection a failure carrying the
/// broker's described error.
pub open spec fn spec_reconcile_outcome(o: SendOutcome) -> Result<(), EventHubsError> {
    match o {
        SendOutcome::Accepted => Ok(()),
        SendOutcome::Released => Ok(()),
        SendOutcome::Modified(_) => Ok(()),
        SendOutcome::Rejected(e) => Err(EventHubsError { kind: ErrorKind::SendRejected(e) }),
    }
}

/// Translates a terminal outcome into the caller-facing result.
pub fn reconcile_outcome(outcome: SendOutcome) -> (r: Result<(), EventHubsError>)
    ensures
        r == spec_reconcile_outcome(outcome),
{
    match outcome {
        SendOutcome::Accepted => Ok(()),
        SendOutcome::Released => Ok(()),
        SendOutcome::Modified(_) => Ok(()),
        SendOutcome::Rejected(e) => Err(EventHubsError { kind: ErrorKind::SendRejected(e) }),
    }
}

/// Options for one protocol-level send: an optional format-tag override and
/// an optional settlement flag.
#[derive(Clone, Debug, PartialEq, Eq, Default)]
pub struct AmqpSendOptions {
    /// Overrides the numeric format tag carried with the payload.
    pub message_format: Option<u32>,
    /// Whether the delivery is sent pre-settled.
    pub settled: Option<bool>,
}

/// The format tag a submission carries: the override when one was given,
/// otherwise the single-message tag.
pub open spec fn spec_effective_message_format(options: Option<AmqpSendOptions>) -> u32 {
    match options {
        Option::Some(o) => match o.message_format {
            Option::Some(f) => f,
            Option::None => crate::SINGLE_MESSAGE_FORMAT,
        },
        Option::None => crate::SINGLE_MESSAGE_FORMAT,
    }
}

/// Computes the format tag one protocol-level send carries: a submission is
/// tagged with the single-message tag unless the options explicitly
/// override it.
pub fn effective_message_format(options: &Option<AmqpSendOptions>) -> (f: u32)
    ensures
        f == spec_effective_message_format(*options),
{
    match options {
        Option::Some(o) => match o.message_format {
            Option::Some(f) => f,
            Option::None => crate::SINGLE_MESSAGE_FORMAT,
        },
        Option::None => crate::SINGLE_MESSAGE_FORMAT,
    }
}

} // verus!
