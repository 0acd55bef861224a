//! Error model for the producer.
//!
//! The protocol engine reports failures through its own error types; at the
//! boundary every one of them is translated into the vocabulary below, so
//! callers never depend on engine-specific types. The translation functions
//! here implement the classification described in the error-handling design:
//! attach failures are split by cause, a remote-initiated close during detach
//! is downgraded to success, and everything else is wrapped.

use vstd::prelude::*;

verus! {

/// A machine-readable condition code carried by a described protocol error.
#[derive(Clone, Copy, Debug, PartialEq, Eq, Structural)]
pub enum AmqpErrorCondition {
    DecodeError,
    FrameSizeTooSmall,
    IllegalState,
    InternalError,
    InvalidField,
    LinkDetachForced,
    LinkMessageSizeExceeded,
    LinkRedirect,
    LinkStolen,
    NotAllowed,
    NotFound,
    NotImplemented,
    PreconditionFailed,
    ResourceDeleted,
    ResourceLimitExceeded,
    ResourceLocked,
    TransferLimitExceeded,
    UnauthorizedAccess,
    ConnectionForced,
    ConnectionFramingError,
    ConnectionRedirect,
    SessionWindowViolation,
    SessionErrantLink,
    SessionHandleInUse,
    SessionUnattachedHandle,
}

/// A structured protocol-level error: a machine-readable condition together
/// with an optional human-readable description.
#[derive(Clone, Debug, PartialEq, Eq)]
pub struct AmqpDescribedError {
    pub condition: AmqpErrorCondition,
    pub description: Option<String>,
}

/// The cause of a protocol-level failure, as this layer distinguishes them.
#[derive(Clone, Debug, PartialEq, Eq)]
pub enum AmqpErrorKind {
    /// A management-style operation failed with an HTTP-like status code.
    ManagementStatusCode(u16, Option<String>),
    /// The peer reported a described error.
    DescribedError(AmqpDescribedError),
    /// The peer closed the link, session or connection, possibly with a
    /// described error attached.
    ClosedByRemote(Option<AmqpDescribedError>),
    /// The local connection or session state made the operation impossible.
    ConnectionDropped,
    /// An engine-specific failure with no portable classification.
    TransportImplementationError,
    /// The delivery settled in a state that is not terminal.
    NonTerminalDeliveryState,
    /// The delivery settled in a state that is not legal for a sender.
    IllegalDeliveryState,
    /// The link moved to an unusable state while the operation was in flight.
    LinkStateError,
    /// The link detached while the operation was in flight.
    DetachError,
}

/// A protocol-level error as surfaced by this layer.
#[derive(Clone, Debug, PartialEq, Eq)]
pub struct AmqpError {
    pub kind: AmqpErrorKind,
}

/// A failure reported by the engine's send path, reduced to the cases the
/// engine distinguishes. Values of this type are handed in by the caller that
/// performed the send.
#[derive(Clone, Debug, PartialEq, Eq)]
pub enum SendFault {
    /// The link state machine refused the transfer.
    LinkStateError,
    /// The link detached while the transfer was in flight.
    Detached(DetachFault),
    /// The delivery settled in a non-terminal state.
    NonTerminalDeliveryState,
    /// The delivery settled in a state illegal for a sender.
    IllegalDeliveryState,
    /// The message could not be encoded for the wire.
    MessageEncodeError,
}

/// A failure reported by the engine while detaching a link.
#[derive(Clone, Debug, PartialEq, Eq)]
pub enum DetachFault {
    /// The remote peer initiated the close, possibly with a described error.
    ClosedByRemote(Option<AmqpDescribedError>),
    /// Any other detach failure.
    Other,
}

/// A failure reported by the engine while attaching a sender link, reduced to
/// the cases the engine distinguishes.
#[derive(Clone, Debug, PartialEq, Eq)]
pub enum AttachFault {
    /// The remote peer refused the attach with a described error.
    RemoteClosedWithError(AmqpDescribedError),
    /// The session was in a state in which no link can be attached.
    IllegalSessionState,
    /// The link endpoint was in a state in which it cannot attach.
    IllegalState,
    /// Any other engine-specific attach failure.
    EngineSpecific,
}

/// What the translation of a send fault must yield.
pub open spec fn spec_amqp_error_from_send_fault(f: SendFault) -> AmqpError {
    match f {
        SendFault::LinkStateError => AmqpError { kind: AmqpErrorKind::LinkStateError },
        SendFault::Detached(d) => match d {
            DetachFault::ClosedByRemote(e) => AmqpError {
                kind: AmqpErrorKind::ClosedByRemote(e),
            },
            DetachFault::Other => AmqpError { kind: AmqpErrorKind::DetachError },
        },
        SendFault::NonTerminalDeliveryState => AmqpError {
            kind: AmqpErrorKind::NonTerminalDeliveryState,
        },
        SendFault::IllegalDeliveryState => AmqpError {
            kind: AmqpErrorKind::IllegalDeliveryState,
        },
        SendFault::MessageEncodeError => AmqpError {
            kind: AmqpErrorKind::TransportImplementationError,
        },
    }
}

/// Translates a send-path fault into this layer's error vocabulary.
pub fn amqp_error_from_send_fault(f: SendFault) -> (r: AmqpError)
    ensures
        r == spec_amqp_error_from_send_fault(f),
{
    match f {
        SendFault::LinkStateError => AmqpError { kind: AmqpErrorKind::LinkStateError },
        SendFault::Detached(d) => match d {
            DetachFault::ClosedByRemote(e) => AmqpError {
                kind: AmqpErrorKind::ClosedByRemote(e),
            },
            DetachFault::Other => AmqpError { kind: AmqpErrorKind::DetachError },
        },
        SendFault::NonTerminalDeliveryState => AmqpError {
            kind: AmqpErrorKind::NonTerminalDeliveryState,
        },
        SendFault::IllegalDeliveryState => AmqpError {
            kind: AmqpErrorKind::IllegalDeliveryState,
        },
        SendFault::MessageEncodeError => AmqpError {
            kind: AmqpErrorKind::TransportImplementationError,
        },
    }
}

/// What the translation of an attach fault must yield: a remote close with a
/// described error keeps the description, an illegal local or session state
/// becomes a dropped connection, and everything else is wrapped as an
/// engine-specific implementation error.
pub open spec fn spec_amqp_error_from_attach_fault(f: AttachFault) -> AmqpError {
    match f {
        AttachFault::RemoteClosedWithError(e) => AmqpError {
            kind: AmqpErrorKind::DescribedError(e),
        },
        AttachFault::IllegalSessionState => AmqpError { kind: AmqpErrorKind::ConnectionDropped },
        AttachFault::IllegalState => AmqpError { kind: AmqpErrorKind::ConnectionDropped },
        AttachFault::EngineSpecific => AmqpError {
            kind: AmqpErrorKind::TransportImplementationError,
        },
    }
}

/// Translates an attach-path fault into this layer's error vocabulary.
pub fn amqp_error_from_attach_fault(f: AttachFault) -> (r: AmqpError)
    ensures
        r == spec_amqp_error_from_attach_fault(f),
{
    match f {
        AttachFault::RemoteClosedWithError(e) => AmqpError {
            kind: AmqpErrorKind::DescribedError(e),
        },
        AttachFault::IllegalSessionState => AmqpError { kind: AmqpErrorKind::ConnectionDropped },
        AttachFault::IllegalState => AmqpError { kind: AmqpErrorKind::ConnectionDropped },
        AttachFault::EngineSpecific => AmqpError {
            kind: AmqpErrorKind::TransportImplementationError,
        },
    }
}

/// Holds when a detach result may be treated as a clean close: either the
/// detach succeeded, or the remote had already initiated the close.
pub open spec fn spec_detach_is_benign(r: Result<(), AmqpError>) -> bool {
    match r {
        Ok(()) => true,
        Err(e) => e.kind matches AmqpErrorKind::ClosedByRemote(_),
    }
}

/// Reconciles the outcome of detaching one link: a remote-initiated close is
/// downgraded to success, any other failure is surfaced unchanged.
pub fn reconcile_detach(r: Result<(), AmqpError>) -> (out: Result<(), AmqpError>)
    ensures
        spec_detach_is_benign(r) ==> out == Ok::<(), AmqpError>(()),
        !spec_detach_is_benign(r) ==> out == r,
{
    match r {
        Ok(()) => Ok(()),
        Err(e) => match e.kind {
            AmqpErrorKind::ClosedByRemote(_) => Ok(()),
            _ => Err(e),
        },
    }
}

fn clone_opt_string(s: &Option<String>) -> (r: Option<String>)
    ensures
        r == *s,
{
    match s {
        Option::None => Option::None,
        Option::Some(x) => Option::Some(x.clone()),
    }
}

fn clone_opt_described_error(e: &Option<AmqpDescribedError>) -> (r: Option<AmqpDescribedError>)
    ensures
        r == *e,
{
    match e {
        Option::None => Option::None,
        Option::Some(d) => Option::Some(clone_described_error(d)),
    }
}

/// Rebuilds a described error; the copy equals the original.
pub fn clone_described_error(e: &AmqpDescribedError) -> (r: AmqpDescribedError)
    ensures
        r == *e,
{
    AmqpDescribedError { condition: e.condition, description: clone_opt_string(&e.description) }
}

/// Rebuilds a protocol-level error; the copy equals the original.
pub fn clone_amqp_error(e: &AmqpError) -> (r: AmqpError)
    ensures
        r == *e,
{
    let kind = match &e.kind {
        AmqpErrorKind::ManagementStatusCode(code, msg) => AmqpErrorKind::ManagementStatusCode(
            *code,
            clone_opt_string(msg),
        ),
        AmqpErrorKind::DescribedError(d) => AmqpErrorKind::DescribedError(clone_described_error(d)),
        AmqpErrorKind::ClosedByRemote(d) => AmqpErrorKind::ClosedByRemote(
            clone_opt_described_error(d),
        ),
        AmqpErrorKind::ConnectionDropped => AmqpErrorKind::ConnectionDropped,
        AmqpErrorKind::TransportImplementationError => AmqpErrorKind::TransportImplementationError,
        AmqpErrorKind::NonTerminalDeliveryState => AmqpErrorKind::NonTerminalDeliveryState,
        AmqpErrorKind::IllegalDeliveryState => AmqpErrorKind::IllegalDeliveryState,
        AmqpErrorKind::LinkStateError => AmqpErrorKind::LinkStateError,
        AmqpErrorKind::DetachError => AmqpErrorKind::DetachError,
    };
    AmqpError { kind }
}

/// Every detach in `s` may be treated as a clean close.
pub open spec fn spec_all_detaches_benign(s: Seq<Result<(), AmqpError>>) -> bool {
    forall|i: int| 0 <= i < s.len() ==> spec_detach_is_benign(#[trigger] s[i])
}

/// The position of the first detach result that is not a clean close.
pub open spec fn spec_first_detach_fault(s: Seq<Result<(), AmqpError>>) -> int
    decreases s.len(),
{
    if s.len() == 0 {
        0
    } else if !spec_detach_is_benign(s[0]) {
        0
    } else {
        1 + spec_first_detach_fault(s.skip(1))
    }
}

proof fn lemma_first_detach_fault(s: Seq<Result<(), AmqpError>>)
    requires
        !spec_all_detaches_benign(s),
    ensures
        0 <= spec_first_detach_fault(s) < s.len(),
        !spec_detach_is_benign(s[spec_first_detach_fault(s)]),
        forall|j: int| 0 <= j < spec_first_detach_fault(s) ==> spec_detach_is_benign(#[trigger] s[j]),
    decreases s.len(),
{
    if s.len() > 0 && spec_detach_is_benign(s[0]) {
        assert(!spec_all_detaches_benign(s.skip(1))) by {
            let i = choose|i: int| 0 <= i < s.len() && !spec_detach_is_benign(#[trigger] s[i]);
            assert(s.skip(1)[i - 1] == s[i]);
        }
        lemma_first_detach_fault(s.skip(1));
        assert forall|j: int| 0 <= j < spec_first_detach_fault(s) implies spec_detach_is_benign(
            #[trigger] s[j],
        ) by {
            if j > 0 {
                assert(s.skip(1)[j - 1] == s[j]);
            }
        }
        assert(s.skip(1)[spec_first_detach_fault(s) - 1] == s[spec_first_detach_fault(s)]);
    }
}

/// Reconciles the detach results of a whole teardown: when every link came
/// down cleanly — each detach succeeded or found the remote had already
/// closed — the teardown succeeds; otherwise the first real detach failure
/// is surfaced.
pub fn reconcile_detach_all(results: &Vec<Result<(), AmqpError>>) -> (r: Result<(), AmqpError>)
    ensures
        spec_all_detaches_benign(results@) <==> r is Ok,
        !spec_all_detaches_benign(results@) ==> r == results@[spec_first_detach_fault(results@)],
{
    let mut i: usize = 0;
    while i < results.len()
        invariant
            i <= results.len(),
            forall|j: int| 0 <= j < i ==> spec_detach_is_benign(#[trigger] results@[j]),
        decreases results.len() - i,
    {
        match &results[i] {
            Ok(()) => {},
            Err(e) => match e.kind {
                AmqpErrorKind::ClosedByRemote(_) => {},
                _ => {
                    proof {
                        lemma_first_detach_fault(results@);
                        assert(spec_first_detach_fault(results@) == i as int) by {
                            let f = spec_first_detach_fault(results@);
                            if f < i as int {
                                assert(spec_detach_is_benign(results@[f]));
                            }
                        }
                    }
                    return Err(clone_amqp_error(e));
                },
            },
        }
        i = i + 1;
    }
    Ok(())
}

/// The producer's own failure vocabulary, as surfaced to callers.
#[derive(Clone, Debug, PartialEq, Eq)]
pub enum ErrorKind {
    /// The broker rejected the delivery; the described error, when the
    /// broker supplied one, is carried along.
    SendRejected(Option<AmqpDescribedError>),
    /// The management link was queried before it was attached.
    MissingManagementClient,
    /// A cached sender vanished between insertion and lookup.
    MissingMessageSender,
    /// A destination path could not be parsed as a URL.
    InvalidUrl,
    /// The connection was used after it had been closed.
    ConnectionClosed,
    /// A protocol-level failure, already translated.
    Amqp(AmqpError),
}

/// An error returned by the producer.
#[derive(Clone, Debug, PartialEq, Eq)]
pub struct EventHubsError {
    pub kind: ErrorKind,
}

/// A failure of one send attempt, as the retry machinery sees it: either a
/// protocol-level error, or something else entirely. Failures that carry no
/// protocol-level cause are never retried.
#[derive(Clone, Debug, PartialEq, Eq)]
pub enum OperationError {
    /// A protocol-level failure with a translated cause.
    Amqp(AmqpError),
    /// A failure labelled protocol-level but carrying no translated cause.
    AmqpOpaque,
    /// Any failure outside the protocol engine.
    Other,
}

/// Rebuilds an attempt failure; the copy equals the original.
pub fn clone_operation_error(e: &OperationError) -> (r: OperationError)
    ensures
        r == *e,
{
    match e {
        OperationError::Amqp(a) => OperationError::Amqp(clone_amqp_error(a)),
        OperationError::AmqpOpaque => OperationError::AmqpOpaque,
        OperationError::Other => OperationError::Other,
    }
}

} // verus!
