use eventhub_producer::error::{
    AmqpDescribedError, AmqpError, AmqpErrorCondition, AmqpErrorKind, OperationError,
};
use eventhub_producer::retry::{
    backoff_delay_ms, retry_decide, run_send_retry, should_retry_amqp_error,
    should_retry_send_operation, AttemptOutcome, RetryDecision, RetryOptions,
};

fn status_error(code: u16) -> AmqpError {
    AmqpError {
        kind: AmqpErrorKind::ManagementStatusCode(code, None),
    }
}

fn described_error(condition: AmqpErrorCondition) -> AmqpError {
    AmqpError {
        kind: AmqpErrorKind::DescribedError(AmqpDescribedError {
            condition,
            description: Some("broker says no".to_string()),
        }),
    }
}

fn retryable_failure() -> OperationError {
    OperationError::Amqp(status_error(503))
}

fn fatal_failure() -> OperationError {
    OperationError::Amqp(AmqpError {
        kind: AmqpErrorKind::ConnectionDropped,
    })
}

fn policy(max_attempts: u32) -> RetryOptions {
    RetryOptions {
        max_attempts,
        initial_delay_ms: 100,
        max_delay_ms: 1000,
        try_timeout_ms: None,
    }
}

#[test]
fn retryable_status_codes() {
    for code in [408u16, 429, 500, 502, 503, 504] {
        assert!(should_retry_amqp_error(&status_error(code)), "{code}");
    }
    for code in [200u16, 400, 401, 403, 404, 409, 501] {
        assert!(!should_retry_amqp_error(&status_error(code)), "{code}");
    }
}

#[test]
fn retryable_described_conditions() {
    assert!(should_retry_amqp_error(&described_error(
        AmqpErrorCondition::ResourceLimitExceeded
    )));
    assert!(should_retry_amqp_error(&described_error(
        AmqpErrorCondition::ConnectionFramingError
    )));
    assert!(should_retry_amqp_error(&described_error(
        AmqpErrorCondition::LinkStolen
    )));
    assert!(!should_retry_amqp_error(&described_error(
        AmqpErrorCondition::LinkDetachForced
    )));
    assert!(!should_retry_amqp_error(&described_error(
        AmqpErrorCondition::InternalError
    )));
    assert!(!should_retry_amqp_error(&described_error(
        AmqpErrorCondition::NotAllowed
    )));
}

#[test]
fn other_amqp_kinds_are_fatal() {
    for kind in [
        AmqpErrorKind::ConnectionDropped,
        AmqpErrorKind::TransportImplementationError,
        AmqpErrorKind::NonTerminalDeliveryState,
        AmqpErrorKind::IllegalDeliveryState,
        AmqpErrorKind::LinkStateError,
        AmqpErrorKind::DetachError,
        AmqpErrorKind::ClosedByRemote(None),
    ] {
        assert!(!should_retry_amqp_error(&AmqpError { kind }));
    }
}

#[test]
fn non_amqp_failures_are_fatal() {
    assert!(!should_retry_send_operation(&OperationError::AmqpOpaque));
    assert!(!should_retry_send_operation(&OperationError::Other));
    assert!(should_retry_send_operation(&retryable_failure()));
}

#[test]
fn persistent_retryable_failure_exhausts_attempts() {
    let outcomes = vec![
        AttemptOutcome::Failed(OperationError::Amqp(status_error(408))),
        AttemptOutcome::Failed(OperationError::Amqp(status_error(429))),
        AttemptOutcome::Failed(OperationError::Amqp(status_error(503))),
    ];
    let (attempts, result) = run_send_retry(&policy(3), &outcomes);
    assert_eq!(attempts, 3);
    assert_eq!(result, Err(OperationError::Amqp(status_error(503))));
}

#[test]
fn transient_failure_then_success_takes_two_attempts() {
    let outcomes = vec![
        AttemptOutcome::Failed(retryable_failure()),
        AttemptOutcome::Succeeded,
        AttemptOutcome::Succeeded,
        AttemptOutcome::Succeeded,
    ];
    let (attempts, result) = run_send_retry(&policy(4), &outcomes);
    assert_eq!(attempts, 2);
    assert_eq!(result, Ok(()));
}

#[test]
fn fatal_failure_stops_after_one_attempt() {
    let outcomes = vec![
        AttemptOutcome::Failed(fatal_failure()),
        AttemptOutcome::Succeeded,
        AttemptOutcome::Succeeded,
    ];
    let (attempts, result) = run_send_retry(&policy(3), &outcomes);
    assert_eq!(attempts, 1);
    assert_eq!(result, Err(fatal_failure()));
}

#[test]
fn immediate_success_takes_one_attempt() {
    let outcomes = vec![
        AttemptOutcome::Succeeded,
        AttemptOutcome::Succeeded,
        AttemptOutcome::Succeeded,
    ];
    let (attempts, result) = run_send_retry(&policy(3), &outcomes);
    assert_eq!(attempts, 1);
    assert_eq!(result, Ok(()));
}

#[test]
fn single_attempt_policy_returns_first_error() {
    let outcomes = vec![AttemptOutcome::Failed(retryable_failure())];
    let (attempts, result) = run_send_retry(&policy(1), &outcomes);
    assert_eq!(attempts, 1);
    assert_eq!(result, Err(retryable_failure()));
}

#[test]
fn backoff_doubles_and_caps() {
    let p = policy(8);
    assert_eq!(backoff_delay_ms(&p, 0), 100);
    assert_eq!(backoff_delay_ms(&p, 1), 200);
    assert_eq!(backoff_delay_ms(&p, 2), 400);
    assert_eq!(backoff_delay_ms(&p, 3), 800);
    assert_eq!(backoff_delay_ms(&p, 4), 1000);
    assert_eq!(backoff_delay_ms(&p, 5), 1000);
}

#[test]
fn backoff_with_an_odd_ceiling() {
    let p = RetryOptions {
        max_attempts: 8,
        initial_delay_ms: 3,
        max_delay_ms: 7,
        try_timeout_ms: None,
    };
    assert_eq!(backoff_delay_ms(&p, 0), 3);
    // 3 <= 7 / 2, so one more doubling is allowed before the cap.
    assert_eq!(backoff_delay_ms(&p, 1), 6);
    assert_eq!(backoff_delay_ms(&p, 2), 7);
    assert_eq!(backoff_delay_ms(&p, 3), 7);
}

#[test]
fn decision_after_each_failure() {
    let p = policy(3);
    assert_eq!(retry_decide(&p, 1, false), RetryDecision::Fatal);
    assert_eq!(retry_decide(&p, 1, true), RetryDecision::RetryAfter(100));
    assert_eq!(retry_decide(&p, 2, true), RetryDecision::RetryAfter(200));
    assert_eq!(retry_decide(&p, 3, true), RetryDecision::Exhausted);
}

#[test]
fn default_retry_options() {
    let p = RetryOptions::default();
    assert_eq!(p.max_attempts, 4);
    assert_eq!(p.initial_delay_ms, 800);
    assert_eq!(p.max_delay_ms, 60000);
    assert_eq!(p.try_timeout_ms, None);
}
