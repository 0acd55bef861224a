//! Bounded retry of fallible operations.
//!
//! A retry policy fixes the maximum attempt count and the backoff shape. A
//! classifier decides, per failure, whether another attempt may help: only a
//! management-style status code in {408, 429, 500, 502, 503, 504} or a
//! described protocol error whose condition is resource-limit-exceeded,
//! connection-framing-error or link-stolen is worth retrying; every other
//! failure is fatal and returned at once.
//!
//! The engine itself is split in two: [`retry_decide`] is the per-failure
//! step that a driver consults between attempts, and [`run_send_retry`]
//! executes the whole discipline over the outcomes the attempts produced,
//! so that the attempt count and the final result are pinned down exactly.

use vstd::prelude::*;

use crate::error::{AmqpError, AmqpErrorCondition, AmqpErrorKind, OperationError};

verus! {

/// Configuration for retry: maximum attempt count, backoff shape, and an
/// optional per-attempt timeout. Immutable once a producer is constructed.
#[derive(Clone, Debug, PartialEq, Eq)]
pub struct RetryOptions {
    /// The operation is invoked at most this many times.
    pub max_attempts: u32,
    /// The wait before the second attempt, in milliseconds; doubled after
    /// each further failure.
    pub initial_delay_ms: u64,
    /// The ceiling on any single wait, in milliseconds.
    pub max_delay_ms: u64,
    /// An optional bound on the duration of one attempt, in milliseconds,
    /// enforced by whoever drives the attempts.
    pub try_timeout_ms: Option<u64>,
}

impl RetryOptions {
    /// A policy is usable when it allows at least one attempt and its first
    /// wait does not already exceed the ceiling.
    pub open spec fn wf(&self) -> bool {
        &&& self.max_attempts >= 1
        &&& self.initial_delay_ms <= self.max_delay_ms
    }
}

impl Default for RetryOptions {
    /// Four attempts, waits starting at 800 ms and capped at one minute.
    fn default() -> (r: Self)
        ensures
            r.wf(),
            r.max_attempts == 4,
            r.initial_delay_ms == 800,
            r.max_delay_ms == 60000,
            r.try_timeout_ms is None,
    {
        RetryOptions {
            max_attempts: 4,
            initial_delay_ms: 800,
            max_delay_ms: 60000,
            try_timeout_ms: None,
        }
    }
}

/// Whether a management-style status code is worth retrying: request
/// timeout, too many requests, internal server error, bad gateway, service
/// unavailable, or gateway timeout.
pub open spec fn spec_retryable_status_code(code: u16) -> bool {
    ||| code == 408
    ||| code == 429
    ||| code == 500
    ||| code == 502
    ||| code == 503
    ||| code == 504
}

/// Whether a described error's condition is worth retrying.
pub open spec fn spec_retryable_condition(c: AmqpErrorCondition) -> bool {
    ||| c is ResourceLimitExceeded
    ||| c is ConnectionFramingError
    ||| c is LinkStolen
}

/// Whether a protocol-level error is worth retrying.
pub open spec fn spec_retryable_amqp_error(e: AmqpError) -> bool {
    match e.kind {
        AmqpErrorKind::ManagementStatusCode(code, _) => spec_retryable_status_code(code),
        AmqpErrorKind::DescribedError(d) => spec_retryable_condition(d.condition),
        _ => false,
    }
}

/// Whether one failed send attempt is worth retrying: only a failure that
/// carries a translated protocol-level cause can be, and then only per
/// [`spec_retryable_amqp_error`].
pub open spec fn spec_retryable_operation_error(e: OperationError) -> bool {
    match e {
        OperationError::Amqp(a) => spec_retryable_amqp_error(a),
        OperationError::AmqpOpaque => false,
        OperationError::Other => false,
    }
}

/// Classifies a protocol-level error as retryable or fatal.
pub fn should_retry_amqp_error(amqp_error: &AmqpError) -> (r: bool)
    ensures
        r == spec_retryable_amqp_error(*amqp_error),
{
    match &amqp_error.kind {
        AmqpErrorKind::ManagementStatusCode(code, _) => {
            let c = *code;
            c == 408 || c == 429 || c == 500 || c == 502 || c == 503 || c == 504
        },
        AmqpErrorKind::DescribedError(d) => match d.condition {
            AmqpErrorCondition::ResourceLimitExceeded => true,
            AmqpErrorCondition::ConnectionFramingError => true,
            AmqpErrorCondition::LinkStolen => true,
            _ => false,
        },
        _ => false,
    }
}

/// Classifies a failed send attempt as retryable or fatal.
pub fn should_retry_send_operation(e: &OperationError) -> (r: bool)
    ensures
        r == spec_retryable_operation_error(*e),
{
    match e {
        OperationError::Amqp(a) => should_retry_amqp_error(a),
        OperationError::AmqpOpaque => false,
        OperationError::Other => false,
    }
}

/// The wait before the attempt that follows `prior_waits + 1` failures: the
/// initial delay, doubled once per further failure, capped at the ceiling.
pub open spec fn spec_backoff_delay_ms(p: RetryOptions, prior_waits: nat) -> u64
    decreases prior_waits,
{
    if prior_waits == 0 {
        p.initial_delay_ms
    } else {
        let d = spec_backoff_delay_ms(p, (prior_waits - 1) as nat);
        if d > p.max_delay_ms / 2 {
            p.max_delay_ms
        } else {
            (d * 2) as u64
        }
    }
}

/// The backoff never exceeds the ceiling.
pub proof fn lemma_backoff_delay_capped(p: RetryOptions, prior_waits: nat)
    requires
        p.wf(),
    ensures
        spec_backoff_delay_ms(p, prior_waits) <= p.max_delay_ms,
    decreases prior_waits,
{
    if prior_waits > 0 {
        lemma_backoff_delay_capped(p, (prior_waits - 1) as nat);
    }
}

/// Computes the wait, in milliseconds, before the next attempt after
/// `prior_waits + 1` failures.
pub fn backoff_delay_ms(policy: &RetryOptions, prior_waits: u32) -> (d: u64)
    requires
        policy.wf(),
    ensures
        d == spec_backoff_delay_ms(*policy, prior_waits as nat),
{
    let mut d: u64 = policy.initial_delay_ms;
    let mut i: u32 = 0;
    while i < prior_waits
        invariant
            policy.wf(),
            i <= prior_waits,
            d == spec_backoff_delay_ms(*policy, i as nat),
        decreases prior_waits - i,
    {
        proof {
            lemma_backoff_delay_capped(*policy, i as nat);
        }
        if d > policy.max_delay_ms / 2 {
            d = policy.max_delay_ms;
        } else {
            d = d * 2;
        }
        i = i + 1;
    }
    d
}

/// What the retry engine does after one failed attempt.
#[derive(Clone, Copy, Debug, PartialEq, Eq, Structural)]
pub enum RetryDecision {
    /// The failure is fatal: return it at once.
    Fatal,
    /// The failure was retryable, but no attempts remain: return it.
    Exhausted,
    /// Wait the given number of milliseconds, then attempt again.
    RetryAfter(u64),
}

/// The decision owed after a failure on attempt number `attempts_made`
/// (counted from 1), given whether the classifier found it retryable.
pub open spec fn spec_retry_decide(p: RetryOptions, attempts_made: u32, retryable: bool) -> RetryDecision {
    if !retryable {
        RetryDecision::Fatal
    } else if attempts_made >= p.max_attempts {
        RetryDecision::Exhausted
    } else {
        RetryDecision::RetryAfter(spec_backoff_delay_ms(p, (attempts_made - 1) as nat))
    }
}

/// Decides what to do after one failed attempt. The driver of the attempts
/// calls this between attempts; it holds no lock and owns no resource, so a
/// stuck attempt never blocks the decision for an unrelated operation.
pub fn retry_decide(policy: &RetryOptions, attempts_made: u32, error_retryable: bool) -> (d: RetryDecision)
    requires
        policy.wf(),
        attempts_made >= 1,
    ensures
        d == spec_retry_decide(*policy, attempts_made, error_retryable),
{
    if !error_retryable {
        RetryDecision::Fatal
    } else if attempts_made >= policy.max_attempts {
        RetryDecision::Exhausted
    } else {
        RetryDecision::RetryAfter(backoff_delay_ms(policy, attempts_made - 1))
    }
}

/// What one attempt of the underlying operation came to.
#[derive(Clone, Debug, PartialEq, Eq)]
pub enum AttemptOutcome {
    /// The attempt succeeded.
    Succeeded,
    /// The attempt failed with the given error.
    Failed(OperationError),
}

/// Whether an attempt with this outcome would be followed by another one,
/// attempts permitting: only a failure the classifier finds retryable is.
pub open spec fn spec_failed_retryable(o: AttemptOutcome) -> bool {
    match o {
        AttemptOutcome::Succeeded => false,
        AttemptOutcome::Failed(e) => spec_retryable_operation_error(e),
    }
}

/// Whether the engine stops at an attempt with this outcome regardless of
/// how many attempts remain: a success, or a fatal failure.
pub open spec fn spec_attempt_stops(o: AttemptOutcome) -> bool {
    !spec_failed_retryable(o)
}

/// How many attempts the engine makes when the successive attempts would
/// produce the outcomes `s`, under a budget of `max` attempts: it stops at
/// the first outcome that is a success or a fatal failure, and in any case
/// after `max` attempts.
pub open spec fn spec_attempts_used(s: Seq<AttemptOutcome>, max: int) -> int
    decreases max,
{
    if max <= 1 {
        1
    } else if spec_attempt_stops(s[0]) {
        1
    } else {
        1 + spec_attempts_used(s.skip(1), max - 1)
    }
}

/// The result the engine returns: whatever the last attempt made came to.
pub open spec fn spec_retry_result(s: Seq<AttemptOutcome>, max: int) -> Result<(), OperationError> {
    match s[spec_attempts_used(s, max) - 1] {
        AttemptOutcome::Succeeded => Ok(()),
        AttemptOutcome::Failed(e) => Err(e),
    }
}

/// The attempt count is always between 1 and the budget, and every attempt
/// before the last one failed retryably.
pub proof fn lemma_attempts_used_bounds(s: Seq<AttemptOutcome>, max: int)
    requires
        1 <= max <= s.len(),
    ensures
        1 <= spec_attempts_used(s, max) <= max,
        forall|j: int| 0 <= j < spec_attempts_used(s, max) - 1 ==> spec_failed_retryable(#[trigger] s[j]),
    decreases max,
{
    if max > 1 && !spec_attempt_stops(s[0]) {
        lemma_attempts_used_bounds(s.skip(1), max - 1);
        assert forall|j: int| 0 <= j < spec_attempts_used(s, max) - 1 implies spec_failed_retryable(#[trigger] s[j]) by {
            if j > 0 {
                assert(spec_failed_retryable(s.skip(1)[j - 1]));
            }
        }
    }
}

/// Splitting off a prefix of retryable failures: after `k` attempts that all
/// failed retryably, the engine behaves as if started on the remainder with
/// the remaining budget.
proof fn lemma_attempts_used_skip(s: Seq<AttemptOutcome>, max: int, k: int)
    requires
        0 <= k < max <= s.len(),
        forall|j: int| 0 <= j < k ==> !spec_attempt_stops(#[trigger] s[j]),
    ensures
        spec_attempts_used(s, max) == k + spec_attempts_used(s.skip(k), max - k),
    decreases k,
{
    if k > 0 {
        lemma_attempts_used_skip(s, max, k - 1);
        assert(s.skip(k - 1)[0] == s[k - 1]);
        assert(s.skip(k - 1).skip(1) =~= s.skip(k));
    } else {
        assert(s.skip(0) =~= s);
    }
}

/// Runs the retry discipline over the outcomes that the successive attempts
/// of an operation produced, in order. The engine walks the outcomes one
/// attempt at a time: a success or a fatal failure ends it at once, a
/// retryable failure is retried while attempts remain. Returns how many
/// attempts were made and the final result.
///
/// `outcomes` must be long enough to cover the worst case, one outcome per
/// allowed attempt; outcomes beyond the attempts actually made are ignored.
pub fn run_send_retry(policy: &RetryOptions, outcomes: &Vec<AttemptOutcome>) -> (r: (u32, Result<(), OperationError>))
    requires
        policy.wf(),
        outcomes.len() >= policy.max_attempts,
    ensures
        r.0 as int == spec_attempts_used(outcomes@, policy.max_attempts as int),
        r.1 == spec_retry_result(outcomes@, policy.max_attempts as int),
{
    let ghost max = policy.max_attempts as int;
    let mut i: u32 = 0;
    loop
        invariant
            policy.wf(),
            outcomes.len() >= policy.max_attempts,
            max == policy.max_attempts as int,
            0 <= i < policy.max_attempts,
            forall|j: int| 0 <= j < i ==> !spec_attempt_stops(#[trigger] outcomes@[j]),
        decreases policy.max_attempts - i,
    {
        let outcome = &outcomes[i as usize];
        proof {
            lemma_attempts_used_skip(outcomes@, max, i as int);
            assert(outcomes@.skip(i as int)[0] == outcomes@[i as int]);
        }
        match outcome {
            AttemptOutcome::Succeeded => {
                proof {
                    assert(spec_attempts_used(outcomes@.skip(i as int), max - i) == 1);
                }
                return (i + 1, Ok(()));
            },
            AttemptOutcome::Failed(e) => {
                let retryable = should_retry_send_operation(e);
                if !retryable {
                    proof {
                        assert(spec_attempt_stops(outcomes@[i as int]));
                        assert(spec_attempts_used(outcomes@.skip(i as int), max - i) == 1);
                    }
                    return (i + 1, Err(crate::error::clone_operation_error(e)));
                }
                if i + 1 >= policy.max_attempts {
                    proof {
                        assert(max - i == 1);
                        assert(spec_attempts_used(outcomes@.skip(i as int), max - i) == 1);
                    }
                    return (i + 1, Err(crate::error::clone_operation_error(e)));
                }
                proof {
                    assert(!spec_attempt_stops(outcomes@[i as int]));
                }
                i = i + 1;
            },
        }
    }
}

/// Law: under a budget of `max` attempts, an operation that always fails
/// with a retryable classification is attempted exactly `max` times, and the
/// error returned is the one from the last attempt.
pub proof fn lemma_retry_exhausts_attempts(s: Seq<AttemptOutcome>, max: int)
    requires
        1 <= max <= s.len(),
        forall|j: int| 0 <= j < s.len() ==> spec_failed_retryable(#[trigger] s[j]),
    ensures
        spec_attempts_used(s, max) == max,
        s[max - 1] matches AttemptOutcome::Failed(e) && spec_retry_result(s, max) == Err::<(), OperationError>(e),
    decreases max,
{
    if max > 1 {
        assert(spec_failed_retryable(s[0]));
        lemma_retry_exhausts_attempts(s.skip(1), max - 1);
        assert(s.skip(1)[max - 2] == s[max - 1]);
    } else {
        assert(spec_failed_retryable(s[0]));
    }
}

/// Law: an operation that fails once with a retryable classification and
/// then succeeds is attempted exactly twice, and the result is success.
pub proof fn lemma_retry_recovers_after_transient_failure(s: Seq<AttemptOutcome>, max: int)
    requires
        2 <= max <= s.len(),
        spec_failed_retryable(s[0]),
        s[1] == AttemptOutcome::Succeeded,
    ensures
        spec_attempts_used(s, max) == 2,
        spec_retry_result(s, max) == Ok::<(), OperationError>(()),
{
    assert(s.skip(1)[0] == s[1]);
    assert(spec_attempts_used(s.skip(1), max - 1) == 1);
}

/// Law: an operation whose first failure is classified as fatal is attempted
/// exactly once, and that first error is returned.
pub proof fn lemma_fatal_failure_stops_retry(s: Seq<AttemptOutcome>, max: int)
    requires
        1 <= max <= s.len(),
        s[0] matches AttemptOutcome::Failed(e) && !spec_retryable_operation_error(e),
    ensures
        spec_attempts_used(s, max) == 1,
        s[0] matches AttemptOutcome::Failed(e) && spec_retry_result(s, max) == Err::<(), OperationError>(e),
{
}

} // verus!
