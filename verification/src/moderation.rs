//! The moderation client's retry core: the decisions of a bounded
//! retry-with-backoff loop around a remote text-classification call, kept
//! apart from the transport so they are checkable. A transient fault — a
//! transport failure or a provider 5xx — is retried up to the attempt bound;
//! a provider 4xx is a client fault and is never retried: that asymmetry is a
//! deliberate resource-protection policy.

use vstd::prelude::*;

use crate::error::{APILayerError, Error};

verus! {

/// The retry policy: how many attempts may be made in all, and the base
/// delay the exponential backoff starts from.
#[derive(Debug, Clone, Copy, PartialEq, Eq, Structural)]
pub struct RetryPolicy {
    /// Largest number of attempts, the first one included.
    pub max_attempts: u32,
    /// Backoff delay before the first retry, in milliseconds.
    pub base_delay_ms: u64,
}

/// A fault worth retrying: the transport failed, or the provider answered
/// with one of its own failures (its 5xx).
#[derive(Debug)]
pub enum TransientFault {
    /// The HTTP transport failed; payload is its description.
    Transport(String),
    /// The provider reported an internal failure.
    ServerStatus(APILayerError),
}

/// What one attempt against the remote dependency came back with.
#[derive(Debug)]
pub enum AttemptOutcome {
    /// The provider answered with the (possibly rewritten) text.
    Success(String),
    /// A fault worth retrying.
    Transient(TransientFault),
    /// The provider rejected the request outright (its 4xx); not retried.
    ClientFault(APILayerError),
}

/// What the loop does after an attempt: deliver the text, give up with a
/// failure, or retry after a backoff delay.
#[derive(Debug)]
pub enum RetryDecision {
    /// The text to hand to the caller.
    Deliver(String),
    /// The failure to surface; no further attempt is made.
    Fail(Error),
    /// Try again after this many milliseconds.
    RetryAfter(u64),
}

/// The failure kind a transient fault escalates to once retries are
/// exhausted.
pub open spec fn transient_error(f: TransientFault) -> Error {
    match f {
        TransientFault::Transport(m) => Error::MiddlewareReqwestAPIError(m),
        TransientFault::ServerStatus(a) => Error::ServerError(a),
    }
}

/// The exponential backoff before the retry after `attempts_made` attempts:
/// the base delay doubled per attempt already made, the exponent capped.
pub open spec fn spec_backoff(policy: RetryPolicy, attempts_made: u32) -> int {
    let k: u32 = if attempts_made <= 16 {
        attempts_made
    } else {
        16u32
    };
    policy.base_delay_ms * (1u64 << k)
}

/// The backoff delay held to the widest representable value.
pub open spec fn spec_backoff_sat(policy: RetryPolicy, attempts_made: u32) -> u64 {
    if spec_backoff(policy, attempts_made) > u64::MAX {
        u64::MAX
    } else {
        spec_backoff(policy, attempts_made) as u64
    }
}

/// The decision after one attempt, `attempts_made` counting that attempt:
/// success delivers, a client fault fails at once, and a transient fault is
/// retried exactly while the bound leaves room, else escalated.
pub open spec fn spec_retry_step(
    policy: RetryPolicy,
    attempts_made: u32,
    outcome: AttemptOutcome,
) -> RetryDecision {
    match outcome {
        AttemptOutcome::Success(t) => RetryDecision::Deliver(t),
        AttemptOutcome::ClientFault(a) => RetryDecision::Fail(Error::ClientError(a)),
        AttemptOutcome::Transient(f) => if attempts_made < policy.max_attempts {
            RetryDecision::RetryAfter(spec_backoff_sat(policy, attempts_made))
        } else {
            RetryDecision::Fail(transient_error(f))
        },
    }
}

impl TransientFault {
    /// Escalates this fault to the failure kind it surfaces as.
    pub fn to_error(self) -> (r: Error)
        ensures
            r == transient_error(self),
    {
        match self {
            TransientFault::Transport(m) => Error::MiddlewareReqwestAPIError(m),
            TransientFault::ServerStatus(a) => Error::ServerError(a),
        }
    }
}

/// Computes the capped exponential backoff delay, exactly as
/// `spec_backoff_sat` describes.
pub fn backoff_delay_ms(policy: &RetryPolicy, attempts_made: u32) -> (d: u64)
    ensures
        d == spec_backoff_sat(*policy, attempts_made),
{
    let k: u32 = if attempts_made <= 16 {
        attempts_made
    } else {
        16
    };
    let factor: u64 = 1u64 << k;
    match policy.base_delay_ms.checked_mul(factor) {
        Some(d) => d,
        None => u64::MAX,
    }
}

/// Decides what the retry loop does after one attempt, exactly as
/// `spec_retry_step` describes.
pub fn retry_step(policy: &RetryPolicy, attempts_made: u32, outcome: AttemptOutcome) -> (r:
    RetryDecision)
    ensures
        r == spec_retry_step(*policy, attempts_made, outcome),
{
    match outcome {
        AttemptOutcome::Success(t) => RetryDecision::Deliver(t),
        AttemptOutcome::ClientFault(a) => RetryDecision::Fail(Error::ClientError(a)),
        AttemptOutcome::Transient(f) => {
            if attempts_made < policy.max_attempts {
                RetryDecision::RetryAfter(backoff_delay_ms(policy, attempts_made))
            } else {
                RetryDecision::Fail(f.to_error())
            }
        },
    }
}

/// What a whole moderation call yields when the successive attempts come
/// back as `outs`, with `made` attempts already made: the first success
/// delivers its text, the first client fault fails at once, and transient
/// faults are consumed while the bound leaves room.
pub open spec fn spec_run_moderation(
    policy: RetryPolicy,
    outs: Seq<AttemptOutcome>,
    made: u32,
) -> (Result<String, Error>, u32)
    decreases outs.len(),
{
    if outs.len() == 0 {
        arbitrary()
    } else {
        match outs[0] {
            AttemptOutcome::Success(t) => (Ok(t), (made + 1) as u32),
            AttemptOutcome::ClientFault(a) => (Err(Error::ClientError(a)), (made + 1) as u32),
            AttemptOutcome::Transient(f) => if made + 1 < policy.max_attempts {
                spec_run_moderation(policy, outs.skip(1), (made + 1) as u32)
            } else {
                (Err(transient_error(f)), (made + 1) as u32)
            },
        }
    }
}

/// Runs the bounded retry loop over a script of attempt outcomes, exactly as
/// `spec_run_moderation` describes; the attempt count never exceeds the
/// policy's bound. The transport that produces each outcome stays outside.
#[verifier::loop_isolation(false)]
pub fn run_moderation(policy: &RetryPolicy, outcomes: &Vec<AttemptOutcome>) -> (r: (Result<
    String,
    Error,
>, u32))
    requires
        policy.max_attempts >= 1,
        outcomes@.len() >= policy.max_attempts,
    ensures
        r == spec_run_moderation(*policy, outcomes@, 0),
        1 <= r.1 <= policy.max_attempts,
{
    let mut i: u32 = 0;
    proof {
        assert(outcomes@.skip(0) =~= outcomes@);
    }
    loop
        invariant
            i < policy.max_attempts,
            spec_run_moderation(*policy, outcomes@, 0) == spec_run_moderation(
                *policy,
                outcomes@.skip(i as int),
                i,
            ),
        decreases policy.max_attempts - i,
    {
        proof {
            assert(outcomes@.skip(i as int)[0] == outcomes@[i as int]);
            assert(outcomes@.skip(i as int).skip(1) =~= outcomes@.skip(i + 1));
        }
        match &outcomes[i as usize] {
            AttemptOutcome::Success(t) => {
                return (Ok(t.clone()), i + 1);
            },
            AttemptOutcome::ClientFault(a) => {
                return (Err(Error::ClientError(a.clone())), i + 1);
            },
            AttemptOutcome::Transient(f) => {
                if i + 1 < policy.max_attempts {
                    i = i + 1;
                } else {
                    let e = match f {
                        TransientFault::Transport(m) => Error::MiddlewareReqwestAPIError(
                            m.clone(),
                        ),
                        TransientFault::ServerStatus(a) => Error::ServerError(a.clone()),
                    };
                    return (Err(e), i + 1);
                }
            },
        }
    }
}

/// A run of transient faults followed by one success yields that success,
/// after exactly the attempts up to and including it.
pub proof fn lemma_transients_then_success(policy: RetryPolicy, outs: Seq<AttemptOutcome>, k: int)
    requires
        0 <= k < policy.max_attempts,
        k < outs.len(),
        forall|j: int| 0 <= j < k ==> #[trigger] outs[j] is Transient,
        outs[k] is Success,
    ensures
        spec_run_moderation(policy, outs, 0) == (
            Ok::<String, Error>(outs[k]->Success_0),
            (k + 1) as u32,
        ),
{
    lemma_run_from(policy, outs, 0, k);
}

/// Helper induction for `lemma_transients_then_success`, from any number of
/// attempts already made.
proof fn lemma_run_from(policy: RetryPolicy, outs: Seq<AttemptOutcome>, made: u32, k: int)
    requires
        0 <= k,
        made + k < policy.max_attempts,
        k < outs.len(),
        forall|j: int| 0 <= j < k ==> #[trigger] outs[j] is Transient,
        outs[k] is Success,
    ensures
        spec_run_moderation(policy, outs, made) == (
            Ok::<String, Error>(outs[k]->Success_0),
            (made + k + 1) as u32,
        ),
    decreases k,
{
    if k == 0 {
    } else {
        assert(outs[0] is Transient);
        let rest = outs.skip(1);
        assert(forall|j: int| 0 <= j < k - 1 ==> #[trigger] rest[j] is Transient);
        assert(rest[k - 1] == outs[k]);
        lemma_run_from(policy, rest, (made + 1) as u32, k - 1);
    }
}

/// A provider 4xx yields immediate failure with exactly one attempt
/// recorded, whatever the policy allows.
pub proof fn lemma_client_fault_immediate(policy: RetryPolicy, outs: Seq<AttemptOutcome>)
    requires
        outs.len() > 0,
        outs[0] is ClientFault,
    ensures
        spec_run_moderation(policy, outs, 0) == (
            Err::<String, Error>(Error::ClientError(outs[0]->ClientFault_0)),
            1u32,
        ),
{
}

} // verus!
