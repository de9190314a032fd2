use rustwebdev::error::{APILayerError, Error};
use rustwebdev::moderation::{
    backoff_delay_ms, retry_step, run_moderation, AttemptOutcome, RetryDecision, RetryPolicy,
    TransientFault,
};
use rustwebdev::recovery::{return_error, Rejection};

fn policy(max_attempts: u32) -> RetryPolicy {
    RetryPolicy {
        max_attempts,
        base_delay_ms: 10,
    }
}

fn transport_fault() -> AttemptOutcome {
    AttemptOutcome::Transient(TransientFault::Transport("connection reset".to_string()))
}

fn server_fault() -> AttemptOutcome {
    AttemptOutcome::Transient(TransientFault::ServerStatus(APILayerError {
        status: 503,
        message: "backend down".to_string(),
    }))
}

fn client_fault() -> AttemptOutcome {
    AttemptOutcome::ClientFault(APILayerError {
        status: 401,
        message: "invalid api key".to_string(),
    })
}

fn success(text: &str) -> AttemptOutcome {
    AttemptOutcome::Success(text.to_string())
}

#[test]
fn transient_failures_then_success_deliver_the_text() {
    // Two transient faults, then the provider answers: the overall call
    // succeeds with the filtered text, after exactly three attempts.
    let outcomes = vec![transport_fault(), server_fault(), success("clean text")];
    let (result, attempts) = run_moderation(&policy(3), &outcomes);
    assert_eq!(result.unwrap(), "clean text");
    assert_eq!(attempts, 3);
}

#[test]
fn immediate_success_takes_one_attempt() {
    let outcomes = vec![success("fine"), success("unused"), success("unused")];
    let (result, attempts) = run_moderation(&policy(3), &outcomes);
    assert_eq!(result.unwrap(), "fine");
    assert_eq!(attempts, 1);
}

#[test]
fn client_fault_fails_after_exactly_one_attempt() {
    // A provider 4xx is never retried, however many attempts the policy
    // would allow.
    let outcomes = vec![client_fault(), success("unreachable"), success("unreachable")];
    let (result, attempts) = run_moderation(&policy(3), &outcomes);
    assert_eq!(attempts, 1);
    match result.unwrap_err() {
        Error::ClientError(e) => {
            assert_eq!(e.status, 401);
            assert_eq!(e.message, "invalid api key");
        },
        other => panic!("unexpected failure kind: {:?}", other),
    }
}

#[test]
fn exhausted_retries_surface_the_last_transient_fault() {
    let outcomes = vec![transport_fault(), transport_fault(), server_fault()];
    let (result, attempts) = run_moderation(&policy(3), &outcomes);
    assert_eq!(attempts, 3);
    match result.unwrap_err() {
        Error::ServerError(e) => assert_eq!(e.status, 503),
        other => panic!("unexpected failure kind: {:?}", other),
    }
    let outcomes = vec![server_fault(), transport_fault()];
    let (result, attempts) = run_moderation(&policy(2), &outcomes);
    assert_eq!(attempts, 2);
    assert!(matches!(result.unwrap_err(), Error::MiddlewareReqwestAPIError(_)));
}

#[test]
fn attempts_never_exceed_the_bound() {
    let outcomes = vec![
        transport_fault(),
        transport_fault(),
        transport_fault(),
        transport_fault(),
        transport_fault(),
    ];
    let (result, attempts) = run_moderation(&policy(2), &outcomes);
    assert!(result.is_err());
    assert_eq!(attempts, 2);
}

#[test]
fn single_attempt_policy_never_retries() {
    let outcomes = vec![server_fault()];
    let (result, attempts) = run_moderation(&policy(1), &outcomes);
    assert_eq!(attempts, 1);
    assert!(matches!(result.unwrap_err(), Error::ServerError(_)));
}

#[test]
fn retry_step_decides_per_outcome() {
    let p = policy(3);
    assert!(matches!(
        retry_step(&p, 1, success("ok")),
        RetryDecision::Deliver(t) if t == "ok"
    ));
    assert!(matches!(
        retry_step(&p, 1, client_fault()),
        RetryDecision::Fail(Error::ClientError(_))
    ));
    match retry_step(&p, 1, transport_fault()) {
        RetryDecision::RetryAfter(d) => assert_eq!(d, 20), // base doubled once
        other => panic!("unexpected decision: {:?}", other),
    }
    assert!(matches!(
        retry_step(&p, 3, transport_fault()),
        RetryDecision::Fail(Error::MiddlewareReqwestAPIError(_))
    ));
    assert!(matches!(
        retry_step(&p, 3, server_fault()),
        RetryDecision::Fail(Error::ServerError(_))
    ));
}

#[test]
fn backoff_doubles_and_saturates() {
    let p = policy(5);
    assert_eq!(backoff_delay_ms(&p, 0), 10);
    assert_eq!(backoff_delay_ms(&p, 1), 20);
    assert_eq!(backoff_delay_ms(&p, 3), 80);
    // The exponent is capped, so huge attempt counts stay finite.
    assert_eq!(backoff_delay_ms(&p, 60), 10 * 65536);
    let saturating = RetryPolicy {
        max_attempts: 5,
        base_delay_ms: u64::MAX / 2,
    };
    assert_eq!(backoff_delay_ms(&saturating, 4), u64::MAX);
}

#[test]
fn surfaced_remote_failures_stay_generic_for_callers() {
    let outcomes = vec![client_fault()];
    let (result, _) = run_moderation(&policy(1), &outcomes);
    let (status, message) = return_error(&Rejection::Failure(result.unwrap_err()));
    assert_eq!(status, 500);
    assert_eq!(message, "Internal Server Error");
}
