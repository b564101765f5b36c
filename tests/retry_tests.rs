use ai_orchestrator::error::ModelError;
use ai_orchestrator::retry::{RetryDecision, RetryPolicy};

/// Runs an operation that always fails with `error` under `policy`, without
/// waiting, and returns the number of attempts, the waits and the final message.
fn run_failing(policy: &RetryPolicy, error: ModelError) -> (u64, Vec<u64>, String) {
    let mut attempts: u64 = 0;
    let mut waits = Vec::new();
    loop {
        attempts += 1;
        match policy.decide(attempts, error.clone(), 0) {
            RetryDecision::RetryAfter(d) => waits.push(d),
            RetryDecision::GiveUp(e) => {
                assert_eq!(e.attempts, attempts);
                return (attempts, waits, e.message());
            }
        }
    }
}

#[test]
fn no_retries_fails_on_first_attempt_without_delay() {
    let policy = RetryPolicy::new(0);
    let (attempts, waits, msg) = run_failing(&policy, ModelError::InternalError("boom".to_string()));
    assert_eq!(attempts, 1);
    assert!(waits.is_empty());
    assert_eq!(msg, "Failed after 0 retries: Some internal error occurred: boom");
}

#[test]
fn three_retries_make_four_attempts() {
    let policy = RetryPolicy::new(3);
    let (attempts, waits, msg) = run_failing(&policy, ModelError::InternalError("down".to_string()));
    assert_eq!(attempts, 4);
    assert_eq!(waits, vec![2000, 4000, 8000]);
    assert!(msg.to_lowercase().contains("failed after 3 retries"));
    assert_eq!(msg, "Failed after 3 retries: Some internal error occurred: down");
}

#[test]
fn non_transient_errors_are_not_retried() {
    let policy = RetryPolicy::new(5);
    let (attempts, waits, msg) = run_failing(&policy, ModelError::InvalidArgument("bad".to_string()));
    assert_eq!(attempts, 1);
    assert!(waits.is_empty());
    assert_eq!(msg, "Invalid argument supplied: bad");
    match policy.decide(1, ModelError::Other("?".to_string()), 0) {
        RetryDecision::GiveUp(e) => assert!(!e.budget_exhausted),
        other => panic!("unexpected {:?}", other),
    }
}

#[test]
fn backoff_grows_exponentially_with_jitter() {
    assert_eq!(RetryPolicy::backoff_delay(1, 0), 2000);
    assert_eq!(RetryPolicy::backoff_delay(1, 499), 2499);
    assert_eq!(RetryPolicy::backoff_delay(1, 500), 2000);
    assert_eq!(RetryPolicy::backoff_delay(2, 7), 4007);
    assert_eq!(RetryPolicy::backoff_delay(3, 2500), 8500);
    assert_eq!(RetryPolicy::backoff_delay(10, 0), 2000 * 512);
}

#[test]
fn backoff_saturates() {
    assert_eq!(RetryPolicy::backoff_delay(100, 0), u64::MAX);
    assert_eq!(RetryPolicy::backoff_delay(u64::MAX, 12345), u64::MAX);
}

#[test]
fn fresh_jitter_stays_below_a_quarter() {
    let policy = RetryPolicy::new(2);
    for failures in 1..=2u64 {
        match policy.on_failure(failures, ModelError::InternalError("x".to_string())) {
            RetryDecision::RetryAfter(d) => {
                let base = 2000u64 << (failures - 1);
                assert!(d >= base && d < base + base / 4);
            }
            other => panic!("unexpected {:?}", other),
        }
    }
    match policy.on_failure(3, ModelError::InternalError("x".to_string())) {
        RetryDecision::GiveUp(e) => {
            assert!(e.budget_exhausted);
            assert_eq!(e.max_retries, 2);
        }
        other => panic!("unexpected {:?}", other),
    }
}
