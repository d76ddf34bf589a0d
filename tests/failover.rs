use allm::error::Error;
use allm::failover::{FailoverDecision, FailoverSequence, RetryPolicy};
use allm::Provider;

fn three_candidates() -> FailoverSequence {
    FailoverSequence::new(vec![
        (Provider::MistralAi, "m1".to_string()),
        (Provider::OpenAI, "m2".to_string()),
        (Provider::Anthropic, "m3".to_string()),
    ])
}

#[test]
fn backoff_grows_by_the_multiplier() {
    let policy = RetryPolicy::new(3, 2, 100);
    assert_eq!(policy.backoff_for_attempt(0), 100);
    assert_eq!(policy.backoff_for_attempt(1), 200);
    assert_eq!(policy.backoff_for_attempt(2), 400);
    assert_eq!(policy.backoff_for_attempt(3), 800);
}

#[test]
fn backoff_with_multiplier_three() {
    let policy = RetryPolicy::new(5, 3, 7);
    assert_eq!(policy.backoff_for_attempt(0), 7);
    assert_eq!(policy.backoff_for_attempt(4), 7 * 81);
}

#[test]
fn backoff_saturates_at_the_largest_wait() {
    let policy = RetryPolicy::new(3, 2, u64::MAX / 2 + 1);
    assert_eq!(policy.backoff_for_attempt(1), u64::MAX);
    assert_eq!(policy.backoff_for_attempt(40), u64::MAX);
}

#[test]
fn backoff_with_multiplier_zero() {
    let policy = RetryPolicy::new(3, 0, 50);
    assert_eq!(policy.backoff_for_attempt(0), 50);
    assert_eq!(policy.backoff_for_attempt(1), 0);
}

#[test]
fn default_retry_policy() {
    let policy = RetryPolicy::default();
    assert_eq!(policy.max_retries, 3);
    assert_eq!(policy.backoff_multiplier, 2);
    assert_eq!(policy.initial_backoff_ms, 100);
}

#[test]
fn next_advances_and_stops_at_the_last_candidate() {
    let mut seq = three_candidates();
    assert_eq!(seq.current_index, 0);
    assert_eq!(seq.current(), Some(&(Provider::MistralAi, "m1".to_string())));
    assert!(seq.has_next());
    assert_eq!(seq.next(), Some(&(Provider::OpenAI, "m2".to_string())));
    assert_eq!(seq.current_index, 1);
    assert!(seq.has_next());
    assert_eq!(seq.next(), Some(&(Provider::Anthropic, "m3".to_string())));
    assert_eq!(seq.current_index, 2);
    assert!(!seq.has_next());
    assert_eq!(seq.next(), None);
    assert_eq!(seq.current_index, 2);
    assert_eq!(seq.current(), Some(&(Provider::Anthropic, "m3".to_string())));
}

#[test]
fn next_called_k_times_reaches_min_of_k_and_last_index() {
    for k in 0..6usize {
        let mut seq = three_candidates();
        for _ in 0..k {
            seq.next();
        }
        assert_eq!(seq.current_index, k.min(2));
        assert_eq!(seq.has_next(), k < 2);
    }
}

#[test]
fn reset_returns_to_the_first_candidate() {
    let mut seq = three_candidates();
    seq.next();
    seq.next();
    seq.reset();
    assert_eq!(seq.current_index, 0);
    assert_eq!(seq.current(), Some(&(Provider::MistralAi, "m1".to_string())));
}

#[test]
fn empty_sequence_has_no_candidate() {
    let mut seq = FailoverSequence::new(vec![]);
    assert_eq!(seq.current(), None);
    assert!(!seq.has_next());
    assert_eq!(seq.next(), None);
    assert_eq!(seq.current_index, 0);
}

#[test]
fn retryable_failure_moves_to_the_next_candidate() {
    let mut seq = three_candidates();
    let policy = RetryPolicy::new(3, 2, 100);
    match seq.on_failure(&policy, 1, &Error::RateLimitExceeded) {
        FailoverDecision::Retry { provider, model, backoff_ms } => {
            assert_eq!(provider, Provider::OpenAI);
            assert_eq!(model, "m2");
            assert_eq!(backoff_ms, 200);
        }
        FailoverDecision::GiveUp => panic!("expected a retry"),
    }
    assert_eq!(seq.current_index, 1);
}

#[test]
fn non_retryable_failure_gives_up() {
    let mut seq = three_candidates();
    let policy = RetryPolicy::new(3, 2, 100);
    let d = seq.on_failure(&policy, 0, &Error::MissingApiKey("x".to_string()));
    assert!(matches!(d, FailoverDecision::GiveUp));
    assert_eq!(seq.current_index, 0);
}

#[test]
fn exhausted_retries_give_up() {
    let mut seq = three_candidates();
    let policy = RetryPolicy::new(1, 2, 100);
    let d = seq.on_failure(&policy, 1, &Error::Timeout);
    assert!(matches!(d, FailoverDecision::GiveUp));
    assert_eq!(seq.current_index, 0);
}

#[test]
fn last_candidate_gives_up() {
    let mut seq = three_candidates();
    seq.next();
    seq.next();
    let policy = RetryPolicy::new(10, 2, 100);
    let d = seq.on_failure(&policy, 0, &Error::HttpError("down".to_string()));
    assert!(matches!(d, FailoverDecision::GiveUp));
    assert_eq!(seq.current_index, 2);
}
