use async_anthropic::backoff::{next_base_delay, BackoffConfig};
use async_anthropic::errors::AnthropicError;
use async_anthropic::retry::{execute_outcomes, retry_decision, AttemptOutcome};

fn config(max_attempts: Option<u32>) -> BackoffConfig {
    BackoffConfig {
        min_delay_ms: 100,
        max_delay_ms: 1000,
        factor: 2,
        jitter: false,
        max_attempts,
    }
}

#[test]
fn server_named_pause_is_honored_exactly() {
    // A rate limit carrying `Retry-After: 5` waits exactly 5 s, whatever the
    // policy would have computed.
    let cfg = config(Some(4));
    let err = AnthropicError::RateLimit { retry_after: Some(5) };
    assert_eq!(retry_decision(&cfg, 0, &err, 987), Some(5000));
    assert_eq!(retry_decision(&cfg, 2, &err, 3), Some(5000));
}

#[test]
fn unnamed_rate_limit_waits_the_policy_delay() {
    let cfg = config(Some(4));
    let err = AnthropicError::RateLimit { retry_after: None };
    assert_eq!(retry_decision(&cfg, 0, &err, 0), Some(next_base_delay(&cfg, 0)));
    assert_eq!(retry_decision(&cfg, 1, &err, 0), Some(next_base_delay(&cfg, 1)));
    assert_eq!(retry_decision(&cfg, 2, &err, 0), Some(400));
}

#[test]
fn non_transient_errors_are_never_retried() {
    let cfg = config(None);
    for err in [
        AnthropicError::Unauthorized,
        AnthropicError::BadRequest("bad".to_string()),
        AnthropicError::NetworkError("reset".to_string()),
        AnthropicError::DeserializationError("eof".to_string()),
        AnthropicError::Unknown("503".to_string()),
    ] {
        assert_eq!(retry_decision(&cfg, 0, &err, 0), None);
    }
}

#[test]
fn exhausted_budget_stops_retrying() {
    let cfg = config(Some(1));
    let err = AnthropicError::RateLimit { retry_after: Some(1) };
    assert_eq!(retry_decision(&cfg, 0, &err, 0), None);
}

#[test]
fn unauthorized_makes_exactly_one_attempt() {
    let cfg = config(Some(4));
    let outcomes = vec![
        AttemptOutcome::Failure(AnthropicError::Unauthorized),
        AttemptOutcome::Success,
    ];
    let samples = vec![0, 0];
    let (result, pauses, attempts) = execute_outcomes(&cfg, &outcomes, &samples);
    assert_eq!(result, Err(AnthropicError::Unauthorized));
    assert_eq!(pauses, Vec::<u64>::new());
    assert_eq!(attempts, 1);
}

#[test]
fn rate_limit_is_absorbed_until_success() {
    let cfg = config(Some(4));
    let outcomes = vec![
        AttemptOutcome::Failure(AnthropicError::RateLimit { retry_after: Some(2) }),
        AttemptOutcome::Failure(AnthropicError::RateLimit { retry_after: None }),
        AttemptOutcome::Success,
    ];
    let samples = vec![0, 0, 0];
    let (result, pauses, attempts) = execute_outcomes(&cfg, &outcomes, &samples);
    assert!(result.is_ok());
    assert_eq!(pauses, vec![2000, next_base_delay(&cfg, 1)]);
    assert_eq!(attempts, 3);
}

#[test]
fn exhausted_rate_limit_surfaces_the_last_error() {
    let cfg = config(Some(2));
    let outcomes = vec![
        AttemptOutcome::Failure(AnthropicError::RateLimit { retry_after: Some(1) }),
        AttemptOutcome::Failure(AnthropicError::RateLimit { retry_after: Some(9) }),
        AttemptOutcome::Success,
    ];
    let samples = vec![0, 0, 0];
    let (result, pauses, attempts) = execute_outcomes(&cfg, &outcomes, &samples);
    assert_eq!(result, Err(AnthropicError::RateLimit { retry_after: Some(9) }));
    assert_eq!(pauses, vec![1000]);
    assert_eq!(attempts, 2);
}
