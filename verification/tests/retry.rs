//! Tests for the retry policy: backoff delays and the retry decision.

use sms_solvers::retry::{RetryConfig, RetryDecision};

#[test]
fn test_default_retry_config() {
    let c = RetryConfig::default();
    assert_eq!(c.min_delay_ms, 1_000);
    assert_eq!(c.max_delay_ms, 30_000);
    assert_eq!(c.factor, 2);
    assert_eq!(c.max_retries, 3);
}

#[test]
fn test_builder_methods() {
    let c = RetryConfig::default()
        .with_min_delay(500)
        .with_max_delay(60_000)
        .with_factor(3)
        .with_max_retries(5);
    assert_eq!(c.min_delay_ms, 500);
    assert_eq!(c.max_delay_ms, 60_000);
    assert_eq!(c.factor, 3);
    assert_eq!(c.max_retries, 5);
}

#[test]
fn test_delays_double_and_cap() {
    let c = RetryConfig::default();
    assert_eq!(c.delay_for_attempt(0), 1_000);
    assert_eq!(c.delay_for_attempt(1), 2_000);
    assert_eq!(c.delay_for_attempt(2), 4_000);
    assert_eq!(c.delay_for_attempt(3), 8_000);
    assert_eq!(c.delay_for_attempt(4), 16_000);
    // 32_000 raw, capped at the ceiling
    assert_eq!(c.delay_for_attempt(5), 30_000);
    assert_eq!(c.delay_for_attempt(50), 30_000);
}

#[test]
fn test_delays_monotone_and_bounded() {
    let c = RetryConfig::default()
        .with_min_delay(700)
        .with_max_delay(9_000)
        .with_factor(3);
    let mut last = 0u64;
    for attempt in 0..20 {
        let d = c.delay_for_attempt(attempt);
        assert!(d >= last, "delay shrank at attempt {}", attempt);
        assert!(d <= 9_000, "delay above the ceiling at attempt {}", attempt);
        last = d;
    }
}

#[test]
fn test_non_retryable_stops_immediately() {
    // a non-retryable error is never retried, whatever the budget
    let c = RetryConfig::default().with_max_retries(100);
    for attempt in 0..10 {
        assert_eq!(c.decide(attempt, false), RetryDecision::Stop);
    }
}

#[test]
fn test_budget_exhaustion_stops() {
    let c = RetryConfig::default().with_max_retries(2);
    assert!(matches!(
        c.decide(0, true),
        RetryDecision::RetryAfter { delay_ms: 1_000 }
    ));
    assert!(matches!(
        c.decide(1, true),
        RetryDecision::RetryAfter { delay_ms: 2_000 }
    ));
    assert_eq!(c.decide(2, true), RetryDecision::Stop);
    assert_eq!(c.decide(3, true), RetryDecision::Stop);
}

#[test]
fn test_zero_factor_delays() {
    let c = RetryConfig::default().with_factor(0);
    assert_eq!(c.delay_for_attempt(0), 1_000);
    assert_eq!(c.delay_for_attempt(1), 0);
    assert_eq!(c.delay_for_attempt(9), 0);
}
