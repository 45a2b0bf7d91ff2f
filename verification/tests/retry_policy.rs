//! The retry/backoff schedule and the interpretation of HTTP statuses.

use deputy::errors::ModelError;
use deputy::retry::{interpret_error_status, retry_decision, run_retry_schedule, transport_error};

#[test]
fn three_rate_limits_then_success() {
    let statuses = vec![429u16, 429, 429, 200];
    let (winner, delays) = run_retry_schedule(&statuses);
    assert_eq!(winner, 3, "the 200 of the fourth attempt is returned");
    assert_eq!(delays, vec![6u64, 12, 24]);
}

#[test]
fn rate_limited_on_every_attempt() {
    let statuses = vec![429u16, 429, 429, 429];
    let (winner, delays) = run_retry_schedule(&statuses);
    assert_eq!(winner, 3, "the final 429 is returned for classification");
    assert_eq!(delays, vec![6u64, 12, 24]);
    assert_eq!(statuses[winner], 429);
}

#[test]
fn immediate_success_needs_no_retry() {
    let (winner, delays) = run_retry_schedule(&vec![200u16, 429, 429, 429]);
    assert_eq!(winner, 0);
    assert!(delays.is_empty());
}

#[test]
fn non_rate_limit_errors_are_not_retried() {
    let (winner, delays) = run_retry_schedule(&vec![500u16, 200, 200, 200]);
    assert_eq!(winner, 0, "a 500 goes straight to interpretation");
    assert!(delays.is_empty());

    assert_eq!(retry_decision(0, 500), None);
    assert_eq!(retry_decision(0, 429), Some(6));
    assert_eq!(retry_decision(1, 429), Some(12));
    assert_eq!(retry_decision(2, 429), Some(24));
    assert_eq!(retry_decision(3, 429), None, "retries are spent");
}

#[test]
fn status_interpretation() {
    match interpret_error_status("anthropic", 401, &None) {
        ModelError::Authentication { reason } => assert_eq!(reason, "provider: anthropic"),
        other => panic!("expected authentication, got {:?}", other),
    }
    match interpret_error_status("anthropic", 429, &None) {
        ModelError::RateLimit { reason, retry_after_seconds } => {
            assert_eq!(reason, "provider: anthropic");
            assert_eq!(retry_after_seconds, None);
        }
        other => panic!("expected rate limit, got {:?}", other),
    }
    match interpret_error_status("anthropic", 500, &Some("overloaded".to_string())) {
        ModelError::Request { reason } => {
            assert_eq!(reason, "provider: anthropic, status: 500, message: overloaded");
        }
        other => panic!("expected request failure, got {:?}", other),
    }
    match interpret_error_status("anthropic", 503, &None) {
        ModelError::Request { reason } => {
            assert_eq!(reason, "invalid response from anthropic: Failed to parse error response");
        }
        other => panic!("expected request failure, got {:?}", other),
    }
}

#[test]
fn transport_failures_surface_as_network_errors() {
    match transport_error("anthropic", "connection refused") {
        ModelError::Network { reason } => assert_eq!(reason, "anthropic: connection refused"),
        other => panic!("expected network error, got {:?}", other),
    }
}
