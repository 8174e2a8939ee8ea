use std::time::Duration;

use storelib_rs::config::{next_retry_step, AttemptOutcome, ClientConfig, RetryStep};

#[test]
fn client_config_default_matches_docs() {
    let cfg = ClientConfig::default();
    assert_eq!(cfg.timeout, Duration::from_secs(30));
    assert_eq!(cfg.max_retries, 3);
    assert_eq!(cfg.initial_backoff, Duration::from_millis(500));
    assert_eq!(cfg.max_backoff, Duration::from_secs(5));
    assert_eq!(cfg.retry_on_status, vec![408, 429, 502, 503, 504]);
    assert_eq!(cfg.user_agent, "StoreLib");
}

#[test]
fn backoff_for_doubles_until_cap() {
    let cfg = ClientConfig {
        initial_backoff: Duration::from_millis(100),
        max_backoff: Duration::from_millis(800),
        ..Default::default()
    };
    assert_eq!(cfg.backoff_for(0), Duration::from_millis(100));
    assert_eq!(cfg.backoff_for(1), Duration::from_millis(200));
    assert_eq!(cfg.backoff_for(2), Duration::from_millis(400));
    assert_eq!(cfg.backoff_for(3), Duration::from_millis(800));
    assert_eq!(cfg.backoff_for(4), Duration::from_millis(800));
    assert_eq!(cfg.backoff_for(50), Duration::from_millis(800));
}

#[test]
fn backoff_for_handles_huge_attempt_without_overflow() {
    let cfg = ClientConfig::default();
    let _ = cfg.backoff_for(64);
    let _ = cfg.backoff_for(u32::MAX);
}

#[test]
fn backoff_never_exceeds_the_cap() {
    let cfg = ClientConfig::default();
    for a in [0u32, 1, 2, 3, 4, 5, 10, 63, 64, 65, 1000, u32::MAX] {
        assert!(cfg.backoff_for(a) <= cfg.max_backoff);
    }
    assert_eq!(cfg.backoff_for(64), Duration::from_secs(5));
}

#[test]
fn retry_step_retries_listed_statuses_while_attempts_remain() {
    let cfg = ClientConfig {
        initial_backoff: Duration::from_millis(10),
        max_backoff: Duration::from_millis(40),
        max_retries: 2,
        ..Default::default()
    };
    match next_retry_step(&cfg, 0, AttemptOutcome::Status(503)) {
        RetryStep::Retry { wait, next_attempt } => {
            assert_eq!(wait, Duration::from_millis(10));
            assert_eq!(next_attempt, 1);
        }
        other => panic!("expected a retry, got {other:?}"),
    }
    assert!(matches!(
        next_retry_step(&cfg, 2, AttemptOutcome::Status(503)),
        RetryStep::ReturnResponse
    ));
    assert!(matches!(
        next_retry_step(&cfg, 0, AttemptOutcome::Status(404)),
        RetryStep::ReturnResponse
    ));
    assert!(matches!(
        next_retry_step(&cfg, 0, AttemptOutcome::Status(200)),
        RetryStep::ReturnResponse
    ));
    assert!(matches!(
        next_retry_step(&cfg, 1, AttemptOutcome::TransportError),
        RetryStep::Retry { .. }
    ));
    assert!(matches!(
        next_retry_step(&cfg, 2, AttemptOutcome::TransportError),
        RetryStep::ReturnError
    ));
}

#[test]
fn no_retries_when_disabled() {
    let cfg = ClientConfig { max_retries: 0, ..Default::default() };
    assert!(matches!(
        next_retry_step(&cfg, 0, AttemptOutcome::Status(503)),
        RetryStep::ReturnResponse
    ));
    assert!(matches!(
        next_retry_step(&cfg, 0, AttemptOutcome::TransportError),
        RetryStep::ReturnError
    ));
}
