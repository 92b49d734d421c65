use spotterm::dashboard::{CallError, Dashboard};
use spotterm::rate_limit::{
    backoff_secs, parse_retry_after, rate_limit_hit, rate_limit_status, remaining, wait_secs,
    RateLimitHit, RateLimiter, RETRY_AFTER_MAX_SECS,
};
use spotterm::view::{status_kind, StatusKind};

#[test]
fn parse_retry_after_reads_integer_seconds() {
    assert_eq!(parse_retry_after("5"), Some(5));
    assert_eq!(parse_retry_after("  12 "), Some(12));
    assert_eq!(parse_retry_after("0"), Some(0));
}

#[test]
fn parse_retry_after_rejects_non_integers_and_http_dates() {
    assert_eq!(parse_retry_after("Wed, 21 Oct 2015 07:28:00 GMT"), None);
    assert_eq!(parse_retry_after("1.5"), None);
    assert_eq!(parse_retry_after(""), None);
    assert_eq!(parse_retry_after("-3"), None);
}

#[test]
fn parse_retry_after_caps_absurd_values() {
    assert_eq!(parse_retry_after("100000"), Some(RETRY_AFTER_MAX_SECS));
}

#[test]
fn backoff_grows_exponentially_then_caps() {
    assert_eq!(backoff_secs(0), 2);
    assert_eq!(backoff_secs(1), 2);
    assert_eq!(backoff_secs(2), 4);
    assert_eq!(backoff_secs(3), 8);
    assert_eq!(backoff_secs(4), 16);
    assert_eq!(backoff_secs(5), 32);
    assert_eq!(backoff_secs(6), 60);
    assert_eq!(backoff_secs(100), 60);
}

#[test]
fn wait_prefers_server_retry_after_over_local_backoff() {
    assert_eq!(wait_secs(Some(7), 5), 7);
    assert_eq!(wait_secs(None, 3), backoff_secs(3));
}

#[test]
fn remaining_is_none_once_the_deadline_passes() {
    let now: u64 = 1_000_000;
    assert_eq!(remaining(None, now), None);
    assert!(remaining(Some(now + 5_000), now).is_some());
    assert_eq!(remaining(Some(now), now), None);
}

#[test]
fn rate_limit_status_is_classified_as_a_warning() {
    assert_eq!(status_kind(&rate_limit_status(30)), StatusKind::Warn);
}

#[test]
fn rate_limit_hit_reads_only_429_and_its_retry_after() {
    assert_eq!(rate_limit_hit(500, Some("5")), None);
    assert_eq!(rate_limit_hit(429, Some("5")), Some(RateLimitHit { retry_after: Some(5) }));
    assert_eq!(rate_limit_hit(429, Some("Wed, 21 Oct 2015 07:28:00 GMT")), Some(RateLimitHit { retry_after: None }));
    assert_eq!(rate_limit_hit(429, None), Some(RateLimitHit { retry_after: None }));
}

#[test]
fn cooldown_blocks_until_the_deadline_then_clears() {
    let mut l = RateLimiter::new();
    let status = l.note(RateLimitHit { retry_after: None }, 10_000);
    assert_eq!(l.hits, 1);
    assert_eq!(l.until_ms, Some(12_000));
    assert!(status.ends_with("retrying in 2s"));
    assert!(l.blocked(11_999).is_some());
    assert!(l.blocked(12_000).is_none());
    l.note(RateLimitHit { retry_after: None }, 20_000);
    assert_eq!(l.until_ms, Some(24_000));
    l.clear();
    assert!(l.blocked(20_001).is_none());
    assert_eq!(l.hits, 0);
}

#[test]
fn countdown_never_shows_zero_while_blocked() {
    let mut l = RateLimiter::new();
    l.note(RateLimitHit { retry_after: Some(1) }, 0);
    let s = l.blocked(999).expect("still blocked");
    assert!(s.ends_with("retrying in 1s"), "got {s}");
}

#[test]
fn rate_limit_never_counts_as_a_poll_failure() {
    let mut d = Dashboard::new(0);
    d.finish(Err(CallError { message: "429".to_string(), rate_limit: Some(RateLimitHit { retry_after: Some(3) }) }), String::new(), 0);
    assert_eq!(d.player.poll_failures, 0);
    assert!(d.rate_limit_blocked(2_000));
    assert_eq!(status_kind(&d.player.status), StatusKind::Warn);
    assert!(!d.poll_due(true, 2_000));
    assert!(!d.rate_limit_blocked(3_000));
}
