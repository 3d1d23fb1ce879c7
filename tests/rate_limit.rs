use bugwatch_core::rate_limit::{tier_from_lookup, RateLimiter, Tier, TokenBucket};

#[test]
fn test_tier_rate_limits() {
    assert_eq!(Tier::Free.rate_limit(), 5);
    assert_eq!(Tier::Pro.rate_limit(), 60);
    assert_eq!(Tier::Team.rate_limit(), 300);
    assert_eq!(Tier::Enterprise.rate_limit(), 3_000);
}

#[test]
fn mod_test_tier_from_str() {
    assert_eq!(Tier::from_str("free"), Tier::Free);
    assert_eq!(Tier::from_str("pro"), Tier::Pro);
    assert_eq!(Tier::from_str("Pro"), Tier::Pro);
    assert_eq!(Tier::from_str("enterprise"), Tier::Enterprise);
    assert_eq!(Tier::from_str("unknown"), Tier::Free);
}

#[test]
fn test_rate_limiter_allows_requests() {
    let mut limiter = RateLimiter::new();
    let result = limiter.check("test_key", Tier::Free);
    assert!(result.allowed);
}

#[test]
fn test_rate_limiter_separate_buckets() {
    let mut limiter = RateLimiter::new();
    let result1 = limiter.check("key1", Tier::Free);
    let result2 = limiter.check("key2", Tier::Free);
    assert!(result1.allowed);
    assert!(result2.allowed);
    assert_eq!(result1.remaining, result2.remaining);
}

#[test]
fn test_initial_capacity() {
    let bucket = TokenBucket::new(100, 100);
    assert_eq!(bucket.current_tokens(), 100);
}

#[test]
fn test_consume_success() {
    let mut bucket = TokenBucket::new(100, 100);
    let result = bucket.try_consume();
    assert!(result.allowed);
    assert_eq!(result.remaining, 99);
}

#[test]
fn test_exhaust_bucket() {
    let mut bucket = TokenBucket::new(5, 60);
    for _ in 0..5 {
        let result = bucket.try_consume();
        assert!(result.allowed);
    }
    let result = bucket.try_consume();
    assert!(!result.allowed);
    assert!(result.retry_after_secs.is_some());
}

#[test]
fn test_refill() {
    let mut bucket = TokenBucket::new_at(10, 600, 0);
    for _ in 0..10 {
        bucket.try_consume_at(0);
    }
    let result = bucket.try_consume_at(150);
    assert!(result.allowed);
}

#[test]
fn capacity_then_denial_then_refill() {
    let mut bucket = TokenBucket::new_at(3, 60, 1_000);
    for _ in 0..3 {
        assert!(bucket.try_consume_at(1_000).allowed);
    }
    let denied = bucket.try_consume_at(1_000);
    assert!(!denied.allowed);
    assert_eq!(denied.remaining, 0);
    assert_eq!(denied.limit, 3);
    // one token a second: a whole token is a second away
    assert_eq!(denied.retry_after_secs, Some(1));
    // half a second is not enough
    assert!(!bucket.try_consume_at(1_500).allowed);
    // a full second after the last refill is
    assert!(bucket.try_consume_at(2_500).allowed);
}

#[test]
fn retry_after_rounds_up() {
    // five a minute: one token every twelve seconds
    let mut bucket = TokenBucket::new_at(1, 5, 0);
    assert!(bucket.try_consume_at(0).allowed);
    let denied = bucket.try_consume_at(0);
    assert_eq!(denied.retry_after_secs, Some(12));
    let later = bucket.try_consume_at(1_000);
    assert_eq!(later.retry_after_secs, Some(11));
}

#[test]
fn zero_rate_always_denies() {
    let mut bucket = TokenBucket::new_at(0, 0, 0);
    let r = bucket.try_consume_at(1_000_000);
    assert!(!r.allowed);
    assert_eq!(r.retry_after_secs, Some(u32::MAX));
}

#[test]
fn refill_never_exceeds_capacity() {
    let mut bucket = TokenBucket::new_at(2, 600, 0);
    let r = bucket.try_consume_at(10_000_000);
    assert!(r.allowed);
    assert_eq!(r.remaining, 1);
}

#[test]
fn clock_going_back_adds_nothing() {
    let mut bucket = TokenBucket::new_at(1, 60, 5_000);
    assert!(bucket.try_consume_at(5_000).allowed);
    assert!(!bucket.try_consume_at(1_000).allowed);
}

#[test]
fn limiter_uses_tier_burst_and_keeps_keys_apart() {
    let mut limiter = RateLimiter::new();
    for _ in 0..5 {
        assert!(limiter.check_at("k", Tier::Free, 0).allowed);
    }
    let denied = limiter.check_at("k", Tier::Free, 0);
    assert!(!denied.allowed);
    assert_eq!(denied.limit, 5);
    assert!(limiter.check_at("other", Tier::Free, 0).allowed);
    assert_eq!(limiter.bucket_count(), 2);
    let e = limiter.check_at("big", Tier::Enterprise, 0);
    assert_eq!(e.limit, 1000);
    assert_eq!(e.remaining, 999);
}

#[test]
fn cleanup_removes_only_idle_buckets() {
    let mut limiter = RateLimiter::new();
    limiter.check_at("old", Tier::Pro, 0);
    limiter.check_at("fresh", Tier::Pro, 3_000_000);
    let removed = limiter.cleanup_inactive_at(3_600, 3_700_000);
    assert_eq!(removed, 1);
    assert_eq!(limiter.bucket_count(), 1);
    assert_eq!(limiter.cleanup_inactive(3_600), 1);
}

#[test]
fn seconds_since_access() {
    let b = TokenBucket::new_at(1, 1, 1_000);
    assert_eq!(b.seconds_since_last_access_at(4_999), 3);
    assert_eq!(b.seconds_since_last_access_at(0), 0);
}

#[test]
fn failed_tier_lookup_gets_lowest_tier() {
    assert_eq!(tier_from_lookup(None), Tier::Free);
    assert_eq!(tier_from_lookup(Some("TEAM")), Tier::Team);
    assert_eq!(tier_from_lookup(Some("platinum")), Tier::Free);
    let mut limiter = RateLimiter::new();
    let r = limiter.check_with_tier_lookup("k", None);
    assert_eq!(r.limit, 5);
    let r2 = limiter.check_with_tier_lookup("k2", Some("pro"));
    assert_eq!(r2.limit, 60);
    assert_eq!(r2.remaining, 59);
}
