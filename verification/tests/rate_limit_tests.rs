use image_relay::rate_limit::{RateLimitLayer, TokenBucket, CREDITS_PER_TOKEN, IDLE_LIMIT_MS};

#[test]
fn bucket_of_five_admits_five_then_denies_then_recovers() {
    let mut bucket = TokenBucket::new(5, 1_000);
    for _ in 0..5 {
        assert!(bucket.try_consume(1_000));
    }
    assert!(!bucket.try_consume(1_000));
    assert!(!bucket.try_consume(12_999));
    assert!(bucket.try_consume(13_000));
    assert!(!bucket.try_consume(13_000));
}

#[test]
fn bucket_recovers_after_twelve_seconds() {
    let mut bucket = TokenBucket::new(5, 0);
    for _ in 0..5 {
        assert!(bucket.try_consume(0));
    }
    assert!(!bucket.try_consume(0));
    assert!(bucket.try_consume(12_000));
    assert!(!bucket.try_consume(12_000));
}

#[test]
fn bucket_credit_follows_the_formula() {
    let mut bucket = TokenBucket::new(60, 0);
    assert_eq!(bucket.credit, 60 * CREDITS_PER_TOKEN);
    assert_eq!(bucket.capacity, 60);
    assert!(bucket.try_consume(0));
    assert_eq!(bucket.credit, 59 * 60_000);
    bucket.refill(500);
    assert_eq!(bucket.credit, 59 * 60_000 + 500 * 60);
    assert_eq!(bucket.last_refill, 500);
    bucket.refill(10_000);
    assert_eq!(bucket.credit, 60 * 60_000);
}

#[test]
fn bucket_never_exceeds_capacity() {
    let mut bucket = TokenBucket::new(3, 0);
    bucket.refill(u64::MAX);
    assert_eq!(bucket.credit, 3 * 60_000);
    assert!(bucket.try_consume(u64::MAX));
    assert_eq!(bucket.credit, 2 * 60_000);
}

#[test]
fn clock_running_backwards_earns_nothing() {
    let mut bucket = TokenBucket::new(1, 50_000);
    assert!(bucket.try_consume(50_000));
    assert!(!bucket.try_consume(10_000));
    assert_eq!(bucket.credit, 0);
    assert_eq!(bucket.last_refill, 10_000);
}

#[test]
fn bucket_of_zero_admits_nothing() {
    let mut bucket = TokenBucket::new(0, 0);
    assert!(!bucket.try_consume(0));
    assert!(!bucket.try_consume(1_000_000));
}

#[test]
fn largest_quota_does_not_overflow() {
    let mut bucket = TokenBucket::new(u32::MAX, 0);
    assert_eq!(bucket.credit, u32::MAX as u64 * 60_000);
    assert!(bucket.try_consume(59_999));
    assert_eq!(bucket.credit, (u32::MAX as u64 - 1) * 60_000);
}

#[test]
fn limiter_keeps_one_bucket_per_client() {
    let mut layer = RateLimitLayer::new(2);
    assert!(!layer.knows("10.0.0.1"));
    assert!(layer.allow("10.0.0.1", 0));
    assert!(layer.knows("10.0.0.1"));
    assert!(layer.allow("10.0.0.1", 0));
    assert!(!layer.allow("10.0.0.1", 0));
    assert!(layer.allow("10.0.0.2", 0));
    assert!(layer.allow("unknown", 0));
    assert!(!layer.allow("10.0.0.1", 29_999));
    assert!(layer.allow("10.0.0.1", 30_000));
}

#[test]
fn limiter_of_five_per_minute() {
    let mut layer = RateLimitLayer::new(5);
    for _ in 0..5 {
        assert!(layer.check("client", 7, false));
    }
    assert!(!layer.check("client", 7, false));
    assert!(!layer.check("client", 7, true));
    assert!(layer.check("client", 12_007, false));
    assert!(!layer.check("client", 12_007, false));
}

#[test]
fn sweep_forgets_idle_clients_only() {
    let mut layer = RateLimitLayer::new(1);
    assert!(layer.allow("old", 0));
    assert!(layer.allow("new", 1));
    layer.sweep(IDLE_LIMIT_MS - 1);
    assert!(layer.knows("old"));
    assert!(layer.knows("new"));
    layer.sweep(IDLE_LIMIT_MS);
    assert!(!layer.knows("old"));
    assert!(layer.knows("new"));
    layer.sweep(IDLE_LIMIT_MS + 1);
    assert!(!layer.knows("new"));
}

#[test]
fn denied_request_never_sweeps() {
    let mut layer = RateLimitLayer::new(1);
    assert!(layer.allow("idle", 0));
    assert!(layer.allow("busy", 400_000));
    assert!(!layer.check("busy", 400_000, true));
    assert!(layer.knows("idle"));
    assert!(layer.check("busy", 460_000, true));
    assert!(!layer.knows("idle"));
    assert!(layer.knows("busy"));
}
