use tetronix::config::TokenBucketConfig;
use tetronix::errors::AppError;
use tetronix::middleware::{RateLimiter, TokenBucket};

fn bucket(token: u8, capacity: u8, refill_rate: u8) -> TokenBucket {
    let mut bucket = TokenBucket::new(TokenBucketConfig { capacity, refill_rate });
    bucket.token = token;
    bucket
}

#[test]
fn the_default_bucket() {
    let config = TokenBucketConfig::new();
    assert_eq!(config, TokenBucketConfig { capacity: 100, refill_rate: 1 });
    let bucket = TokenBucket::new(config);
    assert_eq!((bucket.token, bucket.capacity, bucket.refill_rate), (100, 100, 1));
}

#[test]
fn a_new_bucket_is_full() {
    let bucket = TokenBucket::new(TokenBucketConfig { capacity: 7, refill_rate: 3 });
    assert_eq!((bucket.token, bucket.capacity, bucket.refill_rate), (7, 7, 3));
}

#[test]
fn refill_adds_a_token_a_second() {
    let mut b = bucket(10, 100, 1);
    b.refill_after(0);
    assert_eq!(b.token, 10);
    b.refill_after(1);
    assert_eq!(b.token, 11);
    b.refill_after(30);
    assert_eq!(b.token, 41);
}

#[test]
fn refill_stops_at_the_capacity() {
    let mut b = bucket(90, 100, 1);
    b.refill_after(50);
    assert_eq!(b.token, 100);
    let mut b = bucket(0, 20, 5);
    b.refill_after(3);
    assert_eq!(b.token, 15);
    b.refill_after(3);
    assert_eq!(b.token, 20);
}

#[test]
fn refill_counts_at_most_a_hundred_seconds() {
    let mut b = bucket(0, 255, 1);
    b.refill_after(100);
    assert_eq!(b.token, 100);
    let mut b = bucket(0, 255, 1);
    b.refill_after(101);
    assert_eq!(b.token, 100);
    let mut b = bucket(0, 255, 1);
    b.refill_after(u64::MAX);
    assert_eq!(b.token, 100);
    let mut b = bucket(0, 255, 2);
    b.refill_after(1_000_000);
    assert_eq!(b.token, 200);
}

#[test]
fn refill_saturates() {
    let mut b = bucket(0, 255, 3);
    b.refill_after(100);
    assert_eq!(b.token, 255);
    let mut b = bucket(200, 255, 255);
    b.refill_after(100);
    assert_eq!(b.token, 255);
    let mut b = bucket(200, 255, 1);
    b.refill_after(100);
    assert_eq!(b.token, 255);
    let mut b = bucket(250, 100, 0);
    b.refill_after(100);
    assert_eq!(b.token, 100);
}

#[test]
fn refill_by_the_clock_never_loses_tokens_below_the_capacity() {
    let mut b = bucket(5, 100, 1);
    b.refill();
    assert!(b.token >= 5 && b.token <= 100);
    assert_eq!((b.capacity, b.refill_rate), (100, 1));
}

#[test]
fn take_uses_one_token() {
    let mut b = bucket(2, 100, 1);
    assert!(b.take());
    assert_eq!(b.token, 1);
    assert!(b.take());
    assert_eq!(b.token, 0);
    assert!(!b.take());
    assert_eq!(b.token, 0);
}

#[test]
fn a_new_limiter_knows_no_client() {
    let limiter = RateLimiter::new();
    assert_eq!(limiter.clients.len(), 0);
}

#[test]
fn a_client_is_admitted_until_its_bucket_is_empty() {
    let mut limiter = RateLimiter::new();
    let mut admitted = 0;
    for _ in 0..150 {
        if limiter.check_limit("10.0.0.1".to_string()) {
            admitted += 1;
        }
    }
    assert!(admitted >= 100 && admitted <= 103);
    assert!(!limiter.check_limit("10.0.0.1".to_string()) || admitted < 103);
    assert_eq!(limiter.clients.len(), 1);
}

#[test]
fn clients_have_their_own_buckets() {
    let mut limiter = RateLimiter::new();
    for _ in 0..150 {
        limiter.check_limit("10.0.0.1".to_string());
    }
    assert!(limiter.check_limit("10.0.0.2".to_string()));
    assert_eq!(limiter.clients.len(), 2);
    match limiter.clients.get("10.0.0.2") {
        Some(bucket) => assert_eq!(bucket.token, 99),
        None => panic!("no bucket"),
    }
}

#[test]
fn admission_by_the_address_of_the_peer() {
    let mut limiter = RateLimiter::new();
    assert_eq!(limiter.admission(Some("10.0.0.1".to_string())), Ok(()));
    assert_eq!(
        limiter.admission(None),
        Err(AppError::InternalServerError("No IP found".to_string()))
    );
    let mut refused = 0;
    for _ in 0..150 {
        if limiter.admission(Some("10.0.0.1".to_string())) == Err(AppError::RateLimitExceeded) {
            refused += 1;
        }
    }
    assert!(refused >= 47 && refused <= 51);
}
