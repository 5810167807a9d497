use open_tethyr::net::{IpAddr, Ipv4Addr};
use open_tethyr::policy::{RateLimitError, RateLimiter, TokenBucket};

#[test]
fn test_token_bucket_basic_consumption() {
    let mut bucket = TokenBucket::new(5, 1);

    for _ in 0..5 {
        assert!(bucket.try_consume());
    }

    assert!(!bucket.try_consume());
}

#[test]
fn test_rate_limiter_per_client() {
    let mut limiter = RateLimiter::new(2, 1);
    let client1 = IpAddr::V4(Ipv4Addr::new(192, 168, 1, 1));
    let client2 = IpAddr::V4(Ipv4Addr::new(192, 168, 1, 2));

    assert!(limiter.check_rate_limit(client1).is_ok());
    assert!(limiter.check_rate_limit(client1).is_ok());
    assert!(limiter.check_rate_limit(client2).is_ok());
    assert!(limiter.check_rate_limit(client2).is_ok());

    assert!(limiter.check_rate_limit(client1).is_err());
    assert!(limiter.check_rate_limit(client2).is_err());
}

#[test]
fn test_rate_limit_error_details() {
    let mut limiter = RateLimiter::new(1, 1);
    let client_ip = IpAddr::V4(Ipv4Addr::new(192, 168, 1, 1));

    assert!(limiter.check_rate_limit(client_ip).is_ok());

    let result = limiter.check_rate_limit(client_ip);
    assert!(result.is_err());

    if let Err(RateLimitError::RateLimitExceeded {
        client_ip: ip,
        retry_after_seconds,
    }) = result
    {
        assert_eq!(ip, client_ip);
        assert!(retry_after_seconds > 0);
    } else {
        panic!("Expected RateLimitExceeded error");
    }
}

#[test]
fn test_current_tokens() {
    let mut limiter = RateLimiter::new(3, 1);
    let client_ip = IpAddr::V4(Ipv4Addr::new(192, 168, 1, 1));

    assert_eq!(limiter.get_current_tokens(client_ip), 3);

    assert!(limiter.check_rate_limit(client_ip).is_ok());
    assert_eq!(limiter.get_current_tokens(client_ip), 2);
}

#[test]
fn rate_limit_refill_after_elapsed_time() {
    let now = std::time::Instant::now();
    let mut bucket = TokenBucket::new_at(2, 2, now);
    assert!(bucket.try_consume_after(0, now));
    assert!(bucket.try_consume_after(0, now));
    assert!(!bucket.try_consume_after(0, now));
    // 1.1 s at 2 tokens a second earns 2 tokens.
    assert!(bucket.try_consume_after(1_100_000_000, now));
    assert!(bucket.try_consume_after(0, now));
    assert!(!bucket.try_consume_after(0, now));
}

#[test]
fn rate_limit_no_refill_before_granularity() {
    let now = std::time::Instant::now();
    let mut bucket = TokenBucket::new_at(1, 100, now);
    assert!(bucket.try_consume_after(0, now));
    // 50 ms earns 5 tokens at 100 a second, but refills wait 100 ms.
    assert!(!bucket.try_consume_after(50_000_000, now));
    assert!(bucket.try_consume_after(100_000_000, now));
}

#[test]
fn rate_limit_time_until_next_token() {
    let now = std::time::Instant::now();
    let mut bucket = TokenBucket::new_at(1, 4, now);
    assert_eq!(bucket.time_until_next_token(), 0);
    assert!(bucket.try_consume_after(0, now));
    assert_eq!(bucket.time_until_next_token(), 250_000_000);
}

#[test]
fn rate_limit_request_token_isolates_clients() {
    let now = std::time::Instant::now();
    let mut limiter = RateLimiter::new(1, 1);
    let a = IpAddr::V4(Ipv4Addr::new(10, 0, 0, 1));
    let b = IpAddr::V4(Ipv4Addr::new(10, 0, 0, 2));
    assert!(limiter.request_token(a, 0, now).is_ok());
    assert_eq!(
        limiter.request_token(a, 0, now),
        Err(RateLimitError::RateLimitExceeded { client_ip: a, retry_after_seconds: 1 })
    );
    assert!(limiter.request_token(b, 0, now).is_ok());
    assert_eq!(limiter.tracked_clients(), 2);
}

#[test]
fn rate_limit_without_refill_grants_the_capacity() {
    let mut limiter = RateLimiter::new(2, 0);
    let a = IpAddr::V4(Ipv4Addr::new(10, 0, 0, 3));
    assert!(limiter.check_rate_limit(a).is_ok());
    assert!(limiter.check_rate_limit(a).is_ok());
    assert_eq!(limiter.get_current_tokens(a), 0);
}

#[test]
fn rate_limit_cleanup_waits_for_interval() {
    let now = std::time::Instant::now();
    let mut limiter = RateLimiter::new(2, 1);
    let a = IpAddr::V4(Ipv4Addr::new(10, 0, 0, 1));
    let b = IpAddr::V4(Ipv4Addr::new(10, 0, 0, 2));
    assert!(limiter.request_token(a, 0, now).is_ok());
    assert!(limiter.request_token(b, 0, now).is_ok());
    limiter.cleanup_if_needed(299_999_999_999, &vec![0, 2_000_000_000], now);
    assert_eq!(limiter.tracked_clients(), 2);
}

#[test]
fn rate_limit_cleanup_drops_buckets_full_again() {
    let now = std::time::Instant::now();
    let mut limiter = RateLimiter::new(2, 1);
    let a = IpAddr::V4(Ipv4Addr::new(10, 0, 0, 1));
    let b = IpAddr::V4(Ipv4Addr::new(10, 0, 0, 2));
    assert!(limiter.request_token(a, 0, now).is_ok());
    assert!(limiter.request_token(a, 0, now).is_ok());
    assert!(limiter.request_token(b, 0, now).is_ok());
    // a is empty and stays short of capacity; b refills to capacity and is dropped
    limiter.cleanup_if_needed(300_000_000_000, &vec![0, 2_000_000_000], now);
    assert_eq!(limiter.tracked_clients(), 1);
    assert!(limiter.request_token(a, 0, now).is_err());
    assert!(limiter.request_token(b, 0, now).is_ok());
    assert!(limiter.request_token(b, 0, now).is_ok());
    assert!(limiter.request_token(b, 0, now).is_err());
}

#[test]
fn rate_limit_check_at_given_readings() {
    let now = std::time::Instant::now();
    let mut limiter = RateLimiter::new(1, 1);
    let ip = IpAddr::V4(Ipv4Addr::new(192, 168, 1, 1));
    assert!(limiter.check_rate_limit_at(ip, 0, &vec![], now).is_ok());
    assert_eq!(
        limiter.check_rate_limit_at(ip, 0, &vec![500_000_000], now),
        Err(RateLimitError::RateLimitExceeded { client_ip: ip, retry_after_seconds: 1 })
    );
    // a full second later the bucket has earned a token again
    assert!(limiter.check_rate_limit_at(ip, 0, &vec![1_000_000_000], now).is_ok());
}

#[test]
fn token_bucket_never_exceeds_capacity() {
    let now = std::time::Instant::now();
    let mut bucket = TokenBucket::new_at(3, 1000, now);
    assert!(bucket.try_consume_after(0, now));
    bucket.refill_after(u64::MAX, now);
    assert!(bucket.current_tokens() <= 3);
}
