use open_aaas_server::auth::{hash_api_key, HeaderField, RequestHeaders};
use open_aaas_server::error::AppError;
use open_aaas_server::rate_limit::{
    agent_rate_limit_middleware, client_rate_limit_middleware, RateLimitKind, RateLimiter,
};

const CLIENT_LIMIT_PER_MIN: usize = 100;
const AGENT_LIMIT_PER_MIN: usize = 150;

#[test]
fn test_rate_limiter_allows_under_limit() {
    let mut limiter = RateLimiter::new();
    let hash = "test_hash";
    for _ in 0..CLIENT_LIMIT_PER_MIN {
        assert!(limiter.check(RateLimitKind::Client, hash).is_ok());
    }
}

#[test]
fn test_rate_limiter_rejects_over_limit() {
    let mut limiter = RateLimiter::new();
    let hash = "test_hash";
    for _ in 0..CLIENT_LIMIT_PER_MIN {
        limiter.check(RateLimitKind::Client, hash).unwrap();
    }
    assert!(matches!(limiter.check(RateLimitKind::Client, hash).unwrap_err(), AppError::RateLimited));
}

#[test]
fn test_rate_limiter_separate_keys() {
    let mut limiter = RateLimiter::new();
    for _ in 0..CLIENT_LIMIT_PER_MIN {
        limiter.check(RateLimitKind::Client, "key_a").unwrap();
    }
    assert!(limiter.check(RateLimitKind::Client, "key_b").is_ok());
}

#[test]
fn test_rate_limiter_separate_kinds() {
    let mut limiter = RateLimiter::new();
    for _ in 0..CLIENT_LIMIT_PER_MIN {
        limiter.check(RateLimitKind::Client, "shared").unwrap();
    }
    assert!(limiter.check(RateLimitKind::Agent, "shared").is_ok());
}

#[test]
fn test_agent_limit_is_150() {
    let mut limiter = RateLimiter::new();
    let hash = "agent_hash";
    for _ in 0..AGENT_LIMIT_PER_MIN {
        assert!(limiter.check(RateLimitKind::Agent, hash).is_ok());
    }
    assert!(matches!(limiter.check(RateLimitKind::Agent, hash).unwrap_err(), AppError::RateLimited));
}

#[test]
fn kinds_have_names_and_limits() {
    assert_eq!(RateLimitKind::Client.as_str(), "client");
    assert_eq!(RateLimitKind::Agent.as_str(), "agent");
    assert_eq!(RateLimitKind::Client.limit(), 100);
    assert_eq!(RateLimitKind::Agent.limit(), 150);
}

#[test]
fn the_window_slides() {
    let mut limiter = RateLimiter::default();
    for i in 0..100u64 {
        assert!(limiter.check_at(RateLimitKind::Client, "h", i).is_ok());
    }
    assert_eq!(limiter.check_at(RateLimitKind::Client, "h", 1_000), Err(AppError::RateLimited));
    // One minute after the first request, it no longer counts.
    assert!(limiter.check_at(RateLimitKind::Client, "h", 60_000_000_000).is_ok());
    assert_eq!(limiter.check_at(RateLimitKind::Client, "h", 60_000_000_000), Err(AppError::RateLimited));
    // Much later every old request has left the window.
    for _ in 0..100 {
        assert!(limiter.check_at(RateLimitKind::Client, "h", 200_000_000_000).is_ok());
    }
}

#[test]
fn refused_requests_are_not_recorded() {
    let mut limiter = RateLimiter::new();
    for _ in 0..100 {
        limiter.check_at(RateLimitKind::Client, "h", 0).unwrap();
    }
    for t in 1..10u64 {
        assert!(limiter.check_at(RateLimitKind::Client, "h", t).is_err());
    }
    // The 100 requests at time 0 leave the window at one minute; the refused ones never counted.
    for _ in 0..100 {
        assert!(limiter.check_at(RateLimitKind::Client, "h", 60_000_000_000).is_ok());
    }
}

fn bearer(token: &str) -> RequestHeaders {
    RequestHeaders {
        authorization: HeaderField::Text(format!("Bearer {}", token)),
        x_api_key: HeaderField::Absent,
        x_service_id: HeaderField::Absent,
    }
}

#[test]
fn client_middleware_counts_bearer_keys_only() {
    let secret = "s";
    let mut limiter = RateLimiter::new();
    for _ in 0..100 {
        assert!(client_rate_limit_middleware(&mut limiter, &bearer("ak_1"), Some(secret)).is_ok());
    }
    assert_eq!(client_rate_limit_middleware(&mut limiter, &bearer("ak_1"), Some(secret)), Err(AppError::RateLimited));
    assert!(client_rate_limit_middleware(&mut limiter, &bearer("ak_2"), Some(secret)).is_ok());
    // Without a key or a secret nothing is limited.
    let none = RequestHeaders { authorization: HeaderField::Absent, x_api_key: HeaderField::Absent, x_service_id: HeaderField::Absent };
    for _ in 0..200 {
        assert!(client_rate_limit_middleware(&mut limiter, &none, Some(secret)).is_ok());
        assert!(client_rate_limit_middleware(&mut limiter, &bearer("ak_1"), None).is_ok());
    }
    // The bucket is keyed by the hash: the same hash checked directly is already full.
    let h = hash_api_key(secret, "ak_1");
    assert!(limiter.check(RateLimitKind::Client, &h).is_err());
}

#[test]
fn agent_middleware_reads_x_api_key() {
    let mut limiter = RateLimiter::new();
    let h = RequestHeaders { authorization: HeaderField::Absent, x_api_key: HeaderField::Text("ak_agent".to_string()), x_service_id: HeaderField::Absent };
    for _ in 0..150 {
        assert!(agent_rate_limit_middleware(&mut limiter, &h, Some("s")).is_ok());
    }
    assert_eq!(agent_rate_limit_middleware(&mut limiter, &h, Some("s")), Err(AppError::RateLimited));
}
