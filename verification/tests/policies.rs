use kroki::auth::{authorize, unauthorized_message, AuthDecision};
use kroki::circuit_breaker::{CircuitBreakerManager, CircuitState, ProviderCircuit};
use kroki::config::{ApiKeyEntry, AuthConfig, CircuitBreakerConfig, RateLimitConfig};
use kroki::rate_limit::{first_forwarded_entry, RateLimiter, TokenBucket, TOKEN};

const SEC: u64 = 1_000_000_000;

fn breaker_config(threshold: u32, reset: u64) -> CircuitBreakerConfig {
    CircuitBreakerConfig { enabled: true, failure_threshold: threshold, reset_timeout_secs: reset }
}

#[test]
fn circuit_opens_after_threshold_failures() {
    let mut c = ProviderCircuit::new(&breaker_config(3, 30));
    c.record_failure(1);
    c.record_failure(2);
    assert_eq!(c.state, CircuitState::Closed);
    c.record_failure(3);
    assert_eq!(c.state, CircuitState::Open);
    assert_eq!(c.consecutive_failures, 3);
}

#[test]
fn open_circuit_refuses_until_reset_then_allows_one_trial() {
    let mut c = ProviderCircuit::new(&breaker_config(1, 30));
    c.record_failure(10 * SEC);
    assert!(!c.should_allow(39 * SEC));
    assert_eq!(c.state, CircuitState::Open);
    assert!(c.should_allow(40 * SEC));
    assert_eq!(c.state, CircuitState::HalfOpen);
    assert!(!c.should_allow(41 * SEC));
}

#[test]
fn half_open_failure_reopens_and_success_closes() {
    let mut c = ProviderCircuit::new(&breaker_config(5, 0));
    c.state = CircuitState::HalfOpen;
    c.record_failure(7);
    assert_eq!(c.state, CircuitState::Open);
    c.record_success();
    assert_eq!(c.state, CircuitState::Closed);
    assert_eq!(c.consecutive_failures, 0);
    assert_eq!(c.last_failure_time, None);
}

#[test]
fn zero_threshold_is_raised_to_one() {
    let c = ProviderCircuit::new(&breaker_config(0, 1));
    assert_eq!(c.failure_threshold, 1);
}

#[test]
fn manager_tracks_providers_separately() {
    let mut m = CircuitBreakerManager::new(&breaker_config(2, 60));
    assert_eq!(m.state("graphviz"), CircuitState::Closed);
    m.record_failure("graphviz", 0);
    m.record_failure("graphviz", SEC);
    assert_eq!(m.state("graphviz"), CircuitState::Open);
    assert!(!m.should_allow("graphviz", 2 * SEC));
    assert!(m.should_allow("d2", 2 * SEC));
    m.record_success("unknown");
    assert_eq!(m.state("unknown"), CircuitState::Closed);
    m.record_success("graphviz");
    assert_eq!(m.state("graphviz"), CircuitState::Closed);
}

#[test]
fn bucket_admits_burst_then_refuses_with_retry() {
    let mut b = TokenBucket::new(2, 1, 0);
    assert!(b.try_consume(0));
    assert!(b.try_consume(0));
    assert!(!b.try_consume(0));
    assert_eq!(b.retry_after(), 1);
    assert!(b.try_consume(SEC));
}

#[test]
fn bucket_refills_partially() {
    let mut b = TokenBucket::new(1, 4, 0);
    assert!(b.try_consume(0));
    assert!(!b.try_consume(SEC / 8));
    assert_eq!(b.tokens, TOKEN / 2);
    assert_eq!(b.retry_after(), 1);
    assert!(b.try_consume(SEC / 4));
}

#[test]
fn bucket_never_exceeds_capacity() {
    let mut b = TokenBucket::new(3, 10, 0);
    assert!(b.try_consume(1000 * SEC));
    assert_eq!(b.tokens, 2 * TOKEN);
}

#[test]
fn limiter_keeps_one_bucket_per_client() {
    let config = RateLimitConfig { enabled: true, requests_per_second: 1, burst_size: 1 };
    let mut limiter = RateLimiter::new(&config);
    let a = (false, 0x7f00_0001u128);
    let b = (false, 0x0a00_0001u128);
    assert_eq!(limiter.check(a, 0), Ok(()));
    assert_eq!(limiter.check(a, 0), Err(1));
    assert_eq!(limiter.check(b, 0), Ok(()));
    assert_eq!(limiter.check(a, SEC), Ok(()));
}

#[test]
fn forwarded_header_first_entry_is_trimmed() {
    assert_eq!(first_forwarded_entry(" 10.0.0.1 , 10.0.0.2"), "10.0.0.1");
    assert_eq!(first_forwarded_entry("2001:db8::1"), "2001:db8::1");
    assert_eq!(first_forwarded_entry(",x"), "");
}

fn auth(enabled: bool) -> AuthConfig {
    AuthConfig {
        enabled,
        header_name: "X-API-Key".to_string(),
        api_keys: vec![ApiKeyEntry { key: "secret".to_string(), label: "ci".to_string(), rate_limit: None }],
    }
}

#[test]
fn auth_decisions() {
    assert_eq!(authorize(&auth(false), None), AuthDecision::Allow);
    assert_eq!(authorize(&auth(true), Some("secret")), AuthDecision::Allow);
    assert_eq!(authorize(&auth(true), Some("wrong")), AuthDecision::InvalidKey);
    assert_eq!(authorize(&auth(true), None), AuthDecision::MissingKey);
}

#[test]
fn auth_messages() {
    let c = auth(true);
    assert_eq!(
        unauthorized_message(&c, AuthDecision::MissingKey),
        "Missing API key header 'X-API-Key'"
    );
    assert_eq!(unauthorized_message(&c, AuthDecision::InvalidKey), "Invalid API key");
}
