use open_tethyr::cache::FetchOutcome;
use open_tethyr::config::{CacheConfig, PolicyConfig, RateLimitConfig, ServerConfig};
use open_tethyr::error::CacheError;
use open_tethyr::policy::PolicyViolation;
use open_tethyr::server::error::ServerError;
use open_tethyr::server::handlers::{
    after_direct_fetch, after_root_fetch, chrono_now, handle_discover, handle_health,
    handle_metrics, HandlerStep,
};
use open_tethyr::server::{CacheServer, PolicyEngine};

fn config(locking: bool) -> ServerConfig {
    ServerConfig {
        domain: "acme.com".to_string(),
        port: 9090,
        cache: CacheConfig { max_entries: 4, default_ttl: 60, cleanup_interval: 300, enable_lru: true },
        policy: PolicyConfig {
            domain_locking: locking,
            home_domain: Some("acme.com".to_string()),
            allowlist: vec!["partner.org".to_string()],
        },
        rate_limit: RateLimitConfig::default(),
        log_level: "info".to_string(),
    }
}

#[test]
fn server_setup_and_bind_address() {
    let server = CacheServer::new(config(false)).expect("server");
    assert_eq!(server.bind_address(), "0.0.0.0:9090");
    assert_eq!(server.config().port, 9090);
    let (_cfg, state) = server.into_parts();
    assert_eq!(state.stats.hits(), 0);
    assert_eq!(state.coordinator.local_cache().max_entries(), 4);
}

#[test]
fn discover_refused_by_policy() {
    let (_, mut state) = CacheServer::new(config(true)).unwrap().into_parts();
    match handle_discover(&mut state, "evil.com", "1700000000") {
        HandlerStep::Respond(reply) => {
            assert_eq!(reply.status, 403);
            assert_eq!(reply.content_type, "application/json");
            assert_eq!(
                reply.body,
                "{\"error\":\"Policy violation: Domain 'evil.com' is not allowed by policy\",\"timestamp\":\"1700000000\"}"
            );
        }
        _ => panic!("expected a refusal"),
    }
    assert_eq!(state.stats.hits(), 0);
    assert_eq!(state.stats.misses(), 0);
}

#[test]
fn discover_fetches_then_answers_from_cache() {
    let (_, mut state) = CacheServer::new(config(true)).unwrap().into_parts();
    assert!(matches!(handle_discover(&mut state, "api.acme.com", "t"), HandlerStep::FetchDirect));
    let reply = after_direct_fetch(
        &mut state,
        "api.acme.com",
        FetchOutcome::Fetched("{\"records\":[]}".to_string()),
        "t",
    );
    assert_eq!(reply.status, 200);
    assert_eq!(reply.body, "{\"records\":[]}");
    assert_eq!(reply.content_type, "text/plain; charset=utf-8");
    assert_eq!(state.stats.hits(), 1);
    match handle_discover(&mut state, "api.acme.com", "t") {
        HandlerStep::Respond(r) => assert_eq!(r.body, "{\"records\":[]}"),
        _ => panic!("expected a cached answer"),
    }
    assert_eq!(state.stats.hits(), 2);
}

#[test]
fn discover_direct_failure_is_bad_gateway() {
    let (_, mut state) = CacheServer::new(config(false)).unwrap().into_parts();
    let reply = after_direct_fetch(
        &mut state,
        "x.org",
        FetchOutcome::FetchFailed("HTTP 404 Not Found".to_string()),
        "42",
    );
    assert_eq!(reply.status, 502);
    assert_eq!(
        reply.body,
        "{\"error\":\"Cache entry not found for domain: x.org: HTTP 404 Not Found\",\"timestamp\":\"42\"}"
    );
    assert_eq!(state.stats.misses(), 1);
    match after_root_fetch(&mut state, "x.org", FetchOutcome::FetchFailed("down".to_string()), "42") {
        HandlerStep::FetchDirect => {}
        _ => panic!("expected a direct fetch"),
    }
}

#[test]
fn health_and_metrics_replies() {
    let h = handle_health("0.1.0");
    assert_eq!(h.status, 200);
    assert_eq!(h.body, "{\"status\":\"ok\",\"version\":\"0.1.0\"}");
    let (_, state) = CacheServer::new(config(false)).unwrap().into_parts();
    let m = handle_metrics(&state);
    assert_eq!(m.content_type, "text/plain; version=0.0.4");
    assert!(m.body.contains("cache_hits_total 0\n"));
    let now = chrono_now();
    assert!(!now.is_empty() && now.chars().all(|c| c.is_ascii_digit()));
}

#[test]
fn server_policy_engine() {
    let engine = PolicyEngine::new(true, Some("acme.com".to_string()), vec!["partner.org".to_string()]);
    assert!(engine.check_discovery_allowed("acme.com").is_ok());
    assert!(engine.check_discovery_allowed("a.b.acme.com").is_ok());
    assert!(engine.check_discovery_allowed("partner.org").is_ok());
    assert!(engine.check_discovery_allowed("notacme.com").is_err());
    assert!(PolicyEngine::default().check_discovery_allowed("anything").is_ok());
}

#[test]
fn server_error_responses() {
    let e = ServerError::PolicyViolation(PolicyViolation::DomainNotAllowed { domain: "x.com".into() });
    let parts = e.response_parts();
    assert_eq!(parts.status, 403);
    assert_eq!(parts.code, "DOMAIN_NOT_ALLOWED");
    assert_eq!(parts.message, "Domain 'x.com' is not allowed by domain locking policy");
    assert_eq!(
        parts.body("2024-01-01T00:00:00Z", "id-1"),
        "{\"correlation_id\":\"id-1\",\"error\":{\"code\":\"DOMAIN_NOT_ALLOWED\",\"message\":\"Domain 'x.com' is not allowed by domain locking policy\"},\"timestamp\":\"2024-01-01T00:00:00Z\"}"
    );
    let t = ServerError::Timeout(1_500_000_000).response_parts();
    assert_eq!(t.status, 503);
    assert_eq!(t.message, "Request timeout after 1.5s");
    let c = ServerError::CacheError(CacheError::Expired("d".into())).response_parts();
    assert_eq!(c.status, 502);
    assert_eq!(c.message, "Cache error: TTL expired for domain: d");
    assert_eq!(ServerError::RateLimitExceeded.response_parts().status, 429);
}

#[test]
fn server_error_timeout_durations_read_as_debug() {
    for nanos in [0u64, 1, 999, 1_000, 1_500, 1_000_001, 2_000_000_000, 61_250_000_000, u64::MAX] {
        let parts = ServerError::Timeout(nanos).response_parts();
        assert_eq!(
            parts.message,
            format!("Request timeout after {:?}", std::time::Duration::from_nanos(nanos))
        );
    }
}

#[test]
fn error_reply_carries_its_correlation_id_in_header_and_body() {
    let err = ServerError::NotFound("no such domain".to_string());
    let reply = err.reply_with("2024-01-01T00:00:00Z", "abc-123");
    assert_eq!(reply.status, 404);
    assert_eq!(reply.content_type, "application/json");
    assert_eq!(reply.correlation_id, "abc-123");
    assert_eq!(
        reply.body,
        "{\"correlation_id\":\"abc-123\",\"error\":{\"code\":\"NOT_FOUND\",\"message\":\"no such domain\"},\"timestamp\":\"2024-01-01T00:00:00Z\"}"
    );
    let fresh = ServerError::RateLimitExceeded.error_reply();
    assert_eq!(fresh.status, 429);
    assert_eq!(fresh.correlation_id.len(), 36);
    assert!(fresh.body.starts_with(&format!("{{\"correlation_id\":\"{}\"", fresh.correlation_id)));
}
