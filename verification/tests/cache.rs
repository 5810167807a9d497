use open_tethyr::cache::{
    CacheConfig, CacheControl, CacheCoordinator, CacheEntry, DiscoveryAction, FetchOutcome,
    MemoryCache, RateLimitConfig,
};
use open_tethyr::error::CacheError;
use std::time::Instant;

fn entry(data: &str, ttl: u64, no_cache: bool) -> CacheEntry {
    CacheEntry { data: data.to_string(), created_at: Instant::now(), ttl, no_cache }
}

#[test]
fn cache_control_parses_directives() {
    let cc = CacheControl::parse("max-age=300, no-store , must-revalidate");
    assert_eq!(cc.max_age, Some(300));
    assert!(cc.no_store);
    assert!(cc.must_revalidate);
    assert!(!cc.no_cache);
    assert!(!cc.allows_caching());
    assert_eq!(cc.effective_ttl(), Some(300));
}

#[test]
fn cache_control_ignores_unknown_and_bad_values() {
    let cc = CacheControl::parse("public, max-age=abc, NO-CACHE, max-age=");
    assert_eq!(cc.max_age, None);
    assert!(!cc.no_cache);
    assert!(cc.allows_caching());
    let later = CacheControl::parse("max-age=10,max-age=20");
    assert_eq!(later.max_age, Some(20));
    let plus = CacheControl::parse("max-age=+7");
    assert_eq!(plus.max_age, Some(7));
    let empty = CacheControl::parse("");
    assert_eq!(
        empty,
        CacheControl { max_age: None, no_cache: false, no_store: false, must_revalidate: false }
    );
}

#[test]
fn cache_control_zero_max_age_forbids_caching() {
    assert!(!CacheControl::parse("max-age=0").allows_caching());
    assert!(CacheControl::parse("max-age=1").allows_caching());
    assert!(!CacheControl::parse("no-cache").allows_caching());
}

#[test]
fn cache_config_defaults() {
    let c = CacheConfig::default();
    assert_eq!(c.max_entries, 1000);
    assert_eq!(c.default_ttl, 300);
    assert!(c.respect_cache_control);
    assert_eq!(c.max_ttl, 3600);
    assert_eq!(c.min_ttl, 60);
    let r = RateLimitConfig::default();
    assert_eq!(r.requests_per_minute, 60);
    assert_eq!(r.requests_per_hour, 3600);
}

#[test]
fn memory_cache_get_after_put() {
    let mut cache = MemoryCache::new(10);
    assert!(cache.put("a.com".to_string(), entry("{\"a\":1}", 60, false)).is_ok());
    let got = cache.get("a.com").expect("entry present");
    assert_eq!(got.data, "{\"a\":1}");
    assert_eq!(cache.size(), 1);
    assert!(cache.get("b.com").is_none());
}

#[test]
fn memory_cache_skips_no_cache_entries() {
    let mut cache = MemoryCache::new(10);
    assert!(cache.put("a.com".to_string(), entry("x", 60, true)).is_ok());
    assert_eq!(cache.size(), 0);
    assert!(cache.get("a.com").is_none());
}

#[test]
fn memory_cache_evicts_least_recently_used() {
    let mut cache = MemoryCache::new(2);
    cache.put("a".to_string(), entry("A", 60, false)).unwrap();
    cache.put("b".to_string(), entry("B", 60, false)).unwrap();
    // a becomes the most recently used
    assert!(cache.get("a").is_some());
    cache.put("c".to_string(), entry("C", 60, false)).unwrap();
    assert_eq!(cache.size(), 2);
    assert!(cache.get("b").is_none());
    assert_eq!(cache.get("a").unwrap().data, "A");
    assert_eq!(cache.get("c").unwrap().data, "C");
}

#[test]
fn memory_cache_put_replaces_value() {
    let mut cache = MemoryCache::new(2);
    cache.put("a".to_string(), entry("old", 60, false)).unwrap();
    cache.put("a".to_string(), entry("new", 60, false)).unwrap();
    assert_eq!(cache.size(), 1);
    assert_eq!(cache.get("a").unwrap().data, "new");
}

#[test]
fn memory_cache_invalidate_and_clear() {
    let mut cache = MemoryCache::new(5);
    cache.put("a".to_string(), entry("A", 60, false)).unwrap();
    cache.put("b".to_string(), entry("B", 60, false)).unwrap();
    assert!(cache.invalidate("a"));
    assert!(!cache.invalidate("a"));
    assert!(cache.get("a").is_none());
    assert_eq!(cache.size(), 1);
    cache.clear();
    assert_eq!(cache.size(), 0);
    assert_eq!(cache.max_entries(), 5);
}

#[test]
fn memory_cache_zero_capacity_holds_one() {
    let mut cache = MemoryCache::new(0);
    cache.put("a".to_string(), entry("A", 60, false)).unwrap();
    cache.put("b".to_string(), entry("B", 60, false)).unwrap();
    assert_eq!(cache.size(), 1);
    assert_eq!(cache.max_entries(), 0);
    assert!(cache.get("b").is_some());
}

#[test]
fn memory_cache_expired_entry_is_dropped() {
    let mut cache = MemoryCache::new(5);
    cache.put("a".to_string(), entry("A", 1, false)).unwrap();
    let e = entry("A", 1, false);
    assert!(!e.is_expired_after(1_000_000_000));
    assert!(e.is_expired_after(1_000_000_001));
    assert!(cache.settle_lookup("a", e.clone(), 2_000_000_000).is_none());
    assert_eq!(cache.size(), 0);
}

#[test]
fn memory_cache_fresh_entry_is_kept() {
    let mut cache = MemoryCache::new(5);
    let e = entry("A", 10, false);
    cache.put("a".to_string(), e.clone()).unwrap();
    let kept = cache.settle_lookup("a", e, 5_000_000_000).unwrap();
    assert_eq!(kept.data, "A");
    assert_eq!(cache.size(), 1);
    assert!(!entry("A", 3600, false).is_expired());
}

#[test]
fn coordinator_rejects_empty_root_url() {
    match CacheCoordinator::new(10, 60, Some(String::new())) {
        Err(CacheError::CircularDependency(m)) => assert_eq!(m, "Empty root cache URL"),
        _ => panic!("expected a circular dependency error"),
    }
    assert!(CacheCoordinator::new(10, 60, None).is_ok());
}

#[test]
fn coordinator_falls_back_from_root_to_direct() {
    let mut c = CacheCoordinator::new(10, 60, Some("https://root.example".to_string())).unwrap();
    match c.begin_discovery("a.com") {
        DiscoveryAction::FetchFromRoot(u) => assert_eq!(u, "https://root.example"),
        _ => panic!("expected a root fetch"),
    }
    match c.after_root_fetch("a.com", FetchOutcome::FetchFailed("down".to_string())) {
        DiscoveryAction::FetchDirect => {}
        _ => panic!("expected a direct fetch"),
    }
    let r = c.after_direct_fetch("a.com", FetchOutcome::Fetched("{\"records\":[]}".to_string()));
    assert_eq!(r.unwrap(), "{\"records\":[]}");
    // the fetched document is now answered from the local cache
    match c.begin_discovery("a.com") {
        DiscoveryAction::Done(Ok(d)) => assert_eq!(d, "{\"records\":[]}"),
        _ => panic!("expected a local hit"),
    }
    assert_eq!(c.local_cache().size(), 1);
}

#[test]
fn coordinator_direct_failure_is_not_found() {
    let mut c = CacheCoordinator::new(10, 60, None).unwrap();
    match c.begin_discovery("b.com") {
        DiscoveryAction::FetchDirect => {}
        _ => panic!("expected a direct fetch"),
    }
    let r = c.after_direct_fetch("b.com", FetchOutcome::FetchFailed("timeout".to_string()));
    assert_eq!(r, Err(CacheError::NotFound("b.com: timeout".to_string())));
    let e = c.after_direct_fetch("b.com", FetchOutcome::EncodeFailed("bad".to_string()));
    assert_eq!(e, Err(CacheError::OperationFailed("bad".to_string())));
    assert_eq!(c.local_cache().size(), 0);
}

#[test]
fn coordinator_root_hit_is_stored() {
    let mut c = CacheCoordinator::new(10, 60, Some("https://root".to_string())).unwrap();
    match c.after_root_fetch("c.com", FetchOutcome::Fetched("doc".to_string())) {
        DiscoveryAction::Done(Ok(d)) => assert_eq!(d, "doc"),
        _ => panic!("expected the document"),
    }
    match c.after_root_fetch("c.com", FetchOutcome::EncodeFailed("x".to_string())) {
        DiscoveryAction::Done(Err(CacheError::OperationFailed(m))) => assert_eq!(m, "x"),
        _ => panic!("expected an operation failure"),
    }
    assert_eq!(c.local_cache().size(), 1);
}

#[test]
fn cache_error_messages() {
    assert_eq!(CacheError::Full(3).message(), "Cache is full (max entries: 3)");
    assert_eq!(
        CacheError::NotFound("x".into()).message(),
        "Cache entry not found for domain: x"
    );
}

#[test]
fn cache_control_joined_header_merges_directives() {
    let x = CacheControl::parse("no-cache, max-age=60");
    let y = CacheControl::parse(" must-revalidate ,max-age=bad");
    let z = CacheControl::parse("no-cache, max-age=60, must-revalidate ,max-age=bad");
    assert_eq!(z.no_cache, x.no_cache || y.no_cache);
    assert_eq!(z.must_revalidate, x.must_revalidate || y.must_revalidate);
    assert_eq!(z.max_age, Some(60));
    let w = CacheControl::parse("max-age=60,max-age=7");
    assert_eq!(w.max_age, Some(7));
}

#[test]
fn cache_control_max_age_round_trip() {
    for n in [0u64, 1, 42, 86_400, u64::MAX] {
        let cc = CacheControl::parse(&format!("max-age={}", n));
        assert_eq!(cc.effective_ttl(), Some(n));
        assert!(!cc.no_cache && !cc.no_store && !cc.must_revalidate);
    }
    assert_eq!(CacheControl::parse("no-cache").effective_ttl(), None);
}

#[test]
fn memory_cache_stored_entry_answers_within_ttl() {
    let mut cache = MemoryCache::new(10);
    let e = entry("{\"doc\":true}", 60, false);
    assert!(cache.put("a.com".to_string(), e.clone()).is_ok());
    let fresh = cache.settle_lookup("a.com", e.clone(), 60_000_000_000);
    assert_eq!(fresh.map(|f| f.data), Some("{\"doc\":true}".to_string()));
    assert_eq!(cache.size(), 1);
    assert!(cache.settle_lookup("a.com", e, 60_000_000_001).is_none());
    assert_eq!(cache.size(), 0);
}
