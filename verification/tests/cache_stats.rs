use open_tethyr::cache::CacheStats;

#[test]
fn cache_stats_new() {
    let stats = CacheStats::new();
    assert_eq!(stats.hits(), 0);
    assert_eq!(stats.misses(), 0);
    assert_eq!(stats.evictions(), 0);
}

#[test]
fn cache_stats_default() {
    let stats = CacheStats::default();
    assert_eq!(stats.hits(), 0);
    assert_eq!(stats.misses(), 0);
    assert_eq!(stats.evictions(), 0);
}

#[test]
fn cache_stats_record_hit() {
    let mut stats = CacheStats::new();
    stats.record_hit();
    stats.record_hit();
    assert_eq!(stats.hits(), 2);
    assert_eq!(stats.misses(), 0);
}

#[test]
fn cache_stats_record_miss() {
    let mut stats = CacheStats::new();
    stats.record_miss();
    stats.record_miss();
    stats.record_miss();
    assert_eq!(stats.hits(), 0);
    assert_eq!(stats.misses(), 3);
}

#[test]
fn cache_stats_record_eviction() {
    let mut stats = CacheStats::new();
    stats.record_eviction();
    assert_eq!(stats.evictions(), 1);
}

#[test]
fn cache_stats_update_entries() {
    let mut stats = CacheStats::new();
    stats.update_entries(42);
    assert_eq!(stats.total_entries, 42);
}

#[test]
fn cache_stats_update_memory_usage() {
    let mut stats = CacheStats::new();
    stats.update_memory_usage(1024);
    assert_eq!(stats.memory_usage_bytes, 1024);
}

#[test]
fn cache_stats_counters_wrap_at_max() {
    let mut stats = CacheStats::new();
    stats.hit_count = u64::MAX;
    stats.record_hit();
    assert_eq!(stats.hits(), 0);
    assert_eq!(stats.misses(), 0);
}

#[test]
fn cache_stats_prometheus_text() {
    let mut stats = CacheStats::new();
    stats.record_hit();
    stats.record_hit();
    stats.record_miss();
    stats.record_eviction();
    let text = stats.prometheus_text();
    assert_eq!(
        text,
        "# HELP cache_hits_total Total cache hits\n# TYPE cache_hits_total counter\ncache_hits_total 2\n\
         # HELP cache_misses_total Total cache misses\n# TYPE cache_misses_total counter\ncache_misses_total 1\n\
         # HELP cache_evictions_total Total cache evictions\n# TYPE cache_evictions_total counter\ncache_evictions_total 1\n"
    );
}
