//! Cache statistics: counters that wrap around at `u64::MAX`, as atomic counters do.

use vstd::prelude::*;
use vstd::string::*;
use crate::text::{decimal, push_decimal};

verus! {

/// `n + 1`, wrapping to zero past `u64::MAX`.
pub open spec fn incremented(n: u64) -> u64 {
    if n == u64::MAX {
        0
    } else {
        (n + 1) as u64
    }
}

/// Cache statistics.
pub struct CacheStats {
    pub hit_count: u64,
    pub miss_count: u64,
    pub eviction_count: u64,
    pub total_entries: u64,
    pub memory_usage_bytes: u64,
}

impl CacheStats {
    /// All counters at zero.
    pub fn new() -> (r: Self)
        ensures
            r.hit_count == 0,
            r.miss_count == 0,
            r.eviction_count == 0,
            r.total_entries == 0,
            r.memory_usage_bytes == 0,
    {
        CacheStats {
            hit_count: 0,
            miss_count: 0,
            eviction_count: 0,
            total_entries: 0,
            memory_usage_bytes: 0,
        }
    }

    /// Counts one hit.
    pub fn record_hit(&mut self)
        ensures
            final(self).hit_count == incremented(old(self).hit_count),
            final(self).miss_count == old(self).miss_count,
            final(self).eviction_count == old(self).eviction_count,
            final(self).total_entries == old(self).total_entries,
            final(self).memory_usage_bytes == old(self).memory_usage_bytes,
    {
        self.hit_count = self.hit_count.wrapping_add(1);
    }

    /// Counts one miss.
    pub fn record_miss(&mut self)
        ensures
            final(self).miss_count == incremented(old(self).miss_count),
            final(self).hit_count == old(self).hit_count,
            final(self).eviction_count == old(self).eviction_count,
            final(self).total_entries == old(self).total_entries,
            final(self).memory_usage_bytes == old(self).memory_usage_bytes,
    {
        self.miss_count = self.miss_count.wrapping_add(1);
    }

    /// Counts one eviction.
    pub fn record_eviction(&mut self)
        ensures
            final(self).eviction_count == incremented(old(self).eviction_count),
            final(self).hit_count == old(self).hit_count,
            final(self).miss_count == old(self).miss_count,
            final(self).total_entries == old(self).total_entries,
            final(self).memory_usage_bytes == old(self).memory_usage_bytes,
    {
        self.eviction_count = self.eviction_count.wrapping_add(1);
    }

    /// Sets the number of entries.
    pub fn update_entries(&mut self, count: u64)
        ensures
            final(self).total_entries == count,
            final(self).hit_count == old(self).hit_count,
            final(self).miss_count == old(self).miss_count,
            final(self).eviction_count == old(self).eviction_count,
            final(self).memory_usage_bytes == old(self).memory_usage_bytes,
    {
        self.total_entries = count;
    }

    /// Sets the memory in use, in bytes.
    pub fn update_memory_usage(&mut self, bytes: u64)
        ensures
            final(self).memory_usage_bytes == bytes,
            final(self).hit_count == old(self).hit_count,
            final(self).miss_count == old(self).miss_count,
            final(self).eviction_count == old(self).eviction_count,
            final(self).total_entries == old(self).total_entries,
    {
        self.memory_usage_bytes = bytes;
    }

    /// The number of hits.
    pub fn hits(&self) -> (r: u64)
        ensures
            r == self.hit_count,
    {
        self.hit_count
    }

    /// The number of misses.
    pub fn misses(&self) -> (r: u64)
        ensures
            r == self.miss_count,
    {
        self.miss_count
    }

    /// The number of evictions.
    pub fn evictions(&self) -> (r: u64)
        ensures
            r == self.eviction_count,
    {
        self.eviction_count
    }

    /// The counters in the Prometheus text format, as the metrics endpoint serves them.
    pub open spec fn spec_prometheus_text(&self) -> Seq<char> {
        "# HELP cache_hits_total Total cache hits\n# TYPE cache_hits_total counter\ncache_hits_total "@
            + decimal(self.hit_count as nat)
            + "\n# HELP cache_misses_total Total cache misses\n# TYPE cache_misses_total counter\ncache_misses_total "@
            + decimal(self.miss_count as nat)
            + "\n# HELP cache_evictions_total Total cache evictions\n# TYPE cache_evictions_total counter\ncache_evictions_total "@
            + decimal(self.eviction_count as nat) + "\n"@
    }

    /// The counters in the Prometheus text format, as the metrics endpoint serves them.
    pub fn prometheus_text(&self) -> (r: String)
        ensures
            r@ == self.spec_prometheus_text(),
    {
        let mut r = String::from_str(
            "# HELP cache_hits_total Total cache hits\n# TYPE cache_hits_total counter\ncache_hits_total ",
        );
        push_decimal(&mut r, self.hit_count);
        r.append(
            "\n# HELP cache_misses_total Total cache misses\n# TYPE cache_misses_total counter\ncache_misses_total ",
        );
        push_decimal(&mut r, self.miss_count);
        r.append(
            "\n# HELP cache_evictions_total Total cache evictions\n# TYPE cache_evictions_total counter\ncache_evictions_total ",
        );
        push_decimal(&mut r, self.eviction_count);
        r.append("\n");
        r
    }
}

impl Default for CacheStats {
    fn default() -> (r: Self)
        ensures
            r.hit_count == 0,
            r.miss_count == 0,
            r.eviction_count == 0,
            r.total_entries == 0,
            r.memory_usage_bytes == 0,
    {
        Self::new()
    }
}

} // verus!
