//! Caching: counters, Cache-Control handling, the in-memory LRU cache, and the
//! coordination of the local cache with a root cache and direct fetches.

pub mod coordinator;
pub mod memory;
pub mod stats;
pub mod types;

pub use coordinator::{CacheCoordinator, DiscoveryAction, FetchOutcome};
pub use memory::{CacheEntry, MemoryCache};
pub use stats::CacheStats;
pub use types::{CacheConfig, CacheControl, RateLimitConfig};
