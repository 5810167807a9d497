//! The cache server's state, and how it is set up from its configuration. Binding the
//! socket and serving requests are the caller's.

use vstd::prelude::*;
use super::policy::PolicyEngine;
use crate::cache::coordinator::CacheCoordinator;
use crate::cache::memory::capacity_for;
use crate::cache::stats::CacheStats;
use crate::config::models::{clone_opt_string, clone_strings, ServerConfig};
use crate::error::ServerError;
use crate::text::{decimal, push_decimal};

verus! {

/// What the request handlers share.
pub struct AppState {
    pub coordinator: CacheCoordinator,
    pub policy: PolicyEngine,
    pub stats: CacheStats,
}

impl AppState {
    /// The coordinator's cache is well formed.
    pub open spec fn wf(&self) -> bool {
        self.coordinator.wf()
    }
}

/// The cache server: its configuration and its state.
pub struct CacheServer {
    config: ServerConfig,
    state: AppState,
}

/// The address a server on `port` binds: all interfaces.
pub open spec fn bind_address_for(port: u16) -> Seq<char> {
    "0.0.0.0:"@ + decimal(port as nat)
}

impl CacheServer {
    /// The configuration.
    pub closed spec fn config_view(&self) -> ServerConfig {
        self.config
    }

    /// The state.
    pub closed spec fn state_view(&self) -> AppState {
        self.state
    }

    /// A server for `config`: its policy from the configuration's policy section, an empty
    /// local cache of the configured size and time to live with no root cache (one is
    /// found at run time), and zeroed counters.
    pub fn new(config: ServerConfig) -> (r: Result<Self, ServerError>)
        ensures
            r matches Ok(s) && s.config_view() == config && s.state_view().wf()
                && s.state_view().coordinator.local_view().len() == 0
                && s.state_view().coordinator.local_capacity() == capacity_for(config.cache.max_entries)
                && s.state_view().coordinator.root_url() is None
                && s.state_view().coordinator.ttl() == config.cache.default_ttl
                && s.state_view().policy.domain_locking == config.policy.domain_locking
                && s.state_view().policy.home_domain == config.policy.home_domain
                && s.state_view().policy.allowlist@ == config.policy.allowlist@
                && s.state_view().stats.hit_count == 0 && s.state_view().stats.miss_count == 0
                && s.state_view().stats.eviction_count == 0,
    {
        let policy = PolicyEngine::new(
            config.policy.domain_locking,
            clone_opt_string(&config.policy.home_domain),
            clone_strings(&config.policy.allowlist),
        );
        let coordinator = match CacheCoordinator::new(
            config.cache.max_entries,
            config.cache.default_ttl,
            None,
        ) {
            Ok(c) => c,
            Err(e) => {
                return Err(ServerError::StartupFailed(e.message()));
            },
        };
        let state = AppState { coordinator, policy, stats: CacheStats::new() };
        Ok(CacheServer { config, state })
    }

    /// The address to bind: `0.0.0.0:<port>`.
    pub fn bind_address(&self) -> (r: String)
        ensures
            r@ == bind_address_for(self.config_view().port),
    {
        let mut r = String::from_str("0.0.0.0:");
        push_decimal(&mut r, self.config.port as u64);
        r
    }

    /// The configuration.
    pub fn config(&self) -> (r: &ServerConfig)
        ensures
            *r == self.config_view(),
    {
        &self.config
    }

    /// The configuration and the state, for serving.
    pub fn into_parts(self) -> (r: (ServerConfig, AppState))
        ensures
            r.0 == self.config_view(),
            r.1 == self.state_view(),
    {
        (self.config, self.state)
    }
}

} // verus!
