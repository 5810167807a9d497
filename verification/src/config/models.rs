//! Configuration models. JSON values that the logic only carries (capabilities, limits,
//! security, extensions) are held as their JSON text.

use vstd::prelude::*;
use vstd::string::*;

verus! {

/// Top-level agent configuration (the YAML input).
pub struct AgentConfig {
    pub defaults: AgentDefaults,
    pub agents: Vec<AgentDefinition>,
    pub server: Option<ServerConfig>,
}

impl Default for AgentConfig {
    fn default() -> (r: Self)
        ensures
            r.defaults.provider is None,
            r.defaults.auth@.len() == 0,
            r.defaults.endpoints@.len() == 0,
            r.defaults.capabilities is None,
            r.defaults.limits is None,
            r.defaults.extensions is None,
            r.agents@.len() == 0,
            r.server is None,
    {
        AgentConfig { defaults: AgentDefaults::default(), agents: Vec::new(), server: None }
    }
}

/// Global defaults inherited by every agent.
pub struct AgentDefaults {
    pub provider: Option<String>,
    pub auth: Vec<String>,
    pub endpoints: Vec<EndpointDefinition>,
    pub capabilities: Option<String>,
    pub limits: Option<String>,
    pub extensions: Option<String>,
}

impl Default for AgentDefaults {
    fn default() -> (r: Self)
        ensures
            r.provider is None,
            r.auth@.len() == 0,
            r.endpoints@.len() == 0,
            r.capabilities is None,
            r.limits is None,
            r.extensions is None,
    {
        AgentDefaults {
            provider: None,
            auth: Vec::new(),
            endpoints: Vec::new(),
            capabilities: None,
            limits: None,
            extensions: None,
        }
    }
}

/// One agent of the configuration.
pub struct AgentDefinition {
    pub name: String,
    pub description: String,
    pub provider: Option<String>,
    pub endpoints: Vec<EndpointDefinition>,
    pub auth: Vec<String>,
    pub capabilities: Option<String>,
    pub limits: Option<String>,
    pub security: Option<String>,
    pub extensions: Option<String>,
    pub oauth_provider: Option<String>,
    pub oauth_domain: Option<String>,
}

/// An endpoint as the configuration writes it.
pub struct EndpointDefinition {
    pub protocol: String,
    pub url: String,
    pub auth: Vec<String>,
    pub content_type: Option<String>,
}

/// `a` and `b` hold the same values (the auth list compared by its contents).
pub open spec fn same_endpoint_definition(a: EndpointDefinition, b: EndpointDefinition) -> bool {
    &&& a.protocol == b.protocol
    &&& a.url == b.url
    &&& a.auth@ == b.auth@
    &&& a.content_type == b.content_type
}

/// `a` and `b` hold, position by position, the same endpoint definitions.
pub open spec fn same_endpoint_definitions(a: Seq<EndpointDefinition>, b: Seq<EndpointDefinition>) -> bool {
    a.len() == b.len() && forall|i: int| 0 <= i < a.len() ==> same_endpoint_definition(#[trigger] a[i], b[i])
}

impl Clone for EndpointDefinition {
    fn clone(&self) -> (r: Self)
        ensures
            same_endpoint_definition(r, *self),
    {
        EndpointDefinition {
            protocol: self.protocol.clone(),
            url: self.url.clone(),
            auth: clone_strings(&self.auth),
            content_type: clone_opt_string(&self.content_type),
        }
    }
}

/// A copy of an optional string.
pub fn clone_opt_string(o: &Option<String>) -> (r: Option<String>)
    ensures
        r == *o,
{
    match o {
        Some(s) => Some(s.clone()),
        None => None,
    }
}

/// A copy of a vector of strings.
pub fn clone_strings(v: &Vec<String>) -> (r: Vec<String>)
    ensures
        r@ == v@,
{
    let mut r: Vec<String> = Vec::new();
    let mut i: usize = 0;
    while i < v.len()
        invariant
            i <= v@.len(),
            r@ == v@.subrange(0, i as int),
        decreases v@.len() - i,
    {
        r.push(v[i].clone());
        i = i + 1;
    }
    assert(v@.subrange(0, v@.len() as int) == v@);
    r
}

/// A copy of a vector of endpoint definitions.
pub fn clone_endpoint_definitions(v: &Vec<EndpointDefinition>) -> (r: Vec<EndpointDefinition>)
    ensures
        same_endpoint_definitions(r@, v@),
{
    let mut r: Vec<EndpointDefinition> = Vec::new();
    let mut i: usize = 0;
    while i < v.len()
        invariant
            i <= v@.len(),
            r@.len() == i,
            forall|j: int| 0 <= j < i ==> same_endpoint_definition(#[trigger] r@[j], v@[j]),
        decreases v@.len() - i,
    {
        r.push(v[i].clone());
        i = i + 1;
    }
    r
}

/// Server configuration.
pub struct ServerConfig {
    pub domain: String,
    pub port: u16,
    pub cache: CacheConfig,
    pub policy: PolicyConfig,
    pub rate_limit: RateLimitConfig,
    pub log_level: String,
}

/// The domain a server serves when none is configured: "localhost".
pub fn default_domain() -> (r: String)
    ensures
        r@ == "localhost"@,
{
    String::from_str("localhost")
}

/// The port a server binds when none is configured: 8080.
pub fn default_port() -> (r: u16)
    ensures
        r == 8080,
{
    8080
}

/// The log level when none is configured: "info".
pub fn default_log_level() -> (r: String)
    ensures
        r@ == "info"@,
{
    String::from_str("info")
}

/// Cache configuration: sizes in entries, times in seconds.
pub struct CacheConfig {
    pub max_entries: usize,
    pub default_ttl: u64,
    pub cleanup_interval: u64,
    pub enable_lru: bool,
}

/// Default maximum number of cache entries: 10 000.
pub fn default_max_entries() -> (r: usize)
    ensures
        r == 10_000,
{
    10_000
}

/// Default time to live of a cache entry: 3600 seconds.
pub fn default_ttl() -> (r: u64)
    ensures
        r == 3600,
{
    3600
}

/// Default interval between cache cleanups: 300 seconds.
pub fn default_cleanup_interval() -> (r: u64)
    ensures
        r == 300,
{
    300
}

/// LRU eviction is on by default.
pub fn default_enable_lru() -> (r: bool)
    ensures
        r,
{
    true
}

impl Default for CacheConfig {
    fn default() -> (r: Self)
        ensures
            r.max_entries == 10_000,
            r.default_ttl == 3600,
            r.cleanup_interval == 300,
            r.enable_lru,
    {
        CacheConfig {
            max_entries: default_max_entries(),
            default_ttl: default_ttl(),
            cleanup_interval: default_cleanup_interval(),
            enable_lru: default_enable_lru(),
        }
    }
}

/// Policy configuration.
pub struct PolicyConfig {
    pub domain_locking: bool,
    pub home_domain: Option<String>,
    pub allowlist: Vec<String>,
}

impl Default for PolicyConfig {
    fn default() -> (r: Self)
        ensures
            !r.domain_locking,
            r.home_domain is None,
            r.allowlist@.len() == 0,
    {
        PolicyConfig { domain_locking: false, home_domain: None, allowlist: Vec::new() }
    }
}

/// Rate limit configuration: requests per client per minute and per hour.
pub struct RateLimitConfig {
    pub requests_per_minute: u32,
    pub requests_per_hour: u32,
}

/// Default requests per minute: 60.
pub fn default_rpm() -> (r: u32)
    ensures
        r == 60,
{
    60
}

/// Default requests per hour: 1000.
pub fn default_rph() -> (r: u32)
    ensures
        r == 1000,
{
    1000
}

impl Default for RateLimitConfig {
    fn default() -> (r: Self)
        ensures
            r.requests_per_minute == 60,
            r.requests_per_hour == 1000,
    {
        RateLimitConfig { requests_per_minute: default_rpm(), requests_per_hour: default_rph() }
    }
}

} // verus!
