//! Configuration: models of the YAML input, inheritance of defaults, validation.

pub mod loader;
pub mod merger;
pub mod models;
pub mod validator;

pub use merger::ConfigMerger;
pub use models::{
    AgentConfig, AgentDefaults, AgentDefinition, CacheConfig, EndpointDefinition, PolicyConfig,
    RateLimitConfig, ServerConfig,
};
pub use validator::ConfigValidator;
