//! The cache server's decisions: which discoveries its policy allows, and how errors are
//! answered.

pub mod cache_server;
pub mod error;
pub mod handlers;
pub mod policy;

pub use cache_server::{AppState, CacheServer};
pub use policy::PolicyEngine;
