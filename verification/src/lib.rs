//! Open-Tethyr: the Agent Discovery Exchange (AX) protocol toolkit, with its records,
//! validation and generation, OAuth provider templates, discovery, caching, policies and
//! the decisions of its cache server and command-line tool.

use vstd::prelude::*;

pub mod text;
pub mod error;
pub mod http;
pub mod json;
pub mod ax;
pub mod auth;
pub mod cache;
pub mod cli;
pub mod client;
pub mod clock;
pub mod config;
pub mod dns;
pub mod logging;
pub mod net;
pub mod policy;
pub mod server;

pub use ax::{Agent, AgentExchangeDocument, AgentExchangeRecord, Endpoint, Protocol};
pub use client::OpenTethyr;
pub use config::AgentConfig;
pub use server::CacheServer;

verus! {

} // verus!
