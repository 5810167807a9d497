//! Types of the parts of an AX record.
//!
//! Members of a JSON object that the record does not name (`extra`) are kept as pairs of
//! the member's name and its JSON text; JSON numbers that the record names are kept as
//! their JSON text too.

use vstd::prelude::*;
use crate::text::{concat3, debug_quoted, debug_string};

verus! {

/// Protocol spoken by an endpoint.
#[derive(Debug, Clone, PartialEq, Eq)]
pub enum Protocol {
    Rest,
    GraphQL,
    MCP,
    A2A,
    Custom(String),
}

/// What `{:?}` shows of a protocol: the variant's name, and for a custom protocol its
/// name in quotes, in brackets.
pub open spec fn protocol_debug(p: Protocol) -> Seq<char> {
    match p {
        Protocol::Rest => "Rest"@,
        Protocol::GraphQL => "GraphQL"@,
        Protocol::MCP => "MCP"@,
        Protocol::A2A => "A2A"@,
        Protocol::Custom(s) => "Custom("@ + debug_quoted(s@) + ")"@,
    }
}

impl Protocol {
    /// The text that `{:?}` shows of the protocol.
    pub fn debug_text(&self) -> (r: String)
        ensures
            r@ == protocol_debug(*self),
    {
        match self {
            Protocol::Rest => String::from_str("Rest"),
            Protocol::GraphQL => String::from_str("GraphQL"),
            Protocol::MCP => String::from_str("MCP"),
            Protocol::A2A => String::from_str("A2A"),
            Protocol::Custom(s) => {
                let q = debug_string(s.as_str());
                concat3("Custom(", q.as_str(), ")")
            },
        }
    }
}

/// An endpoint of an agent.
#[derive(Debug, Clone, PartialEq, Eq)]
pub struct Endpoint {
    pub protocol: Protocol,
    pub url: String,
    pub auth: Vec<String>,
    pub content_type: Option<String>,
    pub extra: Vec<(String, String)>,
}

/// Security block of a record (flat, per the AX draft).
#[derive(Debug, Clone, PartialEq, Eq)]
pub struct Security {
    pub issuer: Option<String>,
    pub jwks_url: Option<String>,
    pub signature: Option<String>,
    pub metadata_signature: Option<String>,
    pub extra: Vec<(String, String)>,
}

/// Capabilities block of a record.
#[derive(Debug, Clone, PartialEq, Eq)]
pub struct Capabilities {
    pub intents: Vec<String>,
    pub async_exec: Option<bool>,
    pub supports_callbacks: Option<bool>,
    pub callback_modes: Vec<String>,
    pub extra: Vec<(String, String)>,
}

/// Schema block of a record.
#[derive(Debug, Clone, PartialEq, Eq)]
pub struct Schema {
    pub graphql_schema_url: Option<String>,
    pub mcp_manifest_url: Option<String>,
    pub rest_openapi_url: Option<String>,
    pub introspection: Option<bool>,
    pub extra: Vec<(String, String)>,
}

/// Limits block of a record; each number is held as its JSON text.
#[derive(Debug, Clone, PartialEq, Eq)]
pub struct Limits {
    pub max_concurrent_tasks: Option<String>,
    pub max_task_ttl_seconds: Option<String>,
    pub rate_limit_per_minute: Option<String>,
    pub extra: Vec<(String, String)>,
}

} // verus!
