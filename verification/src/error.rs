//! Error types shared by the library, each with the text that describes it.

use vstd::prelude::*;
use crate::text::{concat, concat3, decimal, push_decimal, str_eq};

verus! {

/// AX protocol errors.
#[derive(Debug, Clone, PartialEq, Eq)]
pub enum AxError {
    InvalidRecordType(String),
    UnsupportedVersion(String),
    MissingField(String),
    InvalidFormat(String),
    InvalidAuthMethod(String),
    GenerationFailed(String),
    FileWriteFailed(String),
}

impl AxError {
    /// The text that describes the error.
    pub open spec fn spec_message(&self) -> Seq<char> {
        match self {
            AxError::InvalidRecordType(s) => "Invalid record type: expected 'AX', got '"@ + s@ + "'"@,
            AxError::UnsupportedVersion(s) => "Unsupported AX version: "@ + s@,
            AxError::MissingField(s) => "Missing required field: "@ + s@,
            AxError::InvalidFormat(s) => "Invalid format: "@ + s@,
            AxError::InvalidAuthMethod(s) => "Invalid auth method '"@ + s@
                + "': must be one of OIDC, OAuth2, mTLS, JWT, API_KEY"@,
            AxError::GenerationFailed(s) => "Generation failed: "@ + s@,
            AxError::FileWriteFailed(s) => "File write failed: "@ + s@,
        }
    }

    /// The text that describes the error.
    pub fn message(&self) -> (r: String)
        ensures
            r@ == self.spec_message(),
    {
        match self {
            AxError::InvalidRecordType(s) => concat3(
                "Invalid record type: expected 'AX', got '",
                s.as_str(),
                "'",
            ),
            AxError::UnsupportedVersion(s) => concat("Unsupported AX version: ", s.as_str()),
            AxError::MissingField(s) => concat("Missing required field: ", s.as_str()),
            AxError::InvalidFormat(s) => concat("Invalid format: ", s.as_str()),
            AxError::InvalidAuthMethod(s) => concat3(
                "Invalid auth method '",
                s.as_str(),
                "': must be one of OIDC, OAuth2, mTLS, JWT, API_KEY",
            ),
            AxError::GenerationFailed(s) => concat("Generation failed: ", s.as_str()),
            AxError::FileWriteFailed(s) => concat("File write failed: ", s.as_str()),
        }
    }
}

/// Cache errors.
#[derive(Debug, Clone, PartialEq, Eq)]
pub enum CacheError {
    NotFound(String),
    Full(usize),
    Expired(String),
    OperationFailed(String),
    CircularDependency(String),
}

impl CacheError {
    /// The text that describes the error.
    pub open spec fn spec_message(&self) -> Seq<char> {
        match self {
            CacheError::NotFound(s) => "Cache entry not found for domain: "@ + s@,
            CacheError::Full(n) => "Cache is full (max entries: "@ + decimal(*n as nat) + ")"@,
            CacheError::Expired(s) => "TTL expired for domain: "@ + s@,
            CacheError::OperationFailed(s) => "Cache operation failed: "@ + s@,
            CacheError::CircularDependency(s) => "Circular dependency detected: "@ + s@,
        }
    }

    /// The text that describes the error.
    pub fn message(&self) -> (r: String)
        ensures
            r@ == self.spec_message(),
    {
        match self {
            CacheError::NotFound(s) => concat("Cache entry not found for domain: ", s.as_str()),
            CacheError::Full(n) => {
                let mut r = String::from_str("Cache is full (max entries: ");
                push_decimal(&mut r, *n as u64);
                r.append(")");
                r
            },
            CacheError::Expired(s) => concat("TTL expired for domain: ", s.as_str()),
            CacheError::OperationFailed(s) => concat("Cache operation failed: ", s.as_str()),
            CacheError::CircularDependency(s) => concat(
                "Circular dependency detected: ",
                s.as_str(),
            ),
        }
    }
}

/// Configuration errors.
#[derive(Debug, Clone, PartialEq, Eq)]
pub enum ConfigError {
    InvalidDomain(String),
    InvalidPort(u32),
    InvalidUrl(String),
    InvalidTtl(String),
    ParseError(String),
    MissingConfig(String),
    MergeError(String),
}

impl ConfigError {
    /// The text that describes the error.
    pub open spec fn spec_message(&self) -> Seq<char> {
        match self {
            ConfigError::InvalidDomain(s) => "Invalid domain format: "@ + s@,
            ConfigError::InvalidPort(p) => "Invalid port: "@ + decimal(*p as nat)
                + " (must be 1-65535)"@,
            ConfigError::InvalidUrl(s) => "Invalid URL: "@ + s@,
            ConfigError::InvalidTtl(s) => "Invalid TTL: "@ + s@ + " (must be positive)"@,
            ConfigError::ParseError(s) => "Configuration parse error: "@ + s@,
            ConfigError::MissingConfig(s) => "Missing required configuration: "@ + s@,
            ConfigError::MergeError(s) => "Configuration merge error: "@ + s@,
        }
    }

    /// The text that describes the error.
    pub fn message(&self) -> (r: String)
        ensures
            r@ == self.spec_message(),
    {
        match self {
            ConfigError::InvalidDomain(s) => concat("Invalid domain format: ", s.as_str()),
            ConfigError::InvalidPort(p) => {
                let mut r = String::from_str("Invalid port: ");
                push_decimal(&mut r, *p as u64);
                r.append(" (must be 1-65535)");
                r
            },
            ConfigError::InvalidUrl(s) => concat("Invalid URL: ", s.as_str()),
            ConfigError::InvalidTtl(s) => concat3("Invalid TTL: ", s.as_str(), " (must be positive)"),
            ConfigError::ParseError(s) => concat("Configuration parse error: ", s.as_str()),
            ConfigError::MissingConfig(s) => concat(
                "Missing required configuration: ",
                s.as_str(),
            ),
            ConfigError::MergeError(s) => concat("Configuration merge error: ", s.as_str()),
        }
    }
}

/// DNS discovery errors.
#[derive(Debug, Clone, PartialEq, Eq)]
pub enum DnsError {
    LookupFailed(String, String),
    MalformedRecord(String),
    NoCacheEndpoint(String),
    ResolverFailed(String),
}

impl DnsError {
    /// The text that describes the error.
    pub open spec fn spec_message(&self) -> Seq<char> {
        match self {
            DnsError::LookupFailed(d, e) => "DNS lookup failed for "@ + d@ + ": "@ + e@,
            DnsError::MalformedRecord(s) => "Malformed TXT record: "@ + s@,
            DnsError::NoCacheEndpoint(s) => "No cache endpoint found for domain: "@ + s@,
            DnsError::ResolverFailed(s) => "DNS resolver initialization failed: "@ + s@,
        }
    }

    /// The text that describes the error.
    pub fn message(&self) -> (r: String)
        ensures
            r@ == self.spec_message(),
    {
        match self {
            DnsError::LookupFailed(d, e) => {
                let mut r = concat3("DNS lookup failed for ", d.as_str(), ": ");
                r.append(e.as_str());
                r
            },
            DnsError::MalformedRecord(s) => concat("Malformed TXT record: ", s.as_str()),
            DnsError::NoCacheEndpoint(s) => concat("No cache endpoint found for domain: ", s.as_str()),
            DnsError::ResolverFailed(s) => concat("DNS resolver initialization failed: ", s.as_str()),
        }
    }
}

/// HTTP client errors.
#[derive(Debug, Clone, PartialEq, Eq)]
pub enum HttpError {
    RequestFailed(String),
    Timeout(u64),
    InvalidResponse(String, String),
    CertificateError(String),
    InvalidWellKnownPath(String),
}

impl HttpError {
    /// The text that describes the error.
    pub open spec fn spec_message(&self) -> Seq<char> {
        match self {
            HttpError::RequestFailed(s) => "Request failed: "@ + s@,
            HttpError::Timeout(t) => "Request timeout after "@ + decimal(*t as nat) + "s"@,
            HttpError::InvalidResponse(u, e) => "Invalid response from "@ + u@ + ": "@ + e@,
            HttpError::CertificateError(s) => "HTTPS certificate validation failed: "@ + s@,
            HttpError::InvalidWellKnownPath(s) => "Invalid well-known path: "@ + s@,
        }
    }

    /// The text that describes the error.
    pub fn message(&self) -> (r: String)
        ensures
            r@ == self.spec_message(),
    {
        match self {
            HttpError::RequestFailed(s) => concat("Request failed: ", s.as_str()),
            HttpError::Timeout(t) => {
                let mut r = String::from_str("Request timeout after ");
                push_decimal(&mut r, *t);
                r.append("s");
                r
            },
            HttpError::InvalidResponse(u, e) => {
                let mut r = concat3("Invalid response from ", u.as_str(), ": ");
                r.append(e.as_str());
                r
            },
            HttpError::CertificateError(s) => concat(
                "HTTPS certificate validation failed: ",
                s.as_str(),
            ),
            HttpError::InvalidWellKnownPath(s) => concat("Invalid well-known path: ", s.as_str()),
        }
    }
}

/// Server errors.
#[derive(Debug, Clone, PartialEq, Eq)]
pub enum ServerError {
    StartupFailed(String),
    ConfigError(String),
    PolicyViolation(String),
    RateLimitExceeded(String),
    UpstreamFailed(String),
}

impl ServerError {
    /// The text that describes the error.
    pub open spec fn spec_message(&self) -> Seq<char> {
        match self {
            ServerError::StartupFailed(s) => "Server startup failed: "@ + s@,
            ServerError::ConfigError(s) => "Configuration error: "@ + s@,
            ServerError::PolicyViolation(s) => "Policy violation: "@ + s@,
            ServerError::RateLimitExceeded(s) => "Rate limit exceeded for client: "@ + s@,
            ServerError::UpstreamFailed(s) => "Upstream fetch failed: "@ + s@,
        }
    }

    /// The text that describes the error.
    pub fn message(&self) -> (r: String)
        ensures
            r@ == self.spec_message(),
    {
        match self {
            ServerError::StartupFailed(s) => concat("Server startup failed: ", s.as_str()),
            ServerError::ConfigError(s) => concat("Configuration error: ", s.as_str()),
            ServerError::PolicyViolation(s) => concat("Policy violation: ", s.as_str()),
            ServerError::RateLimitExceeded(s) => concat("Rate limit exceeded for client: ", s.as_str()),
            ServerError::UpstreamFailed(s) => concat("Upstream fetch failed: ", s.as_str()),
        }
    }
}

/// Client SDK errors.
#[derive(Debug, Clone, PartialEq, Eq)]
pub enum ClientError {
    DiscoveryFailed(String, String),
    InvalidDomain(String),
    CacheUnreachable(String),
}

impl ClientError {
    /// The text that describes the error.
    pub open spec fn spec_message(&self) -> Seq<char> {
        match self {
            ClientError::DiscoveryFailed(d, e) => "Discovery failed for "@ + d@ + ": "@ + e@,
            ClientError::InvalidDomain(s) => "Invalid domain: "@ + s@,
            ClientError::CacheUnreachable(s) => "Cache endpoint unreachable: "@ + s@,
        }
    }

    /// The text that describes the error.
    pub fn message(&self) -> (r: String)
        ensures
            r@ == self.spec_message(),
    {
        match self {
            ClientError::DiscoveryFailed(d, e) => {
                let mut r = concat3("Discovery failed for ", d.as_str(), ": ");
                r.append(e.as_str());
                r
            },
            ClientError::InvalidDomain(s) => concat("Invalid domain: ", s.as_str()),
            ClientError::CacheUnreachable(s) => concat("Cache endpoint unreachable: ", s.as_str()),
        }
    }
}

/// OAuth provider errors.
#[derive(Debug, Clone, PartialEq, Eq)]
pub enum OAuthError {
    UnknownProvider(String),
    InvalidConfig(String),
    EndpointGenerationFailed(String, String),
}

impl OAuthError {
    /// The text that describes the error.
    pub open spec fn spec_message(&self) -> Seq<char> {
        match self {
            OAuthError::UnknownProvider(s) => "Unknown provider: "@ + s@,
            OAuthError::InvalidConfig(s) => "Invalid provider configuration: "@ + s@,
            OAuthError::EndpointGenerationFailed(p, e) => "Endpoint generation failed for "@ + p@
                + ": "@ + e@,
        }
    }

    /// The text that describes the error.
    pub fn message(&self) -> (r: String)
        ensures
            r@ == self.spec_message(),
    {
        match self {
            OAuthError::UnknownProvider(s) => concat("Unknown provider: ", s.as_str()),
            OAuthError::InvalidConfig(s) => concat("Invalid provider configuration: ", s.as_str()),
            OAuthError::EndpointGenerationFailed(p, e) => {
                let mut r = concat3("Endpoint generation failed for ", p.as_str(), ": ");
                r.append(e.as_str());
                r
            },
        }
    }
}

/// Whether `m` is one of the approved AX authentication methods:
/// OIDC, OAuth2, mTLS, JWT, API_KEY (compared exactly, case included).
pub open spec fn approved_auth_method(m: Seq<char>) -> bool {
    m == "OIDC"@ || m == "OAuth2"@ || m == "mTLS"@ || m == "JWT"@ || m == "API_KEY"@
}

/// Checks whether an auth method is in the approved set.
pub fn is_valid_auth_method(method: &str) -> (r: bool)
    ensures
        r == approved_auth_method(method@),
{
    str_eq(method, "OIDC") || str_eq(method, "OAuth2") || str_eq(method, "mTLS") || str_eq(
        method,
        "JWT",
    ) || str_eq(method, "API_KEY")
}

} // verus!
