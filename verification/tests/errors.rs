use open_tethyr::error::{
    is_valid_auth_method, AxError, CacheError, ClientError, ConfigError, DnsError, HttpError,
    OAuthError, ServerError,
};

#[test]
fn ax_error_messages() {
    assert_eq!(
        AxError::InvalidRecordType("XX".into()).message(),
        "Invalid record type: expected 'AX', got 'XX'"
    );
    assert_eq!(AxError::UnsupportedVersion("2.0".into()).message(), "Unsupported AX version: 2.0");
    assert_eq!(AxError::MissingField("agent.name".into()).message(), "Missing required field: agent.name");
    assert_eq!(AxError::InvalidFormat("x".into()).message(), "Invalid format: x");
    assert_eq!(
        AxError::InvalidAuthMethod("Basic".into()).message(),
        "Invalid auth method 'Basic': must be one of OIDC, OAuth2, mTLS, JWT, API_KEY"
    );
    assert_eq!(AxError::GenerationFailed("g".into()).message(), "Generation failed: g");
    assert_eq!(AxError::FileWriteFailed("f".into()).message(), "File write failed: f");
}

#[test]
fn cache_and_config_error_messages() {
    assert_eq!(CacheError::Expired("d".into()).message(), "TTL expired for domain: d");
    assert_eq!(CacheError::OperationFailed("o".into()).message(), "Cache operation failed: o");
    assert_eq!(
        CacheError::CircularDependency("c".into()).message(),
        "Circular dependency detected: c"
    );
    assert_eq!(ConfigError::InvalidPort(0).message(), "Invalid port: 0 (must be 1-65535)");
    assert_eq!(ConfigError::InvalidTtl("x".into()).message(), "Invalid TTL: x (must be positive)");
    assert_eq!(ConfigError::InvalidDomain("d".into()).message(), "Invalid domain format: d");
    assert_eq!(ConfigError::InvalidUrl("u".into()).message(), "Invalid URL: u");
    assert_eq!(ConfigError::ParseError("p".into()).message(), "Configuration parse error: p");
    assert_eq!(
        ConfigError::MissingConfig("m".into()).message(),
        "Missing required configuration: m"
    );
    assert_eq!(ConfigError::MergeError("e".into()).message(), "Configuration merge error: e");
}

#[test]
fn network_error_messages() {
    assert_eq!(
        DnsError::LookupFailed("a.com".into(), "timeout".into()).message(),
        "DNS lookup failed for a.com: timeout"
    );
    assert_eq!(DnsError::MalformedRecord("r".into()).message(), "Malformed TXT record: r");
    assert_eq!(
        DnsError::NoCacheEndpoint("a.com".into()).message(),
        "No cache endpoint found for domain: a.com"
    );
    assert_eq!(
        DnsError::ResolverFailed("x".into()).message(),
        "DNS resolver initialization failed: x"
    );
    assert_eq!(
        HttpError::InvalidResponse("u".into(), "HTTP 500".into()).message(),
        "Invalid response from u: HTTP 500"
    );
    assert_eq!(
        HttpError::CertificateError("c".into()).message(),
        "HTTPS certificate validation failed: c"
    );
    assert_eq!(HttpError::InvalidWellKnownPath("/p".into()).message(), "Invalid well-known path: /p");
    assert_eq!(ClientError::InvalidDomain("".into()).message(), "Invalid domain: ");
    assert_eq!(ClientError::CacheUnreachable("c".into()).message(), "Cache endpoint unreachable: c");
}

#[test]
fn server_and_oauth_error_messages() {
    assert_eq!(ServerError::StartupFailed("s".into()).message(), "Server startup failed: s");
    assert_eq!(ServerError::ConfigError("c".into()).message(), "Configuration error: c");
    assert_eq!(ServerError::PolicyViolation("p".into()).message(), "Policy violation: p");
    assert_eq!(
        ServerError::RateLimitExceeded("1.2.3.4".into()).message(),
        "Rate limit exceeded for client: 1.2.3.4"
    );
    assert_eq!(ServerError::UpstreamFailed("u".into()).message(), "Upstream fetch failed: u");
    assert_eq!(OAuthError::UnknownProvider("x".into()).message(), "Unknown provider: x");
    assert_eq!(
        OAuthError::InvalidConfig("c".into()).message(),
        "Invalid provider configuration: c"
    );
    assert_eq!(
        OAuthError::EndpointGenerationFailed("okta".into(), "e".into()).message(),
        "Endpoint generation failed for okta: e"
    );
}

#[test]
fn approved_auth_methods() {
    for m in ["OIDC", "OAuth2", "mTLS", "JWT", "API_KEY"] {
        assert!(is_valid_auth_method(m));
    }
    for m in ["oauth2", "Basic", ""] {
        assert!(!is_valid_auth_method(m));
    }
}
