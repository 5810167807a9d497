use open_tethyr::client::OpenTethyr;
use open_tethyr::dns::DnsDiscovery;
use open_tethyr::error::{ClientError, HttpError};
use open_tethyr::http::AxHttpClient;
use open_tethyr::json::json_string_literal;

#[test]
fn dns_query_and_endpoint_parsing() {
    assert_eq!(DnsDiscovery::cache_query("acme.com"), "_ax-cache.acme.com");
    assert_eq!(
        DnsDiscovery::parse_cache_endpoint("  \"endpoint=https://cache.acme.com\" "),
        Some("https://cache.acme.com".to_string())
    );
    assert_eq!(
        DnsDiscovery::parse_cache_endpoint("endpoint=  https://c.example  "),
        Some("https://c.example".to_string())
    );
    assert_eq!(DnsDiscovery::parse_cache_endpoint("endpoint="), None);
    assert_eq!(DnsDiscovery::parse_cache_endpoint("v=spf1 include:x"), None);
    assert_eq!(DnsDiscovery::parse_cache_endpoint("\"\"\""), None);
}

#[test]
fn dns_first_announced_endpoint() {
    let records = vec![
        "v=spf1".to_string(),
        "endpoint=https://first".to_string(),
        "endpoint=https://second".to_string(),
    ];
    assert_eq!(DnsDiscovery::first_cache_endpoint(&records), Some("https://first".to_string()));
    assert_eq!(DnsDiscovery::first_cache_endpoint(&vec![]), None);
}

#[test]
fn http_urls_and_checks() {
    assert_eq!(
        AxHttpClient::build_ax_url("example.com"),
        "https://_agent.example.com/.well-known/agent-exchange.json"
    );
    assert_eq!(
        AxHttpClient::cache_url_for("https://cache.example.com///", "a.com"),
        "https://cache.example.com/discover/a.com"
    );
    assert!(AxHttpClient::validate_well_known_path("/x/.well-known/agent-exchange.json").is_ok());
    assert_eq!(
        AxHttpClient::validate_well_known_path("/agent.json"),
        Err(HttpError::InvalidWellKnownPath("/agent.json".to_string()))
    );
    assert_eq!(AxHttpClient::new(None).timeout_secs, 30);
    let c = AxHttpClient::new(Some(5));
    assert_eq!(c.timeout_secs, 5);
    assert_eq!(c.send_error(true, "slow".into()), HttpError::Timeout(5));
    assert_eq!(c.send_error(false, "refused".into()), HttpError::RequestFailed("refused".into()));
    assert!(AxHttpClient::check_status("u", 204, "204 No Content").is_ok());
    assert_eq!(
        AxHttpClient::check_status("u", 404, "404 Not Found"),
        Err(HttpError::InvalidResponse("u".into(), "HTTP 404 Not Found".into()))
    );
    assert_eq!(HttpError::Timeout(5).message(), "Request timeout after 5s");
}

#[test]
fn client_creation_and_failures() {
    match OpenTethyr::new("") {
        Err(ClientError::InvalidDomain(m)) => assert_eq!(m, "Domain cannot be empty"),
        _ => panic!("expected an invalid domain"),
    }
    let mut c = OpenTethyr::new("acme.com").expect("client");
    assert!(c.cache_url().is_none());
    assert_eq!(c.http_client().timeout_secs, 30);
    c.use_cache("https://cache.acme.com".to_string());
    assert_eq!(c.cache_url(), Some(&"https://cache.acme.com".to_string()));
    let e = OpenTethyr::discovery_failure("x.org", &HttpError::RequestFailed("boom".into()));
    assert_eq!(e, ClientError::DiscoveryFailed("x.org".into(), "Request failed: boom".into()));
    assert_eq!(e.message(), "Discovery failed for x.org: Request failed: boom");
}

#[test]
fn json_string_literals() {
    assert_eq!(json_string_literal("plain"), "\"plain\"");
    assert_eq!(json_string_literal("a\"b\\c\nd\u{1}"), "\"a\\\"b\\\\c\\nd\\u0001\"");
    assert_eq!(json_string_literal("é/"), "\"é/\"");
}
