use open_tethyr::net::{IpAddr, Ipv4Addr};
use open_tethyr::policy::{DomainPolicy, PolicyEngine, PolicyViolation};

#[test]
fn test_permissive_policy_allows_all() {
    let engine = PolicyEngine::permissive();
    let client_ip = IpAddr::V4(Ipv4Addr::new(192, 168, 1, 1));

    assert!(engine
        .validate_discovery_request("example.com", client_ip, "test-123")
        .is_ok());
    assert!(engine
        .validate_discovery_request("external.org", client_ip, "test-456")
        .is_ok());
}

#[test]
fn test_domain_locking_blocks_unlisted_domains() {
    let policy = DomainPolicy {
        domain_locking_enabled: true,
        allowed_domains: vec!["allowed.com".to_string()],
        ..Default::default()
    };

    let engine = PolicyEngine::new(policy);
    let client_ip = IpAddr::V4(Ipv4Addr::new(192, 168, 1, 1));

    assert!(engine
        .validate_discovery_request("allowed.com", client_ip, "test-123")
        .is_ok());

    let result = engine.validate_discovery_request("blocked.com", client_ip, "test-456");
    assert!(matches!(result, Err(PolicyViolation::DomainNotAllowed { .. })));
}

#[test]
fn test_external_allowlist() {
    let policy = DomainPolicy {
        domain_locking_enabled: true,
        organization_domain: Some("acme.com".to_string()),
        external_allowlist: vec!["partner.org".to_string()],
        ..Default::default()
    };

    let engine = PolicyEngine::new(policy);
    let client_ip = IpAddr::V4(Ipv4Addr::new(192, 168, 1, 1));

    assert!(engine
        .validate_discovery_request("partner.org", client_ip, "test-123")
        .is_ok());

    let result = engine.validate_discovery_request("external.org", client_ip, "test-456");
    assert!(matches!(result, Err(PolicyViolation::ExternalDomainBlocked { .. })));
}

#[test]
fn test_invalid_domain_format() {
    let engine = PolicyEngine::permissive();
    let client_ip = IpAddr::V4(Ipv4Addr::new(192, 168, 1, 1));

    let toolong_domain = "toolong.".repeat(50);
    let invalid_domains = vec![
        "",
        "single",
        "invalid..domain.com",
        "-invalid.com",
        "invalid-.com",
        toolong_domain.as_str(),
    ];

    for domain in invalid_domains {
        let result = engine.validate_discovery_request(domain, client_ip, "test");
        assert!(matches!(result, Err(PolicyViolation::InvalidDomain { .. })));
    }
}

#[test]
fn test_valid_domain_format() {
    let engine = PolicyEngine::permissive();
    let client_ip = IpAddr::V4(Ipv4Addr::new(192, 168, 1, 1));

    let valid_domains = vec![
        "example.com",
        "sub.example.com",
        "api-v2.example.com",
        "test123.example.org",
    ];

    for domain in valid_domains {
        assert!(engine
            .validate_discovery_request(domain, client_ip, "test")
            .is_ok());
    }
}

#[test]
fn policy_internal_domain_not_listed_is_refused() {
    let policy = DomainPolicy {
        domain_locking_enabled: true,
        organization_domain: Some("acme.com".to_string()),
        allowed_domains: vec!["api.acme.com".to_string()],
        ..Default::default()
    };
    let mut engine = PolicyEngine::permissive();
    engine.update_domain_policy(policy);
    let client_ip = IpAddr::V4(Ipv4Addr::new(10, 0, 0, 1));
    assert!(engine.validate_discovery_request("api.acme.com", client_ip, "c").is_ok());
    let refused = engine.validate_discovery_request("other.acme.com", client_ip, "c");
    assert_eq!(
        refused,
        Err(PolicyViolation::DomainNotAllowed { domain: "other.acme.com".to_string() })
    );
    assert_eq!(
        refused.unwrap_err().message(),
        "Domain 'other.acme.com' is not allowed by domain locking policy"
    );
    assert!(engine.is_external_domain("partner.org"));
    assert!(!engine.is_external_domain("x.acme.com"));
    assert!(engine.domain_policy().domain_locking_enabled);
}

#[test]
fn policy_violation_messages() {
    assert_eq!(
        PolicyViolation::ExternalDomainBlocked { domain: "e.org".into() }.message(),
        "External domain 'e.org' is not in allowlist"
    );
    assert_eq!(
        PolicyViolation::InvalidDomain { domain: "-x".into() }.message(),
        "Invalid domain format: '-x'"
    );
}

#[test]
fn policy_label_length_limit() {
    let engine = PolicyEngine::permissive();
    let ok_label = "a".repeat(63);
    let long_label = "a".repeat(64);
    assert!(engine.is_valid_domain(&format!("{}.com", ok_label)));
    assert!(!engine.is_valid_domain(&format!("{}.com", long_label)));
}
