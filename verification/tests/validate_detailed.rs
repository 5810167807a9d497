use open_tethyr::ax::{Agent, AgentExchangeRecord, AxValidator, Endpoint, Protocol};

fn record(version: &str, provider: Option<&str>, auth: Vec<&str>) -> AgentExchangeRecord {
    AgentExchangeRecord {
        record_type: "AX".into(),
        version: version.into(),
        agent: Agent {
            name: "t".into(),
            description: "d".into(),
            provider: provider.map(|p| p.to_string()),
        },
        endpoints: vec![Endpoint {
            protocol: Protocol::Rest,
            url: "https://x.com".into(),
            auth: auth.into_iter().map(|a| a.to_string()).collect(),
            content_type: None,
            extra: Default::default(),
        }],
        capabilities: None,
        schema: None,
        limits: None,
        security: None,
        extensions: None,
    }
}

#[test]
fn valid_record_no_errors() {
    let r = record("1.0", Some("c"), vec!["OAuth2"]);
    let report = AxValidator::validate_record_detailed(&r);
    assert!(!report.has_errors());
}

#[test]
fn missing_provider_is_ok() {
    let r = record("1.0", None, vec![]);
    assert!(!AxValidator::validate_record_detailed(&r).has_errors());
}

#[test]
fn version_2_0_is_warning() {
    let r = record("2.0", None, vec![]);
    let report = AxValidator::validate_record_detailed(&r);
    assert!(!report.warnings().is_empty());
}

#[test]
fn unknown_auth_is_warning_not_error() {
    let r = record("1.0", None, vec!["CustomAuth"]);
    let report = AxValidator::validate_record_detailed(&r);
    assert!(!report.has_errors());
    assert!(!report.warnings().is_empty());
}

#[test]
fn detailed_report_lists_every_finding_in_order() {
    let mut r = record("2.0", None, vec!["Basic"]);
    r.record_type = "XX".into();
    r.agent.name = String::new();
    r.endpoints[0].url = String::new();
    let report = AxValidator::validate_record_detailed(&r);
    let fields: Vec<String> = report.items.iter().map(|i| i.field.clone()).collect();
    assert_eq!(
        fields,
        vec!["record_type", "version", "agent.name", "endpoints[0].url", "endpoints[0].auth"]
    );
    assert_eq!(report.items[0].message, "Expected 'AX', got 'XX'");
    assert_eq!(report.items[1].message, "Unsupported version '2.0', expected '1.0'");
    assert_eq!(
        report.items[4].message,
        "Unknown auth method 'Basic' (known: [\"OIDC\", \"OAuth2\", \"mTLS\", \"JWT\", \"API_KEY\"])"
    );
    assert_eq!(report.errors().len(), 3);
    assert_eq!(report.warnings().len(), 2);
}

#[test]
fn validate_record_reports_first_failure() {
    let ok = record("1.0", None, vec![]);
    assert!(AxValidator::validate_record(&ok).is_ok());
    let old = record("2.0", None, vec![]);
    assert_eq!(
        AxValidator::validate_record(&old),
        Err(open_tethyr::error::AxError::UnsupportedVersion("2.0".into()))
    );
    let mut nameless = record("1.0", None, vec![]);
    nameless.agent.name = String::new();
    assert_eq!(
        AxValidator::validate_record(&nameless),
        Err(open_tethyr::error::AxError::MissingField("agent.name".into()))
    );
    let mut no_endpoints = record("1.0", None, vec![]);
    no_endpoints.endpoints.clear();
    assert_eq!(
        AxValidator::validate_record(&no_endpoints),
        Err(open_tethyr::error::AxError::MissingField("endpoints".into()))
    );
    assert!(AxValidator::validate_version("1.0").is_ok());
    assert!(AxValidator::validate_agent(&ok.agent).is_ok());
}
