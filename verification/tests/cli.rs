use open_tethyr::ax::{Agent, AgentExchangeDocument, AgentExchangeRecord, Endpoint, Protocol};
use open_tethyr::cli::{
    CacheInvalidateCommand, DiscoverCommand, GenerateCommand, GenerateError, ServeCommand,
    ValidateCommand,
};
use open_tethyr::config::{AgentConfig, AgentDefaults, AgentDefinition, EndpointDefinition};

fn record(name: &str, url: &str) -> AgentExchangeRecord {
    AgentExchangeRecord {
        record_type: "AX".into(),
        version: "1.0".into(),
        agent: Agent { name: name.into(), description: "d".into(), provider: Some("P".into()) },
        endpoints: vec![Endpoint {
            protocol: Protocol::Rest,
            url: url.into(),
            auth: vec!["OAuth2".into()],
            content_type: None,
            extra: vec![],
        }],
        capabilities: None,
        schema: None,
        limits: None,
        security: None,
        extensions: None,
    }
}

#[test]
fn cache_invalidate_urls_and_messages() {
    let all = CacheInvalidateCommand { domain: None, all: true, server: "http://c:8080/".into() };
    assert_eq!(all.request_url(), Ok("http://c:8080/cache".to_string()));
    assert_eq!(all.success_message(), "Cache cleared successfully");
    let one = CacheInvalidateCommand {
        domain: Some("a.com".into()),
        all: false,
        server: "http://c:8080//".into(),
    };
    assert_eq!(one.request_url(), Ok("http://c:8080/cache/a.com".to_string()));
    assert_eq!(one.success_message(), "Cache entry for 'a.com' invalidated");
    let none = CacheInvalidateCommand { domain: None, all: false, server: "http://c".into() };
    assert_eq!(
        none.request_url(),
        Err("Either --domain or --all must be specified".to_string())
    );
    assert_eq!(
        CacheInvalidateCommand::failure_message("500 Internal Server Error"),
        "Cache invalidation failed: HTTP 500 Internal Server Error"
    );
}

#[test]
fn serve_config_building() {
    let cmd = ServeCommand {
        domain: Some("test.com".into()),
        port: 9090,
        config: None,
        max_entries: 10,
        ttl: 30,
    };
    let cfg = cmd.default_server_config(None);
    assert_eq!(cfg.domain, "test.com");
    assert_eq!(cfg.port, 9090);
    assert_eq!(cfg.cache.max_entries, 10);
    assert_eq!(cfg.cache.default_ttl, 30);
    assert_eq!(cfg.cache.cleanup_interval, 300);
    assert!(cfg.cache.enable_lru);
    assert!(!cfg.policy.domain_locking);
    assert_eq!(cfg.rate_limit.requests_per_minute, 60);
    assert_eq!(cfg.log_level, "info");
    let local = ServeCommand { domain: None, port: 8080, config: None, max_entries: 10000, ttl: 3600 };
    let d = local.default_server_config(Some("debug".into()));
    assert_eq!(d.domain, "localhost");
    assert_eq!(d.log_level, "debug");
    let from_file = AgentConfig {
        defaults: AgentDefaults::default(),
        agents: vec![],
        server: Some(cmd.default_server_config(None)),
    };
    let chosen = local.server_config(Some(from_file), None);
    assert_eq!(chosen.domain, "test.com");
    let no_section = AgentConfig { defaults: AgentDefaults::default(), agents: vec![], server: None };
    assert_eq!(local.server_config(Some(no_section), None).domain, "localhost");
}

#[test]
fn discover_report_lines() {
    let cmd = DiscoverCommand {
        domain: "example.com".into(),
        cache: None,
        direct: false,
        json: false,
        timeout: 30,
    };
    let empty = AgentExchangeDocument { records: vec![] };
    assert_eq!(cmd.report_lines(&empty), vec!["No agents found for domain: example.com"]);
    let mut r = record("Multi", "https://api.example.com/rest");
    r.endpoints.push(Endpoint {
        protocol: Protocol::Custom("grpc".into()),
        url: "https://g.example.com".into(),
        auth: vec![],
        content_type: None,
        extra: vec![],
    });
    r.agent.provider = None;
    let doc = AgentExchangeDocument { records: vec![r] };
    assert_eq!(
        cmd.report_lines(&doc),
        vec![
            "Discovered 1 agent(s) for example.com:",
            "  Multi - d (provider: unspecified)",
            "    Rest https://api.example.com/rest",
            "    Custom(\"grpc\") https://g.example.com",
        ]
    );
}

#[test]
fn validate_report_outcome() {
    let good = record("ok", "https://x.com");
    let mut bad = record("bad", "");
    bad.version = "2.0".into();
    let pass = ValidateCommand::report(&vec![good.clone()]);
    assert!(pass.passed);
    assert!(pass.stderr.is_empty());
    assert_eq!(pass.stdout, vec!["Validation PASSED: 1 record(s) valid"]);
    let fail = ValidateCommand::report(&vec![good, bad]);
    assert!(!fail.passed);
    assert!(fail.stdout.is_empty());
    assert_eq!(
        fail.stderr,
        vec![
            "Record 1 (bad):",
            "  ERROR [endpoints[0].url]: Endpoint URL is required",
            "  WARN  [version]: Unsupported version '2.0', expected '1.0'",
            "\nValidation FAILED",
        ]
    );
    let _ = ValidateCommand { file: "x.json".into() };
}

#[test]
fn generate_pipeline() {
    let config = AgentConfig {
        defaults: AgentDefaults {
            provider: Some("Acme Corp".into()),
            auth: vec!["OAuth2".into()],
            endpoints: vec![EndpointDefinition {
                protocol: "rest".into(),
                url: "https://api.acme.com".into(),
                auth: vec![],
                content_type: None,
            }],
            capabilities: None,
            limits: None,
            extensions: None,
        },
        agents: vec![AgentDefinition {
            name: "Test Agent".into(),
            description: "An agent".into(),
            provider: None,
            endpoints: vec![],
            auth: vec![],
            capabilities: None,
            limits: None,
            security: None,
            extensions: None,
            oauth_provider: None,
            oauth_domain: None,
        }],
        server: None,
    };
    let cmd = GenerateCommand { config: "c.yaml".into(), output: "out".into(), validate: true };
    let rec = match cmd.build_record(&config) {
        Ok(r) => r,
        Err(_) => panic!("expected a record"),
    };
    assert_eq!(rec.agent.name, "Test Agent");
    assert_eq!(
        GenerateCommand::summary_lines(&rec, "out/.well-known/agent-exchange.json"),
        vec![
            "Generated AX record at out/.well-known/agent-exchange.json",
            "  Agent: Test Agent (Acme Corp)",
        ]
    );
    let no_desc = AgentConfig {
        defaults: AgentDefaults::default(),
        agents: vec![AgentDefinition {
            name: "No Description".into(),
            description: String::new(),
            provider: None,
            endpoints: vec![EndpointDefinition {
                protocol: "rest".into(),
                url: "https://api.acme.com".into(),
                auth: vec![],
                content_type: None,
            }],
            auth: vec![],
            capabilities: None,
            limits: None,
            security: None,
            extensions: None,
            oauth_provider: None,
            oauth_domain: None,
        }],
        server: None,
    };
    match cmd.build_record(&no_desc) {
        Err(GenerateError::Ax(e)) => {
            assert_eq!(e, open_tethyr::error::AxError::MissingField("agent.description".into()))
        }
        _ => panic!("expected a validation failure"),
    }
}

#[test]
fn generate_rejects_agent_without_endpoints() {
    let config = AgentConfig {
        defaults: AgentDefaults::default(),
        agents: vec![AgentDefinition {
            name: "Invalid Agent".into(),
            description: "Missing required fields".into(),
            provider: None,
            endpoints: vec![],
            auth: vec![],
            capabilities: None,
            limits: None,
            security: None,
            extensions: None,
            oauth_provider: None,
            oauth_domain: None,
        }],
        server: None,
    };
    let cmd = GenerateCommand { config: "config.yaml".into(), output: "output".into(), validate: false };
    assert!(cmd.build_record(&config).is_err());
}
