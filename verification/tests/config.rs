use open_tethyr::config::loader::{read_failure, yaml_failure};
use open_tethyr::config::{
    AgentConfig, AgentDefaults, AgentDefinition, CacheConfig, ConfigMerger, ConfigValidator,
    EndpointDefinition, PolicyConfig, RateLimitConfig, ServerConfig,
};
use open_tethyr::error::ConfigError;

fn endpoint(url: &str) -> EndpointDefinition {
    EndpointDefinition {
        protocol: "REST".to_string(),
        url: url.to_string(),
        auth: vec![],
        content_type: None,
    }
}

fn agent(name: &str) -> AgentDefinition {
    AgentDefinition {
        name: name.to_string(),
        description: "desc".to_string(),
        provider: None,
        endpoints: vec![],
        auth: vec![],
        capabilities: None,
        limits: None,
        security: None,
        extensions: None,
        oauth_provider: None,
        oauth_domain: None,
    }
}

fn server(domain: &str, port: u16) -> ServerConfig {
    ServerConfig {
        domain: domain.to_string(),
        port,
        cache: CacheConfig::default(),
        policy: PolicyConfig::default(),
        rate_limit: RateLimitConfig::default(),
        log_level: "info".to_string(),
    }
}

#[test]
fn merge_fills_missing_values_from_defaults() {
    let defaults = AgentDefaults {
        provider: Some("Acme".to_string()),
        auth: vec!["OAuth2".to_string()],
        endpoints: vec![endpoint("https://api.acme.com")],
        capabilities: None,
        limits: Some("{\"max\":1}".to_string()),
        extensions: None,
    };
    let merged = ConfigMerger::merge_agent(&defaults, &agent("a"));
    assert_eq!(merged.provider, Some("Acme".to_string()));
    assert_eq!(merged.auth, vec!["OAuth2".to_string()]);
    assert_eq!(merged.endpoints.len(), 1);
    assert_eq!(merged.endpoints[0].url, "https://api.acme.com");
    assert_eq!(merged.limits, Some("{\"max\":1}".to_string()));
}

#[test]
fn merge_keeps_agent_values() {
    let defaults = AgentDefaults {
        provider: Some("Acme".to_string()),
        auth: vec!["OAuth2".to_string()],
        endpoints: vec![endpoint("https://api.acme.com")],
        capabilities: None,
        limits: None,
        extensions: None,
    };
    let mut a = agent("a");
    a.provider = Some("Orders".to_string());
    a.auth = vec!["JWT".to_string()];
    a.endpoints = vec![endpoint("https://orders.acme.com")];
    let merged = ConfigMerger::merge_agent(&defaults, &a);
    assert_eq!(merged.provider, Some("Orders".to_string()));
    assert_eq!(merged.auth, vec!["JWT".to_string()]);
    assert_eq!(merged.endpoints[0].url, "https://orders.acme.com");
    let twice = ConfigMerger::merge_agent(&defaults, &merged);
    assert_eq!(twice.provider, merged.provider);
    assert_eq!(twice.auth, merged.auth);
}

#[test]
fn merge_all_keeps_order() {
    let config = AgentConfig {
        defaults: AgentDefaults::default(),
        agents: vec![agent("first"), agent("second")],
        server: None,
    };
    let all = ConfigMerger::merge_all(&config);
    assert_eq!(all.len(), 2);
    assert_eq!(all[0].name, "first");
    assert_eq!(all[1].name, "second");
}

#[test]
fn validator_checks_server_and_agents() {
    let mut config = AgentConfig {
        defaults: AgentDefaults::default(),
        agents: vec![agent("a")],
        server: Some(server("example.com", 8080)),
    };
    assert_eq!(
        ConfigValidator::validate_config(&config),
        Err(ConfigError::MissingConfig("agent.endpoints".to_string()))
    );
    config.defaults.endpoints = vec![endpoint("https://api.example.com")];
    assert!(ConfigValidator::validate_config(&config).is_ok());
    config.server = Some(server("bad_domain!", 8080));
    assert_eq!(
        ConfigValidator::validate_config(&config),
        Err(ConfigError::InvalidDomain("bad_domain!".to_string()))
    );
    config.server = Some(server("", 8080));
    assert_eq!(
        ConfigValidator::validate_config(&config),
        Err(ConfigError::InvalidDomain("empty domain".to_string()))
    );
    config.server = Some(server("example.com", 0));
    assert_eq!(ConfigValidator::validate_config(&config), Err(ConfigError::InvalidPort(0)));
    config.server = None;
    config.agents = vec![agent("")];
    assert_eq!(
        ConfigValidator::validate_config(&config),
        Err(ConfigError::MissingConfig("agent.name".to_string()))
    );
}

#[test]
fn validator_domain_url_port_ttl() {
    assert!(ConfigValidator::validate_domain("sub.example.com").is_ok());
    assert!(ConfigValidator::validate_domain("-bad.com").is_err());
    assert!(ConfigValidator::validate_domain("a..b").is_err());
    assert!(ConfigValidator::validate_url("https://x.com").is_ok());
    assert_eq!(
        ConfigValidator::validate_url("http://x.com"),
        Err(ConfigError::InvalidUrl("http://x.com (must use HTTPS)".to_string()))
    );
    assert!(ConfigValidator::validate_port(65535).is_ok());
    assert_eq!(ConfigValidator::validate_port(70000), Err(ConfigError::InvalidPort(70000)));
    assert_eq!(ConfigValidator::validate_ttl("300"), Ok(300));
    assert_eq!(
        ConfigValidator::validate_ttl("0"),
        Err(ConfigError::InvalidTtl("must be positive".to_string()))
    );
    assert_eq!(
        ConfigValidator::validate_ttl("5m"),
        Err(ConfigError::InvalidTtl("5m".to_string()))
    );
}

#[test]
fn loader_error_messages() {
    assert_eq!(
        read_failure("agents.yaml", "No such file"),
        ConfigError::ParseError("Failed to read agents.yaml: No such file".to_string())
    );
    assert_eq!(
        yaml_failure("bad indent"),
        ConfigError::ParseError("YAML parse error: bad indent".to_string())
    );
}

#[test]
fn config_defaults() {
    assert_eq!(open_tethyr::config::models::default_domain(), "localhost");
    assert_eq!(open_tethyr::config::models::default_port(), 8080);
    assert_eq!(open_tethyr::config::models::default_log_level(), "info");
    assert_eq!(open_tethyr::config::models::default_max_entries(), 10_000);
    assert_eq!(open_tethyr::config::models::default_ttl(), 3600);
    assert_eq!(open_tethyr::config::models::default_cleanup_interval(), 300);
    assert!(open_tethyr::config::models::default_enable_lru());
    assert_eq!(open_tethyr::config::models::default_rpm(), 60);
    assert_eq!(open_tethyr::config::models::default_rph(), 1000);
}

#[test]
fn validator_accepts_agent_with_own_endpoint() {
    let mut a = agent("own");
    a.endpoints = vec![endpoint("https://own.example.com")];
    let config = AgentConfig { defaults: AgentDefaults::default(), agents: vec![a], server: None };
    assert!(ConfigValidator::validate_config(&config).is_ok());
}
