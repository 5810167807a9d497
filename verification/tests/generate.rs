use open_tethyr::ax::{AgentExchangeDocument, AxGenerator, AxValidator, Protocol};
use open_tethyr::ax::record::{default_record_type, default_version, records_from_readings};
use open_tethyr::auth::{
    AnyProvider, Auth0Provider, BuiltinProvider, GenericOAuth2Provider, OAuthProvider, OktaProvider,
    ProviderRegistry,
};
use open_tethyr::config::{AgentConfig, AgentDefaults, AgentDefinition, EndpointDefinition};
use open_tethyr::error::{AxError, OAuthError};

fn endpoint(protocol: &str, url: &str, auth: Vec<&str>) -> EndpointDefinition {
    EndpointDefinition {
        protocol: protocol.to_string(),
        url: url.to_string(),
        auth: auth.into_iter().map(|a| a.to_string()).collect(),
        content_type: None,
    }
}

fn agent(name: &str) -> AgentDefinition {
    AgentDefinition {
        name: name.to_string(),
        description: "Test agent".to_string(),
        provider: None,
        endpoints: vec![],
        auth: vec![],
        capabilities: None,
        limits: None,
        security: None,
        extensions: None,
        oauth_provider: None,
        oauth_domain: None,
    }
}

fn config(agents: Vec<AgentDefinition>) -> AgentConfig {
    AgentConfig {
        defaults: AgentDefaults {
            provider: Some("test-corp".to_string()),
            auth: vec!["OAuth2".to_string()],
            endpoints: vec![endpoint("rest", "https://api.example.com", vec![])],
            capabilities: None,
            limits: None,
            extensions: None,
        },
        agents,
        server: None,
    }
}

#[test]
fn generate_record_from_first_agent() {
    let record = AxGenerator::generate_record(&config(vec![agent("agent-1"), agent("agent-2")]))
        .expect("generated");
    assert_eq!(record.record_type, "AX");
    assert_eq!(record.version, "1.0");
    assert_eq!(record.agent.name, "agent-1");
    assert_eq!(record.agent.provider, Some("test-corp".to_string()));
    assert_eq!(record.endpoints.len(), 1);
    assert_eq!(record.endpoints[0].protocol, Protocol::Rest);
    assert_eq!(record.endpoints[0].auth, vec!["OAuth2".to_string()]);
    assert!(record.security.is_none());
    assert!(AxValidator::validate_record(&record).is_ok());
}

#[test]
fn generate_record_without_agents_fails() {
    assert_eq!(
        AxGenerator::generate_record(&config(vec![])),
        Err(AxError::GenerationFailed("No agents in config".to_string()))
    );
}

#[test]
fn generate_with_oauth_provider() {
    let mut a = agent("secure");
    a.oauth_provider = Some("okta".to_string());
    a.oauth_domain = Some("acme.okta.com".to_string());
    a.endpoints = vec![endpoint("GraphQL", "https://g.example.com", vec!["JWT"])];
    let record = AxGenerator::generate_record(&config(vec![a])).unwrap();
    let sec = record.security.expect("security block");
    assert_eq!(sec.issuer, Some("https://acme.okta.com".to_string()));
    assert_eq!(sec.jwks_url, Some("https://acme.okta.com/oauth2/v1/keys".to_string()));
    assert_eq!(record.endpoints[0].protocol, Protocol::GraphQL);
    assert_eq!(record.endpoints[0].auth, vec!["JWT".to_string()]);
}

#[test]
fn generate_with_unknown_provider_fails() {
    let mut a = agent("x");
    a.oauth_provider = Some("keycloak".to_string());
    a.oauth_domain = Some("id.example.com".to_string());
    assert_eq!(
        AxGenerator::generate_record(&config(vec![a])),
        Err(AxError::GenerationFailed("Unknown provider: keycloak".to_string()))
    );
}

#[test]
fn generate_all_records_keeps_order_and_custom_protocols() {
    let mut b = agent("b");
    b.endpoints = vec![endpoint("Websocket", "wss://w.example.com", vec![])];
    let all = AxGenerator::generate_all_records(&config(vec![agent("a"), b])).unwrap();
    assert_eq!(all.len(), 2);
    assert_eq!(all[0].agent.name, "a");
    assert_eq!(all[1].endpoints[0].protocol, Protocol::Custom("websocket".to_string()));
}

#[test]
fn provider_registry_lookups() {
    let registry = ProviderRegistry::new();
    assert_eq!(registry.list_providers(), vec!["okta", "auth0", "generic"]);
    assert!(registry.has_provider("auth0"));
    assert!(!registry.has_provider("Auth0"));
    let (issuer, jwks) = registry.generate_oauth_config("auth0", "acme.auth0.com").unwrap();
    assert_eq!(issuer, "https://acme.auth0.com/");
    assert_eq!(jwks, "https://acme.auth0.com/.well-known/jwks.json");
    assert_eq!(
        registry.generate_oauth_config("none", "d"),
        Err(OAuthError::UnknownProvider("none".to_string()))
    );
}

#[test]
fn provider_registry_first_registration_wins() {
    let mut registry: ProviderRegistry<BuiltinProvider> = ProviderRegistry::empty();
    assert!(registry.list_providers().is_empty());
    registry.register_provider(BuiltinProvider::Generic(GenericOAuth2Provider));
    registry.register_provider(BuiltinProvider::Okta(OktaProvider));
    assert!(registry.has_provider("okta"));
    assert_eq!(Auth0Provider.provider_name(), "auth0");
    assert!(registry.generate_oauth_config("generic", "id.example.com").is_ok());
}

#[test]
fn records_from_readings_prefers_flat() {
    let flat = AxGenerator::generate_record(&config(vec![agent("flat")])).unwrap();
    let r: Result<_, String> = records_from_readings(Some(flat), Err("unused".to_string()));
    assert_eq!(r.unwrap()[0].agent.name, "flat");
    let doc = AgentExchangeDocument { records: vec![] };
    let r2: Result<_, String> = records_from_readings(None, Ok(doc));
    assert!(r2.unwrap().is_empty());
    let r3: Result<Vec<_>, String> = records_from_readings(None, Err("bad json".to_string()));
    assert_eq!(r3.unwrap_err(), "bad json");
    assert_eq!(default_record_type(), "AX");
    assert_eq!(default_version(), "1.0");
}

#[test]
fn protocol_debug_text() {
    assert_eq!(Protocol::Rest.debug_text(), format!("{:?}", Protocol::Rest));
    assert_eq!(Protocol::MCP.debug_text(), "MCP");
    let custom = Protocol::Custom("my \"proto\"".to_string());
    assert_eq!(custom.debug_text(), format!("{:?}", custom));
}

struct AcmeProvider;

// The spec functions are for the verifier; compiled code never calls them.
impl OAuthProvider for AcmeProvider {
    fn spec_name(&self) -> vstd::seq::Seq<char> {
        unreachable!()
    }

    fn spec_endpoints(
        &self,
        _domain: vstd::seq::Seq<char>,
    ) -> Result<(vstd::seq::Seq<char>, vstd::seq::Seq<char>), vstd::seq::Seq<char>> {
        unreachable!()
    }

    fn provider_name(&self) -> &str {
        "acme"
    }

    fn generate_endpoints(&self, domain: &str) -> Result<(String, String), OAuthError> {
        Ok((format!("https://{}/sso", domain), format!("https://{}/sso/keys", domain)))
    }
}

#[test]
fn registry_takes_own_provider_beside_builtins() {
    let mut registry: ProviderRegistry<AnyProvider<AcmeProvider>> = ProviderRegistry::with_builtins();
    assert_eq!(registry.list_providers(), vec!["okta", "auth0", "generic"]);
    registry.register_provider(AnyProvider::Custom(AcmeProvider));
    assert!(registry.has_provider("acme"));
    assert_eq!(
        registry.generate_oauth_config("acme", "id.example.com"),
        Ok(("https://id.example.com/sso".to_string(), "https://id.example.com/sso/keys".to_string()))
    );
    assert_eq!(
        registry.generate_oauth_config("nobody", "id.example.com"),
        Err(OAuthError::UnknownProvider("nobody".to_string()))
    );
}

struct BrokenProvider;

// The spec functions are for the verifier; compiled code never calls them.
impl OAuthProvider for BrokenProvider {
    fn spec_name(&self) -> vstd::seq::Seq<char> {
        unreachable!()
    }

    fn spec_endpoints(
        &self,
        _domain: vstd::seq::Seq<char>,
    ) -> Result<(vstd::seq::Seq<char>, vstd::seq::Seq<char>), vstd::seq::Seq<char>> {
        unreachable!()
    }

    fn provider_name(&self) -> &str {
        "broken"
    }

    fn generate_endpoints(&self, _domain: &str) -> Result<(String, String), OAuthError> {
        Err(OAuthError::InvalidConfig("no tenant".to_string()))
    }
}

#[test]
fn provider_failure_text_reaches_generation_error() {
    let mut registry: ProviderRegistry<AnyProvider<BrokenProvider>> = ProviderRegistry::with_builtins();
    registry.register_provider(AnyProvider::Custom(BrokenProvider));
    let mut a = agent("secured");
    a.oauth_provider = Some("broken".to_string());
    a.oauth_domain = Some("id.example.com".to_string());
    assert_eq!(
        AxGenerator::agent_to_record(&a, &registry),
        Err(AxError::GenerationFailed("Invalid provider configuration: no tenant".to_string()))
    );
}
