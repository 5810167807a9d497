//! Generation of AX records from a configuration.

use vstd::prelude::*;
use vstd::string::*;
use super::record::{Agent, AgentExchangeRecord};
use super::types::{Endpoint, Protocol, Security};
use crate::auth::provider::{first_named, BuiltinProvider, OAuthProvider, ProviderRegistry};
use crate::auth::{Auth0Provider, GenericOAuth2Provider, OktaProvider};
use crate::config::merger::{merged, ConfigMerger};
use crate::config::models::{same_endpoint_definition, clone_opt_string, clone_strings, AgentConfig, AgentDefaults, AgentDefinition, EndpointDefinition};
use crate::error::AxError;
use super::validator::{has_error, law_report_agrees_with_check, record_findings, record_passes};
use crate::text::{lowercase, str_eq, to_lowercase};

verus! {

/// `p` is the protocol named by `name` (already lowercased): the four known names map to
/// their protocols, any other name to `Custom(name)`.
pub open spec fn protocol_named(p: Protocol, name: Seq<char>) -> bool {
    if name == "rest"@ {
        p == Protocol::Rest
    } else if name == "graphql"@ {
        p == Protocol::GraphQL
    } else if name == "mcp"@ {
        p == Protocol::MCP
    } else if name == "a2a"@ {
        p == Protocol::A2A
    } else {
        p matches Protocol::Custom(s) && s@ == name
    }
}

impl Protocol {
    /// The protocol that a lowercased protocol name in a configuration stands for.
    pub fn from_lowercase_name(name: String) -> (p: Protocol)
        ensures
            protocol_named(p, name@),
    {
        proof {
            reveal_strlit("rest");
            reveal_strlit("graphql");
            reveal_strlit("mcp");
            reveal_strlit("a2a");
        }
        if str_eq(name.as_str(), "rest") {
            Protocol::Rest
        } else if str_eq(name.as_str(), "graphql") {
            Protocol::GraphQL
        } else if str_eq(name.as_str(), "mcp") {
            Protocol::MCP
        } else if str_eq(name.as_str(), "a2a") {
            Protocol::A2A
        } else {
            Protocol::Custom(name)
        }
    }
}

/// `ep` is the record endpoint generated from the configured endpoint `ed` of agent `def`:
/// its protocol is named by the lowercased protocol text, and it inherits the agent's auth
/// methods when it names none of its own.
pub open spec fn endpoint_from(def: AgentDefinition, ed: EndpointDefinition, ep: Endpoint) -> bool {
    &&& protocol_named(ep.protocol, lowercase(ed.protocol@))
    &&& ep.url == ed.url
    &&& ep.auth@ == (if ed.auth@.len() == 0 {
        def.auth@
    } else {
        ed.auth@
    })
    &&& ep.content_type == ed.content_type
    &&& ep.extra@.len() == 0
}

/// The parts of the record generated from `def` that do not depend on OAuth providers.
pub open spec fn record_core(def: AgentDefinition, r: AgentExchangeRecord) -> bool {
    &&& r.record_type@ == "AX"@
    &&& r.version@ == "1.0"@
    &&& r.agent.name == def.name
    &&& r.agent.description == def.description
    &&& r.agent.provider == def.provider
    &&& r.endpoints@.len() == def.endpoints@.len()
    &&& forall|i: int|
        0 <= i < r.endpoints@.len() ==> endpoint_from(def, def.endpoints@[i], #[trigger] r.endpoints@[i])
    &&& r.capabilities is None
    &&& r.schema is None
    &&& r.limits is None
    &&& r.extensions == def.extensions
}

/// `sec` is the security block for an issuer and a JWKS URL.
pub open spec fn security_for(sec: Security, issuer: Seq<char>, jwks: Seq<char>) -> bool {
    &&& sec.issuer matches Some(i) && i@ == issuer
    &&& sec.jwks_url matches Some(j) && j@ == jwks
    &&& sec.signature is None
    &&& sec.metadata_signature is None
    &&& sec.extra@.len() == 0
}

/// What generating a record from `def` with the providers `ps` gives: without both an OAuth
/// provider and domain, the record with no security block; with them, the provider's issuer
/// and JWKS URL in the security block, or a generation failure when no provider has the name
/// (its text is the lookup error's) or the provider fails (its text is the provider's
/// error's).
pub open spec fn record_outcome<P: OAuthProvider>(
    def: AgentDefinition,
    ps: Seq<P>,
    r: Result<AgentExchangeRecord, AxError>,
) -> bool {
    match (def.oauth_provider, def.oauth_domain) {
        (Some(p), Some(d)) => {
            let k = first_named(ps, p@);
            if k == -1 {
                r matches Err(AxError::GenerationFailed(s)) && s@ == "Unknown provider: "@ + p@
            } else {
                match ps[k].spec_endpoints(d@) {
                    Ok(pair) => r matches Ok(rec) && record_core(def, rec) && (rec.security matches Some(
                        sec,
                    ) && security_for(sec, pair.0, pair.1)),
                    Err(m) => r matches Err(AxError::GenerationFailed(s)) && s@ == m,
                }
            }
        },
        _ => r matches Ok(rec) && record_core(def, rec) && rec.security is None,
    }
}

/// Whether generating a record from `def` with the providers `ps` fails.
pub open spec fn record_fails<P: OAuthProvider>(def: AgentDefinition, ps: Seq<P>) -> bool {
    match (def.oauth_provider, def.oauth_domain) {
        (Some(p), Some(d)) => {
            let k = first_named(ps, p@);
            k == -1 || ps[k].spec_endpoints(d@) is Err
        },
        _ => false,
    }
}

/// `rec` is the record generated, with the built-in providers, from `agent` once it has
/// inherited `defaults`.
pub open spec fn generated_from(defaults: AgentDefaults, agent: AgentDefinition, rec: AgentExchangeRecord) -> bool {
    exists|m: AgentDefinition| merged(defaults, agent, m) && record_outcome(m, builtin_providers(), Ok(rec))
}

/// The providers that a new registry holds, in order.
pub open spec fn builtin_providers() -> Seq<BuiltinProvider> {
    seq![
        BuiltinProvider::Okta(OktaProvider),
        BuiltinProvider::Auth0(Auth0Provider),
        BuiltinProvider::Generic(GenericOAuth2Provider),
    ]
}

/// AX record generator.
pub struct AxGenerator;

impl AxGenerator {
    /// The record for the first agent of the configuration, with the defaults filled in;
    /// a generation failure when the configuration has no agent.
    pub fn generate_record(config: &AgentConfig) -> (r: Result<AgentExchangeRecord, AxError>)
        ensures
            config.agents@.len() == 0 ==> (r matches Err(AxError::GenerationFailed(s)) && s@
                == "No agents in config"@),
            config.agents@.len() > 0 ==> exists|m: AgentDefinition|
                merged(config.defaults, config.agents@[0], m) && record_outcome(
                    m,
                    builtin_providers(),
                    r,
                ),
    {
        let merged_agents = ConfigMerger::merge_all(config);
        let registry = ProviderRegistry::new();
        assert(registry.providers@ =~= builtin_providers());
        if merged_agents.len() == 0 {
            return Err(AxError::GenerationFailed(String::from_str("No agents in config")));
        }
        let r = Self::agent_to_record(&merged_agents[0], &registry);
        assert(merged(config.defaults, config.agents@[0], merged_agents@[0]));
        r
    }

    /// The records of all agents, in order; the first failure, if any, instead.
    pub fn generate_all_records(config: &AgentConfig) -> (r: Result<Vec<AgentExchangeRecord>, AxError>)
        ensures
            r matches Ok(v) ==> v@.len() == config.agents@.len() && forall|i: int|
                0 <= i < v@.len() ==> #[trigger] generated_from(config.defaults, config.agents@[i], v@[i]),
            r is Ok <==> forall|i: int|
                0 <= i < config.agents@.len() ==> !record_fails(
                    #[trigger] config.agents@[i],
                    builtin_providers(),
                ),
            r matches Err(e) ==> exists|k: int|
                0 <= k < config.agents@.len() && record_fails(config.agents@[k], builtin_providers())
                    && (forall|i: int| 0 <= i < k ==> !record_fails(#[trigger] config.agents@[i], builtin_providers()))
                    && exists|m: AgentDefinition|
                    merged(config.defaults, config.agents@[k], m) && record_outcome(
                        m,
                        builtin_providers(),
                        Err(e),
                    ),
    {
        let merged_agents = ConfigMerger::merge_all(config);
        let registry = ProviderRegistry::new();
        assert(registry.providers@ =~= builtin_providers());
        let mut out: Vec<AgentExchangeRecord> = Vec::new();
        let n = merged_agents.len();
        let mut i: usize = 0;
        while i < n
            invariant
                n == merged_agents@.len(),
                n == config.agents@.len(),
                registry.providers@ == builtin_providers(),
                forall|j: int|
                    0 <= j < n ==> merged(config.defaults, config.agents@[j], #[trigger] merged_agents@[j]),
                i <= n,
                out@.len() == i,
                forall|j: int|
                    0 <= j < i ==> record_outcome(merged_agents@[j], builtin_providers(), Ok(#[trigger] out@[j])),
                forall|j: int| 0 <= j < i ==> !record_fails(#[trigger] config.agents@[j], builtin_providers()),
            decreases n - i,
        {
            let r = Self::agent_to_record(&merged_agents[i], &registry);
            assert(merged(config.defaults, config.agents@[i as int], merged_agents@[i as int]));
            match r {
                Ok(rec) => {
                    out.push(rec);
                    assert(out@[i as int] == rec);
                },
                Err(e) => {
                    assert(record_fails(config.agents@[i as int], builtin_providers()));
                    return Err(e);
                },
            }
            i = i + 1;
        }
        assert forall|j: int| 0 <= j < out@.len() implies #[trigger] generated_from(
            config.defaults,
            config.agents@[j],
            out@[j],
        ) by {
            assert(merged(config.defaults, config.agents@[j], merged_agents@[j]));
        }
        Ok(out)
    }

    /// The record generated from one (merged) agent definition.
    pub fn agent_to_record<P: OAuthProvider>(
        agent_def: &AgentDefinition,
        registry: &ProviderRegistry<P>,
    ) -> (r: Result<AgentExchangeRecord, AxError>)
        ensures
            record_outcome(*agent_def, registry.providers@, r),
            r is Err <==> record_fails(*agent_def, registry.providers@),
    {
        let n = agent_def.endpoints.len();
        let mut endpoints: Vec<Endpoint> = Vec::new();
        let mut i: usize = 0;
        while i < n
            invariant
                n == agent_def.endpoints@.len(),
                i <= n,
                endpoints@.len() == i,
                forall|j: int|
                    0 <= j < i ==> endpoint_from(*agent_def, agent_def.endpoints@[j], #[trigger] endpoints@[j]),
            decreases n - i,
        {
            let ed = &agent_def.endpoints[i];
            let protocol = Protocol::from_lowercase_name(to_lowercase(ed.protocol.as_str()));
            let auth = if ed.auth.len() == 0 {
                clone_strings(&agent_def.auth)
            } else {
                clone_strings(&ed.auth)
            };
            let ep = Endpoint {
                protocol,
                url: ed.url.clone(),
                auth,
                content_type: clone_opt_string(&ed.content_type),
                extra: Vec::new(),
            };
            endpoints.push(ep);
            i = i + 1;
        }
        let security = match (&agent_def.oauth_provider, &agent_def.oauth_domain) {
            (Some(provider), Some(domain)) => {
                match registry.generate_oauth_config(provider.as_str(), domain.as_str()) {
                    Ok((issuer, jwks_url)) => Some(
                        Security {
                            issuer: Some(issuer),
                            jwks_url: Some(jwks_url),
                            signature: None,
                            metadata_signature: None,
                            extra: Vec::new(),
                        },
                    ),
                    Err(e) => {
                        return Err(AxError::GenerationFailed(e.message()));
                    },
                }
            },
            _ => None,
        };
        let rec = AgentExchangeRecord {
            record_type: String::from_str("AX"),
            version: String::from_str("1.0"),
            agent: Agent {
                name: agent_def.name.clone(),
                description: agent_def.description.clone(),
                provider: clone_opt_string(&agent_def.provider),
            },
            endpoints,
            capabilities: None,
            schema: None,
            limits: None,
            security,
            extensions: clone_opt_string(&agent_def.extensions),
        };
        Ok(rec)
    }
}

/// A record generated from a definition that has a name, a description and at least one
/// endpoint, each with a URL, passes validation, and its detailed report has no error.
pub proof fn law_generated_record_passes(def: AgentDefinition, rec: AgentExchangeRecord)
    requires
        record_core(def, rec),
        def.name@.len() > 0,
        def.description@.len() > 0,
        def.endpoints@.len() > 0,
        forall|i: int| 0 <= i < def.endpoints@.len() ==> (#[trigger] def.endpoints@[i]).url@.len() > 0,
    ensures
        record_passes(rec),
        !has_error(record_findings(rec)),
{
    assert forall|i: int| 0 <= i < rec.endpoints@.len() implies (#[trigger] rec.endpoints@[i]).url@.len() > 0 by {
        assert(endpoint_from(def, def.endpoints@[i], rec.endpoints@[i]));
    }
    law_report_agrees_with_check(rec);
}

/// A generated record carries the agent's endpoints one for one, in order: each keeps its
/// URL and content type, and its auth methods are its own or, where it names none, the
/// agent's.
pub proof fn law_endpoints_carried<P: OAuthProvider>(
    def: AgentDefinition,
    ps: Seq<P>,
    r: Result<AgentExchangeRecord, AxError>,
)
    requires
        record_outcome(def, ps, r),
        r is Ok,
    ensures
        r->Ok_0.endpoints@.len() == def.endpoints@.len(),
        forall|i: int|
            0 <= i < def.endpoints@.len() ==> (#[trigger] r->Ok_0.endpoints@[i]).url == def.endpoints@[i].url
                && r->Ok_0.endpoints@[i].content_type == def.endpoints@[i].content_type
                && r->Ok_0.endpoints@[i].auth@ == (if def.endpoints@[i].auth@.len() == 0 {
                def.auth@
            } else {
                def.endpoints@[i].auth@
            }),
{
    let rec = r->Ok_0;
    assert forall|i: int| 0 <= i < def.endpoints@.len() implies (#[trigger] rec.endpoints@[i]).url
        == def.endpoints@[i].url && rec.endpoints@[i].content_type == def.endpoints@[i].content_type
        && rec.endpoints@[i].auth@ == (if def.endpoints@[i].auth@.len() == 0 {
        def.auth@
    } else {
        def.endpoints@[i].auth@
    }) by {
        assert(endpoint_from(def, def.endpoints@[i], rec.endpoints@[i]));
    }
}

/// The record generated from an agent and the defaults carries the endpoints that the agent
/// ends up with (its own, or the defaults' where it names none) one for one: each keeps its
/// URL and content type.
pub proof fn law_generated_endpoints(defaults: AgentDefaults, agent: AgentDefinition, rec: AgentExchangeRecord)
    requires
        generated_from(defaults, agent, rec),
    ensures
        ({
            let eds = if agent.endpoints@.len() == 0 {
                defaults.endpoints@
            } else {
                agent.endpoints@
            };
            &&& rec.endpoints@.len() == eds.len()
            &&& forall|i: int|
                0 <= i < eds.len() ==> (#[trigger] rec.endpoints@[i]).url == eds[i].url
                    && rec.endpoints@[i].content_type == eds[i].content_type
        }),
{
    let m = choose|m: AgentDefinition| merged(defaults, agent, m) && record_outcome(m, builtin_providers(), Ok(rec));
    law_endpoints_carried(m, builtin_providers(), Ok(rec));
    let eds = if agent.endpoints@.len() == 0 {
        defaults.endpoints@
    } else {
        agent.endpoints@
    };
    assert forall|i: int| 0 <= i < eds.len() implies (#[trigger] rec.endpoints@[i]).url == eds[i].url
        && rec.endpoints@[i].content_type == eds[i].content_type by {
        assert(same_endpoint_definition(m.endpoints@[i], eds[i]));
        assert(rec.endpoints@[i].url == m.endpoints@[i].url);
    }
}

} // verus!
