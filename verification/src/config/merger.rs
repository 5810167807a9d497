//! Inheritance of the global defaults by each agent.

use vstd::prelude::*;
use super::models::{
    clone_endpoint_definitions, clone_opt_string, same_endpoint_definition, same_endpoint_definitions, clone_strings, AgentConfig, AgentDefaults,
    AgentDefinition,
};

verus! {

/// `r` is `agent` with the defaults filled in: a value the agent leaves out (`None`, or an
/// empty list of endpoints or auth methods) is taken from `defaults`. Security and the OAuth
/// settings are never inherited.
pub open spec fn merged(defaults: AgentDefaults, agent: AgentDefinition, r: AgentDefinition) -> bool {
    &&& r.name == agent.name
    &&& r.description == agent.description
    &&& r.provider == (if agent.provider is Some {
        agent.provider
    } else {
        defaults.provider
    })
    &&& same_endpoint_definitions(r.endpoints@, if agent.endpoints@.len() == 0 {
        defaults.endpoints@
    } else {
        agent.endpoints@
    })
    &&& r.auth@ == (if agent.auth@.len() == 0 {
        defaults.auth@
    } else {
        agent.auth@
    })
    &&& r.capabilities == (if agent.capabilities is Some {
        agent.capabilities
    } else {
        defaults.capabilities
    })
    &&& r.limits == (if agent.limits is Some {
        agent.limits
    } else {
        defaults.limits
    })
    &&& r.security == agent.security
    &&& r.extensions == (if agent.extensions is Some {
        agent.extensions
    } else {
        defaults.extensions
    })
    &&& r.oauth_provider == agent.oauth_provider
    &&& r.oauth_domain == agent.oauth_domain
}

fn inherit(own: &Option<String>, default: &Option<String>) -> (r: Option<String>)
    ensures
        r == (if own is Some {
            *own
        } else {
            *default
        }),
{
    if own.is_some() {
        clone_opt_string(own)
    } else {
        clone_opt_string(default)
    }
}

/// Configuration merger for inheritance of defaults.
pub struct ConfigMerger;

impl ConfigMerger {
    /// One agent with the defaults filled in.
    pub fn merge_agent(defaults: &AgentDefaults, agent: &AgentDefinition) -> (r: AgentDefinition)
        ensures
            merged(*defaults, *agent, r),
    {
        AgentDefinition {
            name: agent.name.clone(),
            description: agent.description.clone(),
            provider: inherit(&agent.provider, &defaults.provider),
            endpoints: if agent.endpoints.len() == 0 {
                clone_endpoint_definitions(&defaults.endpoints)
            } else {
                clone_endpoint_definitions(&agent.endpoints)
            },
            auth: if agent.auth.len() == 0 {
                clone_strings(&defaults.auth)
            } else {
                clone_strings(&agent.auth)
            },
            capabilities: inherit(&agent.capabilities, &defaults.capabilities),
            limits: inherit(&agent.limits, &defaults.limits),
            security: clone_opt_string(&agent.security),
            extensions: inherit(&agent.extensions, &defaults.extensions),
            oauth_provider: clone_opt_string(&agent.oauth_provider),
            oauth_domain: clone_opt_string(&agent.oauth_domain),
        }
    }

    /// Every agent of the configuration, in order, with the defaults filled in.
    pub fn merge_all(config: &AgentConfig) -> (r: Vec<AgentDefinition>)
        ensures
            r@.len() == config.agents@.len(),
            forall|i: int|
                0 <= i < r@.len() ==> merged(config.defaults, config.agents@[i], #[trigger] r@[i]),
    {
        let mut r: Vec<AgentDefinition> = Vec::new();
        let mut i: usize = 0;
        while i < config.agents.len()
            invariant
                i <= config.agents@.len(),
                r@.len() == i,
                forall|j: int|
                    0 <= j < i ==> merged(config.defaults, config.agents@[j], #[trigger] r@[j]),
            decreases config.agents@.len() - i,
        {
            r.push(Self::merge_agent(&config.defaults, &config.agents[i]));
            i = i + 1;
        }
        r
    }
}

/// `a` and `b` hold the same values (lists compared by their contents).
pub open spec fn same_definition(a: AgentDefinition, b: AgentDefinition) -> bool {
    &&& a.name == b.name
    &&& a.description == b.description
    &&& a.provider == b.provider
    &&& same_endpoint_definitions(a.endpoints@, b.endpoints@)
    &&& a.auth@ == b.auth@
    &&& a.capabilities == b.capabilities
    &&& a.limits == b.limits
    &&& a.security == b.security
    &&& a.extensions == b.extensions
    &&& a.oauth_provider == b.oauth_provider
    &&& a.oauth_domain == b.oauth_domain
}

/// Inheriting the defaults is idempotent: merging an already merged agent with the same
/// defaults again changes nothing.
pub proof fn law_merge_idempotent(
    defaults: AgentDefaults,
    agent: AgentDefinition,
    once: AgentDefinition,
    twice: AgentDefinition,
)
    requires
        merged(defaults, agent, once),
        merged(defaults, once, twice),
    ensures
        same_definition(once, twice),
{
    if once.endpoints@.len() == 0 {
        assert forall|i: int| 0 <= i < twice.endpoints@.len() implies same_endpoint_definition(
            #[trigger] once.endpoints@[i],
            twice.endpoints@[i],
        ) by {}
        assert(agent.endpoints@.len() == 0);
    }
    assert forall|i: int| 0 <= i < once.endpoints@.len() implies same_endpoint_definition(
        #[trigger] once.endpoints@[i],
        twice.endpoints@[i],
    ) by {
        assert(same_endpoint_definition(twice.endpoints@[i], once.endpoints@[i]));
    }
}

/// What an agent sets itself survives the merge: its own provider, endpoints, auth
/// methods, capabilities, limits and extensions, where it has them, are those of the result.
pub proof fn law_agent_values_win(defaults: AgentDefaults, agent: AgentDefinition, r: AgentDefinition)
    requires
        merged(defaults, agent, r),
    ensures
        agent.provider is Some ==> r.provider == agent.provider,
        agent.endpoints@.len() > 0 ==> same_endpoint_definitions(r.endpoints@, agent.endpoints@),
        agent.auth@.len() > 0 ==> r.auth@ == agent.auth@,
        agent.capabilities is Some ==> r.capabilities == agent.capabilities,
        agent.limits is Some ==> r.limits == agent.limits,
        agent.extensions is Some ==> r.extensions == agent.extensions,
        r.name == agent.name && r.description == agent.description,
{
}

/// Whatever an agent leaves out it takes from the defaults: a missing provider, set of
/// capabilities, limits or extensions is the defaults' one, and where the agent names no
/// endpoint or auth method it gets the defaults' ones, field by field; security and the
/// OAuth settings are always the agent's own.
pub proof fn law_defaults_fill_gaps(defaults: AgentDefaults, agent: AgentDefinition, r: AgentDefinition)
    requires
        merged(defaults, agent, r),
    ensures
        agent.provider is None ==> r.provider == defaults.provider,
        agent.capabilities is None ==> r.capabilities == defaults.capabilities,
        agent.limits is None ==> r.limits == defaults.limits,
        agent.extensions is None ==> r.extensions == defaults.extensions,
        agent.auth@.len() == 0 ==> r.auth@ == defaults.auth@,
        agent.endpoints@.len() == 0 ==> r.endpoints@.len() == defaults.endpoints@.len(),
        agent.endpoints@.len() == 0 ==> forall|i: int|
            0 <= i < r.endpoints@.len() ==> (#[trigger] r.endpoints@[i]).url == defaults.endpoints@[i].url
                && r.endpoints@[i].protocol == defaults.endpoints@[i].protocol
                && r.endpoints@[i].auth@ == defaults.endpoints@[i].auth@
                && r.endpoints@[i].content_type == defaults.endpoints@[i].content_type,
        r.security == agent.security,
        r.oauth_provider == agent.oauth_provider,
        r.oauth_domain == agent.oauth_domain,
{
    if agent.endpoints@.len() == 0 {
        assert forall|i: int| 0 <= i < r.endpoints@.len() implies (#[trigger] r.endpoints@[i]).url
            == defaults.endpoints@[i].url && r.endpoints@[i].protocol == defaults.endpoints@[i].protocol
            && r.endpoints@[i].auth@ == defaults.endpoints@[i].auth@ && r.endpoints@[i].content_type
            == defaults.endpoints@[i].content_type by {
            assert(same_endpoint_definition(r.endpoints@[i], defaults.endpoints@[i]));
        }
    }
}

} // verus!
