//! Validation of configuration values.

use vstd::prelude::*;
use vstd::string::*;
use super::models::{AgentConfig, AgentDefaults, AgentDefinition};
use crate::error::ConfigError;
use crate::text::{concat, is_prefix, parse_u64, parse_u64_spec, starts_with};

verus! {

/// Whether a character is an ASCII letter or digit.
pub open spec fn is_ascii_alnum(c: char) -> bool {
    ('a' <= c && c <= 'z') || ('A' <= c && c <= 'Z') || ('0' <= c && c <= '9')
}

/// The strings that the DNS-name pattern
/// `^([a-zA-Z0-9]([a-zA-Z0-9\-]*[a-zA-Z0-9])?\.)*[a-zA-Z0-9]([a-zA-Z0-9\-]*[a-zA-Z0-9])?$`
/// matches: one or more labels joined by dots, where a label is ASCII letters, digits and
/// hyphens, beginning and ending with a letter or digit. Said character by character: the
/// string is not empty, holds only letters, digits, '-' and '.', begins and ends with a
/// letter or digit, and every dot lies between two letters or digits.
pub open spec fn dns_name_pattern(s: Seq<char>) -> bool {
    &&& s.len() > 0
    &&& forall|i: int| 0 <= i < s.len() ==> is_ascii_alnum(#[trigger] s[i]) || s[i] == '-' || s[i] == '.'
    &&& is_ascii_alnum(s[0])
    &&& is_ascii_alnum(s[s.len() - 1])
    &&& forall|i: int|
        0 < i < s.len() - 1 && #[trigger] s[i] == '.' ==> is_ascii_alnum(s[i - 1]) && is_ascii_alnum(
            s[i + 1],
        )
}

/// The text of the DNS-name pattern.
pub open spec fn dns_pattern_text() -> Seq<char> {
    "^([a-zA-Z0-9]([a-zA-Z0-9\\-]*[a-zA-Z0-9])?\\.)*[a-zA-Z0-9]([a-zA-Z0-9\\-]*[a-zA-Z0-9])?$"@
}

/// `regex_lite::Regex::new` on `pattern`, then `Regex::is_match` on `text`, for the
/// DNS-name pattern: the contract says that this pattern (a valid one, so that compiling it
/// does not fail) matches exactly the strings that `dns_name_pattern` holds of.
#[verifier::external_body]
fn regex_is_match(pattern: &str, text: &str) -> (r: bool)
    requires
        pattern@ == dns_pattern_text(),
    ensures
        r == dns_name_pattern(text@),
{
    match regex_lite::Regex::new(pattern) {
        Ok(re) => re.is_match(text),
        Err(_) => false,
    }
}

/// Whether an agent is complete: it has a name, and at least one endpoint of its own or
/// from the defaults.
pub open spec fn agent_acceptable(defaults: AgentDefaults, a: AgentDefinition) -> bool {
    a.name@.len() > 0 && (a.endpoints@.len() > 0 || defaults.endpoints@.len() > 0)
}

/// The field reported missing for an incomplete agent: its name where that is empty, else
/// its endpoints.
pub open spec fn missing_agent_field(a: AgentDefinition) -> Seq<char> {
    if a.name@.len() == 0 {
        "agent.name"@
    } else {
        "agent.endpoints"@
    }
}

/// Whether the server section, where there is one, has a non-empty domain that the
/// DNS-name pattern matches and a non-zero port.
pub open spec fn server_acceptable(config: AgentConfig) -> bool {
    match config.server {
        Some(server) => server.domain@.len() > 0 && dns_name_pattern(server.domain@) && server.port
            >= 1,
        None => true,
    }
}

/// Whether a configuration passes validation: the server section is acceptable and every
/// agent is complete.
pub open spec fn config_acceptable(config: AgentConfig) -> bool {
    &&& server_acceptable(config)
    &&& forall|i: int|
        0 <= i < config.agents@.len() ==> agent_acceptable(config.defaults, #[trigger] config.agents@[i])
}

/// Configuration validator.
pub struct ConfigValidator;

impl ConfigValidator {
    /// Validates a full configuration: the server's domain and port when there is a server
    /// section, then every agent in order: it needs a name, and an endpoint of its own or
    /// from the defaults.
    pub fn validate_config(config: &AgentConfig) -> (r: Result<(), ConfigError>)
        ensures
            r is Ok <==> config_acceptable(*config),
            config.server matches Some(server) ==> (server.domain@.len() == 0 ==> (r matches Err(
                ConfigError::InvalidDomain(s),
            ) && s@ == "empty domain"@)),
            config.server matches Some(server) ==> (server.domain@.len() > 0 && !dns_name_pattern(
                server.domain@,
            ) ==> (r matches Err(ConfigError::InvalidDomain(s)) && s@ == server.domain@)),
            config.server matches Some(server) ==> (dns_name_pattern(server.domain@) && server.port
                == 0 ==> (r matches Err(ConfigError::InvalidPort(p)) && p == 0)),
            server_acceptable(*config) && r is Err ==> (r matches Err(ConfigError::MissingConfig(s))
                && exists|i: int|
                0 <= i < config.agents@.len() && !agent_acceptable(config.defaults, #[trigger] config.agents@[i])
                    && (forall|j: int| 0 <= j < i ==> agent_acceptable(config.defaults, #[trigger] config.agents@[j]))
                    && s@ == missing_agent_field(config.agents@[i])),
    {
        if let Some(server) = &config.server {
            Self::validate_domain(server.domain.as_str())?;
            Self::validate_port(server.port as u32)?;
        }
        let mut i: usize = 0;
        while i < config.agents.len()
            invariant
                i <= config.agents@.len(),
                forall|j: int| 0 <= j < i ==> agent_acceptable(config.defaults, #[trigger] config.agents@[j]),
                server_acceptable(*config),
            decreases config.agents@.len() - i,
        {
            let agent = &config.agents[i];
            if agent.name.as_str().is_empty() {
                proof {
                    reveal_strlit("agent.name");
                }
                return Err(ConfigError::MissingConfig(String::from_str("agent.name")));
            }
            if agent.endpoints.len() == 0 && config.defaults.endpoints.len() == 0 {
                proof {
                    reveal_strlit("agent.endpoints");
                }
                return Err(ConfigError::MissingConfig(String::from_str("agent.endpoints")));
            }
            i = i + 1;
        }
        Ok(())
    }

    /// Validates a domain name against the DNS-name pattern.
    pub fn validate_domain(domain: &str) -> (r: Result<(), ConfigError>)
        ensures
            domain@.len() == 0 ==> (r matches Err(ConfigError::InvalidDomain(s)) && s@
                == "empty domain"@),
            domain@.len() > 0 && !dns_name_pattern(domain@) ==> (r matches Err(
                ConfigError::InvalidDomain(s),
            ) && s@ == domain@),
            r is Ok <==> dns_name_pattern(domain@),
    {
        if domain.is_empty() {
            return Err(ConfigError::InvalidDomain(String::from_str("empty domain")));
        }
        if !regex_is_match(
            "^([a-zA-Z0-9]([a-zA-Z0-9\\-]*[a-zA-Z0-9])?\\.)*[a-zA-Z0-9]([a-zA-Z0-9\\-]*[a-zA-Z0-9])?$",
            domain,
        ) {
            return Err(ConfigError::InvalidDomain(String::from_str(domain)));
        }
        Ok(())
    }

    /// Validates a URL: it must use HTTPS.
    pub fn validate_url(url: &str) -> (r: Result<(), ConfigError>)
        ensures
            r is Ok <==> url@.len() > 0 && is_prefix("https://"@, url@),
            r is Err ==> (r matches Err(ConfigError::InvalidUrl(s)) && s@ == url@
                + " (must use HTTPS)"@),
    {
        if url.is_empty() || !starts_with(url, "https://") {
            return Err(ConfigError::InvalidUrl(concat(url, " (must use HTTPS)")));
        }
        Ok(())
    }

    /// Validates a port number: 1 to 65535.
    pub fn validate_port(port: u32) -> (r: Result<(), ConfigError>)
        ensures
            r is Ok <==> 1 <= port <= 65535,
            r is Err ==> r == Err::<(), ConfigError>(ConfigError::InvalidPort(port)),
    {
        if !(1 <= port && port <= 65535) {
            return Err(ConfigError::InvalidPort(port));
        }
        Ok(())
    }

    /// Parses and validates a TTL: a positive decimal number of seconds.
    pub fn validate_ttl(ttl: &str) -> (r: Result<u64, ConfigError>)
        ensures
            parse_u64_spec(ttl@) is None ==> (r matches Err(ConfigError::InvalidTtl(s)) && s@ == ttl@),
            parse_u64_spec(ttl@) == Some(0u64) ==> (r matches Err(ConfigError::InvalidTtl(s)) && s@
                == "must be positive"@),
            parse_u64_spec(ttl@) matches Some(v) ==> (v > 0 ==> r == Ok::<u64, ConfigError>(v)),
    {
        match parse_u64(ttl) {
            None => Err(ConfigError::InvalidTtl(String::from_str(ttl))),
            Some(v) => if v == 0 {
                Err(ConfigError::InvalidTtl(String::from_str("must be positive")))
            } else {
                Ok(v)
            },
        }
    }
}

} // verus!
