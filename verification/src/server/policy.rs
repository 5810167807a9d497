//! Domain locking for the cache server.

use vstd::prelude::*;
use vstd::string::*;
use crate::error::ServerError;
use crate::text::{concat, concat3, contains_str, contains_text, ends_with, is_suffix, str_eq};

verus! {

/// Policy engine for domain locking and allowlists.
pub struct PolicyEngine {
    pub domain_locking: bool,
    pub home_domain: Option<String>,
    pub allowlist: Vec<String>,
}

/// Whether `d` is the home domain `home` or one of its subdomains.
pub open spec fn within_home(d: Seq<char>, home: Seq<char>) -> bool {
    d == home || is_suffix("."@ + home, d)
}

/// Whether the policy allows discovery of `d`: always without domain locking; with it,
/// for the home domain and its subdomains, and for the domains on the allowlist.
pub open spec fn discovery_allowed(p: PolicyEngine, d: Seq<char>) -> bool {
    ||| !p.domain_locking
    ||| (p.home_domain matches Some(h) && within_home(d, h@))
    ||| contains_text(p.allowlist@, d)
}

impl PolicyEngine {
    /// An engine with the given settings.
    pub fn new(domain_locking: bool, home_domain: Option<String>, allowlist: Vec<String>) -> (r: Self)
        ensures
            r.domain_locking == domain_locking,
            r.home_domain == home_domain,
            r.allowlist == allowlist,
    {
        PolicyEngine { domain_locking, home_domain, allowlist }
    }

    /// Checks whether discovery is allowed for a domain; a policy violation naming the
    /// domain when it is not.
    pub fn check_discovery_allowed(&self, domain: &str) -> (r: Result<(), ServerError>)
        ensures
            r is Ok <==> discovery_allowed(*self, domain@),
            r is Err ==> (r matches Err(ServerError::PolicyViolation(s)) && s@ == "Domain '"@ + domain@
                + "' is not allowed by policy"@),
    {
        if !self.domain_locking {
            return Ok(());
        }
        if let Some(home) = &self.home_domain {
            let dotted = concat(".", home.as_str());
            if str_eq(domain, home.as_str()) || ends_with(domain, dotted.as_str()) {
                return Ok(());
            }
        }
        if contains_str(&self.allowlist, domain) {
            return Ok(());
        }
        Err(ServerError::PolicyViolation(concat3("Domain '", domain, "' is not allowed by policy")))
    }
}

impl Default for PolicyEngine {
    fn default() -> (r: Self)
        ensures
            !r.domain_locking,
            r.home_domain is None,
            r.allowlist@.len() == 0,
    {
        Self::new(false, None, Vec::new())
    }
}

/// Without domain locking every domain is allowed.
pub proof fn law_unlocked_allows_all(p: PolicyEngine, d: Seq<char>)
    requires
        !p.domain_locking,
    ensures
        discovery_allowed(p, d),
{
}

/// The home domain and its subdomains are always allowed, and so is every domain on the
/// allowlist.
pub proof fn law_home_and_listed_allowed(p: PolicyEngine, d: Seq<char>)
    requires
        (p.home_domain matches Some(h) && within_home(d, h@)) || contains_text(p.allowlist@, d),
    ensures
        discovery_allowed(p, d),
{
}

} // verus!
