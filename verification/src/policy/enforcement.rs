//! Policy enforcement engine for domain locking and allowlist management.

use vstd::prelude::*;
use vstd::string::*;
use crate::config::validator::is_ascii_alnum;
use crate::net::IpAddr;
use crate::text::{
    char_vec_views, chars_of, concat3, contains_str, contains_text, ends_with, is_suffix,
    split_char, split_chars,
};

verus! {

/// Why a discovery request is refused.
#[derive(Debug, Clone, PartialEq, Eq)]
pub enum PolicyViolation {
    DomainNotAllowed { domain: String },
    ExternalDomainBlocked { domain: String },
    InvalidDomain { domain: String },
}

impl PolicyViolation {
    /// The text that describes the violation.
    pub open spec fn spec_message(&self) -> Seq<char> {
        match self {
            PolicyViolation::DomainNotAllowed { domain } => "Domain '"@ + domain@
                + "' is not allowed by domain locking policy"@,
            PolicyViolation::ExternalDomainBlocked { domain } => "External domain '"@ + domain@
                + "' is not in allowlist"@,
            PolicyViolation::InvalidDomain { domain } => "Invalid domain format: '"@ + domain@ + "'"@,
        }
    }

    /// The text that describes the violation.
    pub fn message(&self) -> (r: String)
        ensures
            r@ == self.spec_message(),
    {
        match self {
            PolicyViolation::DomainNotAllowed { domain } => concat3(
                "Domain '",
                domain.as_str(),
                "' is not allowed by domain locking policy",
            ),
            PolicyViolation::ExternalDomainBlocked { domain } => concat3(
                "External domain '",
                domain.as_str(),
                "' is not in allowlist",
            ),
            PolicyViolation::InvalidDomain { domain } => concat3(
                "Invalid domain format: '",
                domain.as_str(),
                "'",
            ),
        }
    }
}

/// Domain policy configuration. The domain lists are sets: only membership matters.
pub struct DomainPolicy {
    /// Enable domain locking (only allow configured domains).
    pub domain_locking_enabled: bool,
    /// Domains allowed for discovery.
    pub allowed_domains: Vec<String>,
    /// External domains (outside the organization) allowed for discovery.
    pub external_allowlist: Vec<String>,
    /// Organization domain suffix, by which internal domains are recognized.
    pub organization_domain: Option<String>,
}

impl Default for DomainPolicy {
    fn default() -> (r: Self)
        ensures
            !r.domain_locking_enabled,
            r.allowed_domains@.len() == 0,
            r.external_allowlist@.len() == 0,
            r.organization_domain is None,
    {
        DomainPolicy {
            domain_locking_enabled: false,
            allowed_domains: Vec::new(),
            external_allowlist: Vec::new(),
            organization_domain: None,
        }
    }
}

/// Whether `l` is a valid DNS label: 1 to 63 characters, ASCII letters, digits and
/// hyphens, neither beginning nor ending with a hyphen.
pub open spec fn valid_label(l: Seq<char>) -> bool {
    &&& 0 < l.len() <= 63
    &&& forall|i: int| 0 <= i < l.len() ==> is_ascii_alnum(#[trigger] l[i]) || l[i] == '-'
    &&& l[0] != '-'
    &&& l[l.len() - 1] != '-'
}

/// Whether `d` is a well-formed domain name: 1 to 253 characters, at least two labels
/// separated by dots, each label valid. (Lengths count characters; where that differs from
/// the byte count, the name holds a character that no label allows.)
pub open spec fn valid_domain(d: Seq<char>) -> bool {
    let labels = split_char(d, '.');
    &&& 0 < d.len() <= 253
    &&& labels.len() >= 2
    &&& forall|i: int| 0 <= i < labels.len() ==> valid_label(#[trigger] labels[i])
}

/// Whether `d` lies outside the organization: there is an organization domain and `d`
/// does not end with it.
pub open spec fn external_domain(policy: DomainPolicy, d: Seq<char>) -> bool {
    match policy.organization_domain {
        Some(org) => !is_suffix(org@, d),
        None => false,
    }
}

/// Which rule refuses a discovery request.
pub enum Refusal {
    /// The domain is not well formed.
    Invalid,
    /// The domain is external and not on the external allowlist.
    ExternalBlocked,
    /// The domain is not allowed by domain locking.
    NotAllowed,
}

/// The outcome of a discovery request for `d` under `policy`: `None` when it is allowed,
/// otherwise the rule that refuses it.
pub open spec fn discovery_refusal(policy: DomainPolicy, d: Seq<char>) -> Option<Refusal> {
    if !valid_domain(d) {
        Some(Refusal::Invalid)
    } else if !policy.domain_locking_enabled {
        None
    } else if contains_text(policy.allowed_domains@, d) {
        None
    } else if external_domain(policy, d) {
        if contains_text(policy.external_allowlist@, d) {
            None
        } else {
            Some(Refusal::ExternalBlocked)
        }
    } else {
        Some(Refusal::NotAllowed)
    }
}

fn valid_label_exec(l: &Vec<char>) -> (r: bool)
    ensures
        r == valid_label(l@),
{
    let n = l.len();
    if n == 0 || n > 63 {
        return false;
    }
    let mut i: usize = 0;
    while i < n
        invariant
            n == l@.len(),
            i <= n,
            forall|j: int| 0 <= j < i ==> is_ascii_alnum(#[trigger] l@[j]) || l@[j] == '-',
        decreases n - i,
    {
        let c = l[i];
        if !(('a' <= c && c <= 'z') || ('A' <= c && c <= 'Z') || ('0' <= c && c <= '9') || c == '-') {
            assert(!(is_ascii_alnum(l@[i as int]) || l@[i as int] == '-'));
            return false;
        }
        i = i + 1;
    }
    l[0] != '-' && l[n - 1] != '-'
}

/// Policy enforcement engine.
pub struct PolicyEngine {
    pub domain_policy: DomainPolicy,
}

impl PolicyEngine {
    /// An engine enforcing the given domain policy.
    pub fn new(domain_policy: DomainPolicy) -> (r: Self)
        ensures
            r.domain_policy == domain_policy,
    {
        PolicyEngine { domain_policy }
    }

    /// An engine with the default, permissive policy: domain locking off.
    pub fn permissive() -> (r: Self)
        ensures
            !r.domain_policy.domain_locking_enabled,
            r.domain_policy.allowed_domains@.len() == 0,
            r.domain_policy.external_allowlist@.len() == 0,
            r.domain_policy.organization_domain is None,
    {
        Self::new(DomainPolicy::default())
    }

    /// Decides a discovery request for `target_domain`. The domain must be well formed;
    /// with domain locking on, it must also be an allowed domain, or an external domain on
    /// the external allowlist. `client_ip` and `correlation_id` identify the request in the
    /// audit log that the caller keeps; they do not change the decision.
    pub fn validate_discovery_request(
        &self,
        target_domain: &str,
        client_ip: IpAddr,
        correlation_id: &str,
    ) -> (r: Result<(), PolicyViolation>)
        ensures
            discovery_refusal(self.domain_policy, target_domain@) is None <==> r is Ok,
            discovery_refusal(self.domain_policy, target_domain@) == Some(Refusal::Invalid) ==> (r matches Err(
                PolicyViolation::InvalidDomain { domain },
            ) && domain@ == target_domain@),
            discovery_refusal(self.domain_policy, target_domain@) == Some(Refusal::ExternalBlocked) ==> (r matches Err(
                PolicyViolation::ExternalDomainBlocked { domain },
            ) && domain@ == target_domain@),
            discovery_refusal(self.domain_policy, target_domain@) == Some(Refusal::NotAllowed) ==> (r matches Err(
                PolicyViolation::DomainNotAllowed { domain },
            ) && domain@ == target_domain@),
    {
        if !self.is_valid_domain(target_domain) {
            return Err(PolicyViolation::InvalidDomain { domain: String::from_str(target_domain) });
        }
        if !self.domain_policy.domain_locking_enabled {
            return Ok(());
        }
        if contains_str(&self.domain_policy.allowed_domains, target_domain) {
            return Ok(());
        }
        if self.is_external_domain(target_domain) {
            if contains_str(&self.domain_policy.external_allowlist, target_domain) {
                return Ok(());
            } else {
                return Err(
                    PolicyViolation::ExternalDomainBlocked { domain: String::from_str(target_domain) },
                );
            }
        }
        Err(PolicyViolation::DomainNotAllowed { domain: String::from_str(target_domain) })
    }

    /// Whether a domain lies outside the organization.
    pub fn is_external_domain(&self, domain: &str) -> (r: bool)
        ensures
            r == external_domain(self.domain_policy, domain@),
    {
        match &self.domain_policy.organization_domain {
            Some(org) => !ends_with(domain, org.as_str()),
            None => false,
        }
    }

    /// Whether a domain name is well formed.
    pub fn is_valid_domain(&self, domain: &str) -> (r: bool)
        ensures
            r == valid_domain(domain@),
    {
        let cs = chars_of(domain);
        if cs.len() == 0 || cs.len() > 253 {
            return false;
        }
        let parts = split_chars(&cs, '.');
        if parts.len() < 2 {
            return false;
        }
        let mut i: usize = 0;
        while i < parts.len()
            invariant
                i <= parts@.len(),
                char_vec_views(parts@) == split_char(domain@, '.'),
                forall|j: int| 0 <= j < i ==> valid_label(#[trigger] split_char(domain@, '.')[j]),
            decreases parts@.len() - i,
        {
            if !valid_label_exec(&parts[i]) {
                assert(split_char(domain@, '.')[i as int] == parts@[i as int]@);
                return false;
            }
            assert(split_char(domain@, '.')[i as int] == parts@[i as int]@);
            i = i + 1;
        }
        true
    }

    /// The domain policy in force.
    pub fn domain_policy(&self) -> (r: &DomainPolicy)
        ensures
            *r == self.domain_policy,
    {
        &self.domain_policy
    }

    /// Replaces the domain policy.
    pub fn update_domain_policy(&mut self, policy: DomainPolicy)
        ensures
            final(self).domain_policy == policy,
    {
        self.domain_policy = policy;
    }
}

/// Under a policy without domain locking, exactly the well-formed domains are allowed.
pub proof fn law_unlocked_allows_valid(policy: DomainPolicy, d: Seq<char>)
    requires
        !policy.domain_locking_enabled,
    ensures
        discovery_refusal(policy, d) is None <==> valid_domain(d),
{
}

/// A malformed domain is refused as malformed under every policy.
pub proof fn law_invalid_always_refused(policy: DomainPolicy, d: Seq<char>)
    requires
        !valid_domain(d),
    ensures
        discovery_refusal(policy, d) == Some(Refusal::Invalid),
{
}

/// A well-formed domain on the allowed list is allowed under every policy.
pub proof fn law_listed_always_allowed(policy: DomainPolicy, d: Seq<char>)
    requires
        valid_domain(d),
        contains_text(policy.allowed_domains@, d),
    ensures
        discovery_refusal(policy, d) is None,
{
}

/// Domain locking only ever restricts: what a locked policy allows, the same policy with
/// locking off allows too.
pub proof fn law_locking_only_restricts(policy: DomainPolicy, d: Seq<char>)
    requires
        discovery_refusal(policy, d) is None,
    ensures
        discovery_refusal(DomainPolicy { domain_locking_enabled: false, ..policy }, d) is None,
{
}

} // verus!
