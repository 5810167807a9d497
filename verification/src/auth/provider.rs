//! The provider trait and the registry that looks providers up by name.

use vstd::prelude::*;
use super::auth0::Auth0Provider;
use super::generic::GenericOAuth2Provider;
use super::okta::OktaProvider;
use crate::error::OAuthError;
use crate::text::str_eq;

verus! {

/// A provider of OAuth endpoints: its name, and the (issuer, JWKS URL) pair of a domain.
pub trait OAuthProvider {
    /// The name under which the provider is looked up.
    spec fn spec_name(&self) -> Seq<char>;

    /// The (issuer, JWKS URL) pair for a domain, or, where the provider fails, the text
    /// of its error.
    spec fn spec_endpoints(&self, domain: Seq<char>) -> Result<(Seq<char>, Seq<char>), Seq<char>>;

    fn provider_name(&self) -> (r: &str)
        ensures
            r@ == self.spec_name(),
    ;

    fn generate_endpoints(&self, domain: &str) -> (r: Result<(String, String), OAuthError>)
        ensures
            endpoints_result(r, self.spec_endpoints(domain@)),
    ;
}

/// `r` carries the pair of `e` when there is one, and otherwise an error whose text is
/// that of `e`.
pub open spec fn endpoints_result(
    r: Result<(String, String), OAuthError>,
    e: Result<(Seq<char>, Seq<char>), Seq<char>>,
) -> bool {
    match e {
        Ok(p) => r matches Ok(q) && q.0@ == p.0 && q.1@ == p.1,
        Err(m) => r matches Err(err) && err.spec_message() == m,
    }
}

/// The providers that the library ships.
pub enum BuiltinProvider {
    Okta(OktaProvider),
    Auth0(Auth0Provider),
    Generic(GenericOAuth2Provider),
}

impl OAuthProvider for BuiltinProvider {
    open spec fn spec_name(&self) -> Seq<char> {
        match self {
            BuiltinProvider::Okta(p) => p.spec_name(),
            BuiltinProvider::Auth0(p) => p.spec_name(),
            BuiltinProvider::Generic(p) => p.spec_name(),
        }
    }

    open spec fn spec_endpoints(&self, domain: Seq<char>) -> Result<(Seq<char>, Seq<char>), Seq<char>> {
        match self {
            BuiltinProvider::Okta(p) => p.spec_endpoints(domain),
            BuiltinProvider::Auth0(p) => p.spec_endpoints(domain),
            BuiltinProvider::Generic(p) => p.spec_endpoints(domain),
        }
    }

    fn provider_name(&self) -> (r: &str) {
        match self {
            BuiltinProvider::Okta(p) => p.provider_name(),
            BuiltinProvider::Auth0(p) => p.provider_name(),
            BuiltinProvider::Generic(p) => p.provider_name(),
        }
    }

    fn generate_endpoints(&self, domain: &str) -> (r: Result<(String, String), OAuthError>) {
        match self {
            BuiltinProvider::Okta(p) => p.generate_endpoints(domain),
            BuiltinProvider::Auth0(p) => p.generate_endpoints(domain),
            BuiltinProvider::Generic(p) => p.generate_endpoints(domain),
        }
    }
}

/// A built-in provider or one of the user's own, so that both can share one registry.
pub enum AnyProvider<P: OAuthProvider> {
    Builtin(BuiltinProvider),
    Custom(P),
}

impl<P: OAuthProvider> OAuthProvider for AnyProvider<P> {
    open spec fn spec_name(&self) -> Seq<char> {
        match self {
            AnyProvider::Builtin(p) => p.spec_name(),
            AnyProvider::Custom(p) => p.spec_name(),
        }
    }

    open spec fn spec_endpoints(&self, domain: Seq<char>) -> Result<(Seq<char>, Seq<char>), Seq<char>> {
        match self {
            AnyProvider::Builtin(p) => p.spec_endpoints(domain),
            AnyProvider::Custom(p) => p.spec_endpoints(domain),
        }
    }

    fn provider_name(&self) -> (r: &str) {
        match self {
            AnyProvider::Builtin(p) => p.provider_name(),
            AnyProvider::Custom(p) => p.provider_name(),
        }
    }

    fn generate_endpoints(&self, domain: &str) -> (r: Result<(String, String), OAuthError>) {
        match self {
            AnyProvider::Builtin(p) => p.generate_endpoints(domain),
            AnyProvider::Custom(p) => p.generate_endpoints(domain),
        }
    }
}

/// The index of the first provider named `name`, or -1 when none is.
pub open spec fn first_named<P: OAuthProvider>(ps: Seq<P>, name: Seq<char>) -> int
    decreases ps.len(),
{
    if ps.len() == 0 {
        -1
    } else {
        let f = first_named(ps.drop_last(), name);
        if f >= 0 {
            f
        } else if ps.last().spec_name() == name {
            ps.len() - 1
        } else {
            -1
        }
    }
}

proof fn lemma_first_named<P: OAuthProvider>(ps: Seq<P>, name: Seq<char>)
    ensures
        first_named(ps, name) == -1 <==> forall|i: int|
            0 <= i < ps.len() ==> (#[trigger] ps[i]).spec_name() != name,
        first_named(ps, name) != -1 ==> 0 <= first_named(ps, name) < ps.len() && ps[first_named(
            ps,
            name,
        )].spec_name() == name && forall|i: int|
            0 <= i < first_named(ps, name) ==> (#[trigger] ps[i]).spec_name() != name,
    decreases ps.len(),
{
    if ps.len() > 0 {
        lemma_first_named(ps.drop_last(), name);
        assert forall|i: int| 0 <= i < ps.len() - 1 implies ps.drop_last()[i] == ps[i] by {}
    }
}

/// Providers kept in the order of registration; lookups take the first with the name.
pub struct ProviderRegistry<P: OAuthProvider> {
    pub providers: Vec<P>,
}

impl ProviderRegistry<BuiltinProvider> {
    /// A registry holding Okta, Auth0 and the generic OAuth2 provider, in that order.
    pub fn new() -> (r: Self)
        ensures
            r.providers@.len() == 3,
            r.providers@[0] == BuiltinProvider::Okta(OktaProvider),
            r.providers@[1] == BuiltinProvider::Auth0(Auth0Provider),
            r.providers@[2] == BuiltinProvider::Generic(GenericOAuth2Provider),
    {
        let mut r = ProviderRegistry { providers: Vec::new() };
        r.register_provider(BuiltinProvider::Okta(OktaProvider));
        r.register_provider(BuiltinProvider::Auth0(Auth0Provider));
        r.register_provider(BuiltinProvider::Generic(GenericOAuth2Provider));
        r
    }
}

impl Default for ProviderRegistry<BuiltinProvider> {
    /// The registry of the built-in providers, as `new` makes it.
    fn default() -> (r: Self)
        ensures
            r.providers@ == seq![
                BuiltinProvider::Okta(OktaProvider),
                BuiltinProvider::Auth0(Auth0Provider),
                BuiltinProvider::Generic(GenericOAuth2Provider),
            ],
    {
        let r = Self::new();
        assert(r.providers@ =~= seq![
            BuiltinProvider::Okta(OktaProvider),
            BuiltinProvider::Auth0(Auth0Provider),
            BuiltinProvider::Generic(GenericOAuth2Provider),
        ]);
        r
    }
}

impl<P: OAuthProvider> ProviderRegistry<AnyProvider<P>> {
    /// A registry holding Okta, Auth0 and the generic OAuth2 provider, in that order, to
    /// which providers of type `P` can be added.
    pub fn with_builtins() -> (r: Self)
        ensures
            r.providers@ == seq![
                AnyProvider::<P>::Builtin(BuiltinProvider::Okta(OktaProvider)),
                AnyProvider::<P>::Builtin(BuiltinProvider::Auth0(Auth0Provider)),
                AnyProvider::<P>::Builtin(BuiltinProvider::Generic(GenericOAuth2Provider)),
            ],
    {
        let mut r = ProviderRegistry { providers: Vec::new() };
        r.register_provider(AnyProvider::Builtin(BuiltinProvider::Okta(OktaProvider)));
        r.register_provider(AnyProvider::Builtin(BuiltinProvider::Auth0(Auth0Provider)));
        r.register_provider(AnyProvider::Builtin(BuiltinProvider::Generic(GenericOAuth2Provider)));
        assert(r.providers@ =~= seq![
            AnyProvider::<P>::Builtin(BuiltinProvider::Okta(OktaProvider)),
            AnyProvider::<P>::Builtin(BuiltinProvider::Auth0(Auth0Provider)),
            AnyProvider::<P>::Builtin(BuiltinProvider::Generic(GenericOAuth2Provider)),
        ]);
        r
    }
}

impl<P: OAuthProvider> ProviderRegistry<P> {
    /// A registry with no providers.
    pub fn empty() -> (r: Self)
        ensures
            r.providers@.len() == 0,
    {
        ProviderRegistry { providers: Vec::new() }
    }

    /// Adds a provider after those already registered.
    pub fn register_provider(&mut self, p: P)
        ensures
            final(self).providers@ == old(self).providers@.push(p),
    {
        self.providers.push(p);
    }

    /// The (issuer, JWKS URL) pair that the first provider named `name` gives for `domain`;
    /// `UnknownProvider(name)` when no provider has that name.
    pub fn generate_oauth_config(&self, name: &str, domain: &str) -> (r: Result<
        (String, String),
        OAuthError,
    >)
        ensures
            first_named(self.providers@, name@) == -1 ==> (r matches Err(
                OAuthError::UnknownProvider(s),
            ) && s@ == name@),
            first_named(self.providers@, name@) != -1 ==> endpoints_result(
                r,
                self.providers@[first_named(self.providers@, name@)].spec_endpoints(domain@),
            ),
    {
        proof {
            lemma_first_named(self.providers@, name@);
        }
        let mut i: usize = 0;
        while i < self.providers.len()
            invariant
                i <= self.providers@.len(),
                forall|j: int| 0 <= j < i ==> (#[trigger] self.providers@[j]).spec_name() != name@,
            decreases self.providers@.len() - i,
        {
            let p = &self.providers[i];
            if str_eq(p.provider_name(), name) {
                proof {
                    lemma_first_named(self.providers@, name@);
                    let f = first_named(self.providers@, name@);
                    if f < i {
                        assert(self.providers@[f].spec_name() != name@);
                    }
                    if f > i {
                        assert(self.providers@[i as int].spec_name() != name@);
                    }
                }
                return p.generate_endpoints(domain);
            }
            i = i + 1;
        }
        Err(OAuthError::UnknownProvider(String::from_str(name)))
    }

    /// The names of the registered providers, in order of registration.
    pub fn list_providers(&self) -> (r: Vec<String>)
        ensures
            r@.len() == self.providers@.len(),
            forall|i: int| 0 <= i < r@.len() ==> (#[trigger] r@[i])@ == self.providers@[i].spec_name(),
    {
        let mut r: Vec<String> = Vec::new();
        let mut i: usize = 0;
        while i < self.providers.len()
            invariant
                i <= self.providers@.len(),
                r@.len() == i,
                forall|j: int| 0 <= j < i ==> (#[trigger] r@[j])@ == self.providers@[j].spec_name(),
            decreases self.providers@.len() - i,
        {
            r.push(String::from_str(self.providers[i].provider_name()));
            i = i + 1;
        }
        r
    }

    /// Whether some registered provider is named `name`.
    pub fn has_provider(&self, name: &str) -> (r: bool)
        ensures
            r == exists|i: int|
                0 <= i < self.providers@.len() && (#[trigger] self.providers@[i]).spec_name() == name@,
    {
        let mut i: usize = 0;
        while i < self.providers.len()
            invariant
                i <= self.providers@.len(),
                forall|j: int| 0 <= j < i ==> (#[trigger] self.providers@[j]).spec_name() != name@,
            decreases self.providers@.len() - i,
        {
            if str_eq(self.providers[i].provider_name(), name) {
                return true;
            }
            i = i + 1;
        }
        false
    }
}

/// Registering a provider makes its name known; a name that was known before keeps
/// resolving to the provider it resolved to (the first registration wins).
pub proof fn law_registration<P: OAuthProvider>(ps: Seq<P>, p: P, name: Seq<char>)
    ensures
        first_named(ps.push(p), p.spec_name()) != -1,
        first_named(ps, name) != -1 ==> first_named(ps.push(p), name) == first_named(ps, name),
        first_named(ps, name) == -1 && p.spec_name() == name ==> first_named(ps.push(p), name)
            == ps.len(),
{
    assert(ps.push(p).drop_last() =~= ps);
    assert(ps.push(p).last() == p);
}

} // verus!
