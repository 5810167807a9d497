use vstd::prelude::*;
use super::provider::OAuthProvider;
use crate::error::OAuthError;
use crate::text::concat3;

verus! {

/// Auth0: issuer `https://{domain}/`, keys at `https://{domain}/.well-known/jwks.json`.
pub struct Auth0Provider;

impl OAuthProvider for Auth0Provider {
    open spec fn spec_name(&self) -> Seq<char> {
        "auth0"@
    }

    open spec fn spec_endpoints(&self, domain: Seq<char>) -> Result<(Seq<char>, Seq<char>), Seq<char>> {
        Ok(("https://"@ + domain + "/"@, "https://"@ + domain + "/.well-known/jwks.json"@))
    }

    fn provider_name(&self) -> (r: &str) {
        "auth0"
    }

    fn generate_endpoints(&self, domain: &str) -> (r: Result<(String, String), OAuthError>) {
        Ok((concat3("https://", domain, "/"), concat3("https://", domain, "/.well-known/jwks.json")))
    }
}

} // verus!
