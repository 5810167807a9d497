use vstd::prelude::*;
use super::provider::OAuthProvider;
use crate::error::OAuthError;
use crate::text::{concat, concat3};

verus! {

/// Generic OAuth2: issuer `https://{domain}`, keys at `https://{domain}/.well-known/jwks.json`.
pub struct GenericOAuth2Provider;

impl OAuthProvider for GenericOAuth2Provider {
    open spec fn spec_name(&self) -> Seq<char> {
        "generic"@
    }

    open spec fn spec_endpoints(&self, domain: Seq<char>) -> Result<(Seq<char>, Seq<char>), Seq<char>> {
        Ok(("https://"@ + domain, "https://"@ + domain + "/.well-known/jwks.json"@))
    }

    fn provider_name(&self) -> (r: &str) {
        "generic"
    }

    fn generate_endpoints(&self, domain: &str) -> (r: Result<(String, String), OAuthError>) {
        Ok((concat("https://", domain), concat3("https://", domain, "/.well-known/jwks.json")))
    }
}

} // verus!
