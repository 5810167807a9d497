use vstd::prelude::*;
use super::provider::OAuthProvider;
use crate::error::OAuthError;
use crate::text::{concat, concat3};

verus! {

/// Okta: issuer `https://{domain}`, keys at `https://{domain}/oauth2/v1/keys`.
pub struct OktaProvider;

impl OAuthProvider for OktaProvider {
    open spec fn spec_name(&self) -> Seq<char> {
        "okta"@
    }

    open spec fn spec_endpoints(&self, domain: Seq<char>) -> Result<(Seq<char>, Seq<char>), Seq<char>> {
        Ok(("https://"@ + domain, "https://"@ + domain + "/oauth2/v1/keys"@))
    }

    fn provider_name(&self) -> (r: &str) {
        "okta"
    }

    fn generate_endpoints(&self, domain: &str) -> (r: Result<(String, String), OAuthError>) {
        Ok((concat("https://", domain), concat3("https://", domain, "/oauth2/v1/keys")))
    }
}

} // verus!
