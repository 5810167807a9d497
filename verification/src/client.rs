//! The discovery client: a domain of its own, the HTTP settings, and the cache to ask
//! first where one is known. The fetches are the caller's; the client says where to fetch
//! from and what a failure is reported as.

use vstd::prelude::*;
use crate::error::{ClientError, HttpError};
use crate::http::AxHttpClient;
use crate::text::opt_chars;

verus! {

/// Client for agent discovery.
pub struct OpenTethyr {
    domain: String,
    http_client: AxHttpClient,
    cache_url: Option<String>,
}

impl OpenTethyr {
    /// The client's own domain.
    pub closed spec fn domain_view(&self) -> Seq<char> {
        self.domain@
    }

    /// The cache asked first, where one is known.
    pub closed spec fn cache_view(&self) -> Option<Seq<char>> {
        opt_chars(self.cache_url)
    }

    /// The request timeout, in seconds.
    pub closed spec fn timeout_view(&self) -> u64 {
        self.http_client.timeout_secs
    }

    /// A client for `domain`, with a thirty-second timeout and no cache yet; an empty
    /// domain is refused.
    pub fn new(domain: &str) -> (r: Result<Self, ClientError>)
        ensures
            domain@.len() == 0 <==> r is Err,
            r matches Err(e) ==> (e matches ClientError::InvalidDomain(m) && m@
                == "Domain cannot be empty"@),
            r matches Ok(c) ==> (c.domain_view() == domain@ && c.cache_view() is None
                && c.timeout_view() == 30),
    {
        if domain.is_empty() {
            return Err(ClientError::InvalidDomain(String::from_str("Domain cannot be empty")));
        }
        let http_client = AxHttpClient::new(Some(30));
        Ok(OpenTethyr { domain: String::from_str(domain), http_client, cache_url: None })
    }

    /// Asks `cache_url` first from now on (a cache that DNS discovery announced).
    pub fn use_cache(&mut self, cache_url: String)
        ensures
            final(self).cache_view() == Some(cache_url@),
            final(self).domain_view() == old(self).domain_view(),
            final(self).timeout_view() == old(self).timeout_view(),
    {
        self.cache_url = Some(cache_url);
    }

    /// The cache to ask first, where one is known; discovery falls back to the target
    /// domain itself when there is none or when asking it fails.
    pub fn cache_url(&self) -> (r: Option<&String>)
        ensures
            match r {
                Some(u) => self.cache_view() == Some(u@),
                None => self.cache_view() is None,
            },
    {
        self.cache_url.as_ref()
    }

    /// The client's HTTP settings.
    pub fn http_client(&self) -> (r: &AxHttpClient)
        ensures
            r.timeout_secs == self.timeout_view(),
    {
        &self.http_client
    }

    /// What a failed fetch of `target_domain` is reported as: the domain and the text of
    /// the HTTP error.
    pub fn discovery_failure(target_domain: &str, error: &HttpError) -> (r: ClientError)
        ensures
            r matches ClientError::DiscoveryFailed(d, m) && d@ == target_domain@ && m@
                == error.spec_message(),
    {
        ClientError::DiscoveryFailed(String::from_str(target_domain), error.message())
    }
}

} // verus!
