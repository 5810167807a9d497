//! What the HTTP fetching of AX documents decides: the URLs it fetches, the check of the
//! well-known path, and the errors it reports. The requests themselves are the caller's.

use vstd::prelude::*;
use crate::error::HttpError;
use crate::text::{concat, concat3, ends_with, is_suffix, trim_end_char, trim_end_matches_char};

verus! {

/// The URL of the AX document of `domain`.
pub open spec fn ax_url(domain: Seq<char>) -> Seq<char> {
    "https://_agent."@ + domain + "/.well-known/agent-exchange.json"@
}

/// The URL at which the cache server `cache_url` answers for `domain`: the cache URL
/// without trailing slashes, then `/discover/` and the domain.
pub open spec fn cache_discover_url(cache_url: Seq<char>, domain: Seq<char>) -> Seq<char> {
    trim_end_char(cache_url, '/') + "/discover/"@ + domain
}

/// Whether an HTTP status code is a success (2xx).
pub open spec fn status_success(code: u16) -> bool {
    200 <= code < 300
}

/// The HTTP settings of AX fetching: the request timeout, in seconds.
pub struct AxHttpClient {
    pub timeout_secs: u64,
}

impl AxHttpClient {
    /// Settings with the given timeout, thirty seconds where none is given.
    pub fn new(timeout_secs: Option<u64>) -> (r: Self)
        ensures
            r.timeout_secs == (match timeout_secs {
                Some(t) => t,
                None => 30,
            }),
    {
        let t = match timeout_secs {
            Some(t) => t,
            None => 30,
        };
        AxHttpClient { timeout_secs: t }
    }

    /// The URL of the AX document of `domain`:
    /// `https://_agent.<domain>/.well-known/agent-exchange.json`.
    pub fn build_ax_url(domain: &str) -> (r: String)
        ensures
            r@ == ax_url(domain@),
    {
        concat3("https://_agent.", domain, "/.well-known/agent-exchange.json")
    }

    /// Accepts exactly the paths that end with `/.well-known/agent-exchange.json`.
    pub fn validate_well_known_path(path: &str) -> (r: Result<(), HttpError>)
        ensures
            r is Ok <==> is_suffix("/.well-known/agent-exchange.json"@, path@),
            r matches Err(e) ==> (e matches HttpError::InvalidWellKnownPath(p) && p@ == path@),
    {
        if !ends_with(path, "/.well-known/agent-exchange.json") {
            return Err(HttpError::InvalidWellKnownPath(String::from_str(path)));
        }
        Ok(())
    }

    /// The URL at which the cache server `cache_url` answers for `domain`.
    pub fn cache_url_for(cache_url: &str, domain: &str) -> (r: String)
        ensures
            r@ == cache_discover_url(cache_url@, domain@),
    {
        let base = trim_end_matches_char(cache_url, '/');
        concat3(base.as_str(), "/discover/", domain)
    }

    /// The error for a request that could not be sent: a timeout, with these settings'
    /// timeout, where it timed out; otherwise a failed request with `reason`.
    pub fn send_error(&self, timed_out: bool, reason: String) -> (r: HttpError)
        ensures
            timed_out ==> r == HttpError::Timeout(self.timeout_secs),
            !timed_out ==> r == HttpError::RequestFailed(reason),
    {
        if timed_out {
            HttpError::Timeout(self.timeout_secs)
        } else {
            HttpError::RequestFailed(reason)
        }
    }

    /// Accepts a response from `url` with a 2xx status; any other status is an invalid
    /// response, described as `HTTP ` and the status as `status_text` gives it.
    pub fn check_status(url: &str, status_code: u16, status_text: &str) -> (r: Result<(), HttpError>)
        ensures
            r is Ok <==> status_success(status_code),
            r matches Err(e) ==> (e matches HttpError::InvalidResponse(u, m) && u@ == url@ && m@
                == "HTTP "@ + status_text@),
    {
        if !(200 <= status_code && status_code < 300) {
            return Err(
                HttpError::InvalidResponse(String::from_str(url), concat("HTTP ", status_text)),
            );
        }
        Ok(())
    }
}

} // verus!
