//! Discovery of AX cache endpoints through DNS: the `_ax-cache.<domain>` TXT records of a
//! domain announce its cache as `endpoint=<url>`. The lookup itself is the caller's; this
//! module names what to look up and reads what came back.

use vstd::prelude::*;
use crate::text::{concat, is_prefix, opt_chars, string_views, strip_prefix, trim, trim_char, trim_matches_char, trim_spec};

verus! {

/// The name whose TXT records announce the cache of `domain`.
pub open spec fn cache_query_name(domain: Seq<char>) -> Seq<char> {
    "_ax-cache."@ + domain
}

/// The endpoint that a TXT record announces: the record, trimmed of white space and then of
/// double quotes at either end, must start with `endpoint=`; what follows, trimmed, is the
/// endpoint, if it is not empty.
pub open spec fn cache_endpoint_of(txt: Seq<char>) -> Option<Seq<char>> {
    let t = trim_char(trim_spec(txt), '"');
    if is_prefix("endpoint="@, t) {
        let url = trim_spec(t.subrange("endpoint="@.len() as int, t.len() as int));
        if url.len() > 0 {
            Some(url)
        } else {
            None
        }
    } else {
        None
    }
}

/// The endpoint of the first record, in order, that announces one.
pub open spec fn first_cache_endpoint_of(records: Seq<Seq<char>>) -> Option<Seq<char>>
    decreases records.len(),
{
    if records.len() == 0 {
        None
    } else {
        match cache_endpoint_of(records[0]) {
            Some(url) => Some(url),
            None => first_cache_endpoint_of(records.drop_first()),
        }
    }
}

/// DNS discovery of cache endpoints.
pub struct DnsDiscovery;

impl DnsDiscovery {
    /// The name to look up for the cache of `domain`: `_ax-cache.<domain>`.
    pub fn cache_query(domain: &str) -> (r: String)
        ensures
            r@ == cache_query_name(domain@),
    {
        concat("_ax-cache.", domain)
    }

    /// Reads `endpoint=<url>` from the text of a TXT record.
    pub fn parse_cache_endpoint(txt: &str) -> (r: Option<String>)
        ensures
            opt_chars(r) == cache_endpoint_of(txt@),
    {
        let trimmed = trim(txt);
        let unquoted = trim_matches_char(trimmed.as_str(), '"');
        match strip_prefix(unquoted.as_str(), "endpoint=") {
            Some(rest) => {
                let url = trim(rest.as_str());
                if url.as_str().is_empty() {
                    None
                } else {
                    Some(url)
                }
            },
            None => None,
        }
    }

    /// The endpoint of the first record, in order, that announces one.
    pub fn first_cache_endpoint(records: &Vec<String>) -> (r: Option<String>)
        ensures
            opt_chars(r) == first_cache_endpoint_of(string_views(records@)),
    {
        let mut i: usize = 0;
        assert(string_views(records@).subrange(0, records@.len() as int) =~= string_views(records@));
        while i < records.len()
            invariant
                i <= records@.len(),
                first_cache_endpoint_of(string_views(records@)) == first_cache_endpoint_of(
                    string_views(records@).subrange(i as int, records@.len() as int),
                ),
            decreases records@.len() - i,
        {
            let ghost rest = string_views(records@).subrange(i as int, records@.len() as int);
            assert(rest[0] == records@[i as int]@);
            assert(rest.drop_first() =~= string_views(records@).subrange(
                i + 1,
                records@.len() as int,
            ));
            match Self::parse_cache_endpoint(records[i].as_str()) {
                Some(url) => {
                    return Some(url);
                },
                None => {},
            }
            i = i + 1;
        }
        None
    }
}

} // verus!
