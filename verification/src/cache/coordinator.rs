//! Hierarchical discovery: the local cache first, then a root cache where one is
//! configured, then the domain itself.
//!
//! The fetches are the caller's: each step here says what to do next, and the caller
//! performs the fetch and hands back how it went.

use vstd::prelude::*;
use crate::cache::memory::{
    entry_for, expired_after, holds_key, law_store_keeps_others, lemma_stored, stored, touched, unique_keys, without,
    CacheEntry, MemoryCache,
};
use crate::clock::instant_now;
use crate::error::CacheError;
use crate::text::{concat3, opt_chars};

verus! {

/// How a fetch of a domain's document went, as the caller reports it.
pub enum FetchOutcome {
    /// The document was fetched; its JSON text.
    Fetched(String),
    /// The fetch failed; the reason.
    FetchFailed(String),
    /// The document was fetched but could not be turned into JSON text; the reason.
    EncodeFailed(String),
}

/// What discovery asks of the caller next.
pub enum DiscoveryAction {
    /// Discovery is over, with this result.
    Done(Result<String, CacheError>),
    /// Fetch the document from the root cache at this URL, then call
    /// `CacheCoordinator::after_root_fetch`.
    FetchFromRoot(String),
    /// Fetch the document from the domain itself, then call
    /// `CacheCoordinator::after_direct_fetch`.
    FetchDirect,
}

/// The local cache, with what discovery needs around it.
pub struct CacheCoordinator {
    local_cache: MemoryCache,
    root_cache_url: Option<String>,
    default_ttl: u64,
}

/// Whether `after` is `before` with a fresh entry holding `data` (time to live `ttl`,
/// cacheable) stored under `domain`.
pub open spec fn stored_fresh(
    before: Seq<(Seq<char>, CacheEntry)>,
    after: Seq<(Seq<char>, CacheEntry)>,
    domain: Seq<char>,
    data: Seq<char>,
    ttl: u64,
    cap: nat,
) -> bool {
    &&& holds_key(after, domain)
    &&& entry_for(after, domain).data@ == data
    &&& entry_for(after, domain).ttl == ttl
    &&& !entry_for(after, domain).no_cache
    &&& after == stored(before, domain, entry_for(after, domain), cap)
}

impl CacheCoordinator {
    /// The entries of the local cache, most recently used first.
    pub closed spec fn local_view(&self) -> Seq<(Seq<char>, CacheEntry)> {
        self.local_cache@
    }

    /// The capacity of the local cache.
    pub closed spec fn local_capacity(&self) -> nat {
        self.local_cache.capacity()
    }

    /// The root cache URL, if one is configured.
    pub closed spec fn root_url(&self) -> Option<Seq<char>> {
        opt_chars(self.root_cache_url)
    }

    /// The time to live, in seconds, of what discovery stores.
    pub closed spec fn ttl(&self) -> u64 {
        self.default_ttl
    }

    /// The local cache is well formed.
    pub closed spec fn wf(&self) -> bool {
        self.local_cache.wf()
    }

    /// A coordinator with an empty local cache for `max_entries` entries. An empty root
    /// cache URL is refused.
    pub fn new(max_entries: usize, default_ttl_secs: u64, root_cache_url: Option<String>) -> (r:
        Result<Self, CacheError>)
        ensures
            (root_cache_url matches Some(u) && u@.len() == 0) <==> r is Err,
            r matches Err(e) ==> (e matches CacheError::CircularDependency(m) && m@
                == "Empty root cache URL"@),
            r matches Ok(c) ==> (c.wf() && c.local_view() == Seq::<
                (Seq<char>, CacheEntry),
            >::empty() && c.local_capacity() == crate::cache::memory::capacity_for(max_entries)
                && c.root_url() == opt_chars(root_cache_url) && c.ttl() == default_ttl_secs),
    {
        match &root_cache_url {
            Some(url) => {
                if url.as_str().is_empty() {
                    return Err(
                        CacheError::CircularDependency(String::from_str("Empty root cache URL")),
                    );
                }
            },
            None => {},
        }
        Ok(
            CacheCoordinator {
                local_cache: MemoryCache::new(max_entries),
                root_cache_url,
                default_ttl: default_ttl_secs,
            },
        )
    }

    /// Stores `json` for `domain` as a fresh entry.
    fn store_fetched(&mut self, domain: &str, json: &String)
        requires
            old(self).wf(),
        ensures
            final(self).wf(),
            final(self).local_capacity() == old(self).local_capacity(),
            final(self).root_url() == old(self).root_url(),
            final(self).ttl() == old(self).ttl(),
            stored_fresh(
                old(self).local_view(),
                final(self).local_view(),
                domain@,
                json@,
                old(self).ttl(),
                old(self).local_capacity(),
            ),
    {
        let entry = CacheEntry {
            data: json.clone(),
            created_at: instant_now(),
            ttl: self.default_ttl,
            no_cache: false,
        };
        let ghost e = entry;
        proof {
            self.local_cache.lemma_wf();
            lemma_stored(self.local_cache@, domain@, e, self.local_cache.capacity());
        }
        let _ = self.local_cache.put(domain.to_owned(), entry);
    }

    /// The first step of discovery for `domain`: a fresh local entry answers at once;
    /// otherwise the root cache is asked where one is configured, and the domain itself
    /// where none is.
    pub fn begin_discovery(&mut self, domain: &str) -> (r: DiscoveryAction)
        requires
            old(self).wf(),
        ensures
            final(self).wf(),
            final(self).local_capacity() == old(self).local_capacity(),
            final(self).root_url() == old(self).root_url(),
            final(self).ttl() == old(self).ttl(),
            r matches DiscoveryAction::Done(res) ==> (holds_key(old(self).local_view(), domain@)
                && final(self).local_view() == touched(old(self).local_view(), domain@) && (res matches Ok(
                data) && data@ == entry_for(old(self).local_view(), domain@).data@)),
            !(r is Done) ==> final(self).local_view() == without(old(self).local_view(), domain@),
            !(r is Done) && old(self).root_url() is None ==> r is FetchDirect,
            !(r is Done) && old(self).root_url() is Some ==> (r matches DiscoveryAction::FetchFromRoot(
                u,
            ) && Some(u@) == old(self).root_url()),
            !holds_key(old(self).local_view(), domain@) ==> !(r is Done),
    {
        match self.local_cache.get(domain) {
            Some(entry) => DiscoveryAction::Done(Ok(entry.data)),
            None => match &self.root_cache_url {
                Some(url) => DiscoveryAction::FetchFromRoot(url.clone()),
                None => DiscoveryAction::FetchDirect,
            },
        }
    }

    /// The step after fetching `domain` from the root cache: a fetched document is stored
    /// and returned; a failed fetch falls back to the domain itself; a document that could
    /// not be encoded ends discovery with `OperationFailed`.
    pub fn after_root_fetch(&mut self, domain: &str, outcome: FetchOutcome) -> (r: DiscoveryAction)
        requires
            old(self).wf(),
        ensures
            final(self).wf(),
            final(self).local_capacity() == old(self).local_capacity(),
            final(self).root_url() == old(self).root_url(),
            final(self).ttl() == old(self).ttl(),
            outcome matches FetchOutcome::Fetched(json) ==> ((r matches DiscoveryAction::Done(res)
                && res matches Ok(d) && d@ == json@) && stored_fresh(
                old(self).local_view(),
                final(self).local_view(),
                domain@,
                json@,
                old(self).ttl(),
                old(self).local_capacity(),
            )),
            outcome is FetchFailed ==> r is FetchDirect && final(self).local_view() == old(
                self,
            ).local_view(),
            outcome matches FetchOutcome::EncodeFailed(m) ==> ((r matches DiscoveryAction::Done(res)
                && res matches Err(e) && e matches CacheError::OperationFailed(m2) && m2@ == m@)
                && final(self).local_view() == old(self).local_view()),
    {
        match outcome {
            FetchOutcome::Fetched(json) => {
                self.store_fetched(domain, &json);
                DiscoveryAction::Done(Ok(json))
            },
            FetchOutcome::FetchFailed(_) => DiscoveryAction::FetchDirect,
            FetchOutcome::EncodeFailed(m) => DiscoveryAction::Done(
                Err(CacheError::OperationFailed(m)),
            ),
        }
    }

    /// The step after fetching `domain` from the domain itself: a fetched document is
    /// stored and returned; a failed fetch ends discovery with `NotFound`, naming the
    /// domain and the reason; a document that could not be encoded ends it with
    /// `OperationFailed`.
    pub fn after_direct_fetch(&mut self, domain: &str, outcome: FetchOutcome) -> (r: Result<
        String,
        CacheError,
    >)
        requires
            old(self).wf(),
        ensures
            final(self).wf(),
            final(self).local_capacity() == old(self).local_capacity(),
            final(self).root_url() == old(self).root_url(),
            final(self).ttl() == old(self).ttl(),
            outcome matches FetchOutcome::Fetched(json) ==> ((r matches Ok(d) && d@ == json@)
                && stored_fresh(
                old(self).local_view(),
                final(self).local_view(),
                domain@,
                json@,
                old(self).ttl(),
                old(self).local_capacity(),
            )),
            outcome matches FetchOutcome::FetchFailed(m) ==> ((r matches Err(e)
                && e matches CacheError::NotFound(m2) && m2@ == domain@ + ": "@ + m@)
                && final(self).local_view() == old(self).local_view()),
            outcome matches FetchOutcome::EncodeFailed(m) ==> ((r matches Err(e)
                && e matches CacheError::OperationFailed(m2) && m2@ == m@)
                && final(self).local_view() == old(self).local_view()),
    {
        match outcome {
            FetchOutcome::Fetched(json) => {
                self.store_fetched(domain, &json);
                Ok(json)
            },
            FetchOutcome::FetchFailed(m) => Err(
                CacheError::NotFound(concat3(domain, ": ", m.as_str())),
            ),
            FetchOutcome::EncodeFailed(m) => Err(CacheError::OperationFailed(m)),
        }
    }

    /// The local cache.
    pub fn local_cache(&self) -> (r: &MemoryCache)
        ensures
            r@ == self.local_view(),
            r.capacity() == self.local_capacity(),
            self.wf() ==> r.wf(),
    {
        &self.local_cache
    }
}

/// What discovery fetched is what the local cache then holds: the domain is held, its
/// entry has the fetched text, the configured time to live and no `no_cache` mark, and
/// every other domain keeps its entry (but for the least recently used one, dropped where
/// the cache was full).
pub proof fn law_fetched_is_cached(
    before: Seq<(Seq<char>, CacheEntry)>,
    after: Seq<(Seq<char>, CacheEntry)>,
    domain: Seq<char>,
    data: Seq<char>,
    ttl: u64,
    cap: nat,
    other: Seq<char>,
)
    requires
        stored_fresh(before, after, domain, data, ttl, cap),
        unique_keys(before),
        before.len() <= cap,
        cap >= 1,
        other != domain,
    ensures
        holds_key(after, domain),
        entry_for(after, domain).data@ == data,
        entry_for(after, domain).ttl == ttl,
        holds_key(after, other) ==> holds_key(before, other) && entry_for(after, other) == entry_for(
            before,
            other,
        ),
{
    law_store_keeps_others(before, domain, entry_for(after, domain), cap, other);
}

/// A stored document answers the next discovery while it is fresh: after a discovery has
/// stored `data` under `domain` with time to live `ttl` seconds, the entry a lookup of
/// `domain` finds holds `data` and has not expired at any age within `ttl` seconds, so that
/// `MemoryCache::settle_lookup` at that age gives it back and no fetch is asked for.
pub proof fn law_stored_answers_within_ttl(
    before: Seq<(Seq<char>, CacheEntry)>,
    after: Seq<(Seq<char>, CacheEntry)>,
    domain: Seq<char>,
    data: Seq<char>,
    ttl: u64,
    cap: nat,
    age: u128,
)
    requires
        stored_fresh(before, after, domain, data, ttl, cap),
        age <= ttl as int * 1_000_000_000,
    ensures
        holds_key(after, domain),
        entry_for(after, domain).data@ == data,
        !expired_after(entry_for(after, domain), age),
{
}

} // verus!
