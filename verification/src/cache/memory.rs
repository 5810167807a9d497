//! The in-memory cache: entries keyed by domain, held in an `lru::LruCache` that drops the
//! least recently used entry when it is full, each entry with its own time to live.
//!
//! The cache is modelled as the sequence of its (domain, entry) pairs, most recently used
//! first.

use vstd::prelude::*;
use lru::LruCache;
use std::num::NonZeroUsize;
use std::time::Instant;
use crate::error::CacheError;

verus! {

// ---------------------------------------------------------------------------
// The model: a sequence of (key, entry) pairs, most recently used first
// ---------------------------------------------------------------------------

/// No key occurs twice.
pub open spec fn unique_keys(s: Seq<(Seq<char>, CacheEntry)>) -> bool {
    forall|i: int, j: int|
        0 <= i < s.len() && 0 <= j < s.len() && i != j ==> (#[trigger] s[i]).0 != (#[trigger] s[j]).0
}

/// Whether some pair has the key `k`.
pub open spec fn holds_key(s: Seq<(Seq<char>, CacheEntry)>, k: Seq<char>) -> bool {
    exists|i: int| 0 <= i < s.len() && (#[trigger] s[i]).0 == k
}

/// Where the key `k` stands (meaningful where it occurs).
pub open spec fn position_of(s: Seq<(Seq<char>, CacheEntry)>, k: Seq<char>) -> int {
    choose|i: int| 0 <= i < s.len() && (#[trigger] s[i]).0 == k
}

/// The entry under the key `k` (meaningful where it occurs).
pub open spec fn entry_for(s: Seq<(Seq<char>, CacheEntry)>, k: Seq<char>) -> CacheEntry {
    s[position_of(s, k)].1
}

/// `s` with the pair of key `k` moved to the front (where it occurs).
pub open spec fn touched(s: Seq<(Seq<char>, CacheEntry)>, k: Seq<char>) -> Seq<(Seq<char>, CacheEntry)> {
    seq![s[position_of(s, k)]] + s.remove(position_of(s, k))
}

/// `s` without the pair of key `k`.
pub open spec fn without(s: Seq<(Seq<char>, CacheEntry)>, k: Seq<char>) -> Seq<(Seq<char>, CacheEntry)> {
    if holds_key(s, k) {
        s.remove(position_of(s, k))
    } else {
        s
    }
}

/// `s` after storing `v` under `k` with room for `cap` pairs: the pair goes to the front;
/// it replaces an earlier pair of the same key, or else, where `s` is full, the least
/// recently used pair (the last) is dropped.
pub open spec fn stored(
    s: Seq<(Seq<char>, CacheEntry)>,
    k: Seq<char>,
    v: CacheEntry,
    cap: nat,
) -> Seq<(Seq<char>, CacheEntry)> {
    if holds_key(s, k) {
        seq![(k, v)] + s.remove(position_of(s, k))
    } else if s.len() == cap {
        seq![(k, v)] + s.drop_last()
    } else {
        seq![(k, v)] + s
    }
}

/// The capacity that a requested number of entries gives: at least one.
pub open spec fn capacity_for(max_entries: usize) -> nat {
    if max_entries == 0 {
        1
    } else {
        max_entries as nat
    }
}

// ---------------------------------------------------------------------------
// lru::LruCache
// ---------------------------------------------------------------------------

/// `lru::LruCache`, whose contents the names below describe.
#[verifier::external_type_specification]
#[verifier::external_body]
#[verifier::reject_recursive_types(K)]
#[verifier::reject_recursive_types(V)]
#[verifier::reject_recursive_types(S)]
pub struct ExLruCache<K, V, S>(LruCache<K, V, S>);

/// The pairs that an `LruCache` holds, by the characters of their keys, most recently used
/// first.
pub uninterp spec fn lru_entries(c: LruCache<String, CacheEntry>) -> Seq<(Seq<char>, CacheEntry)>;

/// The capacity that an `LruCache` was made with.
pub uninterp spec fn lru_capacity(c: LruCache<String, CacheEntry>) -> nat;

/// `LruCache::new`: an empty cache with room for `cap` pairs.
#[verifier::external_body]
fn lru_new(cap: usize) -> (c: LruCache<String, CacheEntry>)
    requires
        cap >= 1,
    ensures
        lru_entries(c) == Seq::<(Seq<char>, CacheEntry)>::empty(),
        lru_capacity(c) == cap,
{
    LruCache::new(NonZeroUsize::new(cap).unwrap())
}

/// `LruCache::get`: the entry under `k`, handed out as a clone, and the pair moved to the
/// front; nothing changes where `k` is absent.
#[verifier::external_body]
fn lru_get(c: &mut LruCache<String, CacheEntry>, k: &str) -> (r: Option<CacheEntry>)
    requires
        unique_keys(lru_entries(*old(c))),
    ensures
        lru_capacity(*final(c)) == lru_capacity(*old(c)),
        holds_key(lru_entries(*old(c)), k@) ==> r == Some(entry_for(lru_entries(*old(c)), k@))
            && lru_entries(*final(c)) == touched(lru_entries(*old(c)), k@),
        !holds_key(lru_entries(*old(c)), k@) ==> r is None && lru_entries(*final(c))
            == lru_entries(*old(c)),
{
    c.get(k).cloned()
}

/// `LruCache::put`: stores `v` under `k` at the front, replacing the pair of that key or,
/// where the cache is full, dropping the least recently used pair; gives back the value
/// that `k` had.
#[verifier::external_body]
fn lru_put(c: &mut LruCache<String, CacheEntry>, k: String, v: CacheEntry) -> (r: Option<CacheEntry>)
    requires
        unique_keys(lru_entries(*old(c))),
    ensures
        lru_capacity(*final(c)) == lru_capacity(*old(c)),
        lru_entries(*final(c)) == stored(lru_entries(*old(c)), k@, v, lru_capacity(*old(c))),
        r == (if holds_key(lru_entries(*old(c)), k@) {
            Some(entry_for(lru_entries(*old(c)), k@))
        } else {
            None
        }),
{
    c.put(k, v)
}

/// `LruCache::pop`: removes the pair of key `k` and gives back its value.
#[verifier::external_body]
fn lru_pop(c: &mut LruCache<String, CacheEntry>, k: &str) -> (r: Option<CacheEntry>)
    requires
        unique_keys(lru_entries(*old(c))),
    ensures
        lru_capacity(*final(c)) == lru_capacity(*old(c)),
        lru_entries(*final(c)) == without(lru_entries(*old(c)), k@),
        r == (if holds_key(lru_entries(*old(c)), k@) {
            Some(entry_for(lru_entries(*old(c)), k@))
        } else {
            None
        }),
{
    c.pop(k)
}

/// `LruCache::clear`: removes every pair.
#[verifier::external_body]
fn lru_clear(c: &mut LruCache<String, CacheEntry>)
    ensures
        lru_capacity(*final(c)) == lru_capacity(*old(c)),
        lru_entries(*final(c)) == Seq::<(Seq<char>, CacheEntry)>::empty(),
{
    c.clear()
}

/// `LruCache::len`: the number of pairs.
#[verifier::external_body]
fn lru_len(c: &LruCache<String, CacheEntry>) -> (r: usize)
    ensures
        r == lru_entries(*c).len(),
{
    c.len()
}

/// std's `Instant::elapsed`, in whole nanoseconds: the time since `since` by the monotonic
/// clock. Nothing is claimed of its value.
#[verifier::external_body]
fn elapsed_nanos(since: &Instant) -> u128 {
    since.elapsed().as_nanos()
}

// ---------------------------------------------------------------------------
// Entries
// ---------------------------------------------------------------------------

/// A cached document with the time it was stored and its time to live.
#[derive(Debug)]
pub struct CacheEntry {
    /// The document, as JSON text.
    pub data: String,
    /// When the entry was made, by the monotonic clock.
    pub created_at: Instant,
    /// The time to live, in seconds.
    pub ttl: u64,
    /// Whether the response asked not to be cached.
    pub no_cache: bool,
}

impl Clone for CacheEntry {
    fn clone(&self) -> (r: Self)
        ensures
            r == *self,
    {
        CacheEntry {
            data: self.data.clone(),
            created_at: self.created_at,
            ttl: self.ttl,
            no_cache: self.no_cache,
        }
    }
}

/// Whether an entry whose age is `elapsed_nanos` nanoseconds has outlived its time to
/// live.
pub open spec fn expired_after(e: CacheEntry, elapsed_nanos: u128) -> bool {
    elapsed_nanos > e.ttl * 1_000_000_000
}

impl CacheEntry {
    /// Whether the entry has outlived its time to live at the age `elapsed_nanos`.
    pub fn is_expired_after(&self, elapsed_nanos: u128) -> (r: bool)
        ensures
            r == expired_after(*self, elapsed_nanos),
    {
        let ttl_nanos: u128 = (self.ttl as u128) * 1_000_000_000;
        elapsed_nanos > ttl_nanos
    }

    /// Whether the entry has outlived its time to live now.
    pub fn is_expired(&self) -> bool {
        let elapsed = elapsed_nanos(&self.created_at);
        self.is_expired_after(elapsed)
    }
}

// ---------------------------------------------------------------------------
// Lemmas on the model
// ---------------------------------------------------------------------------

proof fn lemma_position(s: Seq<(Seq<char>, CacheEntry)>, k: Seq<char>)
    requires
        holds_key(s, k),
    ensures
        0 <= position_of(s, k) < s.len(),
        s[position_of(s, k)].0 == k,
{
}

proof fn lemma_position_unique(s: Seq<(Seq<char>, CacheEntry)>, k: Seq<char>, i: int)
    requires
        unique_keys(s),
        0 <= i < s.len(),
        s[i].0 == k,
    ensures
        holds_key(s, k),
        position_of(s, k) == i,
{
    assert(holds_key(s, k));
    lemma_position(s, k);
}

proof fn lemma_remove(s: Seq<(Seq<char>, CacheEntry)>, i: int)
    requires
        unique_keys(s),
        0 <= i < s.len(),
    ensures
        unique_keys(s.remove(i)),
        !holds_key(s.remove(i), s[i].0),
        forall|k: Seq<char>| k != s[i].0 ==> (holds_key(s.remove(i), k) <==> holds_key(s, k)),
{
    let r = s.remove(i);
    assert forall|a: int, b: int|
        0 <= a < r.len() && 0 <= b < r.len() && a != b implies (#[trigger] r[a]).0 != (#[trigger] r[b]).0 by {
        let a2 = if a < i { a } else { a + 1 };
        let b2 = if b < i { b } else { b + 1 };
        assert(r[a] == s[a2]);
        assert(r[b] == s[b2]);
    }
    if holds_key(r, s[i].0) {
        let j = choose|j: int| 0 <= j < r.len() && (#[trigger] r[j]).0 == s[i].0;
        let j2 = if j < i { j } else { j + 1 };
        assert(r[j] == s[j2]);
    }
    assert forall|k: Seq<char>| k != s[i].0 implies (holds_key(r, k) <==> holds_key(s, k)) by {
        if holds_key(s, k) {
            let j = choose|j: int| 0 <= j < s.len() && (#[trigger] s[j]).0 == k;
            let j2 = if j < i { j } else { j - 1 };
            assert(r[j2] == s[j]);
        }
        if holds_key(r, k) {
            let j = choose|j: int| 0 <= j < r.len() && (#[trigger] r[j]).0 == k;
            let j2 = if j < i { j } else { j + 1 };
            assert(r[j] == s[j2]);
        }
    }
}

proof fn lemma_prepend(s: Seq<(Seq<char>, CacheEntry)>, x: (Seq<char>, CacheEntry))
    requires
        unique_keys(s),
        !holds_key(s, x.0),
    ensures
        unique_keys(seq![x] + s),
        holds_key(seq![x] + s, x.0),
        position_of(seq![x] + s, x.0) == 0,
        (seq![x] + s)[0] == x,
        forall|k: Seq<char>| k != x.0 ==> (holds_key(seq![x] + s, k) <==> holds_key(s, k)),
{
    let t = seq![x] + s;
    assert forall|a: int, b: int|
        0 <= a < t.len() && 0 <= b < t.len() && a != b implies (#[trigger] t[a]).0 != (#[trigger] t[b]).0 by {
        if a > 0 {
            assert(t[a] == s[a - 1]);
        }
        if b > 0 {
            assert(t[b] == s[b - 1]);
        }
    }
    assert(t[0] == x);
    lemma_position_unique(t, x.0, 0);
    assert forall|k: Seq<char>| k != x.0 implies (holds_key(t, k) <==> holds_key(s, k)) by {
        if holds_key(s, k) {
            let j = choose|j: int| 0 <= j < s.len() && (#[trigger] s[j]).0 == k;
            assert(t[j + 1] == s[j]);
        }
        if holds_key(t, k) {
            let j = choose|j: int| 0 <= j < t.len() && (#[trigger] t[j]).0 == k;
            assert(t[j] == s[j - 1]);
        }
    }
}

proof fn lemma_drop_last(s: Seq<(Seq<char>, CacheEntry)>)
    requires
        unique_keys(s),
        s.len() > 0,
    ensures
        unique_keys(s.drop_last()),
        forall|k: Seq<char>| holds_key(s.drop_last(), k) ==> holds_key(s, k),
{
    let t = s.drop_last();
    assert forall|a: int, b: int|
        0 <= a < t.len() && 0 <= b < t.len() && a != b implies (#[trigger] t[a]).0 != (#[trigger] t[b]).0 by {
        assert(t[a] == s[a]);
        assert(t[b] == s[b]);
    }
    assert forall|k: Seq<char>| holds_key(t, k) implies holds_key(s, k) by {
        let j = choose|j: int| 0 <= j < t.len() && (#[trigger] t[j]).0 == k;
        assert(t[j] == s[j]);
    }
}

/// Storing keeps keys unique, stays within the capacity, and puts the new pair first.
pub proof fn lemma_stored(s: Seq<(Seq<char>, CacheEntry)>, k: Seq<char>, v: CacheEntry, cap: nat)
    requires
        unique_keys(s),
        s.len() <= cap,
        cap >= 1,
    ensures
        unique_keys(stored(s, k, v, cap)),
        stored(s, k, v, cap).len() <= cap,
        holds_key(stored(s, k, v, cap), k),
        position_of(stored(s, k, v, cap), k) == 0,
        entry_for(stored(s, k, v, cap), k) == v,
{
    if holds_key(s, k) {
        lemma_position(s, k);
        lemma_remove(s, position_of(s, k));
        lemma_prepend(s.remove(position_of(s, k)), (k, v));
    } else if s.len() == cap {
        lemma_drop_last(s);
        lemma_prepend(s.drop_last(), (k, v));
    } else {
        lemma_prepend(s, (k, v));
    }
}

/// Removing a key keeps keys unique and leaves the key absent.
pub proof fn lemma_without(s: Seq<(Seq<char>, CacheEntry)>, k: Seq<char>)
    requires
        unique_keys(s),
    ensures
        unique_keys(without(s, k)),
        !holds_key(without(s, k), k),
        without(s, k).len() <= s.len(),
        forall|k2: Seq<char>| k2 != k ==> (holds_key(without(s, k), k2) <==> holds_key(s, k2)),
{
    if holds_key(s, k) {
        lemma_position(s, k);
        lemma_remove(s, position_of(s, k));
    }
}

/// Moving a present key to the front keeps the keys, the length and the entry of that key,
/// and removing the key afterwards leaves what removing it at once leaves.
pub proof fn lemma_touched(s: Seq<(Seq<char>, CacheEntry)>, k: Seq<char>)
    requires
        unique_keys(s),
        holds_key(s, k),
    ensures
        unique_keys(touched(s, k)),
        touched(s, k).len() == s.len(),
        holds_key(touched(s, k), k),
        entry_for(touched(s, k), k) == entry_for(s, k),
        without(touched(s, k), k) == without(s, k),
{
    lemma_position(s, k);
    let i = position_of(s, k);
    lemma_remove(s, i);
    lemma_prepend(s.remove(i), s[i]);
    let t = touched(s, k);
    assert(t.remove(0) =~= s.remove(i));
}

/// Every pair of `t` is a pair of `s`.
pub open spec fn pairs_within(t: Seq<(Seq<char>, CacheEntry)>, s: Seq<(Seq<char>, CacheEntry)>) -> bool {
    forall|j: int| 0 <= j < t.len() ==> s.contains(#[trigger] t[j])
}

proof fn lemma_entry_within(t: Seq<(Seq<char>, CacheEntry)>, s: Seq<(Seq<char>, CacheEntry)>, k: Seq<char>)
    requires
        unique_keys(t),
        unique_keys(s),
        pairs_within(t, s),
        holds_key(t, k),
    ensures
        holds_key(s, k),
        entry_for(t, k) == entry_for(s, k),
{
    lemma_position(t, k);
    let j = position_of(t, k);
    assert(s.contains(t[j]));
    let m = choose|m: int| 0 <= m < s.len() && s[m] == t[j];
    lemma_position_unique(s, k, m);
}

proof fn lemma_within_remove(s: Seq<(Seq<char>, CacheEntry)>, i: int)
    requires
        0 <= i < s.len(),
    ensures
        pairs_within(s.remove(i), s),
{
    let t = s.remove(i);
    assert forall|j: int| 0 <= j < t.len() implies s.contains(#[trigger] t[j]) by {
        if j < i {
            assert(s[j] == t[j]);
        } else {
            assert(s[j + 1] == t[j]);
        }
    }
}

proof fn lemma_within_drop_last(s: Seq<(Seq<char>, CacheEntry)>)
    requires
        s.len() > 0,
    ensures
        pairs_within(s.drop_last(), s),
{
    let t = s.drop_last();
    assert forall|j: int| 0 <= j < t.len() implies s.contains(#[trigger] t[j]) by {
        assert(s[j] == t[j]);
    }
}

proof fn lemma_prepend_entry(s: Seq<(Seq<char>, CacheEntry)>, x: (Seq<char>, CacheEntry), k: Seq<char>)
    requires
        unique_keys(s),
        !holds_key(s, x.0),
        k != x.0,
        holds_key(s, k),
    ensures
        entry_for(seq![x] + s, k) == entry_for(s, k),
{
    lemma_prepend(s, x);
    let t = seq![x] + s;
    assert forall|j: int| 0 <= j < s.len() implies t.contains(#[trigger] s[j]) by {
        assert(t[j + 1] == s[j]);
    }
    lemma_entry_within(s, t, k);
}

/// Reading back what was written: once `v` is stored under `k`, `k` is held and its entry
/// is `v`, whatever the cache held before and however full it was.
pub proof fn law_read_after_write(s: Seq<(Seq<char>, CacheEntry)>, k: Seq<char>, v: CacheEntry, cap: nat)
    requires
        unique_keys(s),
        s.len() <= cap,
        cap >= 1,
    ensures
        holds_key(stored(s, k, v, cap), k),
        entry_for(stored(s, k, v, cap), k) == v,
        stored(s, k, v, cap)[0] == (k, v),
{
    lemma_stored(s, k, v, cap);
}

/// An entry expires once its age passes its time to live, and stays expired: at an age of
/// `age` nanoseconds it has expired exactly when `age` exceeds `ttl` seconds, so an entry
/// looked up at a greater age than one at which it had expired has expired too.
pub proof fn law_expiry_by_age(e: CacheEntry, age: u128, later: u128)
    requires
        age <= later,
    ensures
        expired_after(e, age) <==> age > e.ttl as int * 1_000_000_000,
        expired_after(e, age) ==> expired_after(e, later),
        age <= e.ttl as int * 1_000_000_000 ==> !expired_after(e, age),
{
}

/// Storing under `k` leaves every other key and its entry alone, but for one case: where
/// `k` was absent and the cache full, the least recently used pair (the last) is dropped.
pub proof fn law_store_keeps_others(
    s: Seq<(Seq<char>, CacheEntry)>,
    k: Seq<char>,
    v: CacheEntry,
    cap: nat,
    k2: Seq<char>,
)
    requires
        unique_keys(s),
        s.len() <= cap,
        cap >= 1,
        k2 != k,
    ensures
        holds_key(stored(s, k, v, cap), k2) <==> (holds_key(s, k2) && !(!holds_key(s, k)
            && s.len() == cap && s.last().0 == k2)),
        holds_key(stored(s, k, v, cap), k2) ==> entry_for(stored(s, k, v, cap), k2) == entry_for(s, k2),
{
    if holds_key(s, k) {
        lemma_position(s, k);
        let i = position_of(s, k);
        lemma_remove(s, i);
        lemma_prepend(s.remove(i), (k, v));
        if holds_key(s.remove(i), k2) {
            lemma_within_remove(s, i);
            lemma_entry_within(s.remove(i), s, k2);
            lemma_prepend_entry(s.remove(i), (k, v), k2);
        }
    } else if s.len() == cap {
        let t = s.drop_last();
        lemma_drop_last(s);
        lemma_prepend(t, (k, v));
        lemma_within_drop_last(s);
        if holds_key(s, k2) && s.last().0 != k2 {
            let j = choose|j: int| 0 <= j < s.len() && (#[trigger] s[j]).0 == k2;
            assert(j != s.len() - 1);
            assert(t[j] == s[j]);
            assert(holds_key(t, k2));
        }
        if holds_key(t, k2) {
            let j = choose|j: int| 0 <= j < t.len() && (#[trigger] t[j]).0 == k2;
            assert(t[j] == s[j]);
            assert(s[j].0 != s[s.len() - 1].0);
            lemma_entry_within(t, s, k2);
            lemma_prepend_entry(t, (k, v), k2);
        }
    } else {
        lemma_prepend(s, (k, v));
        if holds_key(s, k2) {
            lemma_prepend_entry(s, (k, v), k2);
        }
    }
}

/// Invalidating `k` removes it, and leaves every other key and its entry alone.
pub proof fn law_invalidate(s: Seq<(Seq<char>, CacheEntry)>, k: Seq<char>, k2: Seq<char>)
    requires
        unique_keys(s),
        k2 != k,
    ensures
        !holds_key(without(s, k), k),
        holds_key(without(s, k), k2) <==> holds_key(s, k2),
        holds_key(s, k2) ==> entry_for(without(s, k), k2) == entry_for(s, k2),
{
    lemma_without(s, k);
    if holds_key(s, k) && holds_key(s, k2) {
        lemma_position(s, k);
        lemma_within_remove(s, position_of(s, k));
        lemma_entry_within(without(s, k), s, k2);
    }
}

/// A hit makes the entry the most recently used and changes nothing else: the same pairs,
/// with the found one first.
pub proof fn law_hit_refreshes(s: Seq<(Seq<char>, CacheEntry)>, k: Seq<char>, k2: Seq<char>)
    requires
        unique_keys(s),
        holds_key(s, k),
    ensures
        touched(s, k)[0].0 == k,
        touched(s, k).len() == s.len(),
        holds_key(touched(s, k), k2) <==> holds_key(s, k2),
        holds_key(s, k2) ==> entry_for(touched(s, k), k2) == entry_for(s, k2),
{
    lemma_touched(s, k);
    lemma_position(s, k);
    let i = position_of(s, k);
    lemma_remove(s, i);
    lemma_prepend(s.remove(i), s[i]);
    let t = touched(s, k);
    assert forall|j: int| 0 <= j < t.len() implies s.contains(#[trigger] t[j]) by {
        if j == 0 {
            assert(s[i] == t[j]);
        } else if j - 1 < i {
            assert(s[j - 1] == t[j]);
        } else {
            assert(s[j] == t[j]);
        }
    }
    assert forall|j: int| 0 <= j < s.len() implies t.contains(#[trigger] s[j]) by {
        if j == i {
            assert(t[0] == s[j]);
        } else if j < i {
            assert(t[j + 1] == s[j]);
        } else {
            assert(t[j] == s[j]);
        }
    }
    if holds_key(s, k2) {
        lemma_entry_within(s, t, k2);
    }
    if holds_key(t, k2) {
        lemma_entry_within(t, s, k2);
    }
}

// ---------------------------------------------------------------------------
// The cache
// ---------------------------------------------------------------------------

/// The in-memory cache of documents by domain, with least-recently-used eviction.
pub struct MemoryCache {
    cache: LruCache<String, CacheEntry>,
    max_entries: usize,
}

impl View for MemoryCache {
    type V = Seq<(Seq<char>, CacheEntry)>;

    /// The (domain, entry) pairs, most recently used first.
    closed spec fn view(&self) -> Seq<(Seq<char>, CacheEntry)> {
        lru_entries(self.cache)
    }
}

impl MemoryCache {
    /// The number of entries the cache was asked to hold.
    pub closed spec fn entry_limit(&self) -> usize {
        self.max_entries
    }

    /// The number of entries the cache holds at most.
    pub open spec fn capacity(&self) -> nat {
        capacity_for(self.entry_limit())
    }

    /// Keys are unique, and there are no more entries than the capacity.
    pub closed spec fn wf(&self) -> bool {
        &&& unique_keys(self@)
        &&& self@.len() <= self.capacity()
        &&& lru_capacity(self.cache) == self.capacity()
    }

    /// What well-formedness says: unique keys, and no more entries than the capacity.
    pub proof fn lemma_wf(&self)
        requires
            self.wf(),
        ensures
            unique_keys(self@),
            self@.len() <= self.capacity(),
            self.capacity() >= 1,
    {
    }

    /// An empty cache for `max_entries` entries (room for one where that is zero).
    pub fn new(max_entries: usize) -> (r: Self)
        ensures
            r.wf(),
            r@ == Seq::<(Seq<char>, CacheEntry)>::empty(),
            r.entry_limit() == max_entries,
    {
        let cap: usize = if max_entries == 0 {
            1
        } else {
            max_entries
        };
        MemoryCache { cache: lru_new(cap), max_entries }
    }

    /// Decides a lookup that found `entry` under `domain` when the entry is
    /// `elapsed_nanos` nanoseconds old: an entry past its time to live is dropped and
    /// nothing is returned; otherwise the entry is returned and the cache is unchanged.
    pub fn settle_lookup(&mut self, domain: &str, entry: CacheEntry, elapsed_nanos: u128) -> (r:
        Option<CacheEntry>)
        requires
            old(self).wf(),
        ensures
            final(self).wf(),
            final(self).entry_limit() == old(self).entry_limit(),
            expired_after(entry, elapsed_nanos) ==> r is None && final(self)@ == without(
                old(self)@,
                domain@,
            ),
            !expired_after(entry, elapsed_nanos) ==> r == Some(entry) && final(self)@ == old(
                self,
            )@,
    {
        if entry.is_expired_after(elapsed_nanos) {
            proof {
                lemma_without(self@, domain@);
            }
            let _ = lru_pop(&mut self.cache, domain);
            None
        } else {
            Some(entry)
        }
    }

    /// The entry for `domain`, unless it has outlived its time to live, in which case it
    /// is dropped. A found entry becomes the most recently used.
    pub fn get(&mut self, domain: &str) -> (r: Option<CacheEntry>)
        requires
            old(self).wf(),
        ensures
            final(self).wf(),
            final(self).entry_limit() == old(self).entry_limit(),
            !holds_key(old(self)@, domain@) ==> r is None && final(self)@ == old(self)@,
            holds_key(old(self)@, domain@) ==> (r == Some(entry_for(old(self)@, domain@))
                && final(self)@ == touched(old(self)@, domain@)) || (r is None && final(self)@
                == without(old(self)@, domain@)),
            holds_key(old(self)@, domain@) ==> exists|age: u128|
                (r is Some <==> !#[trigger] expired_after(entry_for(old(self)@, domain@), age)),
    {
        let ghost before = self@;
        let found = lru_get(&mut self.cache, domain);
        match found {
            Some(entry) => {
                proof {
                    lemma_touched(before, domain@);
                }
                let elapsed = elapsed_nanos(&entry.created_at);
                self.settle_lookup(domain, entry, elapsed)
            },
            None => None,
        }
    }

    /// Stores `entry` under `domain` as the most recently used entry, dropping the least
    /// recently used one where the cache is full. An entry marked `no_cache` is not
    /// stored. Always succeeds.
    pub fn put(&mut self, domain: String, entry: CacheEntry) -> (r: Result<(), CacheError>)
        requires
            old(self).wf(),
        ensures
            final(self).wf(),
            final(self).entry_limit() == old(self).entry_limit(),
            r is Ok,
            entry.no_cache ==> final(self)@ == old(self)@,
            !entry.no_cache ==> final(self)@ == stored(
                old(self)@,
                domain@,
                entry,
                old(self).capacity(),
            ),
    {
        if entry.no_cache {
            return Ok(());
        }
        proof {
            lemma_stored(self@, domain@, entry, self.capacity());
        }
        let _ = lru_put(&mut self.cache, domain, entry);
        Ok(())
    }

    /// Drops the entry for `domain`; whether there was one.
    pub fn invalidate(&mut self, domain: &str) -> (r: bool)
        requires
            old(self).wf(),
        ensures
            final(self).wf(),
            final(self).entry_limit() == old(self).entry_limit(),
            r == holds_key(old(self)@, domain@),
            final(self)@ == without(old(self)@, domain@),
    {
        proof {
            lemma_without(self@, domain@);
        }
        let popped = lru_pop(&mut self.cache, domain);
        popped.is_some()
    }

    /// Drops every entry.
    pub fn clear(&mut self)
        requires
            old(self).wf(),
        ensures
            final(self).wf(),
            final(self).entry_limit() == old(self).entry_limit(),
            final(self)@ == Seq::<(Seq<char>, CacheEntry)>::empty(),
    {
        lru_clear(&mut self.cache);
    }

    /// The number of entries held.
    pub fn size(&self) -> (r: usize)
        ensures
            r == self@.len(),
    {
        lru_len(&self.cache)
    }

    /// The number of entries the cache was asked to hold.
    pub fn max_entries(&self) -> (r: usize)
        ensures
            r == self.entry_limit(),
    {
        self.max_entries
    }
}

} // verus!
