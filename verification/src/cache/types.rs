//! Cache configuration and the reading of `Cache-Control` header values.
//! Durations are whole seconds.

use vstd::prelude::*;
use crate::ax::record::AgentExchangeDocument;
use crate::clock::{max_duration_nanos, unix_nanos_now};
use crate::text::{
    chars_of, char_vec_views, decimal, is_prefix, law_decimal_round_trip, lemma_decimal_digits,
    lemma_split_char_nonempty, parse_u64, parse_u64_spec, split_char, split_chars, str_eq,
    string_of, strip_prefix, trim, trim_end_spec, trim_spec, trim_start_spec,
};

verus! {

/// What a `Cache-Control` header value asks of a cache.
#[derive(Debug, Clone, Copy, PartialEq, Eq, Structural)]
pub struct CacheControl {
    /// The `max-age` directive, in seconds.
    pub max_age: Option<u64>,
    /// The `no-cache` directive.
    pub no_cache: bool,
    /// The `no-store` directive.
    pub no_store: bool,
    /// The `must-revalidate` directive.
    pub must_revalidate: bool,
}

/// No directive at all.
pub open spec fn no_directives() -> CacheControl {
    CacheControl { max_age: None, no_cache: false, no_store: false, must_revalidate: false }
}

/// The effect of one trimmed directive `d`: the three flags are set by their exact names,
/// `max-age=` followed by a number that parses as a `u64` sets the age, anything else
/// changes nothing.
pub open spec fn apply_directive(cc: CacheControl, d: Seq<char>) -> CacheControl {
    if d == "no-cache"@ {
        CacheControl { no_cache: true, ..cc }
    } else if d == "no-store"@ {
        CacheControl { no_store: true, ..cc }
    } else if d == "must-revalidate"@ {
        CacheControl { must_revalidate: true, ..cc }
    } else if is_prefix("max-age="@, d) && parse_u64_spec(
        d.subrange("max-age="@.len() as int, d.len() as int),
    ) is Some {
        CacheControl {
            max_age: parse_u64_spec(d.subrange("max-age="@.len() as int, d.len() as int)),
            ..cc
        }
    } else {
        cc
    }
}

/// The directives `pieces`, each trimmed, applied from first to last.
pub open spec fn apply_directives(pieces: Seq<Seq<char>>) -> CacheControl
    decreases pieces.len(),
{
    if pieces.len() == 0 {
        no_directives()
    } else {
        apply_directive(apply_directives(pieces.drop_last()), trim_spec(pieces.last()))
    }
}

/// What a header value asks: its comma-separated directives, in order.
pub open spec fn cache_control_of(header: Seq<char>) -> CacheControl {
    apply_directives(split_char(header, ','))
}

/// Whether a response under `cc` may be cached: neither `no-cache` nor `no-store`, and no
/// `max-age` of zero.
pub open spec fn caching_allowed(cc: CacheControl) -> bool {
    !cc.no_cache && !cc.no_store && cc.max_age != Some(0u64)
}

/// Whether some piece, trimmed, is the directive `name`.
pub open spec fn has_directive(pieces: Seq<Seq<char>>, name: Seq<char>) -> bool {
    exists|i: int| 0 <= i < pieces.len() && trim_spec(#[trigger] pieces[i]) == name
}

proof fn lemma_flags(pieces: Seq<Seq<char>>)
    ensures
        apply_directives(pieces).no_cache <==> has_directive(pieces, "no-cache"@),
        apply_directives(pieces).no_store <==> has_directive(pieces, "no-store"@),
        apply_directives(pieces).must_revalidate <==> has_directive(pieces, "must-revalidate"@),
    decreases pieces.len(),
{
    reveal_strlit("no-cache");
    reveal_strlit("no-store");
    reveal_strlit("must-revalidate");
    if pieces.len() > 0 {
        let init = pieces.drop_last();
        lemma_flags(init);
        let d = trim_spec(pieces.last());
        assert(pieces[pieces.len() - 1] == pieces.last());
        assert forall|name: Seq<char>| has_directive(pieces, name) <==> (has_directive(init, name) || d == name) by {
            if has_directive(pieces, name) {
                let i = choose|i: int| 0 <= i < pieces.len() && trim_spec(#[trigger] pieces[i]) == name;
                if i < pieces.len() - 1 {
                    assert(init[i] == pieces[i]);
                }
            }
            if has_directive(init, name) {
                let i = choose|i: int| 0 <= i < init.len() && trim_spec(#[trigger] init[i]) == name;
                assert(pieces[i] == init[i]);
            }
        }
        assert("no-cache"@[3] != "no-store"@[3]);
        assert("no-cache"@.len() != "must-revalidate"@.len());
        assert("no-store"@.len() != "must-revalidate"@.len());
    }
}

/// Flag directives are never lost: a header value sets `no-cache`, `no-store` or
/// `must-revalidate` exactly where one of its comma-separated directives, trimmed, is that
/// directive, wherever it stands among the others; and a value with `no-cache` or
/// `no-store` never allows caching.
pub proof fn law_flag_directives(header: Seq<char>)
    ensures
        cache_control_of(header).no_cache <==> has_directive(split_char(header, ','), "no-cache"@),
        cache_control_of(header).no_store <==> has_directive(split_char(header, ','), "no-store"@),
        cache_control_of(header).must_revalidate <==> has_directive(
            split_char(header, ','),
            "must-revalidate"@,
        ),
        has_directive(split_char(header, ','), "no-cache"@) || has_directive(
            split_char(header, ','),
            "no-store"@,
        ) ==> !caching_allowed(cache_control_of(header)),
{
    lemma_flags(split_char(header, ','));
}

proof fn lemma_split_join(a: Seq<char>, b: Seq<char>)
    ensures
        split_char(a.push(',') + b, ',') == split_char(a, ',') + split_char(b, ','),
    decreases b.len(),
{
    let s = a.push(',') + b;
    if b.len() == 0 {
        assert(s =~= a.push(','));
        assert(s.drop_last() =~= a);
        assert(split_char(b, ',') =~= seq![Seq::<char>::empty()]);
        assert(split_char(s, ',') =~= split_char(a, ',') + split_char(b, ','));
    } else {
        lemma_split_join(a, b.drop_last());
        assert(s.drop_last() =~= a.push(',') + b.drop_last());
        assert(s.last() == b.last());
        let p = split_char(a, ',');
        let q = split_char(b.drop_last(), ',');
        lemma_split_char_nonempty(b.drop_last(), ',');
        if b.last() == ',' {
            assert((p + q).push(Seq::<char>::empty()) =~= p + q.push(Seq::<char>::empty()));
        } else {
            let x = b.last();
            assert((p + q).last() == q.last());
            assert((p + q).update((p + q).len() - 1, (p + q).last().push(x)) =~= p + q.update(
                q.len() - 1,
                q.last().push(x),
            ));
        }
    }
}

proof fn lemma_apply_concat(p: Seq<Seq<char>>, q: Seq<Seq<char>>)
    ensures
        ({
            let z = apply_directives(p + q);
            let x = apply_directives(p);
            let y = apply_directives(q);
            &&& z.no_cache == (x.no_cache || y.no_cache)
            &&& z.no_store == (x.no_store || y.no_store)
            &&& z.must_revalidate == (x.must_revalidate || y.must_revalidate)
            &&& z.max_age == (if y.max_age is Some { y.max_age } else { x.max_age })
        }),
    decreases q.len(),
{
    if q.len() == 0 {
        assert(p + q =~= p);
    } else {
        lemma_apply_concat(p, q.drop_last());
        assert((p + q).drop_last() =~= p + q.drop_last());
        assert((p + q).last() == q.last());
    }
}

proof fn lemma_split_without(s: Seq<char>, c: char)
    requires
        forall|i: int| 0 <= i < s.len() ==> s[i] != c,
    ensures
        split_char(s, c) == seq![s],
    decreases s.len(),
{
    if s.len() > 0 {
        assert forall|i: int| 0 <= i < s.drop_last().len() implies s.drop_last()[i] != c by {
            assert(s.drop_last()[i] == s[i]);
        }
        lemma_split_without(s.drop_last(), c);
        assert(s.last() == s[s.len() - 1]);
        assert(s.drop_last().push(s.last()) =~= s);
        assert(seq![s.drop_last()].update(0, s.drop_last().push(s.last())) =~= seq![s]);
    } else {
        assert(s =~= Seq::<char>::empty());
    }
}

/// Directives are read one by one: the value `a,b` asks for every flag that `a` or `b`
/// asks for, and for the `max-age` of `b` where `b` has one, else that of `a`.
pub proof fn law_joined_header(a: Seq<char>, b: Seq<char>)
    ensures
        ({
            let z = cache_control_of(a + ","@ + b);
            let x = cache_control_of(a);
            let y = cache_control_of(b);
            &&& z.no_cache == (x.no_cache || y.no_cache)
            &&& z.no_store == (x.no_store || y.no_store)
            &&& z.must_revalidate == (x.must_revalidate || y.must_revalidate)
            &&& z.max_age == (if y.max_age is Some { y.max_age } else { x.max_age })
        }),
{
    reveal_strlit(",");
    assert(a + ","@ + b =~= a.push(',') + b);
    lemma_split_join(a, b);
    lemma_apply_concat(split_char(a, ','), split_char(b, ','));
}

/// `max-age=n`, with `n` written in decimal, asks for a time to live of `n` seconds and
/// nothing else, for every `n`.
pub proof fn law_max_age_round_trip(n: u64)
    ensures
        cache_control_of("max-age="@ + decimal(n as nat)) == (CacheControl { max_age: Some(n), ..no_directives() }),
{
    reveal_strlit("max-age=");
    reveal_strlit("no-cache");
    reveal_strlit("no-store");
    reveal_strlit("must-revalidate");
    let d = decimal(n as nat);
    let s = "max-age="@ + d;
    lemma_decimal_digits(n as nat);
    law_decimal_round_trip(n);
    assert forall|i: int| 0 <= i < s.len() implies s[i] != ',' by {
        if i >= 8 {
            assert(s[i] == d[i - 8]);
        }
    }
    lemma_split_without(s, ',');
    assert(s[0] == 'm');
    assert(s.last() == d.last());
    assert(trim_start_spec(s) == s);
    assert(trim_end_spec(s) == s);
    assert(trim_spec(s) == s);
    assert(seq![s].drop_last() =~= Seq::<Seq<char>>::empty());
    assert(seq![s].last() == s);
    assert(s != "no-cache"@ && s != "no-store"@ && s != "must-revalidate"@) by {
        assert(s[1] == 'a');
    }
    assert(s.subrange(0, 8) =~= "max-age="@);
    assert(s.subrange(8, s.len() as int) =~= d);
    assert(is_prefix("max-age="@, s));
    assert(parse_u64_spec(s.subrange("max-age="@.len() as int, s.len() as int)) == Some(n));
    assert(apply_directive(no_directives(), s) == (CacheControl { max_age: Some(n), ..no_directives() }));
    assert(apply_directives(seq![s]) == apply_directive(apply_directives(Seq::<Seq<char>>::empty()), trim_spec(s)));
}

/// What decides whether a response may be cached: it may be exactly when neither
/// `no-cache` nor `no-store` is asked for and `max-age` is not zero; `must-revalidate`
/// plays no part, whichever way it is set.
pub proof fn law_caching_decision(cc: CacheControl, revalidate: bool)
    ensures
        caching_allowed(cc) <==> (!cc.no_cache && !cc.no_store && cc.max_age != Some(0u64)),
        caching_allowed(cc) == caching_allowed(CacheControl { must_revalidate: revalidate, ..cc }),
{
}

/// A header that asks only for `max-age=n` with `n` above zero, followed by
/// `must-revalidate`, allows caching for `n` seconds, for every such `n`.
pub proof fn law_revalidate_still_caches(n: u64)
    requires
        n > 0,
    ensures
        caching_allowed(cache_control_of("max-age="@ + decimal(n as nat) + ", must-revalidate"@)),
        cache_control_of("max-age="@ + decimal(n as nat) + ", must-revalidate"@).max_age == Some(n),
        cache_control_of("max-age="@ + decimal(n as nat) + ", must-revalidate"@).must_revalidate,
{
    reveal_strlit(", must-revalidate");
    reveal_strlit(" must-revalidate");
    reveal_strlit("must-revalidate");
    reveal_strlit("no-cache");
    reveal_strlit("no-store");
    reveal_strlit("max-age=");
    let a = "max-age="@ + decimal(n as nat);
    let b = " must-revalidate"@;
    assert(a + ", must-revalidate"@ =~= a + ","@ + b) by {
        reveal_strlit(",");
    }
    law_joined_header(a, b);
    law_max_age_round_trip(n);
    lemma_split_without(b, ',');
    let t = b.drop_first();
    assert(t =~= "must-revalidate"@);
    assert(trim_start_spec(t) == t);
    assert(trim_start_spec(b) == t);
    assert(trim_end_spec(t) == t);
    assert(trim_spec(b) == "must-revalidate"@);
    assert(seq![b].drop_last() =~= Seq::<Seq<char>>::empty());
    assert(seq![b].last() == b);
    assert(!is_prefix("max-age="@, "must-revalidate"@)) by {
        assert("must-revalidate"@.subrange(0, 8)[1] != "max-age="@[1]);
    }
    assert("must-revalidate"@ != "no-cache"@ && "must-revalidate"@ != "no-store"@) by {
        assert("must-revalidate"@.len() != "no-cache"@.len());
    }
    assert(split_char(b, ',') == seq![b]);
    assert(apply_directives(seq![b]) == apply_directive(apply_directives(Seq::<Seq<char>>::empty()), trim_spec(b)));
    assert(apply_directive(no_directives(), "must-revalidate"@) == (CacheControl {
        must_revalidate: true,
        ..no_directives()
    }));
    assert(cache_control_of(b) == (CacheControl { must_revalidate: true, ..no_directives() }));
}

impl CacheControl {
    /// Reads a `Cache-Control` header value. Unknown directives, and a `max-age` whose
    /// value is not a number, are ignored; a later `max-age` overrides an earlier one.
    pub fn parse(header_value: &str) -> (r: Self)
        ensures
            r == cache_control_of(header_value@),
    {
        let chars = chars_of(header_value);
        let pieces = split_chars(&chars, ',');
        let mut cache_control = CacheControl {
            max_age: None,
            no_cache: false,
            no_store: false,
            must_revalidate: false,
        };
        let mut i: usize = 0;
        while i < pieces.len()
            invariant
                i <= pieces@.len(),
                char_vec_views(pieces@) == split_char(header_value@, ','),
                cache_control == apply_directives(char_vec_views(pieces@).subrange(0, i as int)),
            decreases pieces@.len() - i,
        {
            let piece = string_of(&pieces[i]);
            let directive = trim(piece.as_str());
            let ghost done = char_vec_views(pieces@).subrange(0, i as int);
            let ghost next = char_vec_views(pieces@).subrange(0, i + 1);
            assert(next.drop_last() =~= done);
            assert(next.last() == pieces@[i as int]@);
            if str_eq(directive.as_str(), "no-cache") {
                cache_control.no_cache = true;
            } else if str_eq(directive.as_str(), "no-store") {
                cache_control.no_store = true;
            } else if str_eq(directive.as_str(), "must-revalidate") {
                cache_control.must_revalidate = true;
            } else {
                match strip_prefix(directive.as_str(), "max-age=") {
                    Some(max_age_str) => {
                        match parse_u64(max_age_str.as_str()) {
                            Some(max_age) => {
                                cache_control.max_age = Some(max_age);
                            },
                            None => {},
                        }
                    },
                    None => {},
                }
            }
            i = i + 1;
        }
        assert(char_vec_views(pieces@).subrange(0, pieces@.len() as int) =~= char_vec_views(
            pieces@,
        ));
        cache_control
    }

    /// Whether a response under these directives may be cached.
    pub fn allows_caching(&self) -> (r: bool)
        ensures
            r == caching_allowed(*self),
    {
        if self.no_cache || self.no_store {
            return false;
        }
        match self.max_age {
            Some(max_age) => max_age != 0,
            None => true,
        }
    }

    /// The time to live that `max-age` sets, in seconds, if it is there.
    pub fn effective_ttl(&self) -> (r: Option<u64>)
        ensures
            r == self.max_age,
    {
        self.max_age
    }
}

/// Settings of the in-memory cache; times in seconds.
#[derive(Debug, Clone, Copy, PartialEq, Eq, Structural)]
pub struct CacheConfig {
    /// The most entries the cache holds.
    pub max_entries: usize,
    /// The time to live of an entry when nothing else sets one.
    pub default_ttl: u64,
    /// Whether `Cache-Control` headers are heeded.
    pub respect_cache_control: bool,
    /// The longest time to live allowed.
    pub max_ttl: u64,
    /// The shortest time to live allowed.
    pub min_ttl: u64,
}

impl Default for CacheConfig {
    /// A thousand entries; five minutes by default, one hour at most, one minute at least;
    /// headers heeded.
    fn default() -> (r: Self)
        ensures
            r.max_entries == 1000,
            r.default_ttl == 300,
            r.respect_cache_control,
            r.max_ttl == 3600,
            r.min_ttl == 60,
    {
        CacheConfig {
            max_entries: 1000,
            default_ttl: 300,
            respect_cache_control: true,
            max_ttl: 3600,
            min_ttl: 60,
        }
    }
}

/// Request limits per client address.
#[derive(Debug, Clone, Copy, PartialEq, Eq, Structural)]
pub struct RateLimitConfig {
    /// Requests allowed per minute.
    pub requests_per_minute: u32,
    /// Requests allowed per hour.
    pub requests_per_hour: u32,
}

impl Default for RateLimitConfig {
    /// Sixty a minute, three thousand six hundred an hour.
    fn default() -> (r: Self)
        ensures
            r.requests_per_minute == 60,
            r.requests_per_hour == 3600,
    {
        RateLimitConfig { requests_per_minute: 60, requests_per_hour: 3600 }
    }
}

/// A cached document with its fetch time and expiry, by the system clock in nanoseconds
/// since the Unix epoch.
pub struct CacheEntry {
    pub document: AgentExchangeDocument,
    pub expires_at: u128,
    pub fetched_at: u128,
    pub domain: String,
    pub cache_control: Option<CacheControl>,
}

/// Whether `e` has expired at `now`: `now` is past its expiry.
pub open spec fn expired_at(e: CacheEntry, now: u128) -> bool {
    now > e.expires_at
}

/// The time that `e` still has at `now`, in nanoseconds; `None` once `now` is past its
/// expiry.
pub open spec fn remaining_at(e: CacheEntry, now: u128) -> Option<u128> {
    if now <= e.expires_at {
        Some((e.expires_at - now) as u128)
    } else {
        None
    }
}

/// The age of `e` at `now`, in nanoseconds; zero where `now` is before its fetch.
pub open spec fn age_since(e: CacheEntry, now: u128) -> u128 {
    if now >= e.fetched_at {
        (now - e.fetched_at) as u128
    } else {
        0
    }
}

impl CacheEntry {
    /// An entry fetched at `now` that lives `ttl_secs` seconds.
    pub fn new_at(
        document: AgentExchangeDocument,
        domain: String,
        ttl_secs: u64,
        cache_control: Option<CacheControl>,
        now: u128,
    ) -> (r: Self)
        requires
            now <= max_duration_nanos(),
        ensures
            r.fetched_at == now,
            r.expires_at == now + ttl_secs * 1_000_000_000,
            r.document == document,
            r.domain == domain,
            r.cache_control == cache_control,
    {
        let ttl_nanos: u128 = (ttl_secs as u128) * 1_000_000_000;
        CacheEntry { document, expires_at: now + ttl_nanos, fetched_at: now, domain, cache_control }
    }

    /// An entry fetched now that lives `ttl_secs` seconds.
    pub fn new(
        document: AgentExchangeDocument,
        domain: String,
        ttl_secs: u64,
        cache_control: Option<CacheControl>,
    ) -> (r: Self)
        ensures
            r.expires_at == r.fetched_at + ttl_secs * 1_000_000_000,
            r.document == document,
            r.domain == domain,
            r.cache_control == cache_control,
    {
        let now = unix_nanos_now();
        Self::new_at(document, domain, ttl_secs, cache_control, now)
    }

    /// Whether the entry has expired at `now`: `now` is past its expiry.
    pub fn is_expired_at(&self, now: u128) -> (r: bool)
        ensures
            r == expired_at(*self, now),
    {
        now > self.expires_at
    }

    /// Whether the entry has expired now: the system clock's reading is past its expiry.
    /// The reading is the clock's; what is stated is the rule applied to it.
    pub fn is_expired(&self) -> (r: bool)
        ensures
            exists|now: u128| now <= max_duration_nanos() && r == expired_at(*self, now),
    {
        let now = unix_nanos_now();
        self.is_expired_at(now)
    }

    /// The time the entry still has at `now`, in nanoseconds; `None` once it has expired.
    pub fn remaining_ttl_at(&self, now: u128) -> (r: Option<u128>)
        ensures
            r == remaining_at(*self, now),
    {
        if now <= self.expires_at {
            Some(self.expires_at - now)
        } else {
            None
        }
    }

    /// The time the entry still has now, in nanoseconds; `None` once it has expired.
    /// The reading is the system clock's; what is stated is the rule applied to it.
    pub fn remaining_ttl(&self) -> (r: Option<u128>)
        ensures
            exists|now: u128| now <= max_duration_nanos() && r == remaining_at(*self, now),
    {
        let now = unix_nanos_now();
        self.remaining_ttl_at(now)
    }

    /// The age of the entry at `now`, in nanoseconds; zero where `now` is before the fetch.
    pub fn age_at(&self, now: u128) -> (r: u128)
        ensures
            r == age_since(*self, now),
    {
        if now >= self.fetched_at {
            now - self.fetched_at
        } else {
            0
        }
    }

    /// The age of the entry now, in nanoseconds.
    /// The reading is the system clock's; what is stated is the rule applied to it.
    pub fn age(&self) -> (r: u128)
        ensures
            exists|now: u128| now <= max_duration_nanos() && r == age_since(*self, now),
    {
        let now = unix_nanos_now();
        self.age_at(now)
    }
}

} // verus!
