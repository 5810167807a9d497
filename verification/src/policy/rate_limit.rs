//! Rate limiting with token buckets, one bucket per client address.
//!
//! Times are whole nanoseconds. A bucket refills from the time elapsed since its last
//! refill; the clock gives that time, and each operation that reads the clock is stated
//! for every value the clock may give, through a function that takes the elapsed time as
//! an argument.

use vstd::prelude::*;
use std::time::Instant;
use crate::clock::{instant_now, nanos_between};
use crate::net::IpAddr;

verus! {

/// Nanoseconds in a second.
pub const NANOS_PER_SEC: u64 = 1_000_000_000;

/// Refills happen only after at least this many nanoseconds (100 ms).
pub const REFILL_GRANULARITY_NANOS: u64 = 100_000_000;

/// What a bucket holds: its capacity, its tokens and its refill rate (tokens per second).
pub struct BucketState {
    pub capacity: u32,
    pub tokens: u32,
    pub refill_rate: u32,
}

/// Tokens earned in `elapsed` nanoseconds at `rate` tokens per second: whole tokens only,
/// at most `u32::MAX`.
pub open spec fn earned(rate: u32, elapsed: u64) -> nat {
    let t = (elapsed as nat * rate as nat) / NANOS_PER_SEC as nat;
    if t > u32::MAX {
        u32::MAX as nat
    } else {
        t
    }
}

/// Whether a refill after `elapsed` nanoseconds adds tokens (and so restarts the refill
/// clock): at least 100 ms have passed and at least one whole token was earned.
pub open spec fn refill_adds(rate: u32, elapsed: u64) -> bool {
    elapsed >= REFILL_GRANULARITY_NANOS && earned(rate, elapsed) > 0
}

/// The tokens of a bucket after a refill `elapsed` nanoseconds after the last one: the
/// earned tokens are added, up to the capacity.
pub open spec fn refilled(b: BucketState, elapsed: u64) -> BucketState {
    if refill_adds(b.refill_rate, elapsed) {
        let t = b.tokens + earned(b.refill_rate, elapsed);
        BucketState {
            tokens: if t > b.capacity { b.capacity } else { t as u32 },
            ..b
        }
    } else {
        b
    }
}

/// `after` is `before` refilled after `elapsed` nanoseconds and then asked for one token;
/// `granted` says whether it gave one.
pub open spec fn consumed(before: BucketState, elapsed: u64, granted: bool, after: BucketState) -> bool {
    let r = refilled(before, elapsed);
    &&& granted == (r.tokens > 0)
    &&& after == (if granted {
        BucketState { tokens: (r.tokens - 1) as u32, ..r }
    } else {
        r
    })
}

/// A full bucket.
pub open spec fn full_bucket(capacity: u32, refill_rate: u32) -> BucketState {
    BucketState { capacity, tokens: capacity, refill_rate }
}

/// The nanoseconds until a bucket holding `tokens` tokens has one: none when it has some,
/// else the time to earn one at `rate` tokens per second (whole nanoseconds, rounded down).
pub open spec fn wait_nanos(tokens: u32, rate: u32) -> u64 {
    if tokens > 0 {
        0
    } else {
        (NANOS_PER_SEC / rate as u64) as u64
    }
}

/// Token bucket for rate limiting.
#[derive(Debug, Clone, Copy)]
pub struct TokenBucket {
    capacity: u32,
    tokens: u32,
    refill_rate: u32,
    last_refill: Instant,
}

impl View for TokenBucket {
    type V = BucketState;

    closed spec fn view(&self) -> BucketState {
        BucketState { capacity: self.capacity, tokens: self.tokens, refill_rate: self.refill_rate }
    }
}

impl TokenBucket {
    /// A bucket never holds more tokens than its capacity.
    #[verifier::type_invariant]
    spec fn within_capacity(self) -> bool {
        self.tokens <= self.capacity
    }

    /// When tokens were last added: the instant from which the next refill counts.
    pub closed spec fn refill_clock(&self) -> Instant {
        self.last_refill
    }

    /// A full bucket whose refill clock starts now.
    pub fn new(capacity: u32, refill_rate: u32) -> (r: Self)
        ensures
            r@ == full_bucket(capacity, refill_rate),
    {
        Self::new_at(capacity, refill_rate, instant_now())
    }

    /// A full bucket whose refill clock starts at `now`.
    pub fn new_at(capacity: u32, refill_rate: u32, now: Instant) -> (r: Self)
        ensures
            r@ == full_bucket(capacity, refill_rate),
            r.refill_clock() == now,
    {
        TokenBucket { capacity, tokens: capacity, refill_rate, last_refill: now }
    }

    /// Refills the bucket `elapsed` nanoseconds after its last refill; the reading was
    /// taken at `now`, which becomes the refill clock when tokens are added.
    pub fn refill_after(&mut self, elapsed: u64, now: Instant)
        ensures
            final(self)@ == refilled(old(self)@, elapsed),
            final(self).refill_clock() == (if refill_adds(old(self)@.refill_rate, elapsed) {
                now
            } else {
                old(self).refill_clock()
            }),
            final(self)@.tokens <= final(self)@.capacity,
    {
        proof {
            use_type_invariant(&*self);
        }
        if elapsed >= REFILL_GRANULARITY_NANOS {
            let e = elapsed as u128;
            let rate = self.refill_rate as u128;
            assert(e * rate <= 0xffff_ffff_ffff_ffff * 0xffff_ffff) by (nonlinear_arith)
                requires
                    e <= 0xffff_ffff_ffff_ffff,
                    rate <= 0xffff_ffff,
            ;
            let product: u128 = e * rate;
            let t: u128 = product / (NANOS_PER_SEC as u128);
            let add: u32 = if t > u32::MAX as u128 {
                u32::MAX
            } else {
                t as u32
            };
            assert(add == earned(self.refill_rate, elapsed));
            if add > 0 {
                let sum: u64 = self.tokens as u64 + add as u64;
                self.tokens = if sum > self.capacity as u64 {
                    self.capacity
                } else {
                    sum as u32
                };
                self.last_refill = now;
            }
        }
    }

    fn take_token(&mut self) -> (granted: bool)
        ensures
            granted == (old(self)@.tokens > 0),
            final(self)@ == (if granted {
                BucketState { tokens: (old(self)@.tokens - 1) as u32, ..old(self)@ }
            } else {
                old(self)@
            }),
            final(self).refill_clock() == old(self).refill_clock(),
            final(self)@.tokens <= final(self)@.capacity,
    {
        proof {
            use_type_invariant(&*self);
        }
        if self.tokens > 0 {
            self.tokens = self.tokens - 1;
            true
        } else {
            false
        }
    }

    /// Refills the bucket `elapsed` nanoseconds after its last refill, then takes one token
    /// if there is one.
    pub fn try_consume_after(&mut self, elapsed: u64, now: Instant) -> (granted: bool)
        ensures
            consumed(old(self)@, elapsed, granted, final(self)@),
            final(self).refill_clock() == (if refill_adds(old(self)@.refill_rate, elapsed) {
                now
            } else {
                old(self).refill_clock()
            }),
            final(self)@.tokens <= final(self)@.capacity,
    {
        self.refill_after(elapsed, now);
        self.take_token()
    }

    /// Refills the bucket from the clock, then takes one token if there is one.
    pub fn try_consume(&mut self) -> (granted: bool)
        ensures
            exists|elapsed: u64|
                #[trigger] consumed(old(self)@, elapsed, granted, final(self)@) && (!refill_adds(
                    old(self)@.refill_rate,
                    elapsed,
                ) ==> final(self).refill_clock() == old(self).refill_clock()),
            final(self)@.tokens <= final(self)@.capacity,
    {
        let now = instant_now();
        let elapsed = nanos_between(&self.last_refill, &now);
        self.try_consume_after(elapsed, now)
    }

    /// Nanoseconds until the next token is available: zero when there is one.
    pub fn time_until_next_token(&self) -> (r: u64)
        requires
            self@.tokens > 0 || self@.refill_rate > 0,
        ensures
            r == wait_nanos(self@.tokens, self@.refill_rate),
    {
        if self.tokens > 0 {
            0
        } else {
            NANOS_PER_SEC / (self.refill_rate as u64)
        }
    }

    /// The tokens after a refill from the clock.
    pub fn current_tokens(&mut self) -> (r: u32)
        ensures
            exists|elapsed: u64|
                final(self)@ == #[trigger] refilled(old(self)@, elapsed) && (!refill_adds(
                    old(self)@.refill_rate,
                    elapsed,
                ) ==> final(self).refill_clock() == old(self).refill_clock()),
            r == final(self)@.tokens,
            r <= final(self)@.capacity,
    {
        let now = instant_now();
        let elapsed = nanos_between(&self.last_refill, &now);
        self.refill_after(elapsed, now);
        self.tokens
    }
}

/// A refused request: the client and the seconds after which to retry.
#[derive(Debug, Clone, Copy, PartialEq, Eq, Structural)]
pub enum RateLimitError {
    RateLimitExceeded { client_ip: IpAddr, retry_after_seconds: u64 },
}

/// The seconds a refused client is told to wait: the wait for a token of an empty bucket,
/// in whole seconds, and at least one.
pub open spec fn retry_seconds(rate: u32) -> u64 {
    let s = wait_nanos(0, rate) / NANOS_PER_SEC;
    if s < 1 {
        1
    } else {
        s
    }
}

/// The buckets of a list of (client, bucket) pairs, by client; a later pair for the same
/// client hides an earlier one.
pub open spec fn bucket_map(s: Seq<(IpAddr, TokenBucket)>) -> Map<IpAddr, BucketState>
    decreases s.len(),
{
    if s.len() == 0 {
        Map::empty()
    } else {
        bucket_map(s.drop_last()).insert(s.last().0, s.last().1@)
    }
}

/// No client appears twice.
pub open spec fn distinct_clients(s: Seq<(IpAddr, TokenBucket)>) -> bool {
    forall|i: int, j: int| 0 <= i < j < s.len() ==> (#[trigger] s[i]).0 != (#[trigger] s[j]).0
}

proof fn lemma_bucket_map_lookup(s: Seq<(IpAddr, TokenBucket)>, i: int)
    requires
        distinct_clients(s),
        0 <= i < s.len(),
    ensures
        bucket_map(s).contains_key(s[i].0),
        bucket_map(s)[s[i].0] == s[i].1@,
    decreases s.len(),
{
    if i < s.len() - 1 {
        assert(s.drop_last()[i] == s[i]);
        lemma_bucket_map_lookup(s.drop_last(), i);
    }
}

proof fn lemma_bucket_map_keys(s: Seq<(IpAddr, TokenBucket)>, k: IpAddr)
    ensures
        bucket_map(s).contains_key(k) <==> exists|i: int| 0 <= i < s.len() && (#[trigger] s[i]).0 == k,
    decreases s.len(),
{
    if s.len() > 0 {
        lemma_bucket_map_keys(s.drop_last(), k);
        if bucket_map(s.drop_last()).contains_key(k) {
            let i = choose|i: int| 0 <= i < s.drop_last().len() && (#[trigger] s.drop_last()[i]).0 == k;
            assert(s[i] == s.drop_last()[i]);
        }
        if exists|i: int| 0 <= i < s.len() && (#[trigger] s[i]).0 == k {
            let i = choose|i: int| 0 <= i < s.len() && (#[trigger] s[i]).0 == k;
            if i < s.len() - 1 {
                assert(s.drop_last()[i] == s[i]);
            }
        }
    }
}

proof fn lemma_bucket_map_update(s: Seq<(IpAddr, TokenBucket)>, i: int, b: TokenBucket)
    requires
        distinct_clients(s),
        0 <= i < s.len(),
    ensures
        distinct_clients(s.update(i, (s[i].0, b))),
        bucket_map(s.update(i, (s[i].0, b))) == bucket_map(s).insert(s[i].0, b@),
    decreases s.len(),
{
    let t = s.update(i, (s[i].0, b));
    assert forall|a: int, c: int| 0 <= a < c < t.len() implies (#[trigger] t[a]).0 != (#[trigger] t[c]).0 by {
        assert(t[a].0 == s[a].0 && t[c].0 == s[c].0);
    }
    if i == s.len() - 1 {
        assert(t.drop_last() =~= s.drop_last());
        assert(bucket_map(t) =~= bucket_map(s).insert(s[i].0, b@));
    } else {
        assert(t.drop_last() =~= s.drop_last().update(i, (s[i].0, b)));
        lemma_bucket_map_update(s.drop_last(), i, b);
        assert(bucket_map(t) =~= bucket_map(s).insert(s[i].0, b@));
    }
}

/// What a rate limiter holds: a bucket per client, and the capacity and refill rate that
/// new buckets get.
pub struct LimiterState {
    pub buckets: Map<IpAddr, BucketState>,
    pub capacity: u32,
    pub refill_rate: u32,
}

/// Rate limiter with one token bucket per client address.
pub struct RateLimiter {
    buckets: Vec<(IpAddr, TokenBucket)>,
    capacity: u32,
    refill_rate: u32,
    cleanup_interval: u64,
    last_cleanup: Instant,
}

impl View for RateLimiter {
    type V = LimiterState;

    closed spec fn view(&self) -> LimiterState {
        LimiterState {
            buckets: bucket_map(self.buckets@),
            capacity: self.capacity,
            refill_rate: self.refill_rate,
        }
    }
}

/// Whether a cleanup keeps the bucket of the client at position `j` of `clients`, read
/// `elapsed[j]` nanoseconds after its last refill: that refill leaves it short of the
/// capacity `cap` (a bucket that is full again is dropped).
pub open spec fn kept_at(
    buckets: Map<IpAddr, BucketState>,
    clients: Seq<IpAddr>,
    elapsed: Seq<u64>,
    cap: u32,
    j: int,
) -> bool {
    refilled(buckets[clients[j]], elapsed[j]).tokens < cap
}

/// The clients among the first `n` of `clients` whose buckets a cleanup keeps.
pub open spec fn kept_clients(
    buckets: Map<IpAddr, BucketState>,
    clients: Seq<IpAddr>,
    elapsed: Seq<u64>,
    cap: u32,
    n: int,
) -> Set<IpAddr> {
    Set::new(
        |k: IpAddr|
            exists|j: int| 0 <= j < n && clients[j] == k && #[trigger] kept_at(buckets, clients, elapsed, cap, j),
    )
}

/// The limiter `s`, whose clients stand in the order `clients` and whose cleanups are
/// `interval` nanoseconds apart, after a cleanup `since` nanoseconds after the last one
/// with the readings `elapsed` (one per client, in that order): once the interval has
/// passed, only the buckets that their refill leaves short of capacity remain; before,
/// nothing changes.
pub open spec fn cleaned(
    s: LimiterState,
    clients: Seq<IpAddr>,
    interval: u64,
    since: u64,
    elapsed: Seq<u64>,
) -> LimiterState {
    if since >= interval {
        LimiterState {
            buckets: s.buckets.restrict(kept_clients(s.buckets, clients, elapsed, s.capacity, clients.len() as int)),
            ..s
        }
    } else {
        s
    }
}

/// The reading of `ip` among `elapsed` (one per client, in the order `clients`); zero for a
/// client without a bucket.
pub open spec fn reading_for(clients: Seq<IpAddr>, elapsed: Seq<u64>, ip: IpAddr) -> u64 {
    if exists|j: int| 0 <= j < clients.len() && clients[j] == ip {
        elapsed[choose|j: int| 0 <= j < clients.len() && clients[j] == ip]
    } else {
        0
    }
}

/// The tokens that `ip` has before any refill: those of its bucket, or a full bucket's
/// for a client without one.
pub open spec fn tokens_for(s: LimiterState, ip: IpAddr) -> nat {
    if s.buckets.contains_key(ip) {
        s.buckets[ip].tokens as nat
    } else {
        s.capacity as nat
    }
}

/// `after` is the limiter `before` once `ip` has been asked for a token, its bucket refilled
/// `elapsed` nanoseconds after its last refill (a client without a bucket gets a full one);
/// the other buckets are unchanged, and a refusal names the client and the wait.
pub open spec fn admitted(
    before: LimiterState,
    ip: IpAddr,
    elapsed: u64,
    r: Result<(), RateLimitError>,
    after: LimiterState,
) -> bool {
    let b = if before.buckets.contains_key(ip) {
        before.buckets[ip]
    } else {
        full_bucket(before.capacity, before.refill_rate)
    };
    &&& after.capacity == before.capacity
    &&& after.refill_rate == before.refill_rate
    &&& after.buckets.contains_key(ip)
    &&& after.buckets == before.buckets.insert(ip, after.buckets[ip])
    &&& consumed(b, elapsed, r is Ok, after.buckets[ip])
    &&& r is Err ==> r == Err::<(), RateLimitError>(
        RateLimitError::RateLimitExceeded {
            client_ip: ip,
            retry_after_seconds: retry_seconds(before.refill_rate),
        },
    )
}

impl RateLimiter {
    /// Whether the limiter's own data is consistent: one bucket per client, each with the
    /// limiter's capacity and refill rate, and no more tokens than that capacity.
    pub closed spec fn wf(&self) -> bool {
        &&& distinct_clients(self.buckets@)
        &&& forall|i: int|
            0 <= i < self.buckets@.len() ==> (#[trigger] self.buckets@[i]).1.capacity == self.capacity
                && self.buckets@[i].1.refill_rate == self.refill_rate
                && self.buckets@[i].1.tokens <= self.capacity
    }

    /// What well-formedness says of the buckets by client: each has the limiter's capacity
    /// and refill rate, and no more tokens than the capacity.
    pub proof fn lemma_wf(&self, ip: IpAddr)
        requires
            self.wf(),
        ensures
            self@.buckets.contains_key(ip) ==> self@.buckets[ip].capacity == self@.capacity
                && self@.buckets[ip].refill_rate == self@.refill_rate
                && self@.buckets[ip].tokens <= self@.capacity,
    {
        lemma_bucket_map_keys(self.buckets@, ip);
        if self@.buckets.contains_key(ip) {
            let i = choose|i: int| 0 <= i < self.buckets@.len() && (#[trigger] self.buckets@[i]).0 == ip;
            lemma_bucket_map_lookup(self.buckets@, i);
        }
    }

    /// The clients with a bucket, in the order in which their buckets are held; cleanup
    /// readings come one per client in this order.
    pub closed spec fn clients(&self) -> Seq<IpAddr> {
        self.buckets@.map_values(|p: (IpAddr, TokenBucket)| p.0)
    }

    /// The nanoseconds that must pass between two cleanups.
    pub closed spec fn cleanup_interval_nanos(&self) -> u64 {
        self.cleanup_interval
    }

    /// When the last cleanup happened (or the limiter was made).
    pub closed spec fn cleanup_clock(&self) -> Instant {
        self.last_cleanup
    }

    /// The clients are exactly those with a bucket, each once.
    pub proof fn lemma_clients(&self)
        requires
            self.wf(),
        ensures
            self@.buckets.dom().finite(),
            self.clients().len() == self@.buckets.len(),
            forall|i: int, j: int| 0 <= i < j < self.clients().len() ==> self.clients()[i] != self.clients()[j],
            forall|ip: IpAddr| #[trigger] self@.buckets.contains_key(ip) <==> self.clients().contains(ip),
    {
        lemma_bucket_map_len(self.buckets@);
        assert forall|i: int, j: int| 0 <= i < j < self.clients().len() implies self.clients()[i] != self.clients()[j] by {
            assert(self.clients()[i] == self.buckets@[i].0 && self.clients()[j] == self.buckets@[j].0);
        }
        assert forall|ip: IpAddr| #[trigger] self@.buckets.contains_key(ip) <==> self.clients().contains(ip) by {
            lemma_bucket_map_keys(self.buckets@, ip);
            if self.clients().contains(ip) {
                let j = choose|j: int| 0 <= j < self.clients().len() && self.clients()[j] == ip;
                assert(self.buckets@[j].0 == ip);
            }
            if self@.buckets.contains_key(ip) {
                let j = choose|j: int| 0 <= j < self.buckets@.len() && (#[trigger] self.buckets@[j]).0 == ip;
                assert(self.clients()[j] == ip);
            }
        }
    }

    /// A limiter with no buckets yet; buckets get `capacity` tokens and refill at
    /// `refill_rate` tokens per second. Unused buckets are dropped every 300 seconds.
    pub fn new(capacity: u32, refill_rate: u32) -> (r: Self)
        ensures
            r.wf(),
            r@.buckets == Map::<IpAddr, BucketState>::empty(),
            r@.capacity == capacity,
            r@.refill_rate == refill_rate,
            r.clients() == Seq::<IpAddr>::empty(),
            r.cleanup_interval_nanos() == 300 * NANOS_PER_SEC,
    {
        let r = RateLimiter {
            buckets: Vec::new(),
            capacity,
            refill_rate,
            cleanup_interval: 300 * NANOS_PER_SEC,
            last_cleanup: instant_now(),
        };
        assert(bucket_map(r.buckets@) =~= Map::<IpAddr, BucketState>::empty());
        assert(r.clients() =~= Seq::<IpAddr>::empty());
        r
    }

    fn find(&self, ip: IpAddr) -> (r: Option<usize>)
        ensures
            r matches Some(i) ==> i < self.buckets@.len() && self.buckets@[i as int].0 == ip,
            r is None ==> forall|i: int| 0 <= i < self.buckets@.len() ==> (#[trigger] self.buckets@[i]).0 != ip,
    {
        let mut i: usize = 0;
        while i < self.buckets.len()
            invariant
                i <= self.buckets@.len(),
                forall|j: int| 0 <= j < i ==> (#[trigger] self.buckets@[j]).0 != ip,
            decreases self.buckets@.len() - i,
        {
            if self.buckets[i].0 == ip {
                return Some(i);
            }
            i = i + 1;
        }
        None
    }

    /// Asks for a token for `ip`, its bucket refilled `elapsed` nanoseconds after its last
    /// refill, at `now`.
    pub fn request_token(&mut self, ip: IpAddr, elapsed: u64, now: Instant) -> (r: Result<(), RateLimitError>)
        requires
            old(self).wf(),
            old(self)@.refill_rate > 0 || tokens_for(old(self)@, ip) > 0,
        ensures
            final(self).wf(),
            admitted(old(self)@, ip, elapsed, r, final(self)@),
            final(self).cleanup_interval_nanos() == old(self).cleanup_interval_nanos(),
            final(self).cleanup_clock() == old(self).cleanup_clock(),
    {
        let ghost old_buckets = self.buckets@;
        let granted;
        match self.find(ip) {
            Some(i) => {
                proof {
                    lemma_bucket_map_lookup(self.buckets@, i as int);
                }
                let mut b = self.buckets[i].1;
                granted = b.try_consume_after(elapsed, now);
                self.buckets.set(i, (ip, b));
                proof {
                    lemma_bucket_map_update(old_buckets, i as int, b);
                    assert(self.buckets@ == old_buckets.update(i as int, (old_buckets[i as int].0, b)));
                    assert forall|j: int| 0 <= j < self.buckets@.len() implies (#[trigger] self.buckets@[j]).1.capacity
                        == self.capacity && self.buckets@[j].1.refill_rate == self.refill_rate by {
                        if j != i {
                            assert(self.buckets@[j] == old_buckets[j]);
                        }
                    }
                }
            },
            None => {
                proof {
                    lemma_bucket_map_keys(self.buckets@, ip);
                }
                let mut b = TokenBucket::new_at(self.capacity, self.refill_rate, now);
                granted = b.try_consume_after(elapsed, now);
                self.buckets.push((ip, b));
                proof {
                    assert(self.buckets@.drop_last() =~= old_buckets);
                    assert forall|a: int, c: int| 0 <= a < c < self.buckets@.len() implies (#[trigger] self.buckets@[a]).0
                        != (#[trigger] self.buckets@[c]).0 by {
                        if c == self.buckets@.len() - 1 {
                            assert(old_buckets[a] == self.buckets@[a]);
                        } else {
                            assert(old_buckets[a] == self.buckets@[a]);
                            assert(old_buckets[c] == self.buckets@[c]);
                        }
                    }
                    assert forall|j: int| 0 <= j < self.buckets@.len() implies (#[trigger] self.buckets@[j]).1.capacity
                        == self.capacity && self.buckets@[j].1.refill_rate == self.refill_rate by {
                        if j < old_buckets.len() {
                            assert(self.buckets@[j] == old_buckets[j]);
                        }
                    }
                }
            },
        }
        if granted {
            Ok(())
        } else {
            let wait = NANOS_PER_SEC / (self.refill_rate as u64);
            let secs = wait / NANOS_PER_SEC;
            Err(
                RateLimitError::RateLimitExceeded {
                    client_ip: ip,
                    retry_after_seconds: if secs < 1 {
                        1
                    } else {
                        secs
                    },
                },
            )
        }
    }

    /// Drops, once the cleanup interval has passed, the buckets that are full again, and
    /// restarts the cleanup clock at `now`; before that, changes nothing. `since` is the
    /// time since the last cleanup, and `elapsed` holds, for each client in the order of
    /// `clients()`, the time since its bucket's last refill, all read at `now`.
    pub fn cleanup_if_needed(&mut self, since: u64, elapsed: &Vec<u64>, now: Instant)
        requires
            old(self).wf(),
            elapsed@.len() == old(self).clients().len(),
        ensures
            final(self).wf(),
            final(self)@ == cleaned(
                old(self)@,
                old(self).clients(),
                old(self).cleanup_interval_nanos(),
                since,
                elapsed@,
            ),
            final(self).cleanup_interval_nanos() == old(self).cleanup_interval_nanos(),
            final(self).cleanup_clock() == (if since >= old(self).cleanup_interval_nanos() {
                now
            } else {
                old(self).cleanup_clock()
            }),
            since < old(self).cleanup_interval_nanos() ==> final(self).clients() == old(self).clients(),
    {
        if since >= self.cleanup_interval {
            let ghost old_buckets = self.buckets@;
            let ghost old_map = bucket_map(old_buckets);
            let ghost clients = self.clients();
            let ghost cap = self.capacity;
            let mut kept: Vec<(IpAddr, TokenBucket)> = Vec::new();
            let mut i: usize = 0;
            proof {
                assert(bucket_map(kept@) =~= old_map.restrict(kept_clients(old_map, clients, elapsed@, cap, 0)));
            }
            while i < self.buckets.len()
                invariant
                    self.buckets@ == old_buckets,
                    clients == old_buckets.map_values(|p: (IpAddr, TokenBucket)| p.0),
                    old_map == bucket_map(old_buckets),
                    cap == self.capacity,
                    elapsed@.len() == old_buckets.len(),
                    distinct_clients(old_buckets),
                    i <= old_buckets.len(),
                    distinct_clients(kept@),
                    forall|j: int| 0 <= j < kept@.len() ==> exists|k: int| 0 <= k < i && #[trigger] kept@[j] == old_buckets[k],
                    forall|j: int| 0 <= j < old_buckets.len() ==> (#[trigger] old_buckets[j]).1.capacity == self.capacity
                        && old_buckets[j].1.refill_rate == self.refill_rate
                        && old_buckets[j].1.tokens <= self.capacity,
                    bucket_map(kept@) == old_map.restrict(kept_clients(old_map, clients, elapsed@, cap, i as int)),
                decreases old_buckets.len() - i,
            {
                let pair = self.buckets[i];
                let mut probe = pair.1;
                probe.refill_after(elapsed[i], now);
                let ghost before = kept@;
                let ghost c = clients[i as int];
                proof {
                    lemma_bucket_map_lookup(old_buckets, i as int);
                    assert(c == pair.0);
                    assert(old_map[c] == pair.1@);
                    assert(kept_at(old_map, clients, elapsed@, cap, i as int) == (probe@.tokens < cap));
                }
                let keep = probe.tokens < self.capacity;
                if keep {
                    kept.push(pair);
                    proof {
                        assert(kept@.drop_last() =~= before);
                        assert(bucket_map(kept@) == bucket_map(before).insert(c, pair.1@));
                        assert forall|a: int, b: int| 0 <= a < b < kept@.len() implies (#[trigger] kept@[a]).0
                            != (#[trigger] kept@[b]).0 by {
                            if b == kept@.len() - 1 {
                                assert(kept@[a] == before[a]);
                                let k = choose|k: int| 0 <= k < i && #[trigger] before[a] == old_buckets[k];
                                assert(k != i);
                            } else {
                                assert(kept@[a] == before[a]);
                                assert(kept@[b] == before[b]);
                            }
                        }
                        assert forall|j: int| 0 <= j < kept@.len() implies exists|k: int| 0 <= k < i + 1 && #[trigger] kept@[j] == old_buckets[k] by {
                            if j == kept@.len() - 1 {
                                assert(kept@[j] == old_buckets[i as int]);
                            } else {
                                assert(kept@[j] == before[j]);
                                let k = choose|k: int| 0 <= k < i && #[trigger] before[j] == old_buckets[k];
                                assert(kept@[j] == old_buckets[k]);
                            }
                        }
                    }
                }
                proof {
                    let s0 = kept_clients(old_map, clients, elapsed@, cap, i as int);
                    let s1 = kept_clients(old_map, clients, elapsed@, cap, i + 1);
                    assert forall|k: IpAddr| #[trigger] s1.contains(k) <==> s0.contains(k) || (keep && k == c) by {
                        if s1.contains(k) {
                            let j = choose|j: int| 0 <= j < i + 1 && clients[j] == k && #[trigger] kept_at(old_map, clients, elapsed@, cap, j);
                            if j < i {
                                assert(s0.contains(k));
                            }
                        }
                        if s0.contains(k) {
                            let j = choose|j: int| 0 <= j < i && clients[j] == k && #[trigger] kept_at(old_map, clients, elapsed@, cap, j);
                            assert(kept_at(old_map, clients, elapsed@, cap, j));
                        }
                        if keep && k == c {
                            assert(kept_at(old_map, clients, elapsed@, cap, i as int));
                        }
                    }
                    assert(bucket_map(kept@) =~= old_map.restrict(s1));
                }
                i = i + 1;
            }
            proof {
                assert forall|j: int| 0 <= j < kept@.len() implies (#[trigger] kept@[j]).1.capacity == self.capacity
                    && kept@[j].1.refill_rate == self.refill_rate && kept@[j].1.tokens <= self.capacity by {
                    let k = choose|k: int| 0 <= k < i && #[trigger] kept@[j] == old_buckets[k];
                    assert(old_buckets[k].1.capacity == self.capacity);
                }
            }
            self.buckets = kept;
            self.last_cleanup = now;
        }
    }

    /// The readings that a cleanup takes at `now`: for each client, in the order of
    /// `clients()`, the nanoseconds since its bucket's last refill.
    fn refill_readings(&self, now: &Instant) -> (r: Vec<u64>)
        ensures
            r@.len() == self.clients().len(),
    {
        let mut r: Vec<u64> = Vec::new();
        let mut i: usize = 0;
        while i < self.buckets.len()
            invariant
                i <= self.buckets@.len(),
                r@.len() == i,
            decreases self.buckets@.len() - i,
        {
            r.push(nanos_between(&self.buckets[i].1.last_refill, now));
            i = i + 1;
        }
        r
    }

    /// Asks for a token for `client_ip` with the clock read at `now`: first the cleanup is
    /// made with the readings `since` and `elapsed` (see `cleanup_if_needed`); then the
    /// client's bucket (a full one for a client without one) is refilled after the
    /// client's own reading and asked for one token.
    pub fn check_rate_limit_at(
        &mut self,
        client_ip: IpAddr,
        since: u64,
        elapsed: &Vec<u64>,
        now: Instant,
    ) -> (r: Result<(), RateLimitError>)
        requires
            old(self).wf(),
            elapsed@.len() == old(self).clients().len(),
            old(self)@.refill_rate > 0 || tokens_for(old(self)@, client_ip) > 0,
        ensures
            final(self).wf(),
            admitted(
                cleaned(old(self)@, old(self).clients(), old(self).cleanup_interval_nanos(), since, elapsed@),
                client_ip,
                reading_for(old(self).clients(), elapsed@, client_ip),
                r,
                final(self)@,
            ),
            final(self).cleanup_interval_nanos() == old(self).cleanup_interval_nanos(),
            final(self).cleanup_clock() == (if since >= old(self).cleanup_interval_nanos() {
                now
            } else {
                old(self).cleanup_clock()
            }),
    {
        let ghost before = self@;
        let ghost clients = self.clients();
        proof {
            self.lemma_wf(client_ip);
            self.lemma_clients();
        }
        let reading = match self.find(client_ip) {
            Some(i) => {
                proof {
                    assert(clients[i as int] == client_ip);
                    let j = choose|j: int| 0 <= j < clients.len() && clients[j] == client_ip;
                    assert(clients[j] == self.buckets@[j].0);
                    if j != i as int {
                        if j < i as int {
                            assert(self.buckets@[j].0 != self.buckets@[i as int].0);
                        } else {
                            assert(self.buckets@[i as int].0 != self.buckets@[j].0);
                        }
                    }
                }
                elapsed[i]
            },
            None => {
                proof {
                    assert forall|j: int| 0 <= j < clients.len() implies clients[j] != client_ip by {
                        assert(clients[j] == self.buckets@[j].0);
                    }
                }
                0
            },
        };
        assert(reading == reading_for(clients, elapsed@, client_ip));
        self.cleanup_if_needed(since, elapsed, now);
        let ghost after_cleanup = self@;
        proof {
            if before.refill_rate == 0 && before.buckets.contains_key(client_ip)
                && !after_cleanup.buckets.contains_key(client_ip) {
                assert(clients.contains(client_ip));
                let j = choose|j: int| 0 <= j < clients.len() && clients[j] == client_ip;
                if kept_at(before.buckets, clients, elapsed@, before.capacity, j) {
                    assert(kept_clients(before.buckets, clients, elapsed@, before.capacity, clients.len() as int).contains(client_ip));
                }
                assert(refilled(before.buckets[client_ip], elapsed@[j]) == before.buckets[client_ip]);
            }
        }
        self.request_token(client_ip, reading, now)
    }

    /// Asks for a token for `client_ip`, with the clock read once: a cleanup once the
    /// cleanup interval has passed, then the client's bucket (a full one for a new client)
    /// refilled and asked for one token. What is stated holds for every reading of the
    /// clock.
    pub fn check_rate_limit(&mut self, client_ip: IpAddr) -> (r: Result<(), RateLimitError>)
        requires
            old(self).wf(),
            old(self)@.refill_rate > 0 || tokens_for(old(self)@, client_ip) > 0,
        ensures
            final(self).wf(),
            exists|since: u64, elapsed: Seq<u64>|
                elapsed.len() == old(self).clients().len() && #[trigger] admitted(
                    cleaned(old(self)@, old(self).clients(), old(self).cleanup_interval_nanos(), since, elapsed),
                    client_ip,
                    reading_for(old(self).clients(), elapsed, client_ip),
                    r,
                    final(self)@,
                ),
    {
        let now = instant_now();
        let since = nanos_between(&self.last_cleanup, &now);
        let readings = self.refill_readings(&now);
        let r = self.check_rate_limit_at(client_ip, since, &readings, now);
        r
    }

    /// The tokens of a client's bucket after a refill from the clock; the capacity for a
    /// client without a bucket.
    pub fn get_current_tokens(&mut self, client_ip: IpAddr) -> (r: u32)
        requires
            old(self).wf(),
        ensures
            final(self).wf(),
            final(self).cleanup_interval_nanos() == old(self).cleanup_interval_nanos(),
            final(self).cleanup_clock() == old(self).cleanup_clock(),
            r <= final(self)@.capacity,
            final(self)@.capacity == old(self)@.capacity,
            final(self)@.refill_rate == old(self)@.refill_rate,
            !old(self)@.buckets.contains_key(client_ip) ==> r == old(self)@.capacity && final(self)@
                == old(self)@,
            old(self)@.buckets.contains_key(client_ip) ==> exists|elapsed: u64|
                final(self)@.buckets == old(self)@.buckets.insert(
                    client_ip,
                    #[trigger] refilled(old(self)@.buckets[client_ip], elapsed),
                ) && r == refilled(old(self)@.buckets[client_ip], elapsed).tokens,
    {
        proof {
            lemma_bucket_map_keys(self.buckets@, client_ip);
        }
        match self.find(client_ip) {
            Some(i) => {
                let ghost old_buckets = self.buckets@;
                proof {
                    lemma_bucket_map_lookup(self.buckets@, i as int);
                }
                let mut b = self.buckets[i].1;
                let r = b.current_tokens();
                self.buckets.set(i, (client_ip, b));
                proof {
                    lemma_bucket_map_update(old_buckets, i as int, b);
                    assert forall|j: int| 0 <= j < self.buckets@.len() implies (#[trigger] self.buckets@[j]).1.capacity
                        == self.capacity && self.buckets@[j].1.refill_rate == self.refill_rate by {
                        if j != i {
                            assert(self.buckets@[j] == old_buckets[j]);
                        }
                    }
                }
                r
            },
            None => self.capacity,
        }
    }

    /// The number of clients with a bucket.
    pub fn tracked_clients(&self) -> (r: usize)
        requires
            self.wf(),
        ensures
            r == self@.buckets.len(),
    {
        proof {
            lemma_bucket_map_len(self.buckets@);
        }
        self.buckets.len()
    }
}

proof fn lemma_bucket_map_len(s: Seq<(IpAddr, TokenBucket)>)
    requires
        distinct_clients(s),
    ensures
        bucket_map(s).dom().finite(),
        bucket_map(s).len() == s.len(),
    decreases s.len(),
{
    if s.len() > 0 {
        let p = s.drop_last();
        assert forall|a: int, c: int| 0 <= a < c < p.len() implies (#[trigger] p[a]).0 != (#[trigger] p[c]).0 by {
            assert(p[a] == s[a] && p[c] == s[c]);
        }
        lemma_bucket_map_len(p);
        lemma_bucket_map_keys(p, s.last().0);
        if bucket_map(p).contains_key(s.last().0) {
            let i = choose|i: int| 0 <= i < p.len() && (#[trigger] p[i]).0 == s.last().0;
            assert(p[i] == s[i]);
        }
    }
}

/// Clients are isolated: a request of `ip` leaves every other client's bucket as it was,
/// present or absent.
pub proof fn law_client_isolation(
    before: LimiterState,
    ip: IpAddr,
    elapsed: u64,
    r: Result<(), RateLimitError>,
    after: LimiterState,
    other: IpAddr,
)
    requires
        admitted(before, ip, elapsed, r, after),
        other != ip,
    ensures
        after.buckets.contains_key(other) == before.buckets.contains_key(other),
        before.buckets.contains_key(other) ==> after.buckets[other] == before.buckets[other],
{
}

/// A bucket never holds more tokens than its capacity, and keeps its capacity and rate.
pub proof fn law_tokens_within_capacity(b: BucketState, elapsed: u64, granted: bool, a: BucketState)
    requires
        b.tokens <= b.capacity,
        consumed(b, elapsed, granted, a),
    ensures
        a.tokens <= a.capacity,
        a.capacity == b.capacity,
        a.refill_rate == b.refill_rate,
{
}

/// Between refills a bucket counts down: a request is granted exactly while tokens remain,
/// and each grant takes one; a refusal changes nothing.
pub proof fn law_counts_down_between_refills(b: BucketState, elapsed: u64, granted: bool, a: BucketState)
    requires
        !refill_adds(b.refill_rate, elapsed),
        consumed(b, elapsed, granted, a),
    ensures
        granted <==> b.tokens > 0,
        granted ==> a.tokens == b.tokens - 1 && a.capacity == b.capacity && a.refill_rate
            == b.refill_rate,
        !granted ==> a == b,
{
}

/// A client seen for the first time is granted its request when buckets hold any token.
pub proof fn law_new_client_granted(
    before: LimiterState,
    ip: IpAddr,
    elapsed: u64,
    r: Result<(), RateLimitError>,
    after: LimiterState,
)
    requires
        admitted(before, ip, elapsed, r, after),
        !before.buckets.contains_key(ip),
        before.capacity > 0,
    ensures
        r is Ok,
        after.buckets[ip].tokens == before.capacity - 1,
{
}

/// A refill adds exactly the whole tokens earned, up to the capacity: once at least a tenth
/// of a second has passed and `elapsed × rate / 10⁹` rounds down to at least one token,
/// the bucket holds its tokens plus that many, or its capacity where that is fewer;
/// otherwise it is left as it was. Capacity and rate never change.
pub proof fn law_refill_adds_earned(b: BucketState, elapsed: u64)
    ensures
        ({
            let add = (elapsed as nat * b.refill_rate as nat) / 1_000_000_000nat;
            let r = refilled(b, elapsed);
            &&& elapsed >= 100_000_000 && add > 0 ==> r.tokens == (if b.tokens + add > b.capacity {
                b.capacity as int
            } else {
                b.tokens + add
            })
            &&& !(elapsed >= 100_000_000 && add > 0) ==> r == b
            &&& r.capacity == b.capacity
            &&& r.refill_rate == b.refill_rate
        }),
{
}

/// A refill never takes tokens away from a bucket within its capacity, and refilling a
/// bucket after a longer time gives at least as many tokens.
pub proof fn law_refill_monotonic(b: BucketState, e1: u64, e2: u64)
    requires
        b.tokens <= b.capacity,
        e1 <= e2,
    ensures
        refilled(b, e1).tokens >= b.tokens,
        refilled(b, e1).tokens <= refilled(b, e2).tokens,
{
    assert(e1 as nat * b.refill_rate as nat <= e2 as nat * b.refill_rate as nat) by (nonlinear_arith)
        requires
            e1 <= e2,
    ;
    assert((e1 as nat * b.refill_rate as nat) / 1_000_000_000nat <= (e2 as nat * b.refill_rate as nat)
        / 1_000_000_000nat) by (nonlinear_arith)
        requires
            e1 as nat * b.refill_rate as nat <= e2 as nat * b.refill_rate as nat,
    ;
}

} // verus!
