//! The cache server's request handlers: what each request is answered, and for discovery,
//! which fetches to make in between. The fetches and the sending of replies are the
//! caller's.

use vstd::prelude::*;
use super::cache_server::AppState;
use super::policy::discovery_allowed;
use crate::cache::coordinator::{stored_fresh, DiscoveryAction, FetchOutcome};
use crate::cache::memory::{entry_for, holds_key, touched, without};
use crate::cache::stats::incremented;
use crate::error::{CacheError, ServerError};
use crate::clock::unix_nanos_now;
use crate::json::{json_string, json_string_literal};
use crate::text::{concat, decimal, u64_to_decimal};

verus! {

/// An HTTP reply.
pub struct Reply {
    /// The status code.
    pub status: u16,
    /// The `content-type` header.
    pub content_type: String,
    /// The body.
    pub body: String,
}

/// What a discovery request needs next.
pub enum HandlerStep {
    /// Send this reply.
    Respond(Reply),
    /// Fetch the document from the root cache at this URL, then call
    /// `after_root_fetch`.
    FetchFromRoot(String),
    /// Fetch the document from the domain itself, then call `after_direct_fetch`.
    FetchDirect,
}

/// The body of an error reply: `{"error":<message>,"timestamp":<timestamp>}`.
pub open spec fn error_body(message: Seq<char>, timestamp: Seq<char>) -> Seq<char> {
    "{\"error\":"@ + json_string(message) + ",\"timestamp\":"@ + json_string(timestamp) + "}"@
}

/// The body of the health reply: `{"status":"ok","version":<version>}`.
pub open spec fn health_body(version: Seq<char>) -> Seq<char> {
    "{\"status\":\"ok\",\"version\":"@ + json_string(version) + "}"@
}

/// Whether `r` is the reply to a discovery that ended with `res` at `timestamp`: 200 with
/// the document's text, or 502 with the error as JSON.
pub open spec fn discovery_reply(res: Result<String, CacheError>, timestamp: Seq<char>, r: Reply) -> bool {
    match res {
        Ok(data) => r.status == 200 && r.content_type@ == "text/plain; charset=utf-8"@ && r.body@
            == data@,
        Err(e) => r.status == 502 && r.content_type@ == "application/json"@ && r.body@
            == error_body(e.spec_message(), timestamp),
    }
}

/// Whether `after` counts one more hit (`hit`) or one more miss than `before`, and is the
/// same otherwise.
pub open spec fn counted(before: AppState, after: AppState, hit: bool) -> bool {
    &&& after.stats.hit_count == (if hit { incremented(before.stats.hit_count) } else { before.stats.hit_count })
    &&& after.stats.miss_count == (if hit { before.stats.miss_count } else { incremented(before.stats.miss_count) })
    &&& after.stats.eviction_count == before.stats.eviction_count
    &&& after.stats.total_entries == before.stats.total_entries
    &&& after.stats.memory_usage_bytes == before.stats.memory_usage_bytes
}

/// The coordinator keeps its settings, and the policy stays.
pub open spec fn settings_kept(before: AppState, after: AppState) -> bool {
    &&& after.coordinator.local_capacity() == before.coordinator.local_capacity()
    &&& after.coordinator.root_url() == before.coordinator.root_url()
    &&& after.coordinator.ttl() == before.coordinator.ttl()
    &&& after.policy == before.policy
}

/// A JSON reply with the given status.
fn json_reply(status: u16, body: String) -> (r: Reply)
    ensures
        r.status == status,
        r.content_type@ == "application/json"@,
        r.body == body,
{
    Reply { status, content_type: String::from_str("application/json"), body }
}

/// The body of an error reply.
fn error_json(message: &str, timestamp: &str) -> (r: String)
    ensures
        r@ == error_body(message@, timestamp@),
{
    let mut r = String::from_str("{\"error\":");
    let m = json_string_literal(message);
    r.append(m.as_str());
    r.append(",\"timestamp\":");
    let t = json_string_literal(timestamp);
    r.append(t.as_str());
    r.append("}");
    r
}

/// The reply to a discovery that ended with `res`; the outcome is counted as a hit or a
/// miss.
fn finish(state: &mut AppState, res: Result<String, CacheError>, timestamp: &str) -> (r: Reply)
    ensures
        discovery_reply(res, timestamp@, r),
        counted(*old(state), *final(state), res is Ok),
        final(state).coordinator == old(state).coordinator,
        final(state).policy == old(state).policy,
{
    match res {
        Ok(data) => {
            state.stats.record_hit();
            Reply { status: 200, content_type: String::from_str("text/plain; charset=utf-8"), body: data }
        },
        Err(e) => {
            state.stats.record_miss();
            let msg = e.message();
            json_reply(502, error_json(msg.as_str(), timestamp))
        },
    }
}

/// The step that an action of the coordinator asks for.
fn step_for(state: &mut AppState, action: DiscoveryAction, timestamp: &str) -> (r: HandlerStep)
    ensures
        action matches DiscoveryAction::Done(res) ==> (r matches HandlerStep::Respond(reply)
            && discovery_reply(res, timestamp@, reply)) && counted(*old(state), *final(state), res is Ok),
        action matches DiscoveryAction::FetchFromRoot(u) ==> (r matches HandlerStep::FetchFromRoot(v)
            && v == u) && *final(state) == *old(state),
        action is FetchDirect ==> r is FetchDirect && *final(state) == *old(state),
        final(state).coordinator == old(state).coordinator,
        final(state).policy == old(state).policy,
{
    match action {
        DiscoveryAction::Done(res) => HandlerStep::Respond(finish(state, res, timestamp)),
        DiscoveryAction::FetchFromRoot(u) => HandlerStep::FetchFromRoot(u),
        DiscoveryAction::FetchDirect => HandlerStep::FetchDirect,
    }
}

/// The message of the policy violation for `domain`.
pub open spec fn refusal_message(domain: Seq<char>) -> Seq<char> {
    "Policy violation: "@ + "Domain '"@ + domain + "' is not allowed by policy"@
}

/// `GET /discover/{domain}`: a domain that the policy does not allow is answered 403 with
/// the violation; otherwise discovery begins, and a fresh entry of the local cache is
/// answered at once (200, counted as a hit); else the root cache, where there is one, or
/// else the domain itself is to be fetched.
pub fn handle_discover(state: &mut AppState, domain: &str, timestamp: &str) -> (r: HandlerStep)
    requires
        old(state).wf(),
    ensures
        final(state).wf(),
        settings_kept(*old(state), *final(state)),
        !discovery_allowed(old(state).policy, domain@) ==> (r matches HandlerStep::Respond(reply)
            && reply.status == 403 && reply.content_type@ == "application/json"@ && reply.body@
            == error_body(refusal_message(domain@), timestamp@)) && *final(state) == *old(state),
        discovery_allowed(old(state).policy, domain@) && r is Respond ==> (r matches HandlerStep::Respond(
            reply,
        ) && holds_key(old(state).coordinator.local_view(), domain@) && reply.status == 200
            && reply.content_type@ == "text/plain; charset=utf-8"@
            && reply.body@ == entry_for(old(state).coordinator.local_view(), domain@).data@)
            && final(state).coordinator.local_view() == touched(
            old(state).coordinator.local_view(),
            domain@,
        ) && counted(*old(state), *final(state), true),
        discovery_allowed(old(state).policy, domain@) && !(r is Respond) ==> final(state).coordinator.local_view()
            == without(old(state).coordinator.local_view(), domain@)
            && final(state).stats == old(state).stats && (match old(state).coordinator.root_url() {
            Some(u) => r matches HandlerStep::FetchFromRoot(v) && v@ == u,
            None => r is FetchDirect,
        }),
        discovery_allowed(old(state).policy, domain@) && !holds_key(
            old(state).coordinator.local_view(),
            domain@,
        ) ==> !(r is Respond),
{
    match state.policy.check_discovery_allowed(domain) {
        Err(e) => {
            let msg = e.message();
            assert(msg@ =~= refusal_message(domain@));
            return HandlerStep::Respond(json_reply(403, error_json(msg.as_str(), timestamp)));
        },
        Ok(()) => {},
    }
    let action = state.coordinator.begin_discovery(domain);
    step_for(state, action, timestamp)
}

/// After fetching `domain` from the root cache: a fetched document is stored and answered
/// (200, a hit); after a failed fetch the domain itself is to be fetched; a document that
/// could not be encoded is answered 502 (a miss).
pub fn after_root_fetch(state: &mut AppState, domain: &str, outcome: FetchOutcome, timestamp: &str) -> (r: HandlerStep)
    requires
        old(state).wf(),
    ensures
        final(state).wf(),
        settings_kept(*old(state), *final(state)),
        outcome matches FetchOutcome::Fetched(json) ==> (r matches HandlerStep::Respond(reply)
            && reply.status == 200 && reply.content_type@ == "text/plain; charset=utf-8"@
            && reply.body@ == json@) && counted(*old(state), *final(state), true)
            && stored_fresh(
            old(state).coordinator.local_view(),
            final(state).coordinator.local_view(),
            domain@,
            json@,
            old(state).coordinator.ttl(),
            old(state).coordinator.local_capacity(),
        ),
        outcome is FetchFailed ==> r is FetchDirect && final(state).stats == old(state).stats
            && final(state).coordinator.local_view() == old(state).coordinator.local_view(),
        outcome matches FetchOutcome::EncodeFailed(m) ==> (r matches HandlerStep::Respond(reply)
            && reply.status == 502 && reply.content_type@ == "application/json"@
            && reply.body@ == error_body("Cache operation failed: "@ + m@, timestamp@))
            && counted(*old(state), *final(state), false)
            && final(state).coordinator.local_view() == old(state).coordinator.local_view(),
{
    let action = state.coordinator.after_root_fetch(domain, outcome);
    step_for(state, action, timestamp)
}

/// After fetching `domain` from the domain itself: a fetched document is stored and
/// answered (200, a hit); a failed fetch is answered 502 with `NotFound` naming the domain
/// and the reason, and a document that could not be encoded 502 too (both misses).
pub fn after_direct_fetch(state: &mut AppState, domain: &str, outcome: FetchOutcome, timestamp: &str) -> (r: Reply)
    requires
        old(state).wf(),
    ensures
        final(state).wf(),
        settings_kept(*old(state), *final(state)),
        outcome matches FetchOutcome::Fetched(json) ==> (r.status == 200
            && r.content_type@ == "text/plain; charset=utf-8"@ && r.body@ == json@
            && counted(*old(state), *final(state), true) && stored_fresh(
            old(state).coordinator.local_view(),
            final(state).coordinator.local_view(),
            domain@,
            json@,
            old(state).coordinator.ttl(),
            old(state).coordinator.local_capacity(),
        )),
        outcome matches FetchOutcome::FetchFailed(m) ==> (r.status == 502
            && r.content_type@ == "application/json"@ && r.body@ == error_body(
            "Cache entry not found for domain: "@ + domain@ + ": "@ + m@,
            timestamp@,
        ) && counted(*old(state), *final(state), false)
            && final(state).coordinator.local_view() == old(state).coordinator.local_view()),
        outcome matches FetchOutcome::EncodeFailed(m) ==> (r.status == 502
            && r.content_type@ == "application/json"@ && r.body@ == error_body(
            "Cache operation failed: "@ + m@,
            timestamp@,
        ) && counted(*old(state), *final(state), false)
            && final(state).coordinator.local_view() == old(state).coordinator.local_view()),
{
    let ghost o = outcome;
    let res = state.coordinator.after_direct_fetch(domain, outcome);
    proof {
        if let FetchOutcome::FetchFailed(m) = o {
            assert("Cache entry not found for domain: "@ + (domain@ + ": "@ + m@)
                =~= "Cache entry not found for domain: "@ + domain@ + ": "@ + m@);
        }
    }
    finish(state, res, timestamp)
}

/// `GET /health`: 200 with `{"status":"ok","version":<version>}`.
pub fn handle_health(version: &str) -> (r: Reply)
    ensures
        r.status == 200,
        r.content_type@ == "application/json"@,
        r.body@ == health_body(version@),
{
    let mut body = String::from_str("{\"status\":\"ok\",\"version\":");
    let v = json_string_literal(version);
    body.append(v.as_str());
    body.append("}");
    json_reply(200, body)
}

/// `GET /metrics`: 200 with the counters in the Prometheus text format.
pub fn handle_metrics(state: &AppState) -> (r: Reply)
    ensures
        r.status == 200,
        r.content_type@ == "text/plain; version=0.0.4"@,
        r.body@ == state.stats.spec_prometheus_text(),
{
    Reply {
        status: 200,
        content_type: String::from_str("text/plain; version=0.0.4"),
        body: state.stats.prometheus_text(),
    }
}

/// The timestamp of error replies: the whole seconds since the Unix epoch, in decimal.
pub fn chrono_now() -> (r: String)
    ensures
        exists|n: nat| r@ == decimal(n),
{
    let nanos = unix_nanos_now();
    let secs: u128 = nanos / 1_000_000_000;
    assert(secs <= u64::MAX) by (nonlinear_arith)
        requires
            nanos <= u64::MAX as nat * 1_000_000_000 + 999_999_999,
            secs == nanos / 1_000_000_000,
    ;
    u64_to_decimal(secs as u64)
}

} // verus!
