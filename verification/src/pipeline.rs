//! The request pipeline: one invocation per inbound request. The status path
//! is answered locally from a snapshot; every other request is counted,
//! rewritten, and handed to the outbound transport, whose response is relayed
//! back verbatim.

use crate::render::render_status;
use crate::render::status_body;
use crate::request::InboundRequest;
use crate::request::RewrittenRequest;
use crate::request::UriRewriteError;
use crate::request::rewrite;
use crate::request::rewritten_target;
use crate::stats::Stats;
use crate::stats::StatsRegistry;
use crate::stats::next_count;
use crate::target::UpstreamConfig;
use crate::uri::uri_parse_ok;
use vstd::prelude::*;

verus! {

/// Whether `p` is the reserved status path, answered locally.
pub open spec fn is_status_path(p: Seq<char>) -> bool {
    p == "/status"@
}

/// Whether `p` is the reserved status path, decided executably.
pub fn path_is_status(p: &String) -> (r: bool)
    ensures
        r == is_status_path(p@),
{
    let s: String = "/status".to_owned();
    *p == s
}

/// What the pipeline decides for one request, before any network I/O:
/// answer locally, forward the rewritten request, or fail the request.
pub enum Outcome {
    /// The status path: answered locally, no upstream contact.
    StatusReply { status: u16, body: String },
    /// Hand this rewritten request to the outbound transport.
    Forward { request: RewrittenRequest },
    /// The rebuilt target did not parse; the request fails without any
    /// upstream contact.
    Rejected { error: UriRewriteError },
}

/// `r` answers the status path for a counter reading of `proxied`: a local
/// 200 reply whose body renders that reading.
pub open spec fn status_outcome(r: Outcome, proxied: u64) -> bool {
    match r {
        Outcome::StatusReply { status, body } => status == 200 && body@ == status_body(proxied),
        _ => false,
    }
}

/// `r` treats `req` as a request to forward: it carries the rewritten request
/// exactly when the rebuilt target parses, and the rewrite error carrying
/// that target otherwise. Either way, no local status reply.
pub open spec fn forward_outcome(r: Outcome, req: InboundRequest, config: UpstreamConfig) -> bool {
    match r {
        Outcome::Forward { request } => {
            &&& uri_parse_ok(rewritten_target(req, config))
            &&& request.method@ == req.method@
            &&& request.target@ == rewritten_target(req, config)
            &&& request.headers@ == crate::headers::stripped(req.headers@)
        },
        Outcome::Rejected { error } => {
            &&& !uri_parse_ok(rewritten_target(req, config))
            &&& error.target@ == rewritten_target(req, config)
        },
        _ => false,
    }
}

/// The counter reading after one request against a reading of `p`: a status
/// request leaves it alone, any other advances it exactly once.
pub open spec fn next_proxied(p: u64, path: Seq<char>) -> u64 {
    if is_status_path(path) {
        p
    } else {
        next_count(p)
    }
}

/// One pipeline invocation over an exclusively held counter: the state
/// machine the registry-backed [`handle`] runs under its lock. A status
/// request is answered from the counter as it stands and changes nothing;
/// any other request advances the counter exactly once, strictly before the
/// forward attempt, and is rewritten for forwarding.
pub fn handle_step(req: InboundRequest, config: &UpstreamConfig, stats: &mut Stats) -> (r: Outcome)
    ensures
        final(stats).proxied == next_proxied(old(stats).proxied, req.path@),
        is_status_path(req.path@) ==> *final(stats) == *old(stats) && status_outcome(
            r,
            old(stats).proxied,
        ),
        !is_status_path(req.path@) ==> forward_outcome(r, req, *config),
{
    if path_is_status(&req.path) {
        let body = render_status(stats);
        Outcome::StatusReply { status: 200, body }
    } else {
        stats.increment();
        match rewrite(req, config) {
            Ok(request) => Outcome::Forward { request },
            Err(error) => Outcome::Rejected { error },
        }
    }
}

/// One pipeline invocation against the shared registry: answers the status
/// path with a 200 reply rendering some point-in-time snapshot and contacts
/// nothing upstream; counts and rewrites every other request, taking the
/// write-lock only around the counter update, never around the forward.
pub fn handle(req: InboundRequest, config: &UpstreamConfig, registry: &StatsRegistry) -> (r:
    Outcome)
    ensures
        is_status_path(req.path@) ==> exists|n: u64| status_outcome(r, n),
        !is_status_path(req.path@) ==> forward_outcome(r, req, *config),
{
    if path_is_status(&req.path) {
        let s = registry.snapshot();
        let body = render_status(&s);
        let r = Outcome::StatusReply { status: 200, body };
        proof {
            assert(status_outcome(r, s.proxied));
        }
        r
    } else {
        registry.increment_proxied();
        match rewrite(req, config) {
            Ok(request) => Outcome::Forward { request },
            Err(error) => Outcome::Rejected { error },
        }
    }
}

/// A forward failure: the outbound transport could not reach upstream or
/// could not read its response, for the underlying cause `cause`. The
/// transport never synthesizes a substitute HTTP response.
pub struct BackendError<E> {
    pub cause: E,
}

/// A request-scoped pipeline failure: either the rewrite was rejected or the
/// forward failed. Fatal to this request alone.
pub enum ProxyError<E> {
    Rewrite(UriRewriteError),
    Backend(BackendError<E>),
}

/// Concludes a forwarded request from whatever the outbound transport came
/// back with: an upstream response is relayed to the caller verbatim, and a
/// transport failure surfaces as a `BackendError` wrapping the cause, caught
/// and retried nowhere.
pub fn conclude<R, E>(outcome: Result<R, E>) -> (r: Result<R, ProxyError<E>>)
    ensures
        match outcome {
            Ok(resp) => r == Result::<R, ProxyError<E>>::Ok(resp),
            Err(cause) => r == Result::<R, ProxyError<E>>::Err(
                ProxyError::Backend(BackendError { cause }),
            ),
        },
{
    match outcome {
        Ok(resp) => Ok(resp),
        Err(cause) => Err(ProxyError::Backend(BackendError { cause })),
    }
}

/// The number of non-status requests among `paths`.
pub open spec fn non_status_count(paths: Seq<Seq<char>>) -> nat
    decreases paths.len(),
{
    if paths.len() == 0 {
        0
    } else {
        (if is_status_path(paths[0]) {
            0nat
        } else {
            1nat
        }) + non_status_count(paths.drop_first())
    }
}

/// The counter reading after the requests of `paths` have each updated it
/// once, in this order, starting from `p`.
pub open spec fn run_counter(p: u64, paths: Seq<Seq<char>>) -> u64
    decreases paths.len(),
{
    if paths.len() == 0 {
        p
    } else {
        run_counter(next_proxied(p, paths[0]), paths.drop_first())
    }
}

/// Each non-status request advances the counter exactly once in total, with
/// no update lost: after any number of requests, in any order, the counter
/// stands exactly `non_status_count` above where it started. Each update runs
/// under the registry's exclusive write-lock, so any concurrent execution
/// applies the per-request updates in some order; this covers every order.
/// (At `u64::MAX` the counter wraps, so the sum is asked to stay in range.)
pub proof fn lemma_requests_counted_once(p: u64, paths: Seq<Seq<char>>)
    requires
        p + non_status_count(paths) <= u64::MAX,
    ensures
        run_counter(p, paths) == p + non_status_count(paths),
    decreases paths.len(),
{
    if paths.len() > 0 {
        lemma_requests_counted_once(next_proxied(p, paths[0]), paths.drop_first());
    }
}

} // verus!
