//! The request rewriter: a pure transformation from an inbound request to the
//! request sent upstream, plus the two request shapes it relates.

use crate::headers::Header;
use crate::headers::stripped;
use crate::target::UpstreamConfig;
use crate::target::build_target;
use crate::target::opt_view;
use crate::target::target_spec;
use crate::uri::parse_uri;
use crate::uri::uri_parse_ok;
use vstd::prelude::*;

verus! {

/// An inbound request, as the pipeline reads it: method, target path,
/// optional query string, and headers. The body stream stays with the serving
/// layer and passes through untouched, so it is not part of this shape.
pub struct InboundRequest {
    pub method: String,
    pub path: String,
    pub query: Option<String>,
    pub headers: Vec<Header>,
}

impl InboundRequest {
    /// Every header name is in its canonical lowercase form, so that the
    /// case-insensitive header mapping is represented uniquely.
    pub open spec fn wf(self) -> bool {
        forall|i: int| 0 <= i < self.headers@.len() ==> (#[trigger] self.headers@[i]).wf()
    }
}

/// The request the pipeline hands to the outbound transport: the inbound
/// request with its target replaced by the full upstream URI and the four
/// hop-unsafe headers removed. Produced fresh per request, never reused.
pub struct RewrittenRequest {
    pub method: String,
    /// The full upstream target, as a string.
    pub target: String,
    /// The same target, parsed; what the outbound transport consumes.
    pub uri: hyper::Uri,
    pub headers: Vec<Header>,
}

/// A rewrite failure: the rebuilt target did not parse as a URI. Hard and
/// non-retryable for the whole request; carries the offending string.
#[derive(Debug)]
pub struct UriRewriteError {
    pub target: String,
}

/// For a well-formed request, nothing that names one of the four hop-unsafe
/// headers — under HTTP's case-insensitive comparison — is among the headers
/// the rewriter keeps for forwarding.
pub proof fn lemma_rewrite_is_case_insensitive(req: InboundRequest)
    requires
        req.wf(),
    ensures
        forall|i: int, n: Seq<char>|
            0 <= i < stripped(req.headers@).len() && crate::headers::is_hop_name(n) ==> !(
            #[trigger] crate::headers::eq_ci(stripped(req.headers@)[i].name@, n)),
{
    crate::headers::lemma_strip_is_case_insensitive(req.headers@);
}

/// The target the rewriter builds for `req` against `config`.
pub open spec fn rewritten_target(req: InboundRequest, config: UpstreamConfig) -> Seq<char> {
    target_spec(config.scheme@, config.host@, req.path@, opt_view(req.query))
}

/// Rewrites `req` for forwarding to `config`'s origin: strips the four
/// hop-unsafe headers (absence is not an error), leaves every other header
/// and the method unchanged, and retargets the request at
/// `<scheme>://<host><path>[?<query>]`, path and query verbatim. Returns
/// `Ok` exactly when that string parses as a URI, and otherwise an error
/// carrying the string. No side effects; safe to call concurrently.
pub fn rewrite(req: InboundRequest, config: &UpstreamConfig) -> (r: Result<
    RewrittenRequest,
    UriRewriteError,
>)
    ensures
        match r {
            Ok(rw) => {
                &&& uri_parse_ok(rewritten_target(req, *config))
                &&& rw.method@ == req.method@
                &&& rw.target@ == rewritten_target(req, *config)
                &&& rw.headers@ == stripped(req.headers@)
            },
            Err(e) => {
                &&& !uri_parse_ok(rewritten_target(req, *config))
                &&& e.target@ == rewritten_target(req, *config)
            },
        },
{
    let InboundRequest { method, path, query, headers } = req;
    let headers = crate::headers::strip_hop_headers(headers);
    let target = build_target(config, &path, &query);
    match parse_uri(&target) {
        Ok(uri) => Ok(RewrittenRequest { method, target, uri, headers }),
        Err(_) => Err(UriRewriteError { target }),
    }
}

} // verus!
