//! Building the upstream target: the inbound path and query are appended
//! verbatim to the configured upstream scheme and host.

use vstd::prelude::*;

verus! {

/// The fixed upstream origin every non-status request is forwarded to.
/// Immutable after startup.
pub struct UpstreamConfig {
    /// The upstream scheme, e.g. `https`.
    pub scheme: String,
    /// The upstream host, e.g. `github.com`.
    pub host: String,
}

/// The view of an optional query string.
pub open spec fn opt_view(q: Option<String>) -> Option<Seq<char>> {
    match q {
        Option::Some(s) => Option::Some(s@),
        Option::None => Option::None,
    }
}

/// The target the rewriter aims the request at:
/// `<scheme>://<host><path>` when there is no query, and
/// `<scheme>://<host><path>?<query>` when there is one.
pub open spec fn target_spec(
    scheme: Seq<char>,
    host: Seq<char>,
    path: Seq<char>,
    query: Option<Seq<char>>,
) -> Seq<char> {
    let base = scheme + "://"@ + host + path;
    match query {
        Option::None => base,
        Option::Some(q) => base + "?"@ + q,
    }
}

/// Builds the upstream target string, taking path and query verbatim from the
/// inbound request (no decoding or re-encoding).
pub fn build_target(config: &UpstreamConfig, path: &String, query: &Option<String>) -> (t: String)
    ensures
        t@ == target_spec(config.scheme@, config.host@, path@, opt_view(*query)),
{
    let mut t = config.scheme.clone();
    t.push_str("://");
    t.push_str(config.host.as_str());
    t.push_str(path.as_str());
    match query {
        Option::None => {},
        Option::Some(q) => {
            t.push_str("?");
            t.push_str(q.as_str());
        },
    }
    proof {
        assert(t@ =~= target_spec(config.scheme@, config.host@, path@, opt_view(*query)));
    }
    t
}

} // verus!
