//! The one outside call in the rewriter's path: parsing the rebuilt target
//! string into hyper's structured URI.

use vstd::prelude::*;

verus! {

#[verifier::external_type_specification]
#[verifier::external_body]
pub struct ExUri(hyper::Uri);

#[verifier::external_type_specification]
#[verifier::external_body]
pub struct ExInvalidUri(hyper::http::uri::InvalidUri);

/// Whether `<hyper::Uri as core::str::FromStr>::from_str` accepts `s`: the
/// parser reads nothing but the characters of `s`, so acceptance is a
/// function of `s` alone.
pub uninterp spec fn uri_parse_ok(s: Seq<char>) -> bool;

/// Relies on hyper's `Uri` (http's `Uri`) `FromStr` implementation, reached
/// through `str::parse`: it accepts or rejects the string on its characters
/// alone, returning the structured URI on success and `InvalidUri` on
/// failure.
#[verifier::external_body]
pub(crate) fn parse_uri(s: &String) -> (r: Result<hyper::Uri, hyper::http::uri::InvalidUri>)
    ensures
        r is Ok <==> uri_parse_ok(s@),
{
    s.as_str().parse()
}

} // verus!
