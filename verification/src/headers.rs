//! Header handling: the four hop-unsafe headers are stripped from a request
//! before it is forwarded, because the outbound transport adds its own copies
//! and forwarding the inbound ones would duplicate them.

use vstd::prelude::*;

verus! {

/// One header of a request: a name and a value. HTTP header names compare
/// case-insensitively; the library keeps every name in its canonical
/// lowercase form (see [`Header::wf`]), as HTTP libraries hand them out.
pub struct Header {
    pub name: String,
    pub value: String,
}

/// Whether `n` holds no uppercase ASCII letter, so that it is the canonical
/// form of a case-insensitive header name.
pub open spec fn is_canonical_name(n: Seq<char>) -> bool {
    forall|i: int| 0 <= i < n.len() ==> !(65 <= #[trigger] n[i] as u32 <= 90)
}

impl Header {
    /// A well-formed header carries its name in canonical lowercase form.
    pub open spec fn wf(self) -> bool {
        is_canonical_name(self.name@)
    }
}

/// Whether a canonical header name is one of the four that the outbound
/// transport re-adds, so that the rewriter must strip it.
pub open spec fn is_hop_name(n: Seq<char>) -> bool {
    ||| n == "content-length"@
    ||| n == "transfer-encoding"@
    ||| n == "accept-encoding"@
    ||| n == "content-encoding"@
}

/// The headers of `hs` that survive the strip: all whose name is not one of
/// the four hop-unsafe names, in their original order.
pub open spec fn stripped(hs: Seq<Header>) -> Seq<Header> {
    hs.filter(|h: Header| !is_hop_name(h.name@))
}

/// Whether the name of `h` equals the view of `lit`, decided executably.
fn name_is(h: &Header, lit: &str) -> (r: bool)
    ensures
        r == (h.name@ == lit@),
{
    let l: String = lit.to_owned();
    h.name == l
}

/// Whether `h` is one of the four hop-unsafe headers.
fn is_hop_header(h: &Header) -> (r: bool)
    ensures
        r == is_hop_name(h.name@),
{
    name_is(h, "content-length") || name_is(h, "transfer-encoding") || name_is(
        h,
        "accept-encoding",
    ) || name_is(h, "content-encoding")
}

/// Removes the four hop-unsafe headers; every other header passes through
/// unchanged and in order. Absence of any of the four is not an error.
pub fn strip_hop_headers(hs: Vec<Header>) -> (r: Vec<Header>)
    ensures
        r@ == stripped(hs@),
{
    let ghost orig: Seq<Header> = hs@;
    let mut rest: Vec<Header> = hs;
    let mut kept: Vec<Header> = Vec::new();
    while rest.len() > 0
        invariant
            rest@.len() <= orig.len(),
            orig == orig.take(orig.len() - rest@.len()) + rest@,
            kept@ == stripped(orig.take(orig.len() - rest@.len())),
        decreases rest@.len(),
    {
        let ghost i: int = orig.len() - rest@.len();
        let h = rest.remove(0);
        proof {
            assert(h == orig[i]);
            reveal(Seq::filter);
            assert(orig.take(i + 1).drop_last() =~= orig.take(i));
            assert(orig.take(i + 1).last() == orig[i]);
        }
        if !is_hop_header(&h) {
            kept.push(h);
        }
        proof {
            assert(kept@ == stripped(orig.take(i + 1)));
            assert(orig =~= orig.take(orig.len() - rest@.len()) + rest@);
        }
    }
    proof {
        assert(orig.take(orig.len() as int) =~= orig);
    }
    kept
}

/// Whether `a` and `b` are equal, or the same ASCII letter up to case.
pub open spec fn eq_ci_char(a: char, b: char) -> bool {
    ||| a == b
    ||| (65 <= a as u32 <= 90 && a as u32 + 32 == b as u32)
    ||| (65 <= b as u32 <= 90 && b as u32 + 32 == a as u32)
}

/// Case-insensitive equality of names, as HTTP compares header names.
pub open spec fn eq_ci(a: Seq<char>, b: Seq<char>) -> bool {
    a.len() == b.len() && forall|i: int| 0 <= i < a.len() ==> eq_ci_char(a[i], #[trigger] b[i])
}

/// Two canonical names that agree case-insensitively are equal: the canonical
/// lowercase form represents each case-insensitive name uniquely.
pub proof fn lemma_canonical_ci_equal(a: Seq<char>, b: Seq<char>)
    requires
        is_canonical_name(a),
        is_canonical_name(b),
        eq_ci(a, b),
    ensures
        a == b,
{
    assert forall|i: int| 0 <= i < a.len() implies a[i] == b[i] by {
        assert(eq_ci_char(a[i], b[i]));
    }
    assert(a =~= b);
}

/// Every header that survives the strip is one of the inbound headers.
proof fn lemma_stripped_members(hs: Seq<Header>)
    ensures
        forall|i: int| 0 <= i < stripped(hs).len() ==> hs.contains(#[trigger] stripped(hs)[i]),
    decreases hs.len(),
{
    reveal(Seq::filter);
    let pred = |h: Header| !is_hop_name(h.name@);
    if hs.len() > 0 {
        lemma_stripped_members(hs.drop_last());
        assert forall|i: int| 0 <= i < stripped(hs).len() implies hs.contains(
            #[trigger] stripped(hs)[i],
        ) by {
            let f = stripped(hs);
            let fd = stripped(hs.drop_last());
            if i < fd.len() {
                assert(f[i] == fd[i]);
                assert(hs.drop_last().contains(fd[i]));
                let j = choose|j: int|
                    0 <= j < hs.drop_last().len() && hs.drop_last()[j] == fd[i];
                assert(hs[j] == f[i]);
            } else {
                assert(f[i] == hs.last());
                assert(hs[hs.len() - 1] == f[i]);
            }
        }
    }
}

/// The four hop-unsafe names are themselves canonical.
proof fn lemma_hop_names_canonical()
    ensures
        forall|n: Seq<char>| is_hop_name(n) ==> #[trigger] is_canonical_name(n),
{
    reveal_strlit("content-length");
    reveal_strlit("transfer-encoding");
    reveal_strlit("accept-encoding");
    reveal_strlit("content-encoding");
    assert(is_canonical_name("content-length"@));
    assert(is_canonical_name("transfer-encoding"@));
    assert(is_canonical_name("accept-encoding"@));
    assert(is_canonical_name("content-encoding"@));
}

/// The strip is case-insensitive over well-formed headers: since the library
/// keeps names in canonical lowercase form, no header that names one of the
/// four hop-unsafe headers — under HTTP's case-insensitive comparison —
/// survives the strip.
pub proof fn lemma_strip_is_case_insensitive(hs: Seq<Header>)
    requires
        forall|i: int| 0 <= i < hs.len() ==> (#[trigger] hs[i]).wf(),
    ensures
        forall|i: int, n: Seq<char>|
            0 <= i < stripped(hs).len() && is_hop_name(n) ==> !(#[trigger] eq_ci(
                stripped(hs)[i].name@,
                n,
            )),
{
    let pred = |h: Header| !is_hop_name(h.name@);
    lemma_stripped_members(hs);
    lemma_hop_names_canonical();
    assert forall|i: int, n: Seq<char>|
        0 <= i < stripped(hs).len() && is_hop_name(n) implies !(#[trigger] eq_ci(
        stripped(hs)[i].name@,
        n,
    )) by {
        hs.lemma_filter_pred(pred, i);
        let h = stripped(hs)[i];
        let j = choose|j: int| 0 <= j < hs.len() && hs[j] == h;
        assert(hs[j].wf());
        if eq_ci(h.name@, n) {
            lemma_canonical_ci_equal(h.name@, n);
        }
    }
}

/// No hop-unsafe header survives the strip, and every header that is not
/// hop-unsafe is still there: the request actually sent upstream carries
/// exactly the inbound headers that are safe to forward.
pub proof fn lemma_strip_hop_headers(hs: Seq<Header>)
    ensures
        forall|i: int|
            0 <= i < stripped(hs).len() ==> !is_hop_name(#[trigger] stripped(hs)[i].name@),
        forall|i: int|
            0 <= i < hs.len() && !is_hop_name(hs[i].name@) ==> stripped(hs).contains(
                #[trigger] hs[i],
            ),
{
    let pred = |h: Header| !is_hop_name(h.name@);
    assert forall|i: int| 0 <= i < stripped(hs).len() implies !is_hop_name(
        #[trigger] stripped(hs)[i].name@,
    ) by {
        hs.lemma_filter_pred(pred, i);
    }
    assert forall|i: int| 0 <= i < hs.len() && !is_hop_name(hs[i].name@) implies stripped(
        hs,
    ).contains(#[trigger] hs[i]) by {
        hs.lemma_filter_contains(pred, i);
    }
}

} // verus!
