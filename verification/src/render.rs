//! Rendering the status page: a human-readable line holding the number of
//! requests proxied so far.

use crate::stats::Stats;
use vstd::prelude::*;

verus! {

/// The decimal digit character for `d`.
pub open spec fn digit_char(d: nat) -> char {
    if d == 0 {
        '0'
    } else if d == 1 {
        '1'
    } else if d == 2 {
        '2'
    } else if d == 3 {
        '3'
    } else if d == 4 {
        '4'
    } else if d == 5 {
        '5'
    } else if d == 6 {
        '6'
    } else if d == 7 {
        '7'
    } else if d == 8 {
        '8'
    } else {
        '9'
    }
}

/// The decimal rendering of `n`, most significant digit first, with no
/// leading zero except for `n == 0` itself.
pub open spec fn dec_digits(n: nat) -> Seq<char>
    decreases n,
{
    if n < 10 {
        seq![digit_char(n)]
    } else {
        dec_digits(n / 10).push(digit_char(n % 10))
    }
}

/// The body of a status reply for a snapshot whose count is `proxied`.
pub open spec fn status_body(proxied: u64) -> Seq<char> {
    "proxied: "@ + dec_digits(proxied as nat)
}

/// The decimal digit character for `d`, decided executably.
fn digit_char_of(d: u64) -> (c: char)
    requires
        d < 10,
    ensures
        c == digit_char(d as nat),
{
    if d == 0 {
        '0'
    } else if d == 1 {
        '1'
    } else if d == 2 {
        '2'
    } else if d == 3 {
        '3'
    } else if d == 4 {
        '4'
    } else if d == 5 {
        '5'
    } else if d == 6 {
        '6'
    } else if d == 7 {
        '7'
    } else if d == 8 {
        '8'
    } else {
        '9'
    }
}

/// Writes `n` in decimal.
pub fn u64_to_dec(n: u64) -> (s: String)
    ensures
        s@ == dec_digits(n as nat),
    decreases n,
{
    let c = digit_char_of(n % 10);
    if n < 10 {
        let mut s = String::new();
        s.push(c);
        proof {
            assert(s@ =~= dec_digits(n as nat));
        }
        s
    } else {
        let mut s = u64_to_dec(n / 10);
        s.push(c);
        s
    }
}

/// Renders a snapshot as the status page body: the proxied count after a
/// fixed label.
pub fn render_status(stats: &Stats) -> (s: String)
    ensures
        s@ == status_body(stats.proxied),
{
    let mut s: String = "proxied: ".to_owned();
    let digits = u64_to_dec(stats.proxied);
    s.push_str(digits.as_str());
    s
}

} // verus!
