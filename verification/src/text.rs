//! Contracts for the two `String`-building operations the library uses.

use vstd::prelude::*;

verus! {

/// Relies on std's `String::push_str`: appends the given string slice onto
/// the end of the string.
pub assume_specification[ String::push_str ](s: &mut String, other: &str)
    ensures
        final(s)@ == old(s)@ + other@,
;

/// Relies on std's `String::push`: appends the given character onto the end
/// of the string.
pub assume_specification[ String::push ](s: &mut String, ch: char)
    ensures
        final(s)@ == old(s)@.push(ch),
;

} // verus!
