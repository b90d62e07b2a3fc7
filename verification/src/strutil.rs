//! The one string-building primitive the crate takes on trust.

use vstd::prelude::*;

verus! {

/// Relies on `String::push_str`: appends the given string slice onto the
/// end of the string, leaving the characters before it unchanged.
pub assume_specification[ String::push_str ](s: &mut String, other: &str)
    ensures
        final(s)@ == old(s)@ + other@,
;

} // verus!
