//! Equality on string slices, for the places that match user input and
//! catalog keys against fixed names.

use vstd::prelude::*;

verus! {

/// Relies on str's `PartialEq`: two string slices are equal exactly
/// when their character contents are equal.
pub assume_specification[ <str as PartialEq>::eq ](a: &str, b: &str) -> (r: bool)
    ensures
        r == (a@ == b@),
;

/// True exactly when the two slices hold the same characters.
pub fn str_eq(a: &str, b: &str) -> (r: bool)
    ensures
        r == (a@ == b@),
{
    a.eq(b)
}

} // verus!
