//! Comparing string slices.

use vstd::prelude::*;

verus! {

/// `str`'s `==`: whether two slices hold the same characters.
#[verifier::external_body]
pub(crate) fn str_eq(a: &str, b: &str) -> (same: bool)
    ensures
        same == (a@ == b@),
{
    a == b
}

} // verus!
