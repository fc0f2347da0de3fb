//! What is taken on trust about comparing string slices.

use vstd::prelude::*;

verus! {

/// `str`'s own `PartialEq::eq`: two string slices are equal exactly when they
/// hold the same characters in the same order. Verus does not read the body
/// of this method; the clause below is what the standard library documents.
pub assume_specification[ <str as PartialEq>::eq ](a: &str, b: &str) -> (same: bool)
    ensures
        same == (a@ == b@),
;

} // verus!
