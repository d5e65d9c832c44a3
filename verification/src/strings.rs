//! What this crate assumes of the standard library's strings beyond what the
//! verifier's own library states.

use vstd::prelude::*;

verus! {

/// `String::push` of the standard library, which is called as it is.
///
/// Assumed, not proved: after the call the string holds the characters it
/// held before, in the same order, followed by `c`.
pub assume_specification[ String::push ](text: &mut String, c: char)
    ensures
        final(text)@ == old(text)@.push(c),
;

} // verus!
