//! Fingerprints of forecast texts and the comparison built on them.

use std::collections::hash_map::DefaultHasher;
use std::hash::Hasher;
use vstd::prelude::*;
use vstd::std_specs::hash::DefaultHasherAdditionalSpecFns;
use vstd::utf8::encode_utf8;

verus! {

/// The byte that closes a hashed text. It occurs in no UTF-8 encoding, so the
/// bytes written for one text are never a prefix of those written for another.
pub const TEXT_TERMINATOR: u8 = 0xff;

/// The writes that fingerprinting a text feeds to the hasher: the text's
/// UTF-8 encoding, then the terminator byte.
pub open spec fn fingerprint_input(text: Seq<char>) -> Seq<Seq<u8>> {
    seq![encode_utf8(text), seq![TEXT_TERMINATOR]]
}

/// The fingerprint of a text: the digest that a freshly created default
/// hasher reports after [`fingerprint_input`] has been written to it.
pub open spec fn fingerprint(text: Seq<char>) -> u64 {
    DefaultHasher::spec_finish(fingerprint_input(text))
}

/// Computes the fingerprint of `t`.
///
/// The function is total: every text, the empty one included, has a
/// fingerprint, and the same text always has the same one.
pub fn hash(t: &String) -> (digest: u64)
    ensures
        digest == fingerprint(t@),
{
    let terminator: [u8; 1] = [TEXT_TERMINATOR];
    let mut s = DefaultHasher::new();
    s.write(t.as_str().as_bytes());
    s.write(terminator.as_slice());
    let digest = s.finish();
    proof {
        assert(terminator@ =~= seq![TEXT_TERMINATOR]);
        assert(s@ =~= fingerprint_input(t@));
    }
    digest
}

/// Decides whether a freshly fetched text differs from the stored one.
///
/// The texts are compared by fingerprint, not character by character.
pub fn has_changed(new_text: &String, stored_text: &String) -> (changed: bool)
    ensures
        changed == (fingerprint(new_text@) != fingerprint(stored_text@)),
{
    hash(new_text) != hash(stored_text)
}

/// Equal texts have equal fingerprints.
pub proof fn lemma_fingerprint_deterministic(first: Seq<char>, second: Seq<char>)
    requires
        first == second,
    ensures
        fingerprint(first) == fingerprint(second),
{
}

/// A text never counts as changed against itself.
pub proof fn lemma_same_text_unchanged(text: Seq<char>)
    ensures
        !(fingerprint(text) != fingerprint(text)),
{
}

} // verus!
