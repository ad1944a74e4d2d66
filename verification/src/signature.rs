//! The signature bypass policy: a test-mode override that recognizes a fixed
//! magic signature pattern instead of performing real cryptographic
//! verification.

use vstd::prelude::*;

verus! {

/// A byte string matches the magic pattern iff its first four bytes are
/// exactly `0xde 0xad 0xbe 0xef` and every remaining byte equals `0xcd`.
/// A string shorter than four bytes never matches.
pub open spec fn is_magic_sig(s: Seq<u8>) -> bool {
    &&& s.len() >= 4
    &&& s[0] == 0xde
    &&& s[1] == 0xad
    &&& s[2] == 0xbe
    &&& s[3] == 0xef
    &&& forall|i: int| 4 <= i < s.len() ==> s[i] == 0xcd
}

/// Recognizes the magic bypass signature: starts with `0xdeadbeef` and then
/// the rest is filled by `0xcd`.
pub fn is_magic_signature(signature: &[u8]) -> (r: bool)
    ensures
        r == is_magic_sig(signature@),
{
    if signature.len() < 4 {
        return false;
    }
    if signature[0] != 0xde || signature[1] != 0xad || signature[2] != 0xbe || signature[3] != 0xef
    {
        return false;
    }
    let mut i: usize = 4;
    while i < signature.len()
        invariant
            4 <= i <= signature@.len(),
            signature@.len() >= 4,
            forall|j: int| 4 <= j < i ==> signature@[j] == 0xcd,
        decreases signature@.len() - i,
    {
        if signature[i] != 0xcd {
            return false;
        }
        i = i + 1;
    }
    true
}

} // verus!
