//! Erasure of secret bytes.
use vstd::prelude::*;

verus! {

/// Relies on zeroize's `Zeroize for Vec<u8>`: every element is overwritten
/// with zero, then the vector is cleared. It does not panic.
#[verifier::external_body]
pub(crate) fn erase_bytes(b: &mut Vec<u8>)
    ensures
        final(b)@.len() == 0,
    opens_invariants none
    no_unwind
{
    zeroize::Zeroize::zeroize(b)
}

} // verus!
