//! The stand-in backend: buffers of exactly the real algorithms' lengths,
//! filled from the operating system's random source. Content carries no
//! cryptographic meaning, and verification looks at the length alone.
use crate::engine::{
    KemDescriptor, KemEngine, SigDescriptor, SigEngine, DILITHIUM2_PUBLIC_KEY_BYTES,
    DILITHIUM2_SECRET_KEY_BYTES, DILITHIUM2_SIGNATURE_MAX_BYTES, KYBER768_CIPHERTEXT_BYTES,
    KYBER768_PUBLIC_KEY_BYTES, KYBER768_SECRET_KEY_BYTES, KYBER768_SHARED_SECRET_BYTES,
};
use vstd::prelude::*;

verus! {

/// Relies on rand_core's `OsRng::try_fill_bytes`, which writes into the slice
/// in place and reports whether the operating system's source answered.
/// Nothing is known of the bytes.
#[verifier::external_body]
fn fill_random(buf: &mut [u8]) -> (ok: bool)
    ensures
        final(buf)@.len() == old(buf)@.len(),
{
    rand_core::RngCore::try_fill_bytes(&mut rand_core::OsRng, buf).is_ok()
}

/// The mock of the 768-bit module-lattice KEM.
pub struct MockKem;

impl KemEngine for MockKem {
    type Handle = ();

    open spec fn declares(d: KemDescriptor) -> bool {
        d == KemDescriptor {
            length_public_key: KYBER768_PUBLIC_KEY_BYTES,
            length_secret_key: KYBER768_SECRET_KEY_BYTES,
            length_ciphertext: KYBER768_CIPHERTEXT_BYTES,
            length_shared_secret: KYBER768_SHARED_SECRET_BYTES,
        }
    }

    open spec fn always_resolves() -> bool {
        true
    }

    fn open(name: &'static str) -> (r: Option<()>) {
        Some(())
    }

    open spec fn handle_lengths(h: &()) -> KemDescriptor {
        KemDescriptor {
            length_public_key: KYBER768_PUBLIC_KEY_BYTES,
            length_secret_key: KYBER768_SECRET_KEY_BYTES,
            length_ciphertext: KYBER768_CIPHERTEXT_BYTES,
            length_shared_secret: KYBER768_SHARED_SECRET_BYTES,
        }
    }

    fn lengths(h: &()) -> (d: KemDescriptor) {
        KemDescriptor {
            length_public_key: KYBER768_PUBLIC_KEY_BYTES,
            length_secret_key: KYBER768_SECRET_KEY_BYTES,
            length_ciphertext: KYBER768_CIPHERTEXT_BYTES,
            length_shared_secret: KYBER768_SHARED_SECRET_BYTES,
        }
    }

    fn keypair(h: &(), pk: &mut [u8], sk: &mut [u8]) -> (rc: i32) {
        if fill_random(pk) && fill_random(sk) {
            0
        } else {
            1
        }
    }

    fn encaps(h: &(), ct: &mut [u8], ss: &mut [u8], pk: &[u8]) -> (rc: i32) {
        if fill_random(ct) && fill_random(ss) {
            0
        } else {
            1
        }
    }

    fn decaps(h: &(), ss: &mut [u8], ct: &[u8], sk: &[u8]) -> (rc: i32) {
        if fill_random(ss) {
            0
        } else {
            1
        }
    }

    fn release(h: ()) {
    }
}

/// The mock of the level-2 module-lattice signature scheme: it accepts any
/// signature of exactly the scheme's signature length.
pub struct MockSig;

impl SigEngine for MockSig {
    type Handle = ();

    open spec fn declares(d: SigDescriptor) -> bool {
        d == SigDescriptor {
            length_public_key: DILITHIUM2_PUBLIC_KEY_BYTES,
            length_secret_key: DILITHIUM2_SECRET_KEY_BYTES,
            length_signature: DILITHIUM2_SIGNATURE_MAX_BYTES,
        }
    }

    open spec fn always_resolves() -> bool {
        true
    }

    open spec fn fixed_length() -> bool {
        true
    }

    open spec fn may_accept(msg: Seq<u8>, sig: Seq<u8>, pk: Seq<u8>) -> bool {
        sig.len() == DILITHIUM2_SIGNATURE_MAX_BYTES
    }

    open spec fn must_accept(msg: Seq<u8>, sig: Seq<u8>, pk: Seq<u8>) -> bool {
        sig.len() == DILITHIUM2_SIGNATURE_MAX_BYTES
    }

    fn open(name: &'static str) -> (r: Option<()>) {
        Some(())
    }

    open spec fn handle_lengths(h: &()) -> SigDescriptor {
        SigDescriptor {
            length_public_key: DILITHIUM2_PUBLIC_KEY_BYTES,
            length_secret_key: DILITHIUM2_SECRET_KEY_BYTES,
            length_signature: DILITHIUM2_SIGNATURE_MAX_BYTES,
        }
    }

    fn lengths(h: &()) -> (d: SigDescriptor) {
        SigDescriptor {
            length_public_key: DILITHIUM2_PUBLIC_KEY_BYTES,
            length_secret_key: DILITHIUM2_SECRET_KEY_BYTES,
            length_signature: DILITHIUM2_SIGNATURE_MAX_BYTES,
        }
    }

    fn keypair(h: &(), pk: &mut [u8], sk: &mut [u8]) -> (rc: i32) {
        if fill_random(pk) && fill_random(sk) {
            0
        } else {
            1
        }
    }

    fn sign(h: &(), out: &mut [u8], out_len: &mut usize, msg: &[u8], sk: &[u8]) -> (rc: i32) {
        if fill_random(out) {
            *out_len = out.len();
            0
        } else {
            1
        }
    }

    fn verify(h: &(), msg: &[u8], sig: &[u8], pk: &[u8]) -> (rc: i32) {
        if sig.len() == DILITHIUM2_SIGNATURE_MAX_BYTES {
            0
        } else {
            1
        }
    }

    fn release(h: ()) {
    }
}

} // verus!
