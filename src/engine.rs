//! What a backend offers: a handle per algorithm, the byte lengths that the
//! handle declares, and raw operations over caller-sized buffers.
use crate::error::OqsError;
use vstd::prelude::*;

verus! {

pub const KYBER768_PUBLIC_KEY_BYTES: usize = 1184;

pub const KYBER768_SECRET_KEY_BYTES: usize = 2400;

pub const KYBER768_CIPHERTEXT_BYTES: usize = 1088;

pub const KYBER768_SHARED_SECRET_BYTES: usize = 32;

pub const DILITHIUM2_PUBLIC_KEY_BYTES: usize = 1312;

pub const DILITHIUM2_SECRET_KEY_BYTES: usize = 2528;

pub const DILITHIUM2_SIGNATURE_MAX_BYTES: usize = 2420;

/// Byte lengths that a KEM handle declares.
#[derive(Debug, Clone, Copy)]
pub struct KemDescriptor {
    pub length_public_key: usize,
    pub length_secret_key: usize,
    pub length_ciphertext: usize,
    pub length_shared_secret: usize,
}

/// Byte lengths that a signature handle declares; a signature may be shorter
/// than `length_signature`, never longer.
#[derive(Debug, Clone, Copy)]
pub struct SigDescriptor {
    pub length_public_key: usize,
    pub length_secret_key: usize,
    pub length_signature: usize,
}

/// A KEM backend. Each operation of the capability opens its own handle,
/// uses it once and releases it.
pub trait KemEngine {
    type Handle;

    /// Whether `d` may be what a handle of this backend declares. A backend
    /// that says nothing leaves every descriptor possible.
    open spec fn declares(d: KemDescriptor) -> bool {
        true
    }

    /// Whether opening a handle by one of the known names always succeeds.
    open spec fn always_resolves() -> bool {
        false
    }

    /// Opens a handle for the algorithm called `name`, if the backend knows it.
    fn open(name: &'static str) -> (r: Option<Self::Handle>)
        ensures
            Self::always_resolves() ==> r is Some,
    ;

    /// The lengths that the open handle `h` declares.
    spec fn handle_lengths(h: &Self::Handle) -> KemDescriptor;

    fn lengths(h: &Self::Handle) -> (d: KemDescriptor)
        ensures
            d == Self::handle_lengths(h),
            Self::declares(d),
    ;

    /// Fills `pk` and `sk`; 0 on success. Both buffers are exactly of the
    /// handle's lengths.
    fn keypair(h: &Self::Handle, pk: &mut [u8], sk: &mut [u8]) -> (rc: i32)
        requires
            old(pk)@.len() == Self::handle_lengths(h).length_public_key,
            old(sk)@.len() == Self::handle_lengths(h).length_secret_key,
        ensures
            final(pk)@.len() == old(pk)@.len(),
            final(sk)@.len() == old(sk)@.len(),
    ;

    /// Fills `ct` and `ss` for the public key `pk`; 0 on success. Every
    /// buffer is exactly of the handle's lengths.
    fn encaps(h: &Self::Handle, ct: &mut [u8], ss: &mut [u8], pk: &[u8]) -> (rc: i32)
        requires
            old(ct)@.len() == Self::handle_lengths(h).length_ciphertext,
            old(ss)@.len() == Self::handle_lengths(h).length_shared_secret,
            pk@.len() == Self::handle_lengths(h).length_public_key,
        ensures
            final(ct)@.len() == old(ct)@.len(),
            final(ss)@.len() == old(ss)@.len(),
    ;

    /// Fills `ss` from `ct` and `sk`; 0 on success. Every buffer is exactly
    /// of the handle's lengths.
    fn decaps(h: &Self::Handle, ss: &mut [u8], ct: &[u8], sk: &[u8]) -> (rc: i32)
        requires
            old(ss)@.len() == Self::handle_lengths(h).length_shared_secret,
            ct@.len() == Self::handle_lengths(h).length_ciphertext,
            sk@.len() == Self::handle_lengths(h).length_secret_key,
        ensures
            final(ss)@.len() == old(ss)@.len(),
    ;

    fn release(h: Self::Handle);
}

/// A signature backend, in the same shape as [`KemEngine`].
pub trait SigEngine {
    type Handle;

    open spec fn declares(d: SigDescriptor) -> bool {
        true
    }

    open spec fn always_resolves() -> bool {
        false
    }

    /// Whether every signature of this backend fills the whole buffer.
    open spec fn fixed_length() -> bool {
        false
    }

    /// What verification may accept: a triple outside this is rejected.
    open spec fn may_accept(msg: Seq<u8>, sig: Seq<u8>, pk: Seq<u8>) -> bool {
        true
    }

    /// What verification must accept: a triple inside this is accepted.
    open spec fn must_accept(msg: Seq<u8>, sig: Seq<u8>, pk: Seq<u8>) -> bool {
        false
    }

    fn open(name: &'static str) -> (r: Option<Self::Handle>)
        ensures
            Self::always_resolves() ==> r is Some,
    ;

    /// The lengths that the open handle `h` declares.
    spec fn handle_lengths(h: &Self::Handle) -> SigDescriptor;

    fn lengths(h: &Self::Handle) -> (d: SigDescriptor)
        ensures
            d == Self::handle_lengths(h),
            Self::declares(d),
    ;

    /// Fills `pk` and `sk`; 0 on success. Both buffers are exactly of the
    /// handle's lengths.
    fn keypair(h: &Self::Handle, pk: &mut [u8], sk: &mut [u8]) -> (rc: i32)
        requires
            old(pk)@.len() == Self::handle_lengths(h).length_public_key,
            old(sk)@.len() == Self::handle_lengths(h).length_secret_key,
        ensures
            final(pk)@.len() == old(pk)@.len(),
            final(sk)@.len() == old(sk)@.len(),
    ;

    /// Writes a signature of `msg` into `out` and its length into `out_len`;
    /// 0 on success. `out` is of the handle's maximum signature length and
    /// `sk` of its secret-key length.
    fn sign(h: &Self::Handle, out: &mut [u8], out_len: &mut usize, msg: &[u8], sk: &[u8]) -> (rc: i32)
        requires
            old(out)@.len() == Self::handle_lengths(h).length_signature,
            sk@.len() == Self::handle_lengths(h).length_secret_key,
        ensures
            final(out)@.len() == old(out)@.len(),
            Self::fixed_length() && rc == 0 ==> *final(out_len) == old(out)@.len(),
    ;

    /// 0 when the signature is valid. `pk` is of the handle's public-key
    /// length and `sig` no longer than its maximum signature length.
    fn verify(h: &Self::Handle, msg: &[u8], sig: &[u8], pk: &[u8]) -> (rc: i32)
        requires
            pk@.len() == Self::handle_lengths(h).length_public_key,
            sig@.len() <= Self::handle_lengths(h).length_signature,
        ensures
            rc == 0 ==> Self::may_accept(msg@, sig@, pk@),
            Self::must_accept(msg@, sig@, pk@) ==> rc == 0,
    ;

    fn release(h: Self::Handle);
}

} // verus!
