//! Digital signatures: owned buffers and the capability over them.
use crate::adapter::{dilithium2_names, sig_keypair, sig_sign, sig_verify};
use crate::engine::{
    DILITHIUM2_PUBLIC_KEY_BYTES, DILITHIUM2_SECRET_KEY_BYTES, DILITHIUM2_SIGNATURE_MAX_BYTES,
};
use crate::error::OqsError;
use crate::memory::erase_bytes;
use crate::mock::MockSig;
use vstd::prelude::*;

verus! {

/// A verification public key.
#[derive(Clone, Debug)]
pub struct PublicKey(pub(crate) Vec<u8>);

/// A signing secret key. Its bytes are zeroed when it is dropped; a clone is
/// a second key of its own and is zeroed in the same way.
#[derive(Clone, Debug)]
pub struct SecretKey(pub(crate) Vec<u8>);

/// A signature, at most the scheme's maximum length.
#[derive(Clone, Debug)]
pub struct Signature(pub(crate) Vec<u8>);

impl View for PublicKey {
    type V = Seq<u8>;

    closed spec fn view(&self) -> Seq<u8> {
        self.0@
    }
}

impl View for SecretKey {
    type V = Seq<u8>;

    closed spec fn view(&self) -> Seq<u8> {
        self.0@
    }
}

impl View for Signature {
    type V = Seq<u8>;

    closed spec fn view(&self) -> Seq<u8> {
        self.0@
    }
}

impl Drop for SecretKey {
    fn drop(&mut self)
        opens_invariants none
        no_unwind
    {
        erase_bytes(&mut self.0);
    }
}

impl PublicKey {
    /// Wraps bytes as they are, whatever their length.
    pub fn from_bytes_unchecked(bytes: Vec<u8>) -> (r: Self)
        ensures
            r@ == bytes@,
    {
        PublicKey(bytes)
    }

    #[inline]
    pub fn as_bytes(&self) -> (r: &[u8])
        ensures
            r@ == self@,
    {
        self.0.as_slice()
    }

    #[inline]
    pub fn len(&self) -> (r: usize)
        ensures
            r == self@.len(),
    {
        self.0.len()
    }

    #[inline]
    pub fn is_empty(&self) -> (r: bool)
        ensures
            r == (self@.len() == 0),
    {
        self.0.len() == 0
    }
}

impl SecretKey {
    /// Wraps bytes as they are, whatever their length.
    pub fn from_bytes_unchecked(bytes: Vec<u8>) -> (r: Self)
        ensures
            r@ == bytes@,
    {
        SecretKey(bytes)
    }

    #[inline]
    pub fn as_bytes(&self) -> (r: &[u8])
        ensures
            r@ == self@,
    {
        self.0.as_slice()
    }

    #[inline]
    pub fn len(&self) -> (r: usize)
        ensures
            r == self@.len(),
    {
        self.0.len()
    }

    #[inline]
    pub fn is_empty(&self) -> (r: bool)
        ensures
            r == (self@.len() == 0),
    {
        self.0.len() == 0
    }
}

impl Signature {
    /// Wraps bytes as they are, whatever their length.
    pub fn from_bytes_unchecked(bytes: Vec<u8>) -> (r: Self)
        ensures
            r@ == bytes@,
    {
        Signature(bytes)
    }

    #[inline]
    pub fn as_bytes(&self) -> (r: &[u8])
        ensures
            r@ == self@,
    {
        self.0.as_slice()
    }

    #[inline]
    pub fn len(&self) -> (r: usize)
        ensures
            r == self@.len(),
    {
        self.0.len()
    }

    #[inline]
    pub fn is_empty(&self) -> (r: bool)
        ensures
            r == (self@.len() == 0),
    {
        self.0.len() == 0
    }
}

/// A signature scheme with fixed key lengths and a maximum signature length.
pub trait SignatureScheme {
    spec fn public_key_len() -> nat;

    spec fn secret_key_len() -> nat;

    spec fn max_signature_len() -> nat;

    /// Whether the backend's verification routine accepts the triple.
    spec fn accepts(pk: Seq<u8>, msg: Seq<u8>, sig: Seq<u8>) -> bool;

    /// A fresh key pair; fails only when the backend cannot do its work.
    fn keypair() -> (r: Result<(PublicKey, SecretKey), OqsError>)
        ensures
            r matches Ok((pk, sk)) ==> pk@.len() == Self::public_key_len() && sk@.len()
                == Self::secret_key_len(),
            r matches Err(e) ==> e is Internal,
    ;

    /// A signature of `msg`, never longer than the maximum; `InvalidLength`
    /// exactly when `sk` is not of the secret-key length.
    fn sign(sk: &SecretKey, msg: &[u8]) -> (r: Result<Signature, OqsError>)
        ensures
            (r matches Err(OqsError::InvalidLength)) <==> sk@.len() != Self::secret_key_len(),
            r matches Ok(sig) ==> sig@.len() <= Self::max_signature_len(),
            r matches Err(e) ==> e is InvalidLength || e is Internal,
    ;

    /// `InvalidLength` when `pk` is not of the public-key length or `sig` is
    /// longer than the maximum, checked first; else success exactly when the
    /// backend accepts the triple, and `VerifyFail` when it does not.
    fn verify(pk: &PublicKey, msg: &[u8], sig: &Signature) -> (r: Result<(), OqsError>)
        ensures
            r == (if pk@.len() != Self::public_key_len() || sig@.len()
                > Self::max_signature_len() {
                Err(OqsError::InvalidLength)
            } else if Self::accepts(pk@, msg@, sig@) {
                Ok(())
            } else {
                Err(OqsError::VerifyFail)
            }),
    ;
}

/// The level-2 module-lattice signature scheme (ML-DSA-44, formerly
/// Dilithium2), on the size-faithful mock backend: its signatures are always
/// of the maximum length, and it accepts a signature by its length alone, so
/// it authenticates nothing. It is for development and tests, never for
/// production; real signing runs the same adapter flow over an engine for the
/// native library.
pub struct Dilithium2;

impl SignatureScheme for Dilithium2 {
    open spec fn public_key_len() -> nat {
        DILITHIUM2_PUBLIC_KEY_BYTES as nat
    }

    open spec fn secret_key_len() -> nat {
        DILITHIUM2_SECRET_KEY_BYTES as nat
    }

    open spec fn max_signature_len() -> nat {
        DILITHIUM2_SIGNATURE_MAX_BYTES as nat
    }

    open spec fn accepts(pk: Seq<u8>, msg: Seq<u8>, sig: Seq<u8>) -> bool {
        sig.len() == DILITHIUM2_SIGNATURE_MAX_BYTES
    }

    fn keypair() -> (r: Result<(PublicKey, SecretKey), OqsError>) {
        let (pk, sk) = sig_keypair::<MockSig>(&dilithium2_names())?;
        Ok((PublicKey(pk), SecretKey(sk)))
    }

    fn sign(sk: &SecretKey, msg: &[u8]) -> (r: Result<Signature, OqsError>)
        ensures
            r matches Ok(sig) ==> sig@.len() == DILITHIUM2_SIGNATURE_MAX_BYTES,
    {
        let sig = sig_sign::<MockSig>(&dilithium2_names(), sk.as_bytes(), msg)?;
        Ok(Signature(sig))
    }

    fn verify(pk: &PublicKey, msg: &[u8], sig: &Signature) -> (r: Result<(), OqsError>) {
        sig_verify::<MockSig>(&dilithium2_names(), pk.as_bytes(), msg, sig.as_bytes())
    }
}

/// Key pairs of the level-2 signature scheme have a 1312-byte public key and
/// a 2528-byte secret key.
pub proof fn lemma_dilithium2_keypair_lengths(r: Result<(PublicKey, SecretKey), OqsError>)
    requires
        call_ensures(Dilithium2::keypair, (), r),
    ensures
        r matches Ok((pk, sk)) ==> pk@.len() == 1312 && sk@.len() == 2528,
{
}

/// Round trip: a signature made with a fresh secret key is at most 2420
/// bytes, and verifying it with the matching public key over the same
/// message succeeds.
pub proof fn lemma_dilithium2_round_trip(
    pk: PublicKey,
    sk: SecretKey,
    msg: &[u8],
    sig: Signature,
    r: Result<(), OqsError>,
)
    requires
        call_ensures(Dilithium2::keypair, (), Ok::<(PublicKey, SecretKey), OqsError>((pk, sk))),
        call_ensures(Dilithium2::sign, (&sk, msg), Ok::<Signature, OqsError>(sig)),
        call_ensures(Dilithium2::verify, (&pk, msg, &sig), r),
    ensures
        sig@.len() <= 2420,
        r is Ok,
{
}

/// Length checks: signing fails with `InvalidLength` exactly when the secret
/// key is not 2528 bytes; verification fails with it exactly when the public
/// key is not 1312 bytes or the signature is longer than 2420 bytes.
pub proof fn lemma_dilithium2_length_checks(
    sk: SecretKey,
    msg: &[u8],
    pk: PublicKey,
    sig: Signature,
    r1: Result<Signature, OqsError>,
    r2: Result<(), OqsError>,
)
    requires
        call_ensures(Dilithium2::sign, (&sk, msg), r1),
        call_ensures(Dilithium2::verify, (&pk, msg, &sig), r2),
    ensures
        (r1 matches Err(OqsError::InvalidLength)) <==> sk@.len() != 2528,
        (r2 matches Err(OqsError::InvalidLength)) <==> (pk@.len() != 1312 || sig@.len() > 2420),
{
}

} // verus!
