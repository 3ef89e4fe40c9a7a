//! Key encapsulation: owned buffers and the capability over them.
use crate::adapter::{kem_decapsulate, kem_encapsulate, kem_keypair, kyber768_names};
use crate::engine::{
    KYBER768_CIPHERTEXT_BYTES, KYBER768_PUBLIC_KEY_BYTES, KYBER768_SECRET_KEY_BYTES,
    KYBER768_SHARED_SECRET_BYTES,
};
use crate::error::OqsError;
use crate::memory::erase_bytes;
use crate::mock::MockKem;
use vstd::prelude::*;

verus! {

/// An encapsulation public key.
#[derive(Clone, Debug)]
pub struct PublicKey(pub(crate) Vec<u8>);

/// A decapsulation secret key. Its bytes are zeroed when it is dropped; a
/// clone is a second key of its own and is zeroed in the same way.
#[derive(Clone, Debug)]
pub struct SecretKey(pub(crate) Vec<u8>);

/// A ciphertext that carries a shared secret to the holder of the secret key.
#[derive(Clone, Debug)]
pub struct Ciphertext(pub(crate) Vec<u8>);

/// The secret that both sides of an exchange end up with.
#[derive(Clone, Debug)]
pub struct SharedSecret(pub(crate) Vec<u8>);

impl View for PublicKey {
    type V = Seq<u8>;

    closed spec fn view(&self) -> Seq<u8> {
        self.0@
    }
}

impl View for SecretKey {
    type V = Seq<u8>;

    closed spec fn view(&self) -> Seq<u8> {
        self.0@
    }
}

impl View for Ciphertext {
    type V = Seq<u8>;

    closed spec fn view(&self) -> Seq<u8> {
        self.0@
    }
}

impl View for SharedSecret {
    type V = Seq<u8>;

    closed spec fn view(&self) -> Seq<u8> {
        self.0@
    }
}

impl Drop for SecretKey {
    fn drop(&mut self)
        opens_invariants none
        no_unwind
    {
        erase_bytes(&mut self.0);
    }
}

impl PublicKey {
    /// Wraps bytes as they are, whatever their length.
    pub fn from_bytes_unchecked(bytes: Vec<u8>) -> (r: Self)
        ensures
            r@ == bytes@,
    {
        PublicKey(bytes)
    }

    #[inline]
    pub fn as_bytes(&self) -> (r: &[u8])
        ensures
            r@ == self@,
    {
        self.0.as_slice()
    }

    #[inline]
    pub fn len(&self) -> (r: usize)
        ensures
            r == self@.len(),
    {
        self.0.len()
    }

    #[inline]
    pub fn is_empty(&self) -> (r: bool)
        ensures
            r == (self@.len() == 0),
    {
        self.0.len() == 0
    }
}

impl SecretKey {
    /// Wraps bytes as they are, whatever their length.
    pub fn from_bytes_unchecked(bytes: Vec<u8>) -> (r: Self)
        ensures
            r@ == bytes@,
    {
        SecretKey(bytes)
    }

    #[inline]
    pub fn as_bytes(&self) -> (r: &[u8])
        ensures
            r@ == self@,
    {
        self.0.as_slice()
    }

    #[inline]
    pub fn len(&self) -> (r: usize)
        ensures
            r == self@.len(),
    {
        self.0.len()
    }

    #[inline]
    pub fn is_empty(&self) -> (r: bool)
        ensures
            r == (self@.len() == 0),
    {
        self.0.len() == 0
    }
}

impl Ciphertext {
    /// Wraps bytes as they are, whatever their length.
    pub fn from_bytes_unchecked(bytes: Vec<u8>) -> (r: Self)
        ensures
            r@ == bytes@,
    {
        Ciphertext(bytes)
    }

    #[inline]
    pub fn as_bytes(&self) -> (r: &[u8])
        ensures
            r@ == self@,
    {
        self.0.as_slice()
    }

    #[inline]
    pub fn len(&self) -> (r: usize)
        ensures
            r == self@.len(),
    {
        self.0.len()
    }

    #[inline]
    pub fn is_empty(&self) -> (r: bool)
        ensures
            r == (self@.len() == 0),
    {
        self.0.len() == 0
    }
}

impl SharedSecret {
    /// Wraps bytes as they are, whatever their length.
    pub fn from_bytes_unchecked(bytes: Vec<u8>) -> (r: Self)
        ensures
            r@ == bytes@,
    {
        SharedSecret(bytes)
    }

    #[inline]
    pub fn as_bytes(&self) -> (r: &[u8])
        ensures
            r@ == self@,
    {
        self.0.as_slice()
    }

    #[inline]
    pub fn len(&self) -> (r: usize)
        ensures
            r == self@.len(),
    {
        self.0.len()
    }

    #[inline]
    pub fn is_empty(&self) -> (r: bool)
        ensures
            r == (self@.len() == 0),
    {
        self.0.len() == 0
    }
}

/// A key-encapsulation mechanism with fixed buffer lengths.
pub trait Kem {
    spec fn public_key_len() -> nat;

    spec fn secret_key_len() -> nat;

    spec fn ciphertext_len() -> nat;

    spec fn shared_secret_len() -> nat;

    /// A fresh key pair; fails only when the backend cannot do its work.
    fn keypair() -> (r: Result<(PublicKey, SecretKey), OqsError>)
        ensures
            r matches Ok((pk, sk)) ==> pk@.len() == Self::public_key_len() && sk@.len()
                == Self::secret_key_len(),
            r matches Err(e) ==> e is Internal,
    ;

    /// A ciphertext and shared secret for `pk`; `InvalidLength` exactly when
    /// `pk` is not of the public-key length.
    fn encapsulate(pk: &PublicKey) -> (r: Result<(Ciphertext, SharedSecret), OqsError>)
        ensures
            (r matches Err(OqsError::InvalidLength)) <==> pk@.len() != Self::public_key_len(),
            r matches Ok((ct, ss)) ==> ct@.len() == Self::ciphertext_len() && ss@.len()
                == Self::shared_secret_len(),
            r matches Err(e) ==> e is InvalidLength || e is Internal,
    ;

    /// The shared secret carried by `ct`; `InvalidLength` exactly when `ct`
    /// or `sk` is not of its length.
    fn decapsulate(ct: &Ciphertext, sk: &SecretKey) -> (r: Result<SharedSecret, OqsError>)
        ensures
            (r matches Err(OqsError::InvalidLength)) <==> (ct@.len() != Self::ciphertext_len()
                || sk@.len() != Self::secret_key_len()),
            r matches Ok(ss) ==> ss@.len() == Self::shared_secret_len(),
            r matches Err(e) ==> e is InvalidLength || e is Internal,
    ;
}

/// The 768-bit module-lattice KEM (ML-KEM-768, formerly Kyber768), on the
/// size-faithful mock backend. Its buffers have the real lengths but carry no
/// cryptographic meaning: the two shared secrets of an exchange agree in
/// length only. It is for development and tests, never for production; real
/// key exchange runs the same adapter flow over an engine for the native
/// library.
pub struct Kyber768;

impl Kem for Kyber768 {
    open spec fn public_key_len() -> nat {
        KYBER768_PUBLIC_KEY_BYTES as nat
    }

    open spec fn secret_key_len() -> nat {
        KYBER768_SECRET_KEY_BYTES as nat
    }

    open spec fn ciphertext_len() -> nat {
        KYBER768_CIPHERTEXT_BYTES as nat
    }

    open spec fn shared_secret_len() -> nat {
        KYBER768_SHARED_SECRET_BYTES as nat
    }

    fn keypair() -> (r: Result<(PublicKey, SecretKey), OqsError>) {
        let (pk, sk) = kem_keypair::<MockKem>(&kyber768_names())?;
        Ok((PublicKey(pk), SecretKey(sk)))
    }

    fn encapsulate(pk: &PublicKey) -> (r: Result<(Ciphertext, SharedSecret), OqsError>) {
        let (ct, ss) = kem_encapsulate::<MockKem>(&kyber768_names(), pk.as_bytes())?;
        Ok((Ciphertext(ct), SharedSecret(ss)))
    }

    fn decapsulate(ct: &Ciphertext, sk: &SecretKey) -> (r: Result<SharedSecret, OqsError>) {
        let ss = kem_decapsulate::<MockKem>(&kyber768_names(), ct.as_bytes(), sk.as_bytes())?;
        Ok(SharedSecret(ss))
    }
}

/// Key pairs of the 768-bit KEM have a 1184-byte public key and a 2400-byte
/// secret key.
pub proof fn lemma_kyber768_keypair_lengths(r: Result<(PublicKey, SecretKey), OqsError>)
    requires
        call_ensures(Kyber768::keypair, (), r),
    ensures
        r matches Ok((pk, sk)) ==> pk@.len() == 1184 && sk@.len() == 2400,
{
}

/// Round trip: for a fresh key pair, encapsulation gives a 1088-byte
/// ciphertext and a 32-byte shared secret, and decapsulating that ciphertext
/// with the matching secret key never fails on a length and recovers a shared
/// secret of the same length. On this backend the two secrets agree in length
/// only, not in content.
pub proof fn lemma_kyber768_round_trip(
    pk: PublicKey,
    sk: SecretKey,
    ct: Ciphertext,
    ss1: SharedSecret,
    r: Result<SharedSecret, OqsError>,
)
    requires
        call_ensures(Kyber768::keypair, (), Ok::<(PublicKey, SecretKey), OqsError>((pk, sk))),
        call_ensures(
            Kyber768::encapsulate,
            (&pk,),
            Ok::<(Ciphertext, SharedSecret), OqsError>((ct, ss1)),
        ),
        call_ensures(Kyber768::decapsulate, (&ct, &sk), r),
    ensures
        pk@.len() == 1184,
        ct@.len() == 1088,
        ss1@.len() == 32,
        r matches Err(e) ==> e is Internal,
        r matches Ok(ss2) ==> ss2@.len() == ss1@.len(),
{
}

/// Length checks: encapsulation fails with `InvalidLength` exactly when the
/// public key is not 1184 bytes, and decapsulation exactly when the
/// ciphertext is not 1088 bytes or the secret key is not 2400 bytes.
pub proof fn lemma_kyber768_length_checks(
    pk: PublicKey,
    ct: Ciphertext,
    sk: SecretKey,
    r1: Result<(Ciphertext, SharedSecret), OqsError>,
    r2: Result<SharedSecret, OqsError>,
)
    requires
        call_ensures(Kyber768::encapsulate, (&pk,), r1),
        call_ensures(Kyber768::decapsulate, (&ct, &sk), r2),
    ensures
        (r1 matches Err(OqsError::InvalidLength)) <==> pk@.len() != 1184,
        (r2 matches Err(OqsError::InvalidLength)) <==> (ct@.len() != 1088 || sk@.len() != 2400),
{
}

} // verus!
