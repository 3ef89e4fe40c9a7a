//! The per-call flow shared by every backend: resolve a handle by name with
//! fallback, check input lengths against the lengths that handle declares,
//! pre-size every output buffer, release the handle, and map raw statuses to
//! [`OqsError`].
use crate::engine::{KemDescriptor, KemEngine, SigDescriptor, SigEngine};
use crate::error::OqsError;
use crate::memory::erase_bytes;
use vstd::prelude::*;

verus! {

/// Names tried, in order, for the 768-bit module-lattice KEM. Newer names come
/// first; older ones stay so that older library releases keep working.
pub fn kyber768_names() -> (r: Vec<&'static str>)
    ensures
        r@.len() == 2,
        r@[0]@ == "ML-KEM-768"@,
        r@[1]@ == "Kyber768"@,
{
    let mut r: Vec<&'static str> = Vec::new();
    r.push("ML-KEM-768");
    r.push("Kyber768");
    r
}

/// Names tried, in order, for the level-2 module-lattice signature scheme.
pub fn dilithium2_names() -> (r: Vec<&'static str>)
    ensures
        r@.len() == 3,
        r@[0]@ == "ML-DSA-44"@,
        r@[1]@ == "Dilithium2"@,
        r@[2]@ == "ML-DSA-2"@,
{
    let mut r: Vec<&'static str> = Vec::new();
    r.push("ML-DSA-44");
    r.push("Dilithium2");
    r.push("ML-DSA-2");
    r
}

/// The first handle that one of `names` opens, trying them in order.
pub fn open_kem<E: KemEngine>(names: &Vec<&'static str>) -> (r: Option<E::Handle>)
    ensures
        names@.len() > 0 && E::always_resolves() ==> r is Some,
{
    let mut i: usize = 0;
    while i < names.len()
        invariant
            i <= names@.len(),
            names@.len() > 0 && E::always_resolves() ==> i == 0,
        decreases names@.len() - i,
    {
        match E::open(names[i]) {
            Some(h) => {
                return Some(h);
            },
            None => {},
        }
        i = i + 1;
    }
    None
}

/// The first handle that one of `names` opens, trying them in order.
pub fn open_sig<E: SigEngine>(names: &Vec<&'static str>) -> (r: Option<E::Handle>)
    ensures
        names@.len() > 0 && E::always_resolves() ==> r is Some,
{
    let mut i: usize = 0;
    while i < names.len()
        invariant
            i <= names@.len(),
            names@.len() > 0 && E::always_resolves() ==> i == 0,
        decreases names@.len() - i,
    {
        match E::open(names[i]) {
            Some(h) => {
                return Some(h);
            },
            None => {},
        }
        i = i + 1;
    }
    None
}

/// Maps the status of a raw call: 0 is success, anything else is an
/// internal failure of the named step.
pub fn check_status(rc: i32, step: &'static str) -> (r: Result<(), OqsError>)
    ensures
        rc == 0 ==> r is Ok,
        rc != 0 ==> r == Err::<(), OqsError>(OqsError::Internal(step)),
{
    if rc == 0 {
        Ok(())
    } else {
        Err(OqsError::Internal(step))
    }
}

/// Maps the status of a raw verification: 0 accepts the signature, anything
/// else rejects it. A rejection is never an internal failure.
pub fn verify_status(rc: i32) -> (r: Result<(), OqsError>)
    ensures
        rc == 0 ==> r == Ok::<(), OqsError>(()),
        rc != 0 ==> r == Err::<(), OqsError>(OqsError::VerifyFail),
{
    if rc == 0 {
        Ok(())
    } else {
        Err(OqsError::VerifyFail)
    }
}

/// Cuts a signature buffer down to the length that the backend reported. A
/// reported length beyond the buffer is an integrity failure, never padding.
pub fn finish_signature(out: Vec<u8>, out_len: usize) -> (r: Result<Vec<u8>, OqsError>)
    ensures
        out_len <= out@.len() ==> (r matches Ok(s) && s@ == out@.subrange(0, out_len as int)),
        out_len > out@.len() ==> r == Err::<Vec<u8>, OqsError>(OqsError::Internal("sig out_len")),
{
    if out_len > out.len() {
        return Err(OqsError::Internal("sig out_len"));
    }
    let mut out = out;
    out.truncate(out_len);
    Ok(out)
}

/// Generates a key pair of the declared lengths.
pub fn kem_keypair<E: KemEngine>(names: &Vec<&'static str>) -> (r: Result<
    (Vec<u8>, Vec<u8>),
    OqsError,
>)
    ensures
        match r {
            Ok((pk, sk)) => exists|d: KemDescriptor|
                #![trigger E::declares(d)]
                E::declares(d) && pk@.len() == d.length_public_key && sk@.len()
                    == d.length_secret_key,
            Err(e) => (e == OqsError::Internal("kem new") && (names@.len() == 0 || !E::always_resolves())) || e
                == OqsError::Internal("kem keypair"),
        },
{
    let h = match open_kem::<E>(names) {
        Some(h) => h,
        None => {
            return Err(OqsError::Internal("kem new"));
        },
    };
    let d = E::lengths(&h);
    let mut pk = vec![0u8; d.length_public_key];
    let mut sk = vec![0u8; d.length_secret_key];
    let rc = E::keypair(&h, pk.as_mut_slice(), sk.as_mut_slice());
    E::release(h);
    if let Err(e) = check_status(rc, "kem keypair") {
        erase_bytes(&mut sk);
        return Err(e);
    }
    Ok((pk, sk))
}

/// Encapsulates to `pk`: `InvalidLength` before any raw call when `pk` is not
/// of the declared length, else a ciphertext and a shared secret of the
/// declared lengths.
pub fn kem_encapsulate<E: KemEngine>(names: &Vec<&'static str>, pk: &[u8]) -> (r: Result<
    (Vec<u8>, Vec<u8>),
    OqsError,
>)
    ensures
        match r {
            Ok((ct, ss)) => exists|d: KemDescriptor|
                #![trigger E::declares(d)]
                E::declares(d) && pk@.len() == d.length_public_key && ct@.len()
                    == d.length_ciphertext && ss@.len() == d.length_shared_secret,
            Err(OqsError::InvalidLength) => exists|d: KemDescriptor|
                #![trigger E::declares(d)]
                E::declares(d) && pk@.len() != d.length_public_key,
            Err(e) => (e == OqsError::Internal("kem new") && (names@.len() == 0 || !E::always_resolves())) || (e
                == OqsError::Internal("kem encaps") && exists|d: KemDescriptor|
                #![trigger E::declares(d)]
                E::declares(d) && pk@.len() == d.length_public_key),
        },
{
    let h = match open_kem::<E>(names) {
        Some(h) => h,
        None => {
            return Err(OqsError::Internal("kem new"));
        },
    };
    let d = E::lengths(&h);
    if pk.len() != d.length_public_key {
        E::release(h);
        return Err(OqsError::InvalidLength);
    }
    let mut ct = vec![0u8; d.length_ciphertext];
    let mut ss = vec![0u8; d.length_shared_secret];
    let rc = E::encaps(&h, ct.as_mut_slice(), ss.as_mut_slice(), pk);
    E::release(h);
    check_status(rc, "kem encaps")?;
    Ok((ct, ss))
}

/// Recovers the shared secret from `ct` with `sk`: `InvalidLength` before any
/// raw call when either is not of the declared length.
pub fn kem_decapsulate<E: KemEngine>(names: &Vec<&'static str>, ct: &[u8], sk: &[u8]) -> (r:
    Result<Vec<u8>, OqsError>)
    ensures
        match r {
            Ok(ss) => exists|d: KemDescriptor|
                #![trigger E::declares(d)]
                E::declares(d) && ct@.len() == d.length_ciphertext && sk@.len()
                    == d.length_secret_key && ss@.len() == d.length_shared_secret,
            Err(OqsError::InvalidLength) => exists|d: KemDescriptor|
                #![trigger E::declares(d)]
                E::declares(d) && (ct@.len() != d.length_ciphertext || sk@.len()
                    != d.length_secret_key),
            Err(e) => (e == OqsError::Internal("kem new") && (names@.len() == 0 || !E::always_resolves())) || (e
                == OqsError::Internal("kem decaps") && exists|d: KemDescriptor|
                #![trigger E::declares(d)]
                E::declares(d) && ct@.len() == d.length_ciphertext && sk@.len()
                    == d.length_secret_key),
        },
{
    let h = match open_kem::<E>(names) {
        Some(h) => h,
        None => {
            return Err(OqsError::Internal("kem new"));
        },
    };
    let d = E::lengths(&h);
    if ct.len() != d.length_ciphertext || sk.len() != d.length_secret_key {
        E::release(h);
        return Err(OqsError::InvalidLength);
    }
    let mut ss = vec![0u8; d.length_shared_secret];
    let rc = E::decaps(&h, ss.as_mut_slice(), ct, sk);
    E::release(h);
    check_status(rc, "kem decaps")?;
    Ok(ss)
}

/// Generates a signing key pair of the declared lengths.
pub fn sig_keypair<E: SigEngine>(names: &Vec<&'static str>) -> (r: Result<
    (Vec<u8>, Vec<u8>),
    OqsError,
>)
    ensures
        match r {
            Ok((pk, sk)) => exists|d: SigDescriptor|
                #![trigger E::declares(d)]
                E::declares(d) && pk@.len() == d.length_public_key && sk@.len()
                    == d.length_secret_key,
            Err(e) => (e == OqsError::Internal("sig new") && (names@.len() == 0 || !E::always_resolves())) || e
                == OqsError::Internal("sig keypair"),
        },
{
    let h = match open_sig::<E>(names) {
        Some(h) => h,
        None => {
            return Err(OqsError::Internal("sig new"));
        },
    };
    let d = E::lengths(&h);
    let mut pk = vec![0u8; d.length_public_key];
    let mut sk = vec![0u8; d.length_secret_key];
    let rc = E::keypair(&h, pk.as_mut_slice(), sk.as_mut_slice());
    E::release(h);
    if let Err(e) = check_status(rc, "sig keypair") {
        erase_bytes(&mut sk);
        return Err(e);
    }
    Ok((pk, sk))
}

/// Signs `msg` with `sk`: `InvalidLength` before any raw call when `sk` is not
/// of the declared length; else a signature cut to the reported length, which
/// never exceeds the declared maximum.
pub fn sig_sign<E: SigEngine>(names: &Vec<&'static str>, sk: &[u8], msg: &[u8]) -> (r: Result<
    Vec<u8>,
    OqsError,
>)
    ensures
        match r {
            Ok(sig) => exists|d: SigDescriptor|
                #![trigger E::declares(d)]
                E::declares(d) && sk@.len() == d.length_secret_key && sig@.len()
                    <= d.length_signature && (E::fixed_length() ==> sig@.len()
                    == d.length_signature),
            Err(OqsError::InvalidLength) => exists|d: SigDescriptor|
                #![trigger E::declares(d)]
                E::declares(d) && sk@.len() != d.length_secret_key,
            Err(e) => (e == OqsError::Internal("sig new") && (names@.len() == 0 || !E::always_resolves())) || ((e
                == OqsError::Internal("sig sign") || e == OqsError::Internal("sig out_len"))
                && exists|d: SigDescriptor|
                #![trigger E::declares(d)]
                E::declares(d) && sk@.len() == d.length_secret_key),
        },
{
    let h = match open_sig::<E>(names) {
        Some(h) => h,
        None => {
            return Err(OqsError::Internal("sig new"));
        },
    };
    let d = E::lengths(&h);
    if sk.len() != d.length_secret_key {
        E::release(h);
        return Err(OqsError::InvalidLength);
    }
    let mut out = vec![0u8; d.length_signature];
    let mut out_len: usize = 0;
    let rc = E::sign(&h, out.as_mut_slice(), &mut out_len, msg, sk);
    E::release(h);
    check_status(rc, "sig sign")?;
    finish_signature(out, out_len)
}

/// Whether `pk` and `sig` pass the length checks of descriptor `d`: the
/// public key of its length, the signature no longer than its maximum.
pub open spec fn verify_lengths_ok(d: SigDescriptor, pk: Seq<u8>, sig: Seq<u8>) -> bool {
    pk.len() == d.length_public_key && sig.len() <= d.length_signature
}

/// Verifies `sig` over `msg` under `pk`; lengths are checked before any raw
/// call.
pub fn sig_verify<E: SigEngine>(names: &Vec<&'static str>, pk: &[u8], msg: &[u8], sig: &[u8]) -> (r:
    Result<(), OqsError>)
    ensures
        match r {
            Ok(()) => E::may_accept(msg@, sig@, pk@) && exists|d: SigDescriptor|
                #![trigger E::declares(d)]
                E::declares(d) && verify_lengths_ok(d, pk@, sig@),
            Err(OqsError::InvalidLength) => exists|d: SigDescriptor|
                #![trigger E::declares(d)]
                E::declares(d) && !verify_lengths_ok(d, pk@, sig@),
            Err(OqsError::VerifyFail) => !E::must_accept(msg@, sig@, pk@) && exists|
                d: SigDescriptor,
            |
                #![trigger E::declares(d)]
                E::declares(d) && verify_lengths_ok(d, pk@, sig@),
            Err(e) => e == OqsError::Internal("sig new") && (names@.len() == 0 || !E::always_resolves()),
        },
        r is Ok ==> r == Ok::<(), OqsError>(()),
{
    let h = match open_sig::<E>(names) {
        Some(h) => h,
        None => {
            return Err(OqsError::Internal("sig new"));
        },
    };
    let d = E::lengths(&h);
    if pk.len() != d.length_public_key || sig.len() > d.length_signature {
        E::release(h);
        return Err(OqsError::InvalidLength);
    }
    let rc = E::verify(&h, msg, sig, pk);
    E::release(h);
    verify_status(rc)
}

} // verus!
