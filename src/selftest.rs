//! A best-effort diagnostic: one round trip through each capability.
use crate::error::OqsError;
use crate::kem::{Kem, Kyber768};
use crate::sig::{Dilithium2, SignatureScheme};
use vstd::prelude::*;

verus! {

/// One key pair, one encapsulation and one decapsulation. On this backend
/// only the random source can make it fail.
fn kem_round_trip() -> (r: Result<(), OqsError>)
    ensures
        r matches Err(e) ==> e is Internal,
{
    let (pk, sk) = Kyber768::keypair()?;
    let (ct, _ss1) = Kyber768::encapsulate(&pk)?;
    let _ss2 = Kyber768::decapsulate(&ct, &sk)?;
    Ok(())
}

/// One key pair, one signature and its verification. On this backend only
/// the random source can make it fail.
fn sig_round_trip() -> (r: Result<(), OqsError>)
    ensures
        r matches Err(e) ==> e is Internal,
{
    let (pk, sk) = Dilithium2::keypair()?;
    let msg = "oqs-safe selftest".as_bytes();
    let sig = Dilithium2::sign(&sk, msg)?;
    Dilithium2::verify(&pk, msg, &sig)
}

/// Runs both round trips and discards the outcome: a failure here never
/// stops or delays the caller.
pub fn check() {
    let _ = kem_round_trip();
    let _ = sig_round_trip();
}

} // verus!
