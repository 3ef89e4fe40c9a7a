use std::sync::atomic::{AtomicIsize, Ordering};

use oqs_safe::adapter::{
    dilithium2_names, kem_decapsulate, kem_encapsulate, kem_keypair, kyber768_names,
    sig_keypair, sig_sign, sig_verify,
};
use oqs_safe::engine::{KemDescriptor, KemEngine, SigDescriptor, SigEngine};
use oqs_safe::OqsError;

static KEM_OPEN: AtomicIsize = AtomicIsize::new(0);
static SIG_OPEN: AtomicIsize = AtomicIsize::new(0);

/// Counts open handles; raw calls succeed only when the first byte of the
/// first output buffer may be written, which a zero-length buffer forbids.
struct CountingKem;

impl KemEngine for CountingKem {
    type Handle = ();

    fn open(name: &'static str) -> Option<()> {
        if name == "Kyber768" {
            KEM_OPEN.fetch_add(1, Ordering::SeqCst);
            Some(())
        } else {
            None
        }
    }

    fn handle_lengths(h: &()) -> KemDescriptor {
        Self::lengths(h)
    }

    fn lengths(_h: &()) -> KemDescriptor {
        KemDescriptor {
            length_public_key: 3,
            length_secret_key: 4,
            length_ciphertext: 5,
            length_shared_secret: 0,
        }
    }

    fn keypair(_h: &(), pk: &mut [u8], _sk: &mut [u8]) -> i32 {
        pk.fill(1);
        0
    }

    fn encaps(_h: &(), _ct: &mut [u8], ss: &mut [u8], _pk: &[u8]) -> i32 {
        if ss.is_empty() {
            1
        } else {
            0
        }
    }

    fn decaps(_h: &(), _ss: &mut [u8], _ct: &[u8], _sk: &[u8]) -> i32 {
        0
    }

    fn release(_h: ()) {
        KEM_OPEN.fetch_sub(1, Ordering::SeqCst);
    }
}

/// Counts open handles and reports a signature longer than its buffer.
struct CountingSig;

impl SigEngine for CountingSig {
    type Handle = ();

    fn open(_name: &'static str) -> Option<()> {
        SIG_OPEN.fetch_add(1, Ordering::SeqCst);
        Some(())
    }

    fn handle_lengths(h: &()) -> SigDescriptor {
        Self::lengths(h)
    }

    fn lengths(_h: &()) -> SigDescriptor {
        SigDescriptor {
            length_public_key: 2,
            length_secret_key: 3,
            length_signature: 8,
        }
    }

    fn keypair(_h: &(), _pk: &mut [u8], _sk: &mut [u8]) -> i32 {
        7
    }

    fn sign(_h: &(), out: &mut [u8], out_len: &mut usize, msg: &[u8], _sk: &[u8]) -> i32 {
        *out_len = if msg.is_empty() { out.len() + 1 } else { 5 };
        0
    }

    fn verify(_h: &(), msg: &[u8], _sig: &[u8], _pk: &[u8]) -> i32 {
        if msg == b"ok" {
            0
        } else {
            -1
        }
    }

    fn release(_h: ()) {
        SIG_OPEN.fetch_sub(1, Ordering::SeqCst);
    }
}

#[test]
fn kem_handles_are_released_on_every_path() {
    let names = kyber768_names();
    let (pk, sk) = kem_keypair::<CountingKem>(&names).unwrap();
    assert_eq!((pk, sk.len()), (vec![1, 1, 1], 4));
    assert!(matches!(kem_encapsulate::<CountingKem>(&names, &[0u8; 2]), Err(OqsError::InvalidLength)));
    assert!(matches!(kem_encapsulate::<CountingKem>(&names, &[0u8; 3]), Err(OqsError::Internal("kem encaps"))));
    assert!(matches!(kem_decapsulate::<CountingKem>(&names, &[0u8; 5], &[0u8; 3]), Err(OqsError::InvalidLength)));
    assert_eq!(kem_decapsulate::<CountingKem>(&names, &[0u8; 5], &[0u8; 4]).unwrap().len(), 0);
    assert_eq!(KEM_OPEN.load(Ordering::SeqCst), 0);
}

#[test]
fn sig_handles_are_released_on_every_path() {
    let names = dilithium2_names();
    assert!(matches!(sig_keypair::<CountingSig>(&names), Err(OqsError::Internal("sig keypair"))));
    assert!(matches!(sig_sign::<CountingSig>(&names, &[0u8; 2], b"m"), Err(OqsError::InvalidLength)));
    assert_eq!(sig_sign::<CountingSig>(&names, &[0u8; 3], b"m").unwrap().len(), 5);
    assert!(matches!(sig_sign::<CountingSig>(&names, &[0u8; 3], b""), Err(OqsError::Internal("sig out_len"))));
    assert!(matches!(sig_verify::<CountingSig>(&names, &[0u8; 2], b"ok", &[0u8; 9]), Err(OqsError::InvalidLength)));
    assert!(matches!(sig_verify::<CountingSig>(&names, &[0u8; 1], b"ok", &[0u8; 8]), Err(OqsError::InvalidLength)));
    assert!(sig_verify::<CountingSig>(&names, &[0u8; 2], b"ok", &[0u8; 8]).is_ok());
    assert!(matches!(sig_verify::<CountingSig>(&names, &[0u8; 2], b"no", &[0u8; 3]), Err(OqsError::VerifyFail)));
    assert_eq!(SIG_OPEN.load(Ordering::SeqCst), 0);
}
