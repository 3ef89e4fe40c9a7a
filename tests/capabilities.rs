use oqs_safe::kem::{self, Kem, Kyber768};
use oqs_safe::sig::{self, Dilithium2, SignatureScheme};
use oqs_safe::OqsError;

#[test]
fn keypair_lengths_match_the_table() {
    let (pk, sk) = Kyber768::keypair().unwrap();
    assert_eq!(pk.len(), 1184);
    assert_eq!(sk.len(), 2400);
    assert_eq!(sk.as_bytes().len(), 2400);
    let (pk, sk) = Dilithium2::keypair().unwrap();
    assert_eq!(pk.len(), 1312);
    assert_eq!(sk.len(), 2528);
    assert!(!pk.is_empty());
}

#[test]
fn kem_scenario_lengths() {
    let (pk, sk) = Kyber768::keypair().unwrap();
    let (ct, ss1) = Kyber768::encapsulate(&pk).unwrap();
    let ss2 = Kyber768::decapsulate(&ct, &sk).unwrap();
    assert_eq!(ct.len(), 1088);
    assert_eq!(pk.len(), 1184);
    assert_eq!(ss1.len(), 32);
    assert_eq!(ss2.len(), 32);
    assert_eq!(ss1.as_bytes().len(), ss2.as_bytes().len());
}

#[test]
fn random_buffers_are_filled() {
    let (pk, _sk) = Kyber768::keypair().unwrap();
    assert!(pk.as_bytes().iter().any(|b| *b != 0));
    let (_pk2, sk2) = Dilithium2::keypair().unwrap();
    assert!(sk2.as_bytes().iter().any(|b| *b != 0));
}

#[test]
fn signature_scenario() {
    let (pk, sk) = Dilithium2::keypair().unwrap();
    let sig = Dilithium2::sign(&sk, b"hello pqc").unwrap();
    assert_eq!(sig.len(), 2420);
    assert!(Dilithium2::verify(&pk, b"hello pqc", &sig).is_ok());
    // The stand-in backend looks at the length alone, so another message
    // with the same signature is accepted too.
    assert!(Dilithium2::verify(&pk, b"different", &sig).is_ok());
}

#[test]
fn encapsulate_rejects_wrong_public_key_lengths() {
    for n in [0usize, 1183, 1185, 2400] {
        let pk = kem::PublicKey::from_bytes_unchecked(vec![7u8; n]);
        assert!(matches!(Kyber768::encapsulate(&pk), Err(OqsError::InvalidLength)));
    }
}

#[test]
fn decapsulate_rejects_wrong_lengths() {
    let ct = kem::Ciphertext::from_bytes_unchecked(vec![1u8; 1087]);
    let sk = kem::SecretKey::from_bytes_unchecked(vec![1u8; 2400]);
    assert!(matches!(Kyber768::decapsulate(&ct, &sk), Err(OqsError::InvalidLength)));
    let ct = kem::Ciphertext::from_bytes_unchecked(vec![1u8; 1088]);
    let sk = kem::SecretKey::from_bytes_unchecked(vec![1u8; 2401]);
    assert!(matches!(Kyber768::decapsulate(&ct, &sk), Err(OqsError::InvalidLength)));
    let sk = kem::SecretKey::from_bytes_unchecked(vec![1u8; 2400]);
    let ss = Kyber768::decapsulate(&ct, &sk).unwrap();
    assert_eq!(ss.len(), 32);
    assert!(!ss.is_empty());
}

#[test]
fn sign_rejects_wrong_secret_key_length() {
    let sk = sig::SecretKey::from_bytes_unchecked(vec![0u8; 2527]);
    assert!(matches!(Dilithium2::sign(&sk, b"m"), Err(OqsError::InvalidLength)));
    let sk = sig::SecretKey::from_bytes_unchecked(vec![0u8; 2528]);
    assert_eq!(Dilithium2::sign(&sk, b"").unwrap().len(), 2420);
}

#[test]
fn verify_checks_lengths_first() {
    let pk = sig::PublicKey::from_bytes_unchecked(vec![0u8; 1311]);
    let good = sig::Signature::from_bytes_unchecked(vec![0u8; 2420]);
    assert!(matches!(Dilithium2::verify(&pk, b"m", &good), Err(OqsError::InvalidLength)));
    let pk = sig::PublicKey::from_bytes_unchecked(vec![0u8; 1312]);
    let long = sig::Signature::from_bytes_unchecked(vec![0u8; 2421]);
    assert!(matches!(Dilithium2::verify(&pk, b"m", &long), Err(OqsError::InvalidLength)));
    assert!(Dilithium2::verify(&pk, b"m", &good).is_ok());
}

#[test]
fn verify_rejects_a_short_signature() {
    let pk = sig::PublicKey::from_bytes_unchecked(vec![0u8; 1312]);
    let short = sig::Signature::from_bytes_unchecked(vec![0u8; 100]);
    assert!(matches!(Dilithium2::verify(&pk, b"m", &short), Err(OqsError::VerifyFail)));
    let empty = sig::Signature::from_bytes_unchecked(vec![]);
    assert!(empty.is_empty());
    assert!(matches!(Dilithium2::verify(&pk, b"m", &empty), Err(OqsError::VerifyFail)));
}

#[test]
fn accessors_give_the_bytes() {
    let pk = kem::PublicKey::from_bytes_unchecked(vec![1, 2, 3]);
    assert_eq!(pk.as_bytes(), &[1u8, 2, 3][..]);
    assert_eq!(pk.len(), 3);
    let ct = kem::Ciphertext::from_bytes_unchecked(vec![]);
    assert!(ct.is_empty());
    assert_eq!(ct.as_bytes().len(), 0);
    let s = sig::Signature::from_bytes_unchecked(vec![9, 8]);
    assert_eq!(s.as_bytes(), &[9u8, 8][..]);
    let sk = sig::SecretKey::from_bytes_unchecked(vec![5]);
    assert_eq!(sk.as_bytes(), &[5u8][..]);
    assert!(!sk.is_empty());
    let ss = kem::SharedSecret::from_bytes_unchecked(vec![4, 4]);
    assert_eq!(ss.as_bytes(), &[4u8, 4][..]);
    let pk = sig::PublicKey::from_bytes_unchecked(vec![]);
    assert!(pk.is_empty());
    assert_eq!(pk.as_bytes().len(), 0);
}

#[test]
fn error_messages() {
    assert_eq!(OqsError::NotImplemented.message(), "not implemented (enable `liboqs`)");
    assert_eq!(OqsError::InvalidLength.message(), "invalid length");
    assert_eq!(OqsError::VerifyFail.message(), "verification failed");
    assert_eq!(OqsError::Internal("kem new").message(), "internal error: kem new");
}

#[test]
fn selftest_returns() {
    oqs_safe::selftest::check();
}
