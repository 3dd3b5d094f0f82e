use crypto_engine::CryptoError;
use crypto_engine::kem::{KyberKeyPair, kyber1024_decapsulate, kyber1024_encapsulate};
use pqcrypto_kyber::kyber1024;
use pqcrypto_traits::kem::PublicKey as _;
use pqcrypto_traits::kem::SecretKey as _;

#[test]
fn test_kyber1024_keypair_generation() {
    let keypair = KyberKeyPair::new();

    assert_eq!(keypair.public_key().len(), 1568);
    assert_eq!(keypair.secret_key().len(), 3168);
}

#[test]
fn test_kyber1024_encapsulation_decapsulation() {
    let (pk, sk) = kyber1024::keypair();

    let encap_result = kyber1024_encapsulate(pk.as_bytes()).expect("Encapsulation failed");

    let shared_secret_1 = encap_result.shared_secret();
    assert_eq!(shared_secret_1.len(), 32);

    let shared_secret_2 =
        kyber1024_decapsulate(sk.as_bytes(), &encap_result.ciphertext()).expect(
            "Decapsulation failed",
        );

    // Both sides should derive the same shared secret
    assert_eq!(shared_secret_1, shared_secret_2);
}

#[test]
fn test_kyber1024_wrong_key_different_secret() {
    let (pk1, _sk1) = kyber1024::keypair();
    let (_pk2, sk2) = kyber1024::keypair();

    let encap_result = kyber1024_encapsulate(pk1.as_bytes()).expect("Encapsulation failed");

    // Decapsulating with wrong secret key should produce different shared secret
    let shared_secret_wrong = kyber1024_decapsulate(sk2.as_bytes(), &encap_result.ciphertext())
        .expect("Decapsulation succeeded (but wrong secret)");

    assert_ne!(encap_result.shared_secret(), shared_secret_wrong);
}

#[test]
fn test_kyber1024_round_trip_with_own_keypair() {
    let keypair = KyberKeyPair::new();
    let encap = kyber1024_encapsulate(&keypair.public_key()).expect("Encapsulation failed");
    assert_eq!(encap.ciphertext().len(), 1568);
    let recovered =
        kyber1024_decapsulate(&keypair.secret_key(), &encap.ciphertext()).expect(
            "Decapsulation failed",
        );
    assert_eq!(recovered, encap.shared_secret());
}

#[test]
fn test_kyber1024_wrong_key_still_returns_32_bytes() {
    // Implicit rejection: a mismatched but well-formed key is never an error.
    let keypair1 = KyberKeyPair::new();
    let keypair2 = KyberKeyPair::new();
    let encap = kyber1024_encapsulate(&keypair1.public_key()).unwrap();
    let wrong = kyber1024_decapsulate(&keypair2.secret_key(), &encap.ciphertext()).unwrap();
    assert_eq!(wrong.len(), 32);
}

#[test]
fn test_kyber1024_format_errors() {
    let keypair = KyberKeyPair::new();
    assert!(matches!(
        kyber1024_encapsulate(&[0u8; 1567]),
        Err(CryptoError::FormatError)
    ));
    let encap = kyber1024_encapsulate(&keypair.public_key()).unwrap();
    assert!(matches!(
        kyber1024_decapsulate(&[0u8; 3167], &encap.ciphertext()),
        Err(CryptoError::FormatError)
    ));
    assert!(matches!(
        kyber1024_decapsulate(&keypair.secret_key(), &[0u8; 1569]),
        Err(CryptoError::FormatError)
    ));
}

#[test]
fn test_kyber1024_decapsulation_is_deterministic() {
    let keypair = KyberKeyPair::new();
    let encap = kyber1024_encapsulate(&keypair.public_key()).unwrap();
    let a = kyber1024_decapsulate(&keypair.secret_key(), &encap.ciphertext()).unwrap();
    let b = kyber1024_decapsulate(&keypair.secret_key(), &encap.ciphertext()).unwrap();
    assert_eq!(a, b);
}
