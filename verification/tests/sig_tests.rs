use crypto_engine::CryptoError;
use crypto_engine::sig::{Ed448KeyPair, ed448_sign, ed448_verify};

#[test]
fn test_ed448_keypair_sizes() {
    let keypair = Ed448KeyPair::new();
    assert_eq!(keypair.public_key().len(), 57);
    assert_eq!(keypair.secret_key().len(), 57);
}

#[test]
fn test_ed448_sign_verify_round_trip() {
    let keypair = Ed448KeyPair::new();
    let message = b"Signed message to verify";
    let signature = ed448_sign(&keypair.secret_key(), message).expect("signing failed");
    assert_eq!(signature.len(), 114);
    assert!(ed448_verify(&keypair.public_key(), message, &signature));
}

#[test]
fn test_ed448_signing_is_deterministic() {
    let keypair = Ed448KeyPair::new();
    let message = b"same message";
    let sig1 = ed448_sign(&keypair.secret_key(), message).unwrap();
    let sig2 = ed448_sign(&keypair.secret_key(), message).unwrap();
    assert_eq!(sig1, sig2);
}

#[test]
fn test_ed448_flipped_message_does_not_verify() {
    let keypair = Ed448KeyPair::new();
    let message = b"original message";
    let signature = ed448_sign(&keypair.secret_key(), message).unwrap();
    let mut altered = message.to_vec();
    altered[0] ^= 0x01;
    assert!(!ed448_verify(&keypair.public_key(), &altered, &signature));
}

#[test]
fn test_ed448_flipped_signature_does_not_verify() {
    let keypair = Ed448KeyPair::new();
    let message = b"original message";
    let mut signature = ed448_sign(&keypair.secret_key(), message).unwrap();
    signature[0] ^= 0x01;
    assert!(!ed448_verify(&keypair.public_key(), message, &signature));
}

#[test]
fn test_ed448_mismatched_public_key_does_not_verify() {
    let keypair1 = Ed448KeyPair::new();
    let keypair2 = Ed448KeyPair::new();
    let message = b"original message";
    let signature = ed448_sign(&keypair1.secret_key(), message).unwrap();
    assert!(!ed448_verify(&keypair2.public_key(), message, &signature));
}

#[test]
fn test_ed448_verify_is_total_on_malformed_input() {
    // Wrong-length keys or signatures never raise; they just do not verify.
    let keypair = Ed448KeyPair::new();
    let message = b"message";
    let signature = ed448_sign(&keypair.secret_key(), message).unwrap();
    assert!(!ed448_verify(&[0u8; 56], message, &signature));
    assert!(!ed448_verify(&[0u8; 58], message, &signature));
    assert!(!ed448_verify(&keypair.public_key(), message, &[0u8; 113]));
    assert!(!ed448_verify(&keypair.public_key(), message, &[0u8; 115]));
    assert!(!ed448_verify(&keypair.public_key(), message, b""));
}

#[test]
fn test_ed448_sign_rejects_malformed_secret_key() {
    assert_eq!(
        ed448_sign(&[0u8; 56], b"message"),
        Err(CryptoError::ValidationError)
    );
    assert_eq!(
        ed448_sign(&[0u8; 58], b"message"),
        Err(CryptoError::ValidationError)
    );
}
