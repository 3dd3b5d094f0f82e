use crypto_engine::hash::{blake3_hash, double_hash, shake256_hash, xor_combine};

#[test]
fn test_shake256() {
    let data = b"test data";
    let hash = shake256_hash(data, 32);
    assert_eq!(hash.len(), 32);

    // Same input should produce same output
    let hash2 = shake256_hash(data, 32);
    assert_eq!(hash, hash2);
}

#[test]
fn lib_test_shake256() {
    let data = b"test data";
    let hash = shake256_hash(data, 32);
    assert_eq!(hash.len(), 32);
}

#[test]
fn test_blake3() {
    let data = b"test data";
    let hash = blake3_hash(data);
    assert_eq!(hash.len(), 32);

    // Same input should produce same output
    let hash2 = blake3_hash(data);
    assert_eq!(hash, hash2);
}

#[test]
fn lib_test_blake3() {
    let data = b"test data";
    let hash = blake3_hash(data);
    assert_eq!(hash.len(), 32);
}

#[test]
fn test_double_hash() {
    let data = b"test data";
    let hash = double_hash(data);
    assert_eq!(hash.len(), 32);

    // Different from individual hashes
    let shake = shake256_hash(data, 32);
    let blake = blake3_hash(data);
    assert_ne!(hash, shake);
    assert_ne!(hash, blake);
}

#[test]
fn lib_test_double_hash() {
    let data = b"test data";
    let hash = double_hash(data);
    assert_eq!(hash.len(), 32);
}

#[test]
fn test_shake256_empty_input() {
    let hash = shake256_hash(b"", 32);
    assert_eq!(hash.len(), 32);
    assert_eq!(hash, shake256_hash(b"", 32));
}

#[test]
fn test_shake256_output_lengths() {
    assert_eq!(shake256_hash(b"abc", 0).len(), 0);
    assert_eq!(shake256_hash(b"abc", 1).len(), 1);
    assert_eq!(shake256_hash(b"abc", 64).len(), 64);
    assert_eq!(shake256_hash(b"abc", 113).len(), 113);
}

#[test]
fn test_shake256_different_inputs_differ() {
    assert_ne!(shake256_hash(b"abc", 32), shake256_hash(b"abd", 32));
}

#[test]
fn test_shake256_is_not_identity() {
    // A 32-byte input with a 32-byte output must still be transformed.
    let data = [7u8; 32];
    let hash = shake256_hash(&data, 32);
    assert_ne!(hash.as_slice(), &data[..]);
}

#[test]
fn test_blake3_is_not_identity() {
    let data = [9u8; 32];
    let hash = blake3_hash(&data);
    assert_ne!(hash.as_slice(), &data[..]);
    assert_ne!(blake3_hash(b"abc"), blake3_hash(b"abd"));
}

#[test]
fn test_xor_combine_exact_values() {
    let a = vec![0x00u8, 0xFF, 0x0F, 0xAA];
    let b = vec![0xFFu8, 0xFF, 0xF0, 0x55];
    assert_eq!(xor_combine(&a, &b), vec![0xFFu8, 0x00, 0xFF, 0xFF]);
}

#[test]
fn test_double_hash_is_xor_of_parts() {
    let data = b"belt and suspenders";
    let shake = shake256_hash(data, 32);
    let blake = blake3_hash(data);
    let expected: Vec<u8> = shake.iter().zip(blake.iter()).map(|(s, b)| s ^ b).collect();
    assert_eq!(double_hash(data), expected);
}
