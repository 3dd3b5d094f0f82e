use crypto_engine::CryptoError;
use crypto_engine::kdf::{Argon2Params, argon2id_hash};

#[test]
fn test_argon2id() {
    let password = b"correct horse battery staple";
    let salt = b"random salt 1234";
    let params = Argon2Params::new();
    let hash = argon2id_hash(password, salt, &params).expect("derivation failed");
    assert_eq!(hash.len(), 32);

    // Same input should produce same output
    let hash2 = argon2id_hash(password, salt, &params).expect("derivation failed");
    assert_eq!(hash, hash2);

    // Different password should produce different hash
    let hash3 = argon2id_hash(b"wrong password", salt, &params).expect("derivation failed");
    assert_ne!(hash, hash3);
}

#[test]
fn lib_test_argon2id() {
    let password = b"correct horse battery staple";
    let salt = b"random salt 1234";
    let params = Argon2Params::new();
    let hash = argon2id_hash(password, salt, &params).expect("derivation failed");
    assert_eq!(hash.len(), 32);
}

#[test]
fn test_argon2id_default_params() {
    let params = Argon2Params::new();
    assert_eq!(params.memory_kib, 65536);
    assert_eq!(params.iterations, 3);
    assert_eq!(params.parallelism, 4);
    assert_eq!(params.output_length, 32);
}

#[test]
fn test_argon2id_salt_sensitivity() {
    // Cheap but valid parameters keep this test fast.
    let params = Argon2Params {
        memory_kib: 64,
        iterations: 1,
        parallelism: 1,
        output_length: 32,
    };
    let a = argon2id_hash(b"password", b"salt one", &params).unwrap();
    let b = argon2id_hash(b"password", b"salt two", &params).unwrap();
    assert_ne!(a, b);
}

#[test]
fn test_argon2id_output_length_is_respected() {
    let params = Argon2Params {
        memory_kib: 64,
        iterations: 1,
        parallelism: 1,
        output_length: 57,
    };
    let key = argon2id_hash(b"password", b"longsalt", &params).unwrap();
    assert_eq!(key.len(), 57);
}

#[test]
fn test_argon2id_output_differs_from_password() {
    let params = Argon2Params {
        memory_kib: 64,
        iterations: 1,
        parallelism: 1,
        output_length: 32,
    };
    let password = [11u8; 32];
    let key = argon2id_hash(&password, b"longsalt", &params).unwrap();
    assert_ne!(key.as_slice(), &password[..]);
}

#[test]
fn test_argon2id_zero_params_are_config_errors() {
    let base = Argon2Params {
        memory_kib: 64,
        iterations: 1,
        parallelism: 1,
        output_length: 32,
    };
    let mut p = base;
    p.memory_kib = 0;
    assert_eq!(
        argon2id_hash(b"pw", b"longsalt", &p),
        Err(CryptoError::ConfigError)
    );
    p = base;
    p.iterations = 0;
    assert_eq!(
        argon2id_hash(b"pw", b"longsalt", &p),
        Err(CryptoError::ConfigError)
    );
    p = base;
    p.parallelism = 0;
    assert_eq!(
        argon2id_hash(b"pw", b"longsalt", &p),
        Err(CryptoError::ConfigError)
    );
    p = base;
    p.output_length = 0;
    assert_eq!(
        argon2id_hash(b"pw", b"longsalt", &p),
        Err(CryptoError::ConfigError)
    );
    p = base;
    p.parallelism = 0x100_0000;
    assert_eq!(
        argon2id_hash(b"pw", b"longsalt", &p),
        Err(CryptoError::ConfigError)
    );
}

#[test]
fn test_argon2id_short_salt_is_validation_error() {
    let params = Argon2Params {
        memory_kib: 64,
        iterations: 1,
        parallelism: 1,
        output_length: 32,
    };
    assert_eq!(
        argon2id_hash(b"pw", b"7bytes!", &params),
        Err(CryptoError::ValidationError)
    );
}
