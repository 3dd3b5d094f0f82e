//! A cryptographic primitive engine: hashing, password-based key derivation,
//! authenticated encryption, signatures, post-quantum key encapsulation,
//! safe-prime generation, and a hybrid KEM + AEAD facade.
//!
//! Every operation is a pure byte-buffer-in / byte-buffer-or-error-out
//! function. Fixed wire sizes (key, nonce, tag, signature and ciphertext
//! lengths) are part of each function's contract.
use vstd::prelude::*;

pub mod aead;
pub mod hash;
pub mod hybrid;
pub mod kdf;
pub mod kem;
pub mod prime;
pub mod sig;

verus! {

/// The error taxonomy of the engine.
///
/// Errors never carry data derived from secret material.
#[derive(Clone, Copy, Debug, PartialEq, Eq, Structural)]
pub enum CryptoError {
    /// An input length or range violates a precondition.
    ValidationError,
    /// An AEAD authentication tag did not verify: tampering or a wrong key.
    AuthenticationError,
    /// A key or ciphertext blob does not decode to the expected structure.
    FormatError,
    /// Key-derivation parameters are out of the allowed range.
    ConfigError,
    /// A bounded-retry primitive exceeded its attempt budget.
    GenerationFailure,
}

} // verus!
