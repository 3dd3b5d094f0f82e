//! Classical signatures: Ed448, with 57-byte keys and 114-byte signatures.
//!
//! Signing is strict and fails loudly on a malformed secret key; verification
//! is total and never fails, treating malformed input as "does not verify".
//! That asymmetry matches how verification is invoked in hostile contexts.
use vstd::prelude::*;

use crate::CryptoError;
use openssl::pkey::{Id, PKey};
use openssl::sign::{Signer, Verifier};

verus! {

/// Signature public key length in bytes.
pub const SIG_PUBLIC_KEY_LEN: usize = 57;

/// Signature secret key length in bytes.
pub const SIG_SECRET_KEY_LEN: usize = 57;

/// Signature length in bytes.
pub const SIG_LEN: usize = 114;

/// The Ed448 signature as a pure function of the secret key and the message:
/// the scheme is deterministic and consumes no per-call randomness.
pub uninterp spec fn ed448_sig_of(secret_key: Seq<u8>, message: Seq<u8>) -> Seq<u8>;

/// The Ed448 verification outcome as a pure function of a 57-byte public key,
/// a message and a candidate signature of any length.
pub uninterp spec fn ed448_verifies(public_key: Seq<u8>, message: Seq<u8>, signature: Seq<u8>) -> bool;

/// Relies on openssl::pkey::PKey::generate_ed448 with raw_private_key and
/// raw_public_key: a fresh random Ed448 keypair, 57 bytes each, such that a
/// signature made with the secret key verifies under the public key. Aborts
/// only if the process-wide randomness source fails.
#[verifier::external_body]
fn sig_keypair_raw() -> (r: (Vec<u8>, Vec<u8>))
    ensures
        r.0@.len() == SIG_PUBLIC_KEY_LEN,
        r.1@.len() == SIG_SECRET_KEY_LEN,
        forall|m: Seq<u8>| #[trigger] ed448_verifies(r.0@, m, ed448_sig_of(r.1@, m)),
{
    let pkey = PKey::generate_ed448().expect("keypair generation failed");
    let public_key = pkey.raw_public_key().expect("keypair generation failed");
    let secret_key = pkey.raw_private_key().expect("keypair generation failed");
    (public_key, secret_key)
}

/// Relies on openssl::sign::Signer with an Ed448 key imported by
/// PKey::private_key_from_raw_bytes: deterministic RFC 8032 signing, 114
/// bytes, defined for every 57-byte secret key.
#[verifier::external_body]
fn sig_sign_raw(secret_key: &[u8], message: &[u8]) -> (r: Vec<u8>)
    requires
        secret_key@.len() == SIG_SECRET_KEY_LEN,
    ensures
        r@ == ed448_sig_of(secret_key@, message@),
        r@.len() == SIG_LEN,
{
    let pkey = PKey::private_key_from_raw_bytes(secret_key, Id::ED448).expect("57-byte key");
    let mut signer = Signer::new_without_digest(&pkey).expect("Ed448 signer");
    signer.sign_oneshot_to_vec(message).expect("Ed448 signing is infallible")
}

/// Relies on openssl::sign::Verifier with an Ed448 key imported by
/// PKey::public_key_from_raw_bytes: a deterministic accept/reject decision;
/// every failure, including a malformed signature, is a clean reject.
#[verifier::external_body]
fn sig_verify_raw(public_key: &[u8], message: &[u8], signature: &[u8]) -> (r: bool)
    requires
        public_key@.len() == SIG_PUBLIC_KEY_LEN,
    ensures
        r == ed448_verifies(public_key@, message@, signature@),
{
    let pkey = match PKey::public_key_from_raw_bytes(public_key, Id::ED448) {
        Ok(k) => k,
        Err(_) => return false,
    };
    let mut verifier = match Verifier::new_without_digest(&pkey) {
        Ok(v) => v,
        Err(_) => return false,
    };
    matches!(verifier.verify_oneshot(signature, message), Ok(true))
}

/// An Ed448 keypair: 57-byte public and secret keys. The secret key is
/// classified; it leaves the engine only through the explicit `secret_key`
/// export.
pub struct Ed448KeyPair {
    /// The public key bytes.
    pub public_key: Vec<u8>,
    /// The secret key bytes.
    pub secret_key: Vec<u8>,
}

impl Ed448KeyPair {
    /// Both keys have their fixed wire sizes and belong together: a signature
    /// made with the secret key verifies under the public key.
    pub open spec fn wf(self) -> bool {
        &&& self.public_key@.len() == SIG_PUBLIC_KEY_LEN
        &&& self.secret_key@.len() == SIG_SECRET_KEY_LEN
        &&& forall|m: Seq<u8>| #[trigger] ed448_verifies(
            self.public_key@,
            m,
            ed448_sig_of(self.secret_key@, m),
        )
    }

    /// Generate a fresh random keypair from the process-wide secure
    /// randomness source.
    pub fn new() -> (r: Self)
        ensures
            r.wf(),
    {
        let (public_key, secret_key) = sig_keypair_raw();
        Ed448KeyPair { public_key, secret_key }
    }

    /// Export the public key (57 bytes).
    pub fn public_key(&self) -> (r: Vec<u8>)
        ensures
            r@ == self.public_key@,
    {
        self.public_key.clone()
    }

    /// Export the secret key (57 bytes). The caller owns the copy.
    pub fn secret_key(&self) -> (r: Vec<u8>)
        ensures
            r@ == self.secret_key@,
    {
        self.secret_key.clone()
    }
}

/// Sign a message with a 57-byte secret key, yielding the deterministic
/// 114-byte Ed448 signature. A secret key of any other length fails loudly
/// with `ValidationError`.
pub fn ed448_sign(secret_key: &[u8], message: &[u8]) -> (r: Result<Vec<u8>, CryptoError>)
    ensures
        secret_key@.len() != SIG_SECRET_KEY_LEN ==> (r matches Err(e) && e
            == CryptoError::ValidationError),
        secret_key@.len() == SIG_SECRET_KEY_LEN ==> (r matches Ok(s) && s@ == ed448_sig_of(
            secret_key@,
            message@,
        ) && s@.len() == SIG_LEN),
{
    if secret_key.len() != SIG_SECRET_KEY_LEN {
        return Err(CryptoError::ValidationError);
    }
    Ok(sig_sign_raw(secret_key, message))
}

/// Verify a signature. Total: it never fails, whatever the input. A public
/// key that is not 57 bytes, a signature that is not 114 bytes, or any
/// malformed encoding simply does not verify.
pub fn ed448_verify(public_key: &[u8], message: &[u8], signature: &[u8]) -> (r: bool)
    ensures
        r == (public_key@.len() == SIG_PUBLIC_KEY_LEN && ed448_verifies(
            public_key@,
            message@,
            signature@,
        )),
{
    if public_key.len() != SIG_PUBLIC_KEY_LEN {
        return false;
    }
    sig_verify_raw(public_key, message, signature)
}

/// Signature round trip: for a keypair generated together, signing any
/// message with the secret key yields a signature that the public key
/// verifies.
pub proof fn lemma_sign_verify_round_trip(keypair: Ed448KeyPair, message: Seq<u8>)
    requires
        keypair.wf(),
    ensures
        ed448_verifies(
            keypair.public_key@,
            message,
            ed448_sig_of(keypair.secret_key@, message),
        ),
{
}

} // verus!
