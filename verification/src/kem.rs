//! Post-quantum key encapsulation: Kyber-1024, a lattice-based scheme at the
//! 256-bit security level.
//!
//! Decapsulation practices implicit rejection: under a mismatched secret key
//! it still returns a 32-byte value, deterministically derived from that key
//! and the ciphertext, instead of signalling the mismatch. An explicit
//! "wrong key" signal would itself be an exploitable oracle.
use vstd::prelude::*;

use crate::CryptoError;
use pqcrypto_traits::kem::{Ciphertext, PublicKey, SecretKey, SharedSecret};

verus! {

/// KEM public key length in bytes.
pub const KEM_PUBLIC_KEY_LEN: usize = 1568;

/// KEM secret key length in bytes.
pub const KEM_SECRET_KEY_LEN: usize = 3168;

/// KEM ciphertext length in bytes; independent of any plaintext, since a KEM
/// has none.
pub const KEM_CIPHERTEXT_LEN: usize = 1568;

/// KEM shared secret length in bytes: one symmetric key.
pub const KEM_SHARED_SECRET_LEN: usize = 32;

/// The Kyber-1024 decapsulation as a pure function of the secret key and the
/// ciphertext. Deterministic even under a mismatched key, where the result is
/// the implicit-rejection value.
pub uninterp spec fn kyber_decap_of(secret_key: Seq<u8>, ciphertext: Seq<u8>) -> Seq<u8>;

/// Whether a secret key belongs to a public key: the relation established by
/// key generation, under which decapsulation inverts encapsulation.
pub uninterp spec fn kyber_matches(public_key: Seq<u8>, secret_key: Seq<u8>) -> bool;

/// Relies on pqcrypto_kyber::kyber1024::keypair: generates a fresh keypair of
/// the fixed wire sizes from the process-wide randomness source, such that
/// decapsulating with the secret key inverts any encapsulation made with the
/// public key. Aborts only if that randomness source fails.
#[verifier::external_body]
fn kem_keypair_raw() -> (r: (Vec<u8>, Vec<u8>))
    ensures
        r.0@.len() == KEM_PUBLIC_KEY_LEN,
        r.1@.len() == KEM_SECRET_KEY_LEN,
        kyber_matches(r.0@, r.1@),
{
    let (pk, sk) = pqcrypto_kyber::kyber1024::keypair();
    (pk.as_bytes().to_vec(), sk.as_bytes().to_vec())
}

/// Relies on pqcrypto_kyber::kyber1024::encapsulate: accepts any 1568-byte
/// public key, draws fresh randomness, and returns a 1568-byte ciphertext
/// with the 32-byte shared secret that decapsulation under any matching
/// secret key recovers (up to the scheme's negligible decapsulation-failure
/// probability, below 2^-160).
#[verifier::external_body]
fn kem_encapsulate_raw(public_key: &[u8]) -> (r: (Vec<u8>, Vec<u8>))
    requires
        public_key@.len() == KEM_PUBLIC_KEY_LEN,
    ensures
        r.0@.len() == KEM_CIPHERTEXT_LEN,
        r.1@.len() == KEM_SHARED_SECRET_LEN,
        forall|sk: Seq<u8>| kyber_matches(public_key@, sk) ==> #[trigger] kyber_decap_of(sk, r.0@)
            == r.1@,
{
    let pk = pqcrypto_kyber::kyber1024::PublicKey::from_bytes(public_key).unwrap();
    let (ss, ct) = pqcrypto_kyber::kyber1024::encapsulate(&pk);
    (ct.as_bytes().to_vec(), ss.as_bytes().to_vec())
}

/// Relies on pqcrypto_kyber::kyber1024::decapsulate: deterministic in the
/// secret key and the ciphertext, always returns 32 bytes, and never signals
/// a key mismatch (implicit rejection).
#[verifier::external_body]
fn kem_decapsulate_raw(secret_key: &[u8], ciphertext: &[u8]) -> (r: Vec<u8>)
    requires
        secret_key@.len() == KEM_SECRET_KEY_LEN,
        ciphertext@.len() == KEM_CIPHERTEXT_LEN,
    ensures
        r@ == kyber_decap_of(secret_key@, ciphertext@),
        r@.len() == KEM_SHARED_SECRET_LEN,
{
    let sk = pqcrypto_kyber::kyber1024::SecretKey::from_bytes(secret_key).unwrap();
    let ct = pqcrypto_kyber::kyber1024::Ciphertext::from_bytes(ciphertext).unwrap();
    let ss = pqcrypto_kyber::kyber1024::decapsulate(&ct, &sk);
    ss.as_bytes().to_vec()
}

/// A Kyber-1024 keypair: a 1568-byte public key and a 3168-byte secret key.
/// The secret key is classified; it leaves the engine only through the
/// explicit `secret_key` export.
pub struct KyberKeyPair {
    /// The public key bytes.
    pub public_key: Vec<u8>,
    /// The secret key bytes.
    pub secret_key: Vec<u8>,
}

impl KyberKeyPair {
    /// Both keys have their fixed wire sizes and belong together.
    pub open spec fn wf(self) -> bool {
        &&& self.public_key@.len() == KEM_PUBLIC_KEY_LEN
        &&& self.secret_key@.len() == KEM_SECRET_KEY_LEN
        &&& kyber_matches(self.public_key@, self.secret_key@)
    }

    /// Generate a fresh random keypair.
    pub fn new() -> (r: Self)
        ensures
            r.wf(),
    {
        let (public_key, secret_key) = kem_keypair_raw();
        KyberKeyPair { public_key, secret_key }
    }

    /// Export the public key (1568 bytes).
    pub fn public_key(&self) -> (r: Vec<u8>)
        ensures
            r@ == self.public_key@,
    {
        self.public_key.clone()
    }

    /// Export the secret key (3168 bytes). The caller owns the copy.
    pub fn secret_key(&self) -> (r: Vec<u8>)
        ensures
            r@ == self.secret_key@,
    {
        self.secret_key.clone()
    }
}

/// The result of one encapsulation: the ciphertext to transmit and the shared
/// secret both sides derive.
pub struct KyberCiphertext {
    /// The ciphertext bytes.
    pub ciphertext: Vec<u8>,
    /// The shared secret bytes.
    pub shared_secret: Vec<u8>,
}

impl KyberCiphertext {
    /// Fixed wire sizes of both halves.
    pub open spec fn wf(self) -> bool {
        &&& self.ciphertext@.len() == KEM_CIPHERTEXT_LEN
        &&& self.shared_secret@.len() == KEM_SHARED_SECRET_LEN
    }

    /// The ciphertext (1568 bytes).
    pub fn ciphertext(&self) -> (r: Vec<u8>)
        ensures
            r@ == self.ciphertext@,
    {
        self.ciphertext.clone()
    }

    /// The shared secret (32 bytes). Classified; consumed as a symmetric key.
    pub fn shared_secret(&self) -> (r: Vec<u8>)
        ensures
            r@ == self.shared_secret@,
    {
        self.shared_secret.clone()
    }
}

/// Encapsulate a fresh shared secret under a recipient's public key. Fails
/// with `FormatError` if and only if the key is not a 1568-byte encoding;
/// otherwise the returned ciphertext decapsulates to the returned shared
/// secret under any secret key matching `public_key`.
pub fn kyber1024_encapsulate(public_key: &[u8]) -> (r: Result<KyberCiphertext, CryptoError>)
    ensures
        public_key@.len() != KEM_PUBLIC_KEY_LEN ==> (r matches Err(e) && e
            == CryptoError::FormatError),
        public_key@.len() == KEM_PUBLIC_KEY_LEN ==> (r matches Ok(c) && c.wf() && (forall|
            sk: Seq<u8>,
        |
            kyber_matches(public_key@, sk) ==> #[trigger] kyber_decap_of(sk, c.ciphertext@)
                == c.shared_secret@)),
{
    if public_key.len() != KEM_PUBLIC_KEY_LEN {
        return Err(CryptoError::FormatError);
    }
    let (ciphertext, shared_secret) = kem_encapsulate_raw(public_key);
    Ok(KyberCiphertext { ciphertext, shared_secret })
}

/// Decapsulate a ciphertext with a secret key, recovering the 32-byte shared
/// secret. Fails with `FormatError` if and only if the secret key or the
/// ciphertext does not have its fixed wire size. A mismatched (but
/// well-formed) secret key is never an error: the call still returns 32
/// bytes, deterministically derived from that key and the ciphertext
/// (implicit rejection).
pub fn kyber1024_decapsulate(secret_key: &[u8], ciphertext: &[u8]) -> (r: Result<
    Vec<u8>,
    CryptoError,
>)
    ensures
        !(secret_key@.len() == KEM_SECRET_KEY_LEN && ciphertext@.len() == KEM_CIPHERTEXT_LEN) ==> (
        r matches Err(e) && e == CryptoError::FormatError),
        secret_key@.len() == KEM_SECRET_KEY_LEN && ciphertext@.len() == KEM_CIPHERTEXT_LEN ==> (
        r matches Ok(ss) && ss@ == kyber_decap_of(secret_key@, ciphertext@) && ss@.len()
            == KEM_SHARED_SECRET_LEN),
{
    if secret_key.len() != KEM_SECRET_KEY_LEN || ciphertext.len() != KEM_CIPHERTEXT_LEN {
        return Err(CryptoError::FormatError);
    }
    Ok(kem_decapsulate_raw(secret_key, ciphertext))
}

/// KEM correctness: when a secret key matches a public key, decapsulating an
/// encapsulation made under that public key yields exactly the encapsulated
/// shared secret.
pub proof fn lemma_kem_round_trip(
    public_key: Seq<u8>,
    secret_key: Seq<u8>,
    ciphertext: Seq<u8>,
    shared_secret: Seq<u8>,
)
    requires
        kyber_matches(public_key, secret_key),
        forall|sk: Seq<u8>| kyber_matches(public_key, sk) ==> #[trigger] kyber_decap_of(
            sk,
            ciphertext,
        ) == shared_secret,
    ensures
        kyber_decap_of(secret_key, ciphertext) == shared_secret,
{
}

} // verus!
