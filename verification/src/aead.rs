//! Authenticated encryption with associated data: ChaCha20-Poly1305 with a
//! 32-byte key, a 12-byte nonce and a 16-byte postfix tag.
//!
//! The nonce is caller-supplied and never generated here; the engine does not
//! guarantee nonce uniqueness. Reusing a nonce under the same key is a
//! documented misuse that voids all security guarantees.
use vstd::prelude::*;

use crate::CryptoError;
use chacha20poly1305::aead::{Aead, Payload};
use chacha20poly1305::{ChaCha20Poly1305, KeyInit, Nonce};

verus! {

/// AEAD key length in bytes.
pub const AEAD_KEY_LEN: usize = 32;

/// AEAD nonce length in bytes.
pub const AEAD_NONCE_LEN: usize = 12;

/// Length of the authentication tag appended to every ciphertext.
pub const AEAD_TAG_LEN: usize = 16;

/// Exclusive upper bound on the plaintext length the cipher accepts
/// (the ChaCha20 keystream is exhausted at 64 * (2^32 - 1) bytes).
pub const AEAD_MAX_MESSAGE_LEN: u64 = 64 * 0xFFFF_FFFF;

/// The ChaCha20-Poly1305 ciphertext (plaintext encryption followed by the
/// 16-byte tag) as a pure function of key, nonce, associated data and
/// plaintext.
pub uninterp spec fn aead_ct_of(
    key: Seq<u8>,
    nonce: Seq<u8>,
    aad: Seq<u8>,
    plaintext: Seq<u8>,
) -> Seq<u8>;

/// Whether the key and nonce have the exact lengths the cipher demands.
pub open spec fn aead_inputs_ok(key: Seq<u8>, nonce: Seq<u8>) -> bool {
    key.len() == AEAD_KEY_LEN && nonce.len() == AEAD_NONCE_LEN
}

/// Relies on chacha20poly1305::ChaCha20Poly1305::encrypt: authenticated
/// encryption with a postfix 16-byte Poly1305 tag, deterministic in key,
/// nonce, associated data and plaintext; it succeeds for every plaintext
/// shorter than the keystream bound.
#[verifier::external_body]
fn aead_encrypt_raw(key: &[u8], nonce: &[u8], aad: &[u8], plaintext: &[u8]) -> (r: Vec<u8>)
    requires
        aead_inputs_ok(key@, nonce@),
        plaintext@.len() < AEAD_MAX_MESSAGE_LEN,
    ensures
        r@ == aead_ct_of(key@, nonce@, aad@, plaintext@),
        r@.len() == plaintext@.len() + AEAD_TAG_LEN,
{
    let cipher = ChaCha20Poly1305::new_from_slice(key).unwrap();
    let payload = Payload { msg: plaintext, aad };
    cipher.encrypt(Nonce::from_slice(nonce), payload).unwrap()
}

/// Relies on chacha20poly1305::ChaCha20Poly1305::decrypt: tag verification
/// over the same key, nonce and associated data. Decryption exactly inverts
/// encryption, and on tag failure returns an error and no plaintext.
#[verifier::external_body]
fn aead_decrypt_raw(key: &[u8], nonce: &[u8], aad: &[u8], ciphertext: &[u8]) -> (r: Result<Vec<u8>, CryptoError>)
    requires
        aead_inputs_ok(key@, nonce@),
    ensures
        r matches Ok(p) ==> (ciphertext@ == aead_ct_of(key@, nonce@, aad@, p@) && p@.len()
            + AEAD_TAG_LEN == ciphertext@.len()),
        r matches Ok(p) ==> forall|p2: Seq<u8>|
            #[trigger] aead_ct_of(key@, nonce@, aad@, p2) == ciphertext@ ==> p2 == p@,
        r matches Err(e) ==> (e == CryptoError::AuthenticationError && (forall|p: Seq<u8>|
            p.len() < AEAD_MAX_MESSAGE_LEN ==> #[trigger] aead_ct_of(key@, nonce@, aad@, p)
                != ciphertext@)),
{
    let cipher = ChaCha20Poly1305::new_from_slice(key).unwrap();
    let payload = Payload { msg: ciphertext, aad };
    cipher.decrypt(Nonce::from_slice(nonce), payload).map_err(
        |_| CryptoError::AuthenticationError,
    )
}

/// Encrypt under a 32-byte key and a caller-supplied 12-byte nonce, binding
/// the given associated data. The ciphertext is the encrypted plaintext
/// followed by the 16-byte tag. Wrong key or nonce lengths, or an oversize
/// plaintext, fail with `ValidationError` before any cryptographic work.
pub fn chacha20_encrypt_with_aad(key: &[u8], nonce: &[u8], plaintext: &[u8], aad: &[u8]) -> (r: Result<Vec<u8>, CryptoError>)
    ensures
        aead_inputs_ok(key@, nonce@) && plaintext@.len() < AEAD_MAX_MESSAGE_LEN ==> (r matches Ok(
            c,
        ) && c@ == aead_ct_of(key@, nonce@, aad@, plaintext@) && c@.len() == plaintext@.len()
            + AEAD_TAG_LEN),
        !(aead_inputs_ok(key@, nonce@) && plaintext@.len() < AEAD_MAX_MESSAGE_LEN) ==> (r matches
            Err(e) && e == CryptoError::ValidationError),
{
    if key.len() != AEAD_KEY_LEN || nonce.len() != AEAD_NONCE_LEN || plaintext.len() as u64
        >= AEAD_MAX_MESSAGE_LEN {
        return Err(CryptoError::ValidationError);
    }
    Ok(aead_encrypt_raw(key, nonce, aad, plaintext))
}

/// Encrypt with no associated data. See `chacha20_encrypt_with_aad`.
pub fn chacha20_encrypt(key: &[u8], nonce: &[u8], plaintext: &[u8]) -> (r: Result<Vec<u8>, CryptoError>)
    ensures
        aead_inputs_ok(key@, nonce@) && plaintext@.len() < AEAD_MAX_MESSAGE_LEN ==> (r matches Ok(
            c,
        ) && c@ == aead_ct_of(key@, nonce@, Seq::<u8>::empty(), plaintext@) && c@.len()
            == plaintext@.len() + AEAD_TAG_LEN),
        !(aead_inputs_ok(key@, nonce@) && plaintext@.len() < AEAD_MAX_MESSAGE_LEN) ==> (r matches
            Err(e) && e == CryptoError::ValidationError),
{
    let empty: Vec<u8> = Vec::new();
    assert(empty@ =~= Seq::<u8>::empty());
    chacha20_encrypt_with_aad(key, nonce, plaintext, empty.as_slice())
}

/// Decrypt a ciphertext produced by `chacha20_encrypt_with_aad` under the same
/// key, nonce and associated data; the result is the original plaintext.
/// Wrong key or nonce lengths fail with `ValidationError`; any other failure
/// (a tampered ciphertext, a different key, nonce or associated data, or a
/// ciphertext shorter than the tag) is `AuthenticationError`, and no partial
/// or tampered plaintext is ever returned.
pub fn chacha20_decrypt_with_aad(key: &[u8], nonce: &[u8], ciphertext: &[u8], aad: &[u8]) -> (r: Result<Vec<u8>, CryptoError>)
    ensures
        !aead_inputs_ok(key@, nonce@) ==> (r matches Err(e) && e == CryptoError::ValidationError),
        aead_inputs_ok(key@, nonce@) ==> {
            &&& r matches Ok(p) ==> (ciphertext@ == aead_ct_of(key@, nonce@, aad@, p@) && p@.len()
                + AEAD_TAG_LEN == ciphertext@.len())
            &&& forall|p: Seq<u8>|
                #[trigger] aead_ct_of(key@, nonce@, aad@, p) == ciphertext@ && p.len()
                    < AEAD_MAX_MESSAGE_LEN ==> (r matches Ok(q) && q@ == p)
            &&& r matches Err(e) ==> e == CryptoError::AuthenticationError
        },
{
    if key.len() != AEAD_KEY_LEN || nonce.len() != AEAD_NONCE_LEN {
        return Err(CryptoError::ValidationError);
    }
    aead_decrypt_raw(key, nonce, aad, ciphertext)
}

/// Decrypt with no associated data. See `chacha20_decrypt_with_aad`.
pub fn chacha20_decrypt(key: &[u8], nonce: &[u8], ciphertext: &[u8]) -> (r: Result<Vec<u8>, CryptoError>)
    ensures
        !aead_inputs_ok(key@, nonce@) ==> (r matches Err(e) && e == CryptoError::ValidationError),
        aead_inputs_ok(key@, nonce@) ==> {
            &&& r matches Ok(p) ==> (ciphertext@ == aead_ct_of(
                key@,
                nonce@,
                Seq::<u8>::empty(),
                p@,
            ) && p@.len() + AEAD_TAG_LEN == ciphertext@.len())
            &&& forall|p: Seq<u8>|
                #[trigger] aead_ct_of(key@, nonce@, Seq::<u8>::empty(), p) == ciphertext@ && p.len()
                    < AEAD_MAX_MESSAGE_LEN ==> (r matches Ok(q) && q@ == p)
            &&& r matches Err(e) ==> e == CryptoError::AuthenticationError
        },
{
    let empty: Vec<u8> = Vec::new();
    assert(empty@ =~= Seq::<u8>::empty());
    chacha20_decrypt_with_aad(key, nonce, ciphertext, empty.as_slice())
}

} // verus!
