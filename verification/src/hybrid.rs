//! The hybrid facade: encapsulate a fresh shared secret with the KEM, derive
//! an AEAD key and nonce from it via the hash engine, and encrypt the payload
//! under them.
//!
//! Opening with a wrong secret key is detected only by the AEAD layer:
//! decapsulation still "succeeds" (implicit rejection), the rederived key is
//! wrong, and decryption fails with `AuthenticationError`. Pushing wrong-key
//! detection into the AEAD avoids a KEM-level oracle.
use vstd::prelude::*;

use crate::CryptoError;
use crate::aead::{
    AEAD_MAX_MESSAGE_LEN, AEAD_TAG_LEN, aead_ct_of, chacha20_decrypt, chacha20_encrypt,
};
use crate::hash::{shake256_hash, shake256_of};
use crate::kem::{
    KEM_CIPHERTEXT_LEN, KEM_PUBLIC_KEY_LEN, KEM_SECRET_KEY_LEN, kyber_decap_of, kyber_matches,
    kyber1024_decapsulate, kyber1024_encapsulate,
};

verus! {

/// The AEAD key derived from a shared secret: the first 32 bytes of 44 bytes
/// of SHAKE256 output.
pub open spec fn hybrid_key_of(shared_secret: Seq<u8>) -> Seq<u8> {
    shake256_of(shared_secret, 44).subrange(0, 32)
}

/// The AEAD nonce derived from a shared secret: the last 12 bytes of 44 bytes
/// of SHAKE256 output. The shared secret is fresh per seal, so the nonce is
/// fresh per seal.
pub open spec fn hybrid_nonce_of(shared_secret: Seq<u8>) -> Seq<u8> {
    shake256_of(shared_secret, 44).subrange(32, 44)
}

/// The seal relation, with the shared secret named: the KEM ciphertext
/// decapsulates to `shared_secret` under every matching secret key, and the
/// payload ciphertext is the AEAD encryption under the derived key and nonce.
pub open spec fn seals_with(
    public_key: Seq<u8>,
    plaintext: Seq<u8>,
    kem_ciphertext: Seq<u8>,
    aead_ciphertext: Seq<u8>,
    shared_secret: Seq<u8>,
) -> bool {
    &&& shared_secret.len() == 32
    &&& forall|sk: Seq<u8>| kyber_matches(public_key, sk) ==> #[trigger] kyber_decap_of(
        sk,
        kem_ciphertext,
    ) == shared_secret
    &&& aead_ciphertext == aead_ct_of(
        hybrid_key_of(shared_secret),
        hybrid_nonce_of(shared_secret),
        Seq::<u8>::empty(),
        plaintext,
    )
}

/// What `hybrid_seal` produced: some fresh shared secret ties the KEM
/// ciphertext to the payload ciphertext.
pub open spec fn hybrid_sealed(
    public_key: Seq<u8>,
    plaintext: Seq<u8>,
    kem_ciphertext: Seq<u8>,
    aead_ciphertext: Seq<u8>,
) -> bool {
    exists|ss: Seq<u8>|
        #[trigger] seals_with(public_key, plaintext, kem_ciphertext, aead_ciphertext, ss)
}

/// What `hybrid_open` accepts: under the shared secret this secret key
/// decapsulates, the payload ciphertext is the AEAD encryption of `plaintext`.
pub open spec fn hybrid_opens_to(
    secret_key: Seq<u8>,
    kem_ciphertext: Seq<u8>,
    aead_ciphertext: Seq<u8>,
    plaintext: Seq<u8>,
) -> bool {
    aead_ciphertext == aead_ct_of(
        hybrid_key_of(kyber_decap_of(secret_key, kem_ciphertext)),
        hybrid_nonce_of(kyber_decap_of(secret_key, kem_ciphertext)),
        Seq::<u8>::empty(),
        plaintext,
    )
}

/// Copy `v[start..end]` into a fresh buffer.
fn copy_range(v: &[u8], start: usize, end: usize) -> (r: Vec<u8>)
    requires
        start <= end <= v@.len(),
    ensures
        r@ == v@.subrange(start as int, end as int),
{
    let mut out: Vec<u8> = Vec::new();
    assert(out@ =~= v@.subrange(start as int, start as int));
    let mut i: usize = start;
    while i < end
        invariant
            start <= i <= end <= v@.len(),
            out@ == v@.subrange(start as int, i as int),
        decreases end - i,
    {
        out.push(v[i]);
        assert(out@ =~= v@.subrange(start as int, i + 1));
        i += 1;
    }
    out
}

/// Seal a plaintext for the holder of a KEM secret key: encapsulate a fresh
/// shared secret under `recipient_public_key`, derive a 32-byte AEAD key and
/// a fresh 12-byte nonce from it, and AEAD-encrypt the plaintext. Returns the
/// KEM ciphertext and the payload ciphertext.
///
/// A public key of the wrong length fails with `FormatError`; an oversize
/// plaintext with `ValidationError`.
pub fn hybrid_seal(recipient_public_key: &[u8], plaintext: &[u8]) -> (r: Result<
    (Vec<u8>, Vec<u8>),
    CryptoError,
>)
    ensures
        recipient_public_key@.len() != KEM_PUBLIC_KEY_LEN ==> (r matches Err(e) && e
            == CryptoError::FormatError),
        recipient_public_key@.len() == KEM_PUBLIC_KEY_LEN && plaintext@.len()
            >= AEAD_MAX_MESSAGE_LEN ==> (r matches Err(e) && e == CryptoError::ValidationError),
        recipient_public_key@.len() == KEM_PUBLIC_KEY_LEN && plaintext@.len()
            < AEAD_MAX_MESSAGE_LEN ==> (r matches Ok(pair) && pair.0@.len() == KEM_CIPHERTEXT_LEN
            && pair.1@.len() == plaintext@.len() + AEAD_TAG_LEN && hybrid_sealed(
            recipient_public_key@,
            plaintext@,
            pair.0@,
            pair.1@,
        )),
{
    if recipient_public_key.len() != KEM_PUBLIC_KEY_LEN {
        return Err(CryptoError::FormatError);
    }
    if plaintext.len() as u64 >= AEAD_MAX_MESSAGE_LEN {
        return Err(CryptoError::ValidationError);
    }
    let encap = match kyber1024_encapsulate(recipient_public_key) {
        Ok(c) => c,
        Err(_) => {
            return Err(CryptoError::FormatError);
        },
    };
    let okm = shake256_hash(encap.shared_secret.as_slice(), 44);
    let key = copy_range(okm.as_slice(), 0, 32);
    let nonce = copy_range(okm.as_slice(), 32, 44);
    let aead_ciphertext = match chacha20_encrypt(key.as_slice(), nonce.as_slice(), plaintext) {
        Ok(c) => c,
        Err(_) => {
            return Err(CryptoError::ValidationError);
        },
    };
    proof {
        assert(key@ == hybrid_key_of(encap.shared_secret@));
        assert(nonce@ == hybrid_nonce_of(encap.shared_secret@));
        assert(seals_with(
            recipient_public_key@,
            plaintext@,
            encap.ciphertext@,
            aead_ciphertext@,
            encap.shared_secret@,
        ));
    }
    Ok((encap.ciphertext, aead_ciphertext))
}

/// Open a sealed pair: decapsulate the KEM ciphertext, rederive the AEAD key
/// and nonce exactly as `hybrid_seal` did, and decrypt the payload.
///
/// A secret key or KEM ciphertext of the wrong length fails with
/// `FormatError`. A wrong (but well-formed) secret key is caught only by the
/// AEAD layer: decapsulation yields a different shared secret, the derived
/// key is wrong, and decryption fails with `AuthenticationError` — the
/// intended failure path, not a KEM-level oracle.
pub fn hybrid_open(
    recipient_secret_key: &[u8],
    kem_ciphertext: &[u8],
    aead_ciphertext: &[u8],
) -> (r: Result<Vec<u8>, CryptoError>)
    ensures
        !(recipient_secret_key@.len() == KEM_SECRET_KEY_LEN && kem_ciphertext@.len()
            == KEM_CIPHERTEXT_LEN) ==> (r matches Err(e) && e == CryptoError::FormatError),
        recipient_secret_key@.len() == KEM_SECRET_KEY_LEN && kem_ciphertext@.len()
            == KEM_CIPHERTEXT_LEN ==> {
            &&& r matches Ok(p) ==> hybrid_opens_to(
                recipient_secret_key@,
                kem_ciphertext@,
                aead_ciphertext@,
                p@,
            )
            &&& forall|p: Seq<u8>|
                #[trigger] hybrid_opens_to(
                    recipient_secret_key@,
                    kem_ciphertext@,
                    aead_ciphertext@,
                    p,
                ) && p.len() < AEAD_MAX_MESSAGE_LEN ==> (r matches Ok(q) && q@ == p)
            &&& r matches Err(e) ==> e == CryptoError::AuthenticationError
        },
{
    if recipient_secret_key.len() != KEM_SECRET_KEY_LEN || kem_ciphertext.len()
        != KEM_CIPHERTEXT_LEN {
        return Err(CryptoError::FormatError);
    }
    let shared_secret = match kyber1024_decapsulate(recipient_secret_key, kem_ciphertext) {
        Ok(ss) => ss,
        Err(_) => {
            return Err(CryptoError::FormatError);
        },
    };
    let okm = shake256_hash(shared_secret.as_slice(), 44);
    let key = copy_range(okm.as_slice(), 0, 32);
    let nonce = copy_range(okm.as_slice(), 32, 44);
    proof {
        assert(key@ == hybrid_key_of(kyber_decap_of(recipient_secret_key@, kem_ciphertext@)));
        assert(nonce@ == hybrid_nonce_of(kyber_decap_of(recipient_secret_key@, kem_ciphertext@)));
    }
    chacha20_decrypt(key.as_slice(), nonce.as_slice(), aead_ciphertext)
}

/// Hybrid round trip: a pair sealed under a public key opens, under any
/// matching secret key, to exactly the sealed plaintext.
pub proof fn lemma_hybrid_round_trip(
    public_key: Seq<u8>,
    secret_key: Seq<u8>,
    plaintext: Seq<u8>,
    kem_ciphertext: Seq<u8>,
    aead_ciphertext: Seq<u8>,
)
    requires
        kyber_matches(public_key, secret_key),
        hybrid_sealed(public_key, plaintext, kem_ciphertext, aead_ciphertext),
    ensures
        hybrid_opens_to(secret_key, kem_ciphertext, aead_ciphertext, plaintext),
{
    let ss = choose|ss: Seq<u8>|
        #[trigger] seals_with(public_key, plaintext, kem_ciphertext, aead_ciphertext, ss);
    assert(kyber_decap_of(secret_key, kem_ciphertext) == ss);
}

} // verus!
