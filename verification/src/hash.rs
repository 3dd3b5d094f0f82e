//! Hashing: the SHAKE256 extendable-output function, the fixed 32-byte BLAKE3
//! digest, and their byte-wise XOR combination.
use vstd::prelude::*;

use sha3::digest::{ExtendableOutput, Update, XofReader};

verus! {

/// The SHAKE256 extendable-output function: a pure function of the input
/// bytes and the requested output length.
pub uninterp spec fn shake256_of(data: Seq<u8>, output_length: nat) -> Seq<u8>;

/// The 32-byte BLAKE3 digest: a pure function of the input bytes.
pub uninterp spec fn blake3_of(data: Seq<u8>) -> Seq<u8>;

/// The byte-wise XOR of two equal-length byte sequences.
pub open spec fn xor_bytes(a: Seq<u8>, b: Seq<u8>) -> Seq<u8>
    recommends
        a.len() == b.len(),
{
    Seq::new(a.len(), |i: int| a[i] ^ b[i])
}

/// Relies on sha3::Shake256 (update, finalize_xof, XofReader::read): an
/// extendable-output hash whose result depends only on the input bytes and on
/// the requested output length, and fills the whole output buffer.
#[verifier::external_body]
fn shake256_raw(data: &[u8], output_length: usize) -> (r: Vec<u8>)
    ensures
        r@ == shake256_of(data@, output_length as nat),
        r@.len() == output_length,
{
    let mut hasher = sha3::Shake256::default();
    hasher.update(data);
    let mut reader = hasher.finalize_xof();
    let mut output = vec![0u8; output_length];
    reader.read(&mut output);
    output
}

/// Relies on blake3::hash: a 256-bit digest that depends only on the input
/// bytes.
#[verifier::external_body]
fn blake3_raw(data: &[u8]) -> (r: Vec<u8>)
    ensures
        r@ == blake3_of(data@),
        r@.len() == 32,
{
    blake3::hash(data).as_bytes().to_vec()
}

/// Extendable-output hashing: exactly `output_length` bytes of SHAKE256
/// output. Deterministic: identical input bytes and length give identical
/// output. Asking for a different length is an independent computation, not a
/// prefix or continuation of a shorter one.
pub fn shake256_hash(data: &[u8], output_length: usize) -> (r: Vec<u8>)
    ensures
        r@ == shake256_of(data@, output_length as nat),
        r@.len() == output_length,
{
    shake256_raw(data, output_length)
}

/// Fixed-output hashing: the 32-byte BLAKE3 digest of the input.
/// Deterministic: identical input gives identical output.
pub fn blake3_hash(data: &[u8]) -> (r: Vec<u8>)
    ensures
        r@ == blake3_of(data@),
        r@.len() == 32,
{
    blake3_raw(data)
}

/// The byte-wise XOR of two equal-length buffers.
pub fn xor_combine(a: &[u8], b: &[u8]) -> (r: Vec<u8>)
    requires
        a@.len() == b@.len(),
    ensures
        r@ == xor_bytes(a@, b@),
{
    let mut out: Vec<u8> = Vec::new();
    let mut i: usize = 0;
    while i < a.len()
        invariant
            i <= a@.len(),
            a@.len() == b@.len(),
            out@ == xor_bytes(a@, b@).take(i as int),
        decreases a@.len() - i,
    {
        out.push(a[i] ^ b[i]);
        assert(out@ =~= xor_bytes(a@, b@).take(i + 1));
        i += 1;
    }
    assert(out@ =~= xor_bytes(a@, b@));
    out
}

/// Belt-and-suspenders hashing: the byte-wise XOR of `shake256(data, 32)` with
/// the 32-byte BLAKE3 digest, so that a structural break in either single
/// construction alone does not break the combination. Always 32 bytes.
pub fn double_hash(data: &[u8]) -> (r: Vec<u8>)
    ensures
        r@ == xor_bytes(shake256_of(data@, 32), blake3_of(data@)),
        r@.len() == 32,
{
    let shake = shake256_hash(data, 32);
    let blake = blake3_hash(data);
    xor_combine(shake.as_slice(), blake.as_slice())
}

} // verus!
