//! Safe-prime generation: rejection sampling of random odd candidates of the
//! requested bit length until both the candidate `p` and `(p - 1) / 2` are
//! prime, with a hard ceiling on the number of attempts.
use vstd::prelude::*;

use crate::CryptoError;
use vstd::arithmetic::div_mod::{lemma_fundamental_div_mod, lemma_multiply_divide_lt};
use vstd::arithmetic::power2::{
    lemma2_to64, lemma_pow2_adds, lemma_pow2_pos, lemma_pow2_strictly_increases, pow2,
};

verus! {

/// Upper bound on the number of candidates tried before giving up with
/// `GenerationFailure`.
pub const PRIME_MAX_ATTEMPTS: u32 = 100000;

/// Whether `d` divides `n`.
pub open spec fn divides(d: nat, n: nat) -> bool {
    n % d == 0
}

/// Primality: at least 2, and no divisor strictly between 1 and itself.
pub open spec fn is_prime(n: nat) -> bool {
    n >= 2 && forall|d: nat| 2 <= d < n ==> !(#[trigger] divides(d, n))
}

/// The big-endian value of a byte sequence: the last byte is least
/// significant.
pub open spec fn be_bytes_val(s: Seq<u8>) -> nat
    decreases s.len(),
{
    if s.len() == 0 {
        0
    } else {
        be_bytes_val(s.drop_last()) * 256 + s.last() as nat
    }
}

/// Relies on primal::is_prime (the deterministic Miller-Rabin test of
/// primal-check, exact on the whole u64 range by its fixed witness tables).
#[verifier::external_body]
fn is_prime_u64(n: u64) -> (r: bool)
    ensures
        r == is_prime(n as nat),
{
    primal::is_prime(n)
}

/// Relies on getrandom::u64: a fresh value from the operating system's
/// entropy source; nothing can be promised of which value comes back. Fails
/// only if that source fails.
#[verifier::external_body]
fn random_u64() -> (r: Result<u64, CryptoError>) {
    getrandom::u64().map_err(|_| CryptoError::GenerationFailure)
}

/// Appending a byte multiplies the big-endian value by 256 and adds the byte.
proof fn lemma_be_bytes_val_push(s: Seq<u8>, b: u8)
    ensures
        be_bytes_val(s.push(b)) == be_bytes_val(s) * 256 + b,
{
    assert(s.push(b).drop_last() =~= s);
}

/// Minimal big-endian encoding of `x` into exactly `nbytes` bytes.
fn u64_to_be_bytes(x: u64, nbytes: usize) -> (r: Vec<u8>)
    requires
        nbytes <= 8,
        (x as nat) < pow2(8 * nbytes as nat),
    ensures
        r@.len() == nbytes,
        be_bytes_val(r@) == x as nat,
    decreases nbytes,
{
    if nbytes == 0 {
        proof {
            lemma2_to64();
        }
        let r: Vec<u8> = Vec::new();
        assert(r@ =~= Seq::<u8>::empty());
        r
    } else {
        proof {
            lemma_pow2_adds(8 * (nbytes - 1) as nat, 8);
            lemma2_to64();
            lemma_pow2_pos(8 * (nbytes - 1) as nat);
            lemma_multiply_divide_lt(x as int, 256, pow2(8 * (nbytes - 1) as nat) as int);
        }
        let mut r = u64_to_be_bytes(x / 256, nbytes - 1);
        let ghost rest = r@;
        let b: u8 = (x % 256) as u8;
        r.push(b);
        proof {
            lemma_be_bytes_val_push(rest, b);
            lemma_fundamental_div_mod(x as int, 256);
        }
        r
    }
}

/// `2^e` as a machine word.
fn pow2_u64(e: usize) -> (r: u64)
    requires
        e <= 63,
    ensures
        r == pow2(e as nat),
{
    let mut r: u64 = 1;
    let mut i: usize = 0;
    proof {
        lemma2_to64();
        vstd::arithmetic::power2::lemma2_to64_rest();
    }
    while i < e
        invariant
            i <= e <= 63,
            r == pow2(i as nat),
        decreases e - i,
    {
        proof {
            if i < 62 {
                lemma_pow2_strictly_increases(i as nat, 62);
            }
            lemma2_to64();
            vstd::arithmetic::power2::lemma2_to64_rest();
            lemma_pow2_adds(i as nat, 1);
        }
        r = r * 2;
        i += 1;
    }
    r
}

/// Generate a safe (strong) prime of exactly `bits` bits: a prime `p` with
/// `(p - 1) / 2` also prime, suitable for finite-field Diffie-Hellman.
///
/// The result is the minimal big-endian encoding of `p`, `(bits + 7) / 8`
/// bytes long. Supported bit lengths are 3 through 64 (no safe prime has
/// fewer than 3 bits, and candidates are drawn as machine words); anything
/// else fails with `ValidationError`. Candidates are drawn at random with the
/// top bit forced, tested, and rejected until both tests pass; after
/// `PRIME_MAX_ATTEMPTS` rejections — or if the randomness source fails — the
/// call gives up with `GenerationFailure` rather than looping unboundedly.
pub fn generate_strong_prime(bits: usize) -> (r: Result<Vec<u8>, CryptoError>)
    ensures
        !(3 <= bits <= 64) ==> (r matches Err(e) && e == CryptoError::ValidationError),
        3 <= bits <= 64 ==> (r matches Err(e) ==> e == CryptoError::GenerationFailure),
        r matches Ok(b) ==> ({
            let p = be_bytes_val(b@);
            &&& 3 <= bits <= 64
            &&& b@.len() == (bits + 7) / 8
            &&& is_prime(p)
            &&& is_prime(((p - 1) / 2) as nat)
            &&& pow2((bits - 1) as nat) <= p < pow2(bits as nat)
        }),
{
    if bits < 3 || bits > 64 {
        return Err(CryptoError::ValidationError);
    }
    let half: u64 = pow2_u64(bits - 2);
    proof {
        lemma2_to64();
        vstd::arithmetic::power2::lemma2_to64_rest();
        if bits - 2 < 62 {
            lemma_pow2_strictly_increases((bits - 2) as nat, 62);
        }
        lemma_pow2_pos((bits - 2) as nat);
        lemma_pow2_adds((bits - 2) as nat, 1);
        lemma_pow2_adds((bits - 1) as nat, 1);
    }
    let mut attempts: u32 = 0;
    while attempts < PRIME_MAX_ATTEMPTS
        invariant
            3 <= bits <= 64,
            half == pow2((bits - 2) as nat),
            1 <= half <= 0x4000_0000_0000_0000u64,
            2 * half == pow2((bits - 1) as nat),
            4 * half == pow2(bits as nat),
        decreases PRIME_MAX_ATTEMPTS - attempts,
    {
        let rd = match random_u64() {
            Ok(v) => v,
            Err(_) => {
                return Err(CryptoError::GenerationFailure);
            },
        };
        let k: u64 = rd % half;
        let q: u64 = half + k;
        let p: u64 = 2 * q + 1;
        if is_prime_u64(p) && is_prime_u64(q) {
            let nbytes: usize = (bits + 7) / 8;
            proof {
                assert(8 * nbytes >= bits) by (nonlinear_arith)
                    requires
                        nbytes == (bits + 7) / 8,
                ;
                if bits < 8 * nbytes {
                    lemma_pow2_strictly_increases(bits as nat, (8 * nbytes) as nat);
                }
            }
            let out = u64_to_be_bytes(p, nbytes);
            return Ok(out);
        }
        attempts += 1;
    }
    Err(CryptoError::GenerationFailure)
}

} // verus!
