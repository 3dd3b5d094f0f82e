//! Password-based key derivation: Argon2id, memory-hard and deliberately
//! expensive. The caller must always supply a salt; the engine never
//! fabricates one.
use vstd::prelude::*;

use crate::CryptoError;

verus! {

/// The Argon2id derivation as a pure function of the password, the salt and
/// the cost parameters.
pub uninterp spec fn argon2id_of(
    password: Seq<u8>,
    salt: Seq<u8>,
    memory_kib: u32,
    iterations: u32,
    parallelism: u32,
    output_length: usize,
) -> Seq<u8>;

/// Cost parameters for Argon2id password-to-key derivation.
#[derive(Clone, Copy, Debug, PartialEq, Eq, Structural)]
pub struct Argon2Params {
    /// Memory cost in KiB; at least 8.
    pub memory_kib: u32,
    /// Number of passes over the memory; at least 1.
    pub iterations: u32,
    /// Number of lanes; between 1 and 0xFFFFFF.
    pub parallelism: u32,
    /// Length of the derived key in bytes; between 4 and 0xFFFFFFFF.
    pub output_length: usize,
}

/// Whether the parameters lie in the range Argon2id accepts.
pub open spec fn kdf_params_ok(p: Argon2Params) -> bool {
    &&& p.memory_kib >= 8
    &&& p.iterations >= 1
    &&& 1 <= p.parallelism <= 0xFFFFFF
    &&& 4 <= p.output_length <= 0xFFFF_FFFF
}

/// Whether the salt length lies in the range Argon2id accepts.
pub open spec fn kdf_salt_ok(salt: Seq<u8>) -> bool {
    8 <= salt.len() <= 0xFFFF_FFFF
}

/// Whether the password length lies in the range Argon2id accepts.
pub open spec fn kdf_password_ok(password: Seq<u8>) -> bool {
    password.len() <= 0xFFFF_FFFF
}

impl Argon2Params {
    /// The default cost profile: 64 MiB of memory, 3 passes, 4 lanes and a
    /// 32-byte derived key.
    pub fn new() -> (r: Self)
        ensures
            r.memory_kib == 65536,
            r.iterations == 3,
            r.parallelism == 4,
            r.output_length == 32,
            kdf_params_ok(r),
    {
        Argon2Params { memory_kib: 65536, iterations: 3, parallelism: 4, output_length: 32 }
    }
}

/// Relies on argon2::Argon2::hash_password_into with Algorithm::Argon2id and
/// Version::V0x13: deterministic in the password, the salt and the cost
/// parameters; with in-range parameters it fails only when the working memory
/// cannot be allocated.
#[verifier::external_body]
fn argon2id_raw(
    password: &[u8],
    salt: &[u8],
    memory_kib: u32,
    iterations: u32,
    parallelism: u32,
    output_length: usize,
) -> (r: Result<Vec<u8>, CryptoError>)
    requires
        memory_kib >= 8,
        iterations >= 1,
        1 <= parallelism <= 0xFFFFFF,
        4 <= output_length <= 0xFFFF_FFFF,
        kdf_password_ok(password@),
        kdf_salt_ok(salt@),
    ensures
        r matches Ok(v) ==> (v@ == argon2id_of(
            password@,
            salt@,
            memory_kib,
            iterations,
            parallelism,
            output_length,
        ) && v@.len() == output_length),
        r matches Err(e) ==> e == CryptoError::ConfigError,
{
    let params = argon2::ParamsBuilder::new().m_cost(memory_kib).t_cost(iterations).p_cost(
        parallelism,
    ).output_len(output_length).build().map_err(|_| CryptoError::ConfigError)?;
    let argon2 = argon2::Argon2::new(argon2::Algorithm::Argon2id, argon2::Version::V0x13, params);
    let mut output = vec![0u8; output_length];
    argon2.hash_password_into(password, salt, &mut output).map_err(
        |_| CryptoError::ConfigError,
    )?;
    Ok(output)
}

/// Derive `params.output_length` key bytes from a password and a
/// caller-supplied salt with Argon2id. Deterministic: identical password, salt
/// and parameters reproduce identical output.
///
/// Out-of-range cost parameters fail with `ConfigError` before any
/// cryptographic work; an out-of-range password or salt length fails with
/// `ValidationError`. `ConfigError` is also returned in the one residual
/// failure case, when the configured working memory cannot be allocated.
pub fn argon2id_hash(password: &[u8], salt: &[u8], params: &Argon2Params) -> (r: Result<
    Vec<u8>,
    CryptoError,
>)
    ensures
        !kdf_params_ok(*params) ==> (r matches Err(e) && e == CryptoError::ConfigError),
        kdf_params_ok(*params) && !(kdf_password_ok(password@) && kdf_salt_ok(salt@)) ==> (
        r matches Err(e) && e == CryptoError::ValidationError),
        r matches Ok(v) ==> (kdf_params_ok(*params) && v@ == argon2id_of(
            password@,
            salt@,
            params.memory_kib,
            params.iterations,
            params.parallelism,
            params.output_length,
        ) && v@.len() == params.output_length),
        kdf_params_ok(*params) && kdf_password_ok(password@) && kdf_salt_ok(salt@) ==> (r matches
            Err(e) ==> e == CryptoError::ConfigError),
{
    if params.memory_kib < 8 || params.iterations < 1 || params.parallelism < 1
        || params.parallelism > 0xFFFFFF || params.output_length < 4 || params.output_length as u64
        > 0xFFFF_FFFF {
        return Err(CryptoError::ConfigError);
    }
    if password.len() as u64 > 0xFFFF_FFFF || salt.len() < 8 || salt.len() as u64 > 0xFFFF_FFFF {
        return Err(CryptoError::ValidationError);
    }
    argon2id_raw(password, salt, params.memory_kib, params.iterations, params.parallelism, params.output_length)
}

} // verus!
