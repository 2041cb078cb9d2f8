use vstd::prelude::*;

use crate::error::CryptoError;

verus! {

/// Length in bytes of every derived key.
pub const DERIVED_KEY_LEN: usize = 32;

/// Shortest salt that the derivation accepts.
pub const MIN_SALT_LEN: usize = 8;

/// Longest password or salt that the derivation accepts.
pub const MAX_INPUT_LEN: u64 = 0xFFFF_FFFF;

/// Largest degree of parallelism that the derivation accepts.
pub const MAX_P_COST: u32 = 0xFF_FFFF;

/// The derived key that Argon2id (version 0x13, 32-byte output, no secret
/// and no associated data) computes from its cost parameters, password and salt.
pub uninterp spec fn argon2id_key(
    m_cost: u32,
    t_cost: u32,
    p_cost: u32,
    password: Seq<u8>,
    salt: Seq<u8>,
) -> Seq<u8>;

/// Work parameters of the key derivation. They are part of the envelope
/// format: an envelope opens only under the parameters that made it.
#[derive(Debug, Clone, Copy, PartialEq, Eq, Structural)]
pub struct KdfParams {
    /// Memory size in 1 KiB blocks.
    pub m_cost: u32,
    /// Number of passes over the memory.
    pub t_cost: u32,
    /// Degree of parallelism.
    pub p_cost: u32,
}

impl KdfParams {
    /// Costs that Argon2id accepts: at least 8 blocks per lane, one pass, and
    /// between 1 and 2^24 - 1 lanes.
    pub open spec fn valid(self) -> bool {
        &&& self.t_cost >= 1
        &&& 1 <= self.p_cost <= MAX_P_COST
        &&& self.m_cost as int >= 8 * self.p_cost as int
    }

    /// The key that these parameters derive from `password` and `salt`.
    pub open spec fn key_for(self, password: Seq<u8>, salt: Seq<u8>) -> Seq<u8> {
        argon2id_key(self.m_cost, self.t_cost, self.p_cost, password, salt)
    }

    /// The standard parameters: 19 MiB of memory, two passes, one lane.
    pub open spec fn standard_spec() -> KdfParams {
        KdfParams { m_cost: 19456, t_cost: 2, p_cost: 1 }
    }

    /// The standard parameters: 19 MiB of memory, two passes, one lane.
    pub fn standard() -> (r: KdfParams)
        ensures
            r == KdfParams::standard_spec(),
            r.valid(),
    {
        KdfParams { m_cost: 19456, t_cost: 2, p_cost: 1 }
    }

    /// Parameters with the given costs, if Argon2id accepts them.
    pub fn new(m_cost: u32, t_cost: u32, p_cost: u32) -> (r: Result<KdfParams, CryptoError>)
        ensures
            r matches Ok(p) ==> p == (KdfParams { m_cost, t_cost, p_cost }),
            r is Ok <==> (KdfParams { m_cost, t_cost, p_cost }).valid(),
            r is Err ==> r == Err::<KdfParams, CryptoError>(CryptoError::DerivationFailure),
    {
        if t_cost >= 1 && 1 <= p_cost && p_cost <= MAX_P_COST && m_cost as u64 >= 8 * (p_cost as u64) {
            Ok(KdfParams { m_cost, t_cost, p_cost })
        } else {
            Err(CryptoError::DerivationFailure)
        }
    }
}

/// Whether a derivation under `params` succeeds on a password and a salt of
/// these lengths.
pub open spec fn kdf_accepts(params: KdfParams, password_len: int, salt_len: int) -> bool {
    &&& params.valid()
    &&& password_len <= MAX_INPUT_LEN
    &&& MIN_SALT_LEN <= salt_len <= MAX_INPUT_LEN
}

#[verifier::external_type_specification]
#[verifier::external_body]
pub struct ExArgon2Error(argon2::Error);

/// Relies on argon2's `Params::new` and `Argon2::hash_password_into`, with
/// Argon2id version 0x13 and a 32-byte output: the parameters are refused
/// unless `m_cost >= 8 * p_cost`, `t_cost >= 1` and `1 <= p_cost < 2^24`
/// (`m_cost >= 8` follows); the inputs are refused when the password is over
/// 2^32 - 1 bytes or the salt is under 8 or over 2^32 - 1 bytes; otherwise
/// the 32 bytes of the hash come back. `p_cost` is bounded first, since
/// `Params::new` multiplies it by 8 in `u32` before it checks the bound.
#[verifier::external_body]
fn argon2id_hash(
    m_cost: u32,
    t_cost: u32,
    p_cost: u32,
    password: &[u8],
    salt: &[u8],
) -> (r: Result<Vec<u8>, argon2::Error>)
    requires
        p_cost <= MAX_P_COST,
    ensures
        r is Ok <==> kdf_accepts(
            KdfParams { m_cost, t_cost, p_cost },
            password@.len() as int,
            salt@.len() as int,
        ),
        r matches Ok(k) ==> k@ == argon2id_key(m_cost, t_cost, p_cost, password@, salt@),
        r matches Ok(k) ==> k@.len() == DERIVED_KEY_LEN,
{
    let params = argon2::Params::new(m_cost, t_cost, p_cost, Some(32))?;
    let mut key = [0u8; 32];
    argon2::Argon2::new(argon2::Algorithm::Argon2id, argon2::Version::V0x13, params)
        .hash_password_into(password, salt, &mut key)?;
    Ok(key.to_vec())
}

/// Derives a 32-byte key from `password` and `salt` under `params`.
pub fn derivate_key_with(params: KdfParams, password: &[u8], salt: &[u8]) -> (r: Result<
    Vec<u8>,
    CryptoError,
>)
    ensures
        r is Ok <==> kdf_accepts(params, password@.len() as int, salt@.len() as int),
        r matches Ok(k) ==> k@ == params.key_for(password@, salt@),
        r matches Ok(k) ==> k@.len() == DERIVED_KEY_LEN,
        r is Err ==> r == Err::<Vec<u8>, CryptoError>(CryptoError::DerivationFailure),
{
    if params.p_cost > MAX_P_COST {
        return Err(CryptoError::DerivationFailure);
    }
    match argon2id_hash(params.m_cost, params.t_cost, params.p_cost, password, salt) {
        Ok(k) => Ok(k),
        Err(_) => Err(CryptoError::DerivationFailure),
    }
}

/// Derives a 32-byte key from `password` and `salt` under the standard parameters.
pub fn derivate_key(password: &[u8], salt: &[u8]) -> (r: Result<Vec<u8>, CryptoError>)
    ensures
        r is Ok <==> kdf_accepts(KdfParams::standard_spec(), password@.len() as int, salt@.len() as int),
        r matches Ok(k) ==> k@ == KdfParams::standard_spec().key_for(password@, salt@),
        r matches Ok(k) ==> k@.len() == DERIVED_KEY_LEN,
        r is Err ==> r == Err::<Vec<u8>, CryptoError>(CryptoError::DerivationFailure),
{
    derivate_key_with(KdfParams::standard(), password, salt)
}

/// Derivation is deterministic: the same parameters, password and salt always
/// give the same key.
pub proof fn lemma_derivation_deterministic(
    params: KdfParams,
    password1: Seq<u8>,
    salt1: Seq<u8>,
    password2: Seq<u8>,
    salt2: Seq<u8>,
)
    requires
        password1 == password2,
        salt1 == salt2,
    ensures
        params.key_for(password1, salt1) == params.key_for(password2, salt2),
{
}

} // verus!
