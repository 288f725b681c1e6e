//! The outside primitives that the derivation relies on (argon2, hkdf with
//! sha2, rand, zeroize), and what is assumed of each of them.

use vstd::prelude::*;
use crate::passphrase::Argon2Params;
use rand_core::RngCore;

verus! {

#[verifier::external_type_specification]
#[verifier::external_body]
pub struct ExArgon2Params(argon2::Params);

#[verifier::external_type_specification]
#[verifier::external_body]
pub struct ExArgon2Error(argon2::Error);

#[verifier::external_type_specification]
#[verifier::external_body]
pub struct ExHkdfInvalidLength(hkdf::InvalidLength);

/// The lower bound that argon2 puts on the memory cost, in KiB blocks.
pub const ARGON2_MIN_M_COST: u32 = 8;

/// The upper bound that argon2 puts on the number of lanes.
pub const ARGON2_MAX_P_COST: u32 = 0xFF_FFFF;

/// Whether argon2 accepts these costs: at least eight blocks of memory for
/// each lane, at least one pass, and between one lane and 2^24 - 1 lanes.
pub open spec fn argon2_costs_accepted(m_cost: u32, t_cost: u32, p_cost: u32) -> bool {
    &&& m_cost >= ARGON2_MIN_M_COST
    &&& m_cost as int >= 8 * p_cost as int
    &&& t_cost >= 1
    &&& p_cost >= 1
    &&& p_cost <= ARGON2_MAX_P_COST
}

/// Whether argon2 accepts this requested output length.
pub open spec fn argon2_output_len_accepted(output_len: Option<usize>) -> bool {
    match output_len {
        Some(n) => 4 <= n && n <= 0xFFFF_FFFF,
        None => true,
    }
}

/// Relies on argon2's `Params::new`: it accepts exactly the costs and the
/// output length described above. It computes `p_cost * 8` in `u32`, which
/// must not overflow.
pub assume_specification[ argon2::Params::new ](
    m_cost: u32,
    t_cost: u32,
    p_cost: u32,
    output_len: Option<usize>,
) -> (r: Result<argon2::Params, argon2::Error>)
    requires
        p_cost as int * 8 <= u32::MAX,
    ensures
        r is Ok <==> (argon2_costs_accepted(m_cost, t_cost, p_cost)
            && argon2_output_len_accepted(output_len)),
;

/// The 32 bytes of Argon2id, version 0x13, over a password and a salt with the
/// given costs (no secret key, no associated data).
pub uninterp spec fn argon2id_v13(
    passphrase: Seq<u8>,
    salt: Seq<u8>,
    m_cost: u32,
    t_cost: u32,
    p_cost: u32,
) -> Seq<u8>;

/// The first 32 bytes of HKDF-Expand with HMAC-SHA-256, over a pseudo-random
/// key and an info label.
pub uninterp spec fn hkdf_sha256_expand32(prk: Seq<u8>, info: Seq<u8>) -> Seq<u8>;

/// The bytes that a `SecretKey32` holds.
pub uninterp spec fn secret_key_bytes(k: SecretKey32) -> Seq<u8>;

/// A 32-byte secret kept in a `zeroize::Zeroizing` buffer, so that it is
/// overwritten with zeros when it goes out of scope, on every path.
#[verifier::external_body]
pub struct SecretKey32 {
    inner: zeroize::Zeroizing<[u8; 32]>,
}

impl SecretKey32 {
    /// Relies on `Zeroizing::new`: the buffer holds the bytes it was given.
    #[verifier::external_body]
    pub fn from_bytes(bytes: [u8; 32]) -> (r: SecretKey32)
        ensures
            secret_key_bytes(r) == bytes@,
    {
        SecretKey32 { inner: zeroize::Zeroizing::new(bytes) }
    }

    /// Relies on `Zeroizing`'s `Deref`: it hands out the bytes held.
    #[verifier::external_body]
    pub fn expose(&self) -> (r: &[u8; 32])
        ensures
            r@ == secret_key_bytes(*self),
    {
        &self.inner
    }
}

/// Relies on argon2's `Params::new`, `Argon2::new` with `Algorithm::Argon2id`
/// and `Version::V0x13`, and `Argon2::hash_password_into`. The costs are
/// checked first, as `Params::new` checks them; a 16-byte salt is always
/// accepted; a password longer than `MAX_PWD_LEN` (2^32 - 1 bytes) is refused;
/// otherwise the 32 output bytes are Argon2id of the inputs.
#[verifier::external_body]
pub(crate) fn argon2id_into(
    passphrase: &[u8],
    salt: &[u8; 16],
    params: &Argon2Params,
    out: &mut SecretKey32,
) -> (r: Result<(), argon2::Error>)
    requires
        params.p_cost as int * 8 <= u32::MAX,
    ensures
        r is Ok <==> (argon2_costs_accepted(params.m_cost_kib, params.t_cost, params.p_cost)
            && passphrase@.len() <= 0xFFFF_FFFF),
        r is Ok ==> secret_key_bytes(*final(out))
            == argon2id_v13(passphrase@, salt@, params.m_cost_kib, params.t_cost, params.p_cost),
{
    let costs = argon2::Params::new(params.m_cost_kib, params.t_cost, params.p_cost, Some(32))?;
    argon2::Argon2::new(argon2::Algorithm::Argon2id, argon2::Version::V0x13, costs)
        .hash_password_into(passphrase, salt, &mut out.inner[..])
}

/// Relies on hkdf's `Hkdf::<sha2::Sha256>::from_prk` and `Hkdf::expand`: a
/// 32-byte key is long enough to stand as the pseudo-random key (no extract
/// step), 32 output bytes are within the 255 * 32 that `expand` allows, and
/// they depend on the key and the label alone.
#[verifier::external_body]
pub(crate) fn hkdf_sha256_expand_into(
    prk: &SecretKey32,
    info: &[u8],
    okm: &mut SecretKey32,
) -> (r: Result<(), hkdf::InvalidLength>)
    ensures
        r is Ok,
        secret_key_bytes(*final(okm)) == hkdf_sha256_expand32(secret_key_bytes(*prk), info@),
{
    match hkdf::Hkdf::<sha2::Sha256>::from_prk(&prk.inner[..]) {
        Ok(hk) => hk.expand(info, &mut okm.inner[..]),
        Err(_) => Err(hkdf::InvalidLength),
    }
}

/// Relies on `rand::rng()` (the thread-local, OS-seeded CSPRNG) and
/// `RngCore::fill_bytes`: 16 bytes drawn at random. Nothing is known of them.
#[verifier::external_body]
pub(crate) fn random_salt() -> (r: [u8; 16]) {
    let mut salt = [0u8; 16];
    rand::rng().fill_bytes(&mut salt);
    salt
}

} // verus!
