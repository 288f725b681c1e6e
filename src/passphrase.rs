use vstd::prelude::*;
use crate::crypto::{
    argon2_costs_accepted, argon2id_into, argon2id_v13, hkdf_sha256_expand32,
    hkdf_sha256_expand_into, random_salt, secret_key_bytes, SecretKey32, ARGON2_MAX_P_COST,
};

verus! {

/// What can go wrong while deriving key material.
#[derive(Debug, Clone, Copy, PartialEq, Eq, Structural)]
pub enum CryptoError {
    InvalidArgon2Params,
    Argon2HashFailed,
    HkdfExpandInvalidLen,
}

impl CryptoError {
    /// Human-readable description of the failure.
    pub fn message(&self) -> (r: &'static str)
        ensures
            *self == CryptoError::InvalidArgon2Params ==> r@ == "invalid Argon2 parameters"@,
            *self == CryptoError::Argon2HashFailed ==> r@ == "Argon2 hashing failed"@,
            *self == CryptoError::HkdfExpandInvalidLen ==> r@ == "HKDF expansion invalid length"@,
    {
        match self {
            CryptoError::InvalidArgon2Params => "invalid Argon2 parameters",
            CryptoError::Argon2HashFailed => "Argon2 hashing failed",
            CryptoError::HkdfExpandInvalidLen => "HKDF expansion invalid length",
        }
    }
}

/// Cost parameters of the Argon2id stretch.
pub struct Argon2Params {
    /// Memory to use, in KiB blocks.
    pub m_cost_kib: u32,
    /// Number of passes over memory.
    pub t_cost: u32,
    /// Number of lanes.
    pub p_cost: u32,
}

/// A fresh salt and the root secret stretched from the passphrase with it.
pub struct PassphrasePrimitives {
    /// Not secret; the caller stores it to derive the same keys again.
    pub salt: [u8; 16],
    pub root: SecretKey32,
}

/// The two keys expanded from a root secret.
pub struct Keys {
    pub enc_key: SecretKey32,
    pub prng_key: SecretKey32,
}

/// The longest passphrase, in bytes, that Argon2 hashes.
pub const MAX_PASSPHRASE_LEN: u64 = 0xFFFF_FFFF;

/// Whether the stretch accepts these cost parameters.
pub open spec fn params_valid(params: Argon2Params) -> bool {
    argon2_costs_accepted(params.m_cost_kib, params.t_cost, params.p_cost)
}

/// The root secret stretched from a passphrase and a salt.
pub open spec fn stretched_root(passphrase: Seq<u8>, salt: Seq<u8>, params: Argon2Params) -> Seq<u8> {
    argon2id_v13(passphrase, salt, params.m_cost_kib, params.t_cost, params.p_cost)
}

/// A key expanded from a root secret under a domain-separation label.
pub open spec fn expanded_key(root: Seq<u8>, label: Seq<u8>) -> Seq<u8> {
    hkdf_sha256_expand32(root, label)
}

/// The label of the encryption key, the bytes of "enc".
pub open spec fn enc_label() -> Seq<u8> {
    seq![0x65u8, 0x6eu8, 0x63u8]
}

/// The label of the PRNG key, the bytes of "prng".
pub open spec fn prng_label() -> Seq<u8> {
    seq![0x70u8, 0x72u8, 0x6eu8, 0x67u8]
}

/// Checks the cost parameters as Argon2 checks them, before any hashing work.
pub fn check_params(params: &Argon2Params) -> (r: Result<(), CryptoError>)
    ensures
        r is Ok <==> params_valid(*params),
        r is Err ==> r == Err::<(), CryptoError>(CryptoError::InvalidArgon2Params),
{
    if params.p_cost > ARGON2_MAX_P_COST {
        return Err(CryptoError::InvalidArgon2Params);
    }
    match argon2::Params::new(params.m_cost_kib, params.t_cost, params.p_cost, Some(32)) {
        Ok(_) => Ok(()),
        Err(_) => Err(CryptoError::InvalidArgon2Params),
    }
}

/// Stretches a passphrase with a given salt into a 32-byte root secret with
/// Argon2id (version 0x13). The same passphrase, salt and costs give the same
/// root: this is also how a stored salt re-derives the keys.
pub fn argon2_derive_32(passphrase: &[u8], salt: &[u8; 16], params: Argon2Params)
    -> (r: Result<SecretKey32, CryptoError>)
    ensures
        r == Err::<SecretKey32, CryptoError>(CryptoError::InvalidArgon2Params) <==> !params_valid(params),
        r == Err::<SecretKey32, CryptoError>(CryptoError::Argon2HashFailed) <==> (params_valid(params)
            && passphrase@.len() > MAX_PASSPHRASE_LEN),
        r is Ok <==> (params_valid(params) && passphrase@.len() <= MAX_PASSPHRASE_LEN),
        r is Ok ==> secret_key_bytes(r->Ok_0) == stretched_root(passphrase@, salt@, params),
{
    if let Err(e) = check_params(&params) {
        return Err(e);
    }
    let mut root = SecretKey32::from_bytes([0u8; 32]);
    match argon2id_into(passphrase, salt, &params, &mut root) {
        Ok(()) => Ok(root),
        Err(_) => Err(CryptoError::Argon2HashFailed),
    }
}

/// Draws a fresh random salt and stretches the passphrase with it. The cost
/// parameters are checked first: when they are refused, no salt is drawn and
/// no hashing is done.
pub fn passphrase_to_root_and_salt(passphrase: &[u8], params: Argon2Params)
    -> (r: Result<PassphrasePrimitives, CryptoError>)
    ensures
        r == Err::<PassphrasePrimitives, CryptoError>(CryptoError::InvalidArgon2Params) <==> !params_valid(params),
        r == Err::<PassphrasePrimitives, CryptoError>(CryptoError::Argon2HashFailed) <==> (params_valid(params)
            && passphrase@.len() > MAX_PASSPHRASE_LEN),
        r is Ok <==> (params_valid(params) && passphrase@.len() <= MAX_PASSPHRASE_LEN),
        r is Ok ==> secret_key_bytes(r->Ok_0.root) == stretched_root(passphrase@, r->Ok_0.salt@, params),
{
    if let Err(e) = check_params(&params) {
        return Err(e);
    }
    let salt = random_salt();
    match argon2_derive_32(passphrase, &salt, params) {
        Ok(root) => Ok(PassphrasePrimitives { salt, root }),
        Err(e) => Err(e),
    }
}

/// Expands a root secret into a 32-byte key with HKDF-SHA-256 in expand-only
/// mode: the root already is uniformly random, so it stands as the
/// pseudo-random key. The label separates the uses of the root.
pub fn hkdf_expand(key: &SecretKey32, info: &[u8]) -> (r: Result<SecretKey32, CryptoError>)
    ensures
        r is Ok,
        secret_key_bytes(r->Ok_0) == expanded_key(secret_key_bytes(*key), info@),
{
    let mut okm = SecretKey32::from_bytes([0u8; 32]);
    match hkdf_sha256_expand_into(key, info, &mut okm) {
        Ok(()) => Ok(okm),
        Err(_) => Err(CryptoError::HkdfExpandInvalidLen),
    }
}

/// Derives the encryption key and the PRNG key from a root secret, under the
/// labels "enc" and "prng".
pub fn key_generation(root: &SecretKey32) -> (r: Result<Keys, CryptoError>)
    ensures
        r is Ok,
        secret_key_bytes(r->Ok_0.enc_key) == expanded_key(secret_key_bytes(*root), enc_label()),
        secret_key_bytes(r->Ok_0.prng_key) == expanded_key(secret_key_bytes(*root), prng_label()),
{
    let enc: [u8; 3] = [0x65, 0x6e, 0x63];
    let prng: [u8; 4] = [0x70, 0x72, 0x6e, 0x67];
    assert(enc@ == enc_label());
    assert(prng@ == prng_label());
    let enc_key = match hkdf_expand(root, enc.as_slice()) {
        Ok(k) => k,
        Err(e) => return Err(e),
    };
    let prng_key = match hkdf_expand(root, prng.as_slice()) {
        Ok(k) => k,
        Err(e) => return Err(e),
    };
    Ok(Keys { enc_key, prng_key })
}

/// Stretching is deterministic: two stretches of the same passphrase with the
/// same salt and the same costs give the same root secret, byte for byte.
pub proof fn lemma_stretch_deterministic(
    passphrase: Seq<u8>,
    salt: Seq<u8>,
    params: Argon2Params,
    root1: Seq<u8>,
    root2: Seq<u8>,
)
    requires
        root1 == stretched_root(passphrase, salt, params),
        root2 == stretched_root(passphrase, salt, params),
    ensures
        root1 == root2,
{
}

/// Expansion is deterministic: key generation run twice on the same root
/// secret gives the same encryption key and the same PRNG key.
pub proof fn lemma_key_generation_deterministic(root1: Seq<u8>, root2: Seq<u8>)
    requires
        root1 == root2,
    ensures
        expanded_key(root1, enc_label()) == expanded_key(root2, enc_label()),
        expanded_key(root1, prng_label()) == expanded_key(root2, prng_label()),
{
}

/// The two keys are expanded under distinct labels.
pub proof fn lemma_labels_distinct()
    ensures
        enc_label() != prng_label(),
{
    assert(enc_label().len() != prng_label().len());
}

/// A memory cost, a time cost or a parallelism of zero is refused.
pub proof fn lemma_zero_cost_rejected(params: Argon2Params)
    requires
        params.m_cost_kib == 0 || params.t_cost == 0 || params.p_cost == 0,
    ensures
        !params_valid(params),
{
}

} // verus!
