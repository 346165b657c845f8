//! The three primitives under every derivation: SHA-256, HMAC-SHA-256 and
//! scrypt. They are computed by the `sha2`, `hmac` and `scrypt` crates; what
//! the library relies on is stated here and is not proved.

use hmac::digest::InvalidLength;
use hmac::Mac;
use sha2::Digest;
use vstd::arithmetic::power2::pow2;
use vstd::prelude::*;

verus! {

/// The error with which the `hmac` crate refuses a key.
#[verifier::external_type_specification]
#[verifier::external_body]
pub struct ExInvalidLength(InvalidLength);

/// The SHA-256 digest of `data`.
pub uninterp spec fn sha256_digest(data: Seq<u8>) -> Seq<u8>;

/// The HMAC-SHA-256 tag of `data` under `key`.
pub uninterp spec fn hmac_sha256_tag(key: Seq<u8>, data: Seq<u8>) -> Seq<u8>;

/// The scrypt key of `len` bytes for a password and a salt, with the cost
/// `2^log_n`, the block size `r` and the parallelism `p`.
pub uninterp spec fn scrypt_key(
    password: Seq<u8>,
    salt: Seq<u8>,
    log_n: u8,
    r: u32,
    p: u32,
    len: nat,
) -> Seq<u8>;

/// The parameters that scrypt accepts: `r` and `p` are positive, the key has
/// 10 to 64 bytes, the working memory of `128 * r * 2^log_n` and of
/// `128 * r * p` bytes can be addressed, the cost stays under `2^(16 * r)`, and
/// `r * p` stays under `2^30`.
pub open spec fn scrypt_accepts(log_n: u8, r: u32, p: u32, len: usize) -> bool {
    &&& r > 0
    &&& p > 0
    &&& 10 <= len <= 64
    &&& log_n < usize::BITS
    &&& 128 * r * pow2(log_n as nat) <= usize::MAX
    &&& 128 * r * p <= usize::MAX
    &&& log_n < 16 * r
    &&& r * p < 0x4000_0000
}

/// `sha2::Sha256::digest`: the 32 bytes of the SHA-256 digest of `data`.
#[verifier::external_body]
pub(crate) fn sha256(data: &[u8]) -> (digest: [u8; 32])
    ensures
        digest@ == sha256_digest(data@),
{
    sha2::Sha256::digest(data).into()
}

/// `hmac::Hmac<sha2::Sha256>`, keyed with `new_from_slice`, fed with `update`
/// and closed with `finalize`: the 32 bytes of the HMAC-SHA-256 tag of `data`
/// under `key`. A key of any length is accepted: a long one is hashed first, a
/// short one is padded with zeros.
#[verifier::external_body]
pub(crate) fn hmac_sha256(key: &[u8], data: &[u8]) -> (tag: Result<Vec<u8>, InvalidLength>)
    ensures
        tag is Ok,
        tag matches Ok(bytes) ==> bytes@ == hmac_sha256_tag(key@, data@),
        tag matches Ok(bytes) ==> bytes@.len() == 32,
{
    let mut mac = hmac::Hmac::<sha2::Sha256>::new_from_slice(key)?;
    mac.update(data);
    Ok(mac.finalize().into_bytes().to_vec())
}

/// `scrypt::Params::new` and `scrypt::scrypt`: the scrypt key of `len` bytes.
/// The parameters are refused exactly when `scrypt_accepts` is false of them;
/// a key of 10 to 64 bytes is never refused for its length.
#[verifier::external_body]
pub(crate) fn scrypt(
    password: &[u8],
    salt: &[u8],
    log_n: u8,
    r: u32,
    p: u32,
    len: usize,
) -> (key: Option<Vec<u8>>)
    ensures
        key is Some <==> scrypt_accepts(log_n, r, p, len),
        key matches Some(bytes) ==> bytes@ == scrypt_key(password@, salt@, log_n, r, p, len as nat),
        key matches Some(bytes) ==> bytes@.len() == len,
{
    let params = match scrypt::Params::new(log_n, r, p, len) {
        Ok(params) => params,
        Err(_) => return None,
    };
    let mut key = vec![0u8; len];
    match scrypt::scrypt(password, salt, &params, &mut key) {
        Ok(()) => Some(key),
        Err(_) => None,
    }
}

} // verus!
