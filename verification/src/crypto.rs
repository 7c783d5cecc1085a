//! Trusted cryptographic primitives.
//!
//! The three operations here are pure functions of their arguments whose
//! definitions are out of scope for this crate; each result is given an
//! uninterpreted name that the callers' contracts are stated over.

use vstd::prelude::*;

use sha2::Digest;

verus! {

/// The SHA-256 digest of a byte sequence.
pub uninterp spec fn sha256_of(m: Seq<u8>) -> Seq<u8>;

/// The Keccak-256 digest of a byte sequence.
pub uninterp spec fn keccak_of(m: Seq<u8>) -> Seq<u8>;

/// Whether `sig` is a valid RSASSA-PKCS1-v1_5 signature over `msg` with
/// SHA-256, under the RSA public key with big-endian modulus `n` and
/// exponent `e`.  False whenever `n` and `e` do not form a usable key.
pub uninterp spec fn rs256_verifies(n: Seq<u8>, e: Seq<u8>, msg: Seq<u8>, sig: Seq<u8>) -> bool;

/// Relies on sha2's `Sha256`: the digest depends on the input bytes alone
/// and is 32 bytes long.
#[verifier::external_body]
pub fn sha256(m: &[u8]) -> (r: Vec<u8>)
    ensures
        r@ == sha256_of(m@),
        r@.len() == 32,
{
    sha2::Sha256::digest(m).to_vec()
}

/// Relies on alloy_primitives's `keccak256`: the digest depends on the
/// input bytes alone and is 32 bytes long.
#[verifier::external_body]
pub fn keccak256(m: &[u8]) -> (r: Vec<u8>)
    ensures
        r@ == keccak_of(m@),
        r@.len() == 32,
{
    alloy_primitives::keccak256(m).to_vec()
}

/// Relies on rsa's `RsaPublicKey::new` and `verify` with `Pkcs1v15Sign`
/// over a sha2 digest: whether the signature verifies depends on the four
/// arguments alone; a modulus or exponent that `new` refuses verifies
/// nothing.
#[verifier::external_body]
pub fn rs256_verify(n: &[u8], e: &[u8], msg: &[u8], sig: &[u8]) -> (r: bool)
    ensures
        r == rs256_verifies(n@, e@, msg@, sig@),
{
    let n = rsa::BigUint::from_bytes_be(n);
    let e = rsa::BigUint::from_bytes_be(e);
    match rsa::RsaPublicKey::new(n, e) {
        Ok(key) => {
            let digest = sha2::Sha256::digest(msg);
            key.verify(rsa::Pkcs1v15Sign::new::<sha2::Sha256>(), &digest, sig).is_ok()
        },
        Err(_) => false,
    }
}

} // verus!
