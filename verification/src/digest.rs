//! Hash functions and byte comparison, provided by the `sha1`, `sha2` and
//! `constant_time_eq` crates.
use sha2::Digest;
use vstd::prelude::*;

verus! {

/// The SHA-1 digest of a byte string (what `sha1::Sha1::digest` returns).
pub uninterp spec fn sha1_spec(data: Seq<u8>) -> Seq<u8>;

/// The SHA-256 digest of a byte string (what `sha2::Sha256::digest` returns).
pub uninterp spec fn sha256_spec(data: Seq<u8>) -> Seq<u8>;

/// `sha1::Sha1::digest`: the 20-byte SHA-1 digest of `data`.
/// Trusted: the result is the crate's digest of `data`, 20 bytes long.
#[verifier::external_body]
pub(crate) fn sha1_digest(data: &[u8]) -> (r: Vec<u8>)
    ensures
        r@ == sha1_spec(data@),
        r@.len() == 20,
{
    sha1::Sha1::digest(data).to_vec()
}

/// `sha2::Sha256::digest`: the 32-byte SHA-256 digest of `data`.
/// Trusted: the result is the crate's digest of `data`, 32 bytes long.
#[verifier::external_body]
pub(crate) fn sha256_digest(data: &[u8]) -> (r: Vec<u8>)
    ensures
        r@ == sha256_spec(data@),
        r@.len() == 32,
{
    sha2::Sha256::digest(data).to_vec()
}

/// `constant_time_eq::constant_time_eq`: whether two byte strings are equal,
/// compared in time that does not depend on where they differ.
/// Trusted: the crate returns `a.len() == b.len()` and no differing byte.
#[verifier::external_body]
pub(crate) fn bytes_eq_constant_time(a: &[u8], b: &[u8]) -> (r: bool)
    ensures
        r == (a@ == b@),
{
    constant_time_eq::constant_time_eq(a, b)
}

} // verus!
