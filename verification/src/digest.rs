//! SHA-256, as the `sha2` crate computes it.
use vstd::prelude::*;
use sha2::Digest;

verus! {

/// The SHA-256 digest (FIPS 180-4) of a byte string.
pub uninterp spec fn sha256(data: Seq<u8>) -> Seq<u8>;

/// Trusted: calls `sha2::Sha256::digest` (the one-shot method of the
/// `digest::Digest` trait) and returns its 32-byte output. The contract claims
/// only that the output is the SHA-256 digest of `data`, a function of `data`
/// alone.
#[verifier::external_body]
pub(crate) fn sha256_digest(data: &[u8]) -> (digest: [u8; 32])
    ensures
        digest@ == sha256(data@),
{
    sha2::Sha256::digest(data).into()
}

/// SHA-256 of `input`.
pub fn sha256_of(input: &[u8]) -> (digest: [u8; 32])
    ensures
        digest@ == sha256(input@),
{
    sha256_digest(input)
}

} // verus!
