//! The commitment hash.
use vstd::prelude::*;

verus! {

/// The SHA-256 digest of a byte string.
pub uninterp spec fn sha256_of(data: Seq<u8>) -> Seq<u8>;

/// Relies on solana_program::hash::hash: the SHA-256 digest of the given
/// bytes, a function of those bytes alone.
#[verifier::external_body]
pub(crate) fn sha256(data: &[u8; 32]) -> (r: [u8; 32])
    ensures
        r@ == sha256_of(data@),
{
    solana_program::hash::hash(data).to_bytes()
}

/// The commitment to publish for a secret: its SHA-256 digest.
pub fn commitment_of(secret: &[u8; 32]) -> (r: [u8; 32])
    ensures
        r@ == sha256_of(secret@),
{
    sha256(secret)
}

} // verus!
