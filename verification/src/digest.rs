//! SHA-256, as the runtime computes it.

use anchor_lang::solana_program::hash::hash;
use vstd::prelude::*;

verus! {

/// The SHA-256 digest of a byte string.
pub uninterp spec fn sha256(bytes: Seq<u8>) -> Seq<u8>;

/// Calls `anchor_lang::solana_program::hash::hash`.
///
/// Trusted: the result is the SHA-256 digest of the argument, which depends
/// on nothing else, and has 32 bytes.
#[verifier::external_body]
pub(crate) fn sha256_digest(bytes: &Vec<u8>) -> (digest: Vec<u8>)
    ensures
        digest@ == sha256(bytes@),
        digest@.len() == 32,
{
    hash(bytes.as_slice()).to_bytes().to_vec()
}

} // verus!
