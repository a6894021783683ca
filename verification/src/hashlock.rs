//! Checking a candidate secret against a stored commitment.

use vstd::prelude::*;
use crate::bytes::{array_of, lemma_array_of, same_bytes, to_array};
use crate::types::EscrowError;

verus! {

/// The SHA-256 digest of a byte string, as the ledger host computes it.
pub uninterp spec fn sha256_of(data: Seq<u8>) -> Seq<u8>;

/// A secret of the required width together with its digest.
#[derive(Clone, Copy, Debug, PartialEq, Eq)]
pub struct Preimage {
    pub secret: [u8; 32],
    pub digest: [u8; 32],
}

/// What the candidate `secret` yields: nothing when it does not have
/// the digest's input width, else the secret with its digest.
pub open spec fn preimage_of(secret: Seq<u8>) -> Option<Preimage> {
    if secret.len() == 32 {
        Some(Preimage { secret: array_of(secret), digest: array_of(sha256_of(secret)) })
    } else {
        None
    }
}

/// What verifying `secret` against `hashlock` yields.
pub open spec fn verified(secret: Seq<u8>, hashlock: [u8; 32]) -> Result<bool, EscrowError> {
    match preimage_of(secret) {
        Some(p) => Ok(p.digest == hashlock),
        None => Err(EscrowError::InvalidSecret),
    }
}

/// Calls `soroban_sdk::crypto::Crypto::sha256` on a host environment made
/// with `soroban_sdk::Env::default`, handing the bytes over with
/// `soroban_sdk::Bytes::from_array` and taking the digest back with
/// `soroban_sdk::BytesN::to_array`.
///
/// Not proved, but taken from the host: the result is the SHA-256 digest of
/// the thirty-two input bytes and depends on those bytes alone. The input
/// width is fixed, so the cost that the host meters for the call stays far
/// below the budget of a fresh environment and the call does not fail.
#[verifier::external_body]
fn host_sha256(data: &[u8; 32]) -> (out: [u8; 32])
    ensures
        out@ == sha256_of(data@),
{
    let env = soroban_sdk::Env::default();
    let input = soroban_sdk::Bytes::from_array(&env, data);
    env.crypto().sha256(&input).to_array()
}

/// The digest of a secret of the required width.
pub fn digest(secret: &[u8; 32]) -> (out: [u8; 32])
    ensures
        out@ == sha256_of(secret@),
        out == array_of(sha256_of(secret@)),
{
    let out = host_sha256(secret);
    proof {
        lemma_array_of(out);
    }
    out
}

/// True exactly when `digest` equals `hashlock` in every bit.
pub fn digest_matches(digest: &[u8; 32], hashlock: &[u8; 32]) -> (r: bool)
    ensures
        r == (digest@ == hashlock@),
        r == (*digest == *hashlock),
{
    same_bytes(digest, hashlock)
}

/// Takes a candidate secret of any length and, where it has the required
/// width, computes its digest.
pub fn preimage(secret: &[u8]) -> (r: Option<Preimage>)
    ensures
        r == preimage_of(secret@),
        r matches Some(p) ==> p.secret@ == secret@ && p.digest@ == sha256_of(secret@),
{
    match to_array(secret) {
        Some(fixed) => {
            let hashed = digest(&fixed);
            Some(Preimage { secret: fixed, digest: hashed })
        },
        None => None,
    }
}

/// Checks `secret` against `hashlock`: `Ok(true)` exactly when the digest of
/// the secret equals the hashlock bit for bit, `Ok(false)` when it differs,
/// and `InvalidSecret` when the secret does not have the required width.
pub fn verify(secret: &[u8], hashlock: &[u8; 32]) -> (r: Result<bool, EscrowError>)
    ensures
        r == verified(secret@, *hashlock),
        secret@.len() != 32 <==> r == Err::<bool, EscrowError>(EscrowError::InvalidSecret),
        secret@.len() == 32 ==> r == Ok::<bool, EscrowError>(sha256_of(secret@) == hashlock@),
{
    match preimage(secret) {
        Some(p) => Ok(digest_matches(&p.digest, hashlock)),
        None => Err(EscrowError::InvalidSecret),
    }
}

} // verus!
