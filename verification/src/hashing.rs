//! The hash functions the pallets call.
use vstd::prelude::*;
use sha3::{Digest, Sha3_256};

verus! {

/// What Blake2b-256 gives for `data`.
pub uninterp spec fn blake2_256_of(data: Seq<u8>) -> Seq<u8>;

/// What Blake2b-128 gives for `data`.
pub uninterp spec fn blake2_128_of(data: Seq<u8>) -> Seq<u8>;

/// What SHA3-256 gives for `data`.
pub uninterp spec fn sha3_256_of(data: Seq<u8>) -> Seq<u8>;

/// `sp_crypto_hashing::blake2_256`: the 32-byte Blake2b hash of `data`, a
/// function of `data` alone.
#[verifier::external_body]
pub fn blake2_256(data: &[u8]) -> (r: [u8; 32])
    ensures
        r@ == blake2_256_of(data@),
{
    sp_crypto_hashing::blake2_256(data)
}

/// `sp_crypto_hashing::blake2_128`: the 16-byte Blake2b hash of `data`, a
/// function of `data` alone.
#[verifier::external_body]
pub fn blake2_128(data: &[u8]) -> (r: [u8; 16])
    ensures
        r@ == blake2_128_of(data@),
{
    sp_crypto_hashing::blake2_128(data)
}

/// `sha3::Sha3_256::digest`: the 32-byte SHA3-256 digest of `data`, a function
/// of `data` alone.
#[verifier::external_body]
pub fn sha3_256(data: &[u8]) -> (r: [u8; 32])
    ensures
        r@ == sha3_256_of(data@),
{
    let digest = Sha3_256::digest(data);
    let mut out = [0u8; 32];
    out.copy_from_slice(digest.as_slice());
    out
}

} // verus!
