//! The hash functions that name a record by its content.

use vstd::prelude::*;
use crate::types::{Digest, Hashing};

verus! {

/// The BLAKE2b digest of `data`, 256 bits wide, as 32 bytes.
pub uninterp spec fn blake2_256(data: Seq<u8>) -> Seq<u8>;

/// The Keccak digest of `data`, 256 bits wide, as 32 bytes.
pub uninterp spec fn keccak_256(data: Seq<u8>) -> Seq<u8>;

/// The digest that `hashing` gives `data`.
pub open spec fn digest_of(hashing: Hashing, data: Seq<u8>) -> Seq<u8> {
    match hashing {
        Hashing::BlakeTwo256 => blake2_256(data),
        Hashing::Keccak256 => keccak_256(data),
    }
}

/// Hashes `data` with BLAKE2b-256.
///
/// Trusted: calls `hash` of `sp_core::Blake2Hasher` and takes the 32 bytes
/// out of the `H256` it returns. The digest depends on the bytes of `data`
/// alone, which is all the contract claims: it gives that digest its name.
#[verifier::external_body]
fn hash_blake2_256(data: &[u8]) -> (digest: Digest)
    ensures
        digest@ == blake2_256(data@),
{
    <sp_core::Blake2Hasher as sp_core::Hasher>::hash(data).0
}

/// Hashes `data` with Keccak-256.
///
/// Trusted: calls `hash` of `sp_core::KeccakHasher` and takes the 32 bytes
/// out of the `H256` it returns. The digest depends on the bytes of `data`
/// alone, which is all the contract claims: it gives that digest its name.
#[verifier::external_body]
fn hash_keccak_256(data: &[u8]) -> (digest: Digest)
    ensures
        digest@ == keccak_256(data@),
{
    <sp_core::KeccakHasher as sp_core::Hasher>::hash(data).0
}

/// Hashes `data` with the function that `hashing` names.
pub fn digest(hashing: Hashing, data: &[u8]) -> (digest: Digest)
    ensures
        digest@ == digest_of(hashing, data@),
{
    match hashing {
        Hashing::BlakeTwo256 => hash_blake2_256(data),
        Hashing::Keccak256 => hash_keccak_256(data),
    }
}

} // verus!
