//! The 128-bit Blake2 digests behind genome generation and proof-of-work.
use vstd::prelude::*;
use crate::codec::{le_bytes, le_value, option_u32_bytes, push_le, push_option_u32, u128_from_le};

verus! {

/// The 128-bit Blake2 digest of `data`.
pub uninterp spec fn blake2_128_of(data: Seq<u8>) -> Seq<u8>;

/// Relies on `sp_io::hashing::blake2_128`: a 16-byte digest that depends on
/// the input bytes alone.
#[verifier::external_body]
fn blake2_128(data: &[u8]) -> (r: [u8; 16])
    ensures
        r@ == blake2_128_of(data@),
{
    sp_io::hashing::blake2_128(data)
}

/// Bytes hashed to draw a fresh genome or selector: the chain's random seed,
/// the account, and the index of the current extrinsic.
pub open spec fn seed_payload_bytes(seed: Seq<u8>, account: u64, extrinsic_index: Option<u32>) -> Seq<u8> {
    seed + le_bytes(account as nat, 8) + option_u32_bytes(extrinsic_index)
}

/// Bytes hashed to check a proof-of-work: both kitty ids, the nonce and the
/// solution.
pub open spec fn proof_payload_bytes(id1: u32, id2: u32, nonce: u32, solution: u128) -> Seq<u8> {
    le_bytes(id1 as nat, 4) + le_bytes(id2 as nat, 4) + le_bytes(nonce as nat, 4) + le_bytes(
        solution as nat,
        16,
    )
}

/// The 128-bit value drawn for `account` from the chain's randomness.
pub open spec fn random_value_of(seed: Seq<u8>, account: u64, extrinsic_index: Option<u32>) -> Seq<u8> {
    blake2_128_of(seed_payload_bytes(seed, account, extrinsic_index))
}

/// The proof-of-work hash of a proposal, read as a little-endian integer.
pub open spec fn proof_hash_value(id1: u32, id2: u32, nonce: u32, solution: u128) -> nat {
    le_value(blake2_128_of(proof_payload_bytes(id1, id2, nonce, solution)))
}

/// Hashes the chain's random seed together with an account and the
/// extrinsic index.
pub fn random_value(seed: &[u8; 32], account: u64, extrinsic_index: Option<u32>) -> (r: [u8; 16])
    ensures
        r@ == random_value_of(seed@, account, extrinsic_index),
{
    let mut payload: Vec<u8> = Vec::new();
    let mut i: usize = 0;
    while i < 32
        invariant
            i <= 32,
            seed@.len() == 32,
            payload@ == seed@.subrange(0, i as int),
        decreases 32 - i,
    {
        payload.push(seed[i]);
        assert(payload@ =~= seed@.subrange(0, i + 1));
        i = i + 1;
    }
    assert(payload@ =~= seed@);
    push_le(&mut payload, account as u128, 8);
    push_option_u32(&mut payload, extrinsic_index);
    blake2_128(payload.as_slice())
}

/// The proof-of-work hash of a proposal, as an integer.
pub fn proof_hash(id1: u32, id2: u32, nonce: u32, solution: u128) -> (r: u128)
    ensures
        r as nat == proof_hash_value(id1, id2, nonce, solution),
{
    let mut payload: Vec<u8> = Vec::new();
    push_le(&mut payload, id1 as u128, 4);
    push_le(&mut payload, id2 as u128, 4);
    push_le(&mut payload, nonce as u128, 4);
    push_le(&mut payload, solution, 16);
    assert(payload@ =~= proof_payload_bytes(id1, id2, nonce, solution));
    let hash = blake2_128(payload.as_slice());
    u128_from_le(&hash)
}

} // verus!
