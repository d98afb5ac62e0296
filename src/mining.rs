//! The proof-of-work protocol: the acceptance rule for unsigned breeding
//! proposals, the replay guard built on a single nonce, and the pieces the
//! off-chain search is made of.
use vstd::prelude::*;
use rand_chacha::rand_core::{RngCore, SeedableRng};
use rand_chacha::ChaChaRng;
use crate::hashing::proof_hash_value;
use crate::pallet::{AccountId, Balance, KittyIndex};

verus! {

/// Attempts the off-chain search may spend on one cycle, pair selection and
/// hashing together.
pub const MAX_ITERATIONS: u128 = 500;

/// Generator words one search cycle takes: two for each pair attempt and
/// one for the solution prefix.
pub const SEARCH_DRAWS: usize = 1001;

/// How many blocks an accepted proposal stays valid for propagation.
pub const PROPOSAL_LONGEVITY: u64 = 64;

/// The calls of the pallet.
#[derive(Clone, Copy, Debug, PartialEq, Eq, Structural)]
pub enum Call {
    Create,
    Breed(KittyIndex, KittyIndex),
    Transfer(AccountId, KittyIndex),
    SetPrice(KittyIndex, Option<Balance>),
    Buy(AccountId, KittyIndex, Balance),
    /// An unsigned breeding proposal: both kitty ids, the nonce and the
    /// proof-of-work solution.
    AutoBreed(KittyIndex, KittyIndex, u32, u128),
}

/// How an accepted unsigned transaction is to be handled by the pool.
#[derive(Clone, Copy, Debug, PartialEq, Eq, Structural)]
pub struct ValidTransaction {
    /// Blocks for which the transaction stays valid.
    pub longevity: u64,
    /// Whether it is sent on to other nodes.
    pub propagate: bool,
}

/// Why an unsigned transaction is refused.
#[derive(Clone, Copy, Debug, PartialEq, Eq, Structural)]
pub enum InvalidTransaction {
    /// The proof-of-work hash is too large, or the nonce is not the current one.
    BadProof,
    /// The call may not be submitted unsigned.
    Call,
}

/// Hashes strictly below this value are accepted.
pub open spec fn acceptance_threshold(difficulty: u32) -> nat
    recommends
        difficulty > 0,
{
    u128::MAX as nat / difficulty as nat
}

pub open spec fn hash_accepted(hash_value: nat, difficulty: u32) -> bool {
    hash_value < acceptance_threshold(difficulty)
}

/// The proof-of-work check of a proposal.
pub open spec fn solution_accepted(id1: KittyIndex, id2: KittyIndex, nonce: u32, solution: u128, difficulty: u32) -> bool {
    hash_accepted(proof_hash_value(id1, id2, nonce, solution), difficulty)
}

/// What validating `call` against the current nonce yields.
pub open spec fn validation_outcome(current_nonce: u32, difficulty: u32, call: Call) -> Result<ValidTransaction, InvalidTransaction> {
    match call {
        Call::AutoBreed(id1, id2, nonce, solution) => {
            if solution_accepted(id1, id2, nonce, solution, difficulty) && nonce == current_nonce {
                Ok(ValidTransaction { longevity: PROPOSAL_LONGEVITY, propagate: true })
            } else {
                Err(InvalidTransaction::BadProof)
            }
        },
        _ => Err(InvalidTransaction::Call),
    }
}

/// The nonce after validating `call`: one more, saturating, if accepted.
pub open spec fn nonce_after(current_nonce: u32, difficulty: u32, call: Call) -> u32 {
    if validation_outcome(current_nonce, difficulty, call) is Ok {
        current_nonce.saturating_add(1)
    } else {
        current_nonce
    }
}

/// Whether a proof-of-work hash meets the difficulty.
pub fn hash_meets_difficulty(hash_value: u128, difficulty: u32) -> (r: bool)
    requires
        difficulty > 0,
    ensures
        r == hash_accepted(hash_value as nat, difficulty),
{
    hash_value < u128::MAX / difficulty as u128
}

/// Validating a proposal depends on the call, the current nonce and the
/// difficulty alone: equal inputs give equal outcomes and equal next nonces.
pub proof fn lemma_validation_is_deterministic(
    nonce1: u32,
    nonce2: u32,
    difficulty1: u32,
    difficulty2: u32,
    call1: Call,
    call2: Call,
)
    requires
        nonce1 == nonce2,
        difficulty1 == difficulty2,
        call1 == call2,
    ensures
        validation_outcome(nonce1, difficulty1, call1) == validation_outcome(nonce2, difficulty2, call2),
        nonce_after(nonce1, difficulty1, call1) == nonce_after(nonce2, difficulty2, call2),
{
}

/// Once a proposal carrying nonce `n` is accepted, the nonce becomes `n + 1`
/// and every proposal that carries `n` is refused from then on.
pub proof fn lemma_accepted_nonce_cannot_be_replayed(
    current_nonce: u32,
    difficulty: u32,
    accepted: Call,
    replay: Call,
)
    requires
        difficulty > 0,
        current_nonce < u32::MAX,
        validation_outcome(current_nonce, difficulty, accepted) is Ok,
        replay matches Call::AutoBreed(_, _, n, _) && n == current_nonce,
    ensures
        accepted matches Call::AutoBreed(_, _, n, _) && n == current_nonce,
        nonce_after(current_nonce, difficulty, accepted) == current_nonce + 1,
        validation_outcome(nonce_after(current_nonce, difficulty, accepted), difficulty, replay)
            == Err::<ValidTransaction, InvalidTransaction>(InvalidTransaction::BadProof),
{
}

/// The nonce never decreases.
pub proof fn lemma_nonce_never_decreases(current_nonce: u32, difficulty: u32, call: Call)
    ensures
        nonce_after(current_nonce, difficulty, call) >= current_nonce,
{
}

/// With difficulty 1 every hash but the largest 128-bit value is accepted.
pub proof fn lemma_difficulty_one_accepts_every_hash(hash_value: nat)
    requires
        hash_value < u128::MAX,
    ensures
        hash_accepted(hash_value, 1),
{
}

/// A higher difficulty accepts only hashes that a lower one accepts too.
pub proof fn lemma_higher_difficulty_accepts_fewer(hash_value: nat, easier: u32, harder: u32)
    requires
        0 < easier <= harder,
        hash_accepted(hash_value, harder),
    ensures
        hash_accepted(hash_value, easier),
{
    assert(u128::MAX as nat / harder as nat <= u128::MAX as nat / easier as nat) by (nonlinear_arith)
        requires
            0 < easier <= harder,
    ;
}

/// With the largest difficulty only hashes below about `2^96` pass: about
/// one in `2^32`.
pub proof fn lemma_largest_difficulty_threshold()
    ensures
        acceptance_threshold(u32::MAX) == 0x1_0000_0001_0000_0001_0000_0001nat,
{
    assert(u128::MAX as nat / u32::MAX as nat == 0x1_0000_0001_0000_0001_0000_0001nat) by (
    nonlinear_arith);
}

/// A node-local lock that keeps two searches of the same node from running
/// at once. It expires on its own one block after it was taken.
pub struct WorkerLock {
    held_until: Option<u64>,
}

impl View for WorkerLock {
    /// The block until which the lock is held, if it is.
    type V = Option<u64>;

    closed spec fn view(&self) -> Option<u64> {
        self.held_until
    }
}

impl WorkerLock {
    pub open spec fn is_free_at(self, block: u64) -> bool {
        match self@ {
            Some(until) => block >= until,
            None => true,
        }
    }

    pub fn new() -> (r: WorkerLock)
        ensures
            r@ is None,
    {
        WorkerLock { held_until: None }
    }

    /// Takes the lock at `block` if it is free or expired; never waits.
    pub fn try_lock(&mut self, block: u64) -> (r: bool)
        ensures
            r == old(self).is_free_at(block),
            r ==> final(self)@ == Some(block.saturating_add(1)),
            !r ==> *final(self) == *old(self),
    {
        let free = match self.held_until {
            Some(until) => block >= until,
            None => true,
        };
        if free {
            self.held_until = Some(block.saturating_add(1));
        }
        free
    }

    /// Releases the lock.
    pub fn unlock(&mut self)
        ensures
            final(self)@ is None,
    {
        self.held_until = None;
    }
}

/// Declares rand_chacha's `ChaChaRng` (the ChaCha20 generator), held opaque.
#[verifier::external_type_specification]
#[verifier::external_body]
pub struct ExChaChaRng(ChaChaRng);

/// Relies on rand_chacha's `SeedableRng::from_seed` for `ChaChaRng`: makes a
/// generator from a 32-byte seed.
#[verifier::external_body]
pub(crate) fn rng_from_seed(seed: [u8; 32]) -> ChaChaRng {
    ChaChaRng::from_seed(seed)
}

/// Relies on rand_chacha's `RngCore::next_u32` for `ChaChaRng`: the next
/// 32-bit output; nothing is assumed of its value.
#[verifier::external_body]
pub(crate) fn rng_next_u32(rng: &mut ChaChaRng) -> u32 {
    rng.next_u32()
}

} // verus!
