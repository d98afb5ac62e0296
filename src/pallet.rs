//! The kitties registry: creation, breeding, transfers and the marketplace,
//! over an explicit state that holds the asset store, the price list, the
//! currency ledger and the mining nonce.
use vstd::prelude::*;
use std::collections::HashMap;
use crate::genome::{combine, gender_of, mixed_byte, mixed_genome, Kitty};
use crate::hashing::{proof_hash, random_value, random_value_of};
use crate::mining::{
    hash_meets_difficulty, nonce_after, rng_from_seed, rng_next_u32, solution_accepted,
    validation_outcome, Call, InvalidTransaction, ValidTransaction, WorkerLock, MAX_ITERATIONS,
    PROPOSAL_LONGEVITY, SEARCH_DRAWS,
};

verus! {

broadcast use vstd::std_specs::hash::group_hash_axioms;

pub type AccountId = u64;

pub type KittyIndex = u32;

pub type Balance = u64;

/// A token of the asset store: its owner and its genome.
#[derive(Clone, Copy, Debug, PartialEq, Eq)]
pub struct TokenInfo {
    pub owner: AccountId,
    pub data: Kitty,
}

/// Notifications emitted by state-changing calls.
#[derive(Clone, Copy, Debug, PartialEq, Eq)]
pub enum Event {
    /// A kitty is created: owner, kitty id, kitty.
    KittyCreated(AccountId, KittyIndex, Kitty),
    /// A new kitten is bred: owner, kitty id, kitty.
    KittyBred(AccountId, KittyIndex, Kitty),
    /// A kitty is transferred: from, to, kitty id.
    KittyTransferred(AccountId, AccountId, KittyIndex),
    /// The price of a kitty is updated: owner, kitty id, price.
    KittyPriceUpdated(AccountId, KittyIndex, Option<Balance>),
    /// A kitty is sold: old owner, new owner, kitty id, price.
    KittySold(AccountId, AccountId, KittyIndex, Balance),
}

/// Why a call failed. A failed call changes nothing.
#[derive(Clone, Copy, Debug, PartialEq, Eq, Structural)]
pub enum Error {
    /// A referenced kitty does not exist or is not owned by the expected account.
    InvalidKittyId,
    /// The two parents have the same gender.
    SameGender,
    /// The caller does not own the kitty.
    NotOwner,
    /// The kitty has no price.
    NotForSale,
    /// The offered maximum is below the price.
    PriceTooLow,
    /// Buyer and seller are the same account.
    BuyFromSelf,
    /// A mining proposal fails its hash or nonce check.
    BadProof,
    /// The asset store holds no token with that id.
    TokenNotFound,
    /// The account does not own the token.
    NoPermission,
    /// No further kitty id can be allocated, or a balance would overflow.
    ArithmeticOverflow,
    /// The payer's balance is below the amount.
    InsufficientBalance,
    /// The payment would leave the payer below the existential deposit.
    KeepAlive,
    /// The payee would hold less than the existential deposit.
    ExistentialDeposit,
}

/// Constants that configure the pallet.
#[derive(Clone, Copy, Debug, PartialEq, Eq)]
pub struct Config {
    /// Proof-of-work difficulty: a proof is accepted with probability about
    /// `1 / difficulty`.
    pub difficulty: u32,
    /// Minimum balance that a payer must keep.
    pub existential_deposit: Balance,
}

/// Initial balances of the currency ledger.
pub struct GenesisConfig {
    pub balances: Vec<(AccountId, Balance)>,
}

/// The mathematical model of the pallet's state.
pub struct KittiesState {
    /// Token `i` of the asset store is the kitty with id `i`.
    pub tokens: Seq<TokenInfo>,
    /// Listings: kitty id to price.
    pub prices: Map<KittyIndex, Balance>,
    /// The mining nonce.
    pub nonce: u32,
    pub difficulty: u32,
    /// Free balances; an absent account holds zero.
    pub balances: Map<AccountId, Balance>,
    pub existential_deposit: Balance,
    /// The chain's current random seed.
    pub random_seed: Seq<u8>,
    /// Index of the extrinsic being applied, if any.
    pub extrinsic_index: Option<u32>,
    pub events: Seq<Event>,
}

impl KittiesState {
    pub open spec fn wf(self) -> bool {
        &&& self.tokens.len() <= u32::MAX
        &&& self.difficulty > 0
        &&& self.random_seed.len() == 32
        &&& forall|id: KittyIndex| #[trigger] self.prices.contains_key(id) ==> id < self.tokens.len()
    }

    pub open spec fn has_kitty(self, id: KittyIndex) -> bool {
        id < self.tokens.len()
    }

    pub open spec fn owns(self, who: AccountId, id: KittyIndex) -> bool {
        id < self.tokens.len() && self.tokens[id as int].owner == who
    }

    pub open spec fn dna_of(self, id: KittyIndex) -> Seq<u8> {
        self.tokens[id as int].data.dna()
    }

    pub open spec fn balance(self, who: AccountId) -> Balance {
        balance_in(self.balances, who)
    }

    /// The value drawn for `who` from the chain's randomness.
    pub open spec fn random_for(self, who: AccountId) -> Seq<u8> {
        random_value_of(self.random_seed, who, self.extrinsic_index)
    }

    /// `new` is `self` with one kitty of genome `dna` minted to `owner`, and
    /// the matching notification.
    pub open spec fn minted_kitty(self, new: KittiesState, owner: AccountId, dna: Seq<u8>, bred: bool) -> bool {
        let id = self.tokens.len();
        let kitty = new.tokens[id as int].data;
        let event = if bred {
            Event::KittyBred(owner, id as KittyIndex, kitty)
        } else {
            Event::KittyCreated(owner, id as KittyIndex, kitty)
        };
        &&& new.tokens.len() == id + 1
        &&& new.tokens.subrange(0, id as int) == self.tokens
        &&& new.tokens[id as int].owner == owner
        &&& kitty.dna() == dna
        &&& new.events == self.events.push(event)
        &&& new == (KittiesState { tokens: new.tokens, events: new.events, ..self })
    }

    /// `self` with kitty `id` handed to `to`.
    pub open spec fn with_owner(self, id: KittyIndex, to: AccountId) -> Seq<TokenInfo> {
        self.tokens.update(id as int, TokenInfo { owner: to, data: self.tokens[id as int].data })
    }

    /// The error, if any, of paying `value` from `from` to `to`, keeping the
    /// payer alive.
    pub open spec fn payment_error(self, from: AccountId, to: AccountId, value: Balance) -> Option<Error> {
        let ed = self.existential_deposit;
        if value == 0 || from == to {
            None
        } else if value > self.balance(from) {
            Some(Error::InsufficientBalance)
        } else if self.balance(to) + value > u64::MAX {
            Some(Error::ArithmeticOverflow)
        } else if self.balance(to) + value < ed {
            Some(Error::ExistentialDeposit)
        } else if self.balance(from) - value < ed {
            Some(Error::KeepAlive)
        } else {
            None
        }
    }

    /// Balances after paying `value` from `from` to `to`.
    pub open spec fn paid(self, from: AccountId, to: AccountId, value: Balance) -> Map<AccountId, Balance> {
        if value == 0 || from == to {
            self.balances
        } else {
            self.balances.insert(from, (self.balance(from) - value) as Balance).insert(
                to,
                (self.balance(to) + value) as Balance,
            )
        }
    }

    /// Executing an accepted breeding proposal for kitties `id1` and `id2`
    /// takes `self` to `new` with result `r`: the offspring goes to the owner
    /// of `id1`.
    pub open spec fn proposal_breeding(self, new: KittiesState, id1: KittyIndex, id2: KittyIndex, r: Result<(), Error>) -> bool {
        if !(self.has_kitty(id1) && self.has_kitty(id2)) {
            r == Err::<(), Error>(Error::InvalidKittyId) && new == self
        } else if gender_of(self.dna_of(id1)) == gender_of(self.dna_of(id2)) {
            r == Err::<(), Error>(Error::SameGender) && new == self
        } else if self.tokens.len() == u32::MAX {
            r == Err::<(), Error>(Error::ArithmeticOverflow) && new == self
        } else {
            let owner = self.tokens[id1 as int].owner;
            r is Ok && self.minted_kitty(
                new,
                owner,
                mixed_genome(self.dna_of(id1), self.dna_of(id2), self.random_for(owner)),
                true,
            )
        }
    }

    /// A proposal that the search may hand out: two existing kitties of
    /// different gender, the current nonce, and a solution that meets the
    /// difficulty and is the first one that does under its prefix.
    pub open spec fn is_acceptable_proposal(self, call: Call) -> bool {
        match call {
            Call::AutoBreed(id1, id2, nonce, solution) => {
                &&& self.has_kitty(id1)
                &&& self.has_kitty(id2)
                &&& gender_of(self.dna_of(id1)) != gender_of(self.dna_of(id2))
                &&& nonce == self.nonce
                &&& solution_accepted(id1, id2, nonce, solution, self.difficulty)
                &&& (solution % 0x1_0000_0000) < MAX_ITERATIONS
                &&& forall|j: u128|
                    j < solution % 0x1_0000_0000 ==> !#[trigger] solution_accepted(
                        id1,
                        id2,
                        nonce,
                        ((solution / 0x1_0000_0000) * 0x1_0000_0000 + j) as u128,
                        self.difficulty,
                    )
            },
            _ => false,
        }
    }

    /// The pair that two generator draws pick: each draw modulo the kitty
    /// count. A pair of equal gender is no pair.
    pub open spec fn pair_of(self, draw1: u32, draw2: u32) -> Option<(KittyIndex, KittyIndex)> {
        if self.tokens.len() == 0 {
            None
        } else {
            let id1 = (draw1 as int % self.tokens.len() as int) as KittyIndex;
            let id2 = (draw2 as int % self.tokens.len() as int) as KittyIndex;
            if gender_of(self.dna_of(id1)) != gender_of(self.dna_of(id2)) {
                Some((id1, id2))
            } else {
                None
            }
        }
    }

    /// The pair picked by attempt `k`, from draws `2k` and `2k + 1`.
    pub open spec fn pair_at(self, draws: Seq<u32>, k: int) -> Option<(KittyIndex, KittyIndex)> {
        self.pair_of(draws[2 * k], draws[2 * k + 1])
    }

    /// `r` is the first of the solutions `prefix * 2^32 + i`, for `i` below
    /// `budget`, that meets the difficulty, or `None` if none does.
    pub open spec fn first_solution(
        self,
        id1: KittyIndex,
        id2: KittyIndex,
        nonce: u32,
        prefix: u32,
        budget: u128,
        r: Option<u128>,
    ) -> bool {
        match r {
            Some(solution) => {
                &&& solution / 0x1_0000_0000 == prefix
                &&& solution % 0x1_0000_0000 < budget
                &&& solution_accepted(id1, id2, nonce, solution, self.difficulty)
                &&& forall|j: u128|
                    j < solution % 0x1_0000_0000 ==> !#[trigger] solution_accepted(
                        id1,
                        id2,
                        nonce,
                        (prefix * 0x1_0000_0000 + j) as u128,
                        self.difficulty,
                    )
            },
            None => forall|j: u128|
                j < budget ==> !#[trigger] solution_accepted(
                    id1,
                    id2,
                    nonce,
                    (prefix * 0x1_0000_0000 + j) as u128,
                    self.difficulty,
                ),
        }
    }

    /// After the pair of attempt `m`, the search takes draw `2m + 2` as the
    /// prefix and spends the attempts left, `MAX_ITERATIONS - m`, on
    /// solutions under it.
    pub open spec fn searched_from(self, draws: Seq<u32>, m: int, r: Result<Option<Call>, ()>) -> bool {
        match self.pair_at(draws, m) {
            Some((id1, id2)) => {
                let prefix = draws[2 * m + 2];
                let budget = (MAX_ITERATIONS - m) as u128;
                match r {
                    Ok(Some(call)) => match call {
                        Call::AutoBreed(a, b, n, solution) => {
                            &&& a == id1
                            &&& b == id2
                            &&& n == self.nonce
                            &&& self.first_solution(id1, id2, n, prefix, budget, Some(solution))
                        },
                        _ => false,
                    },
                    Ok(None) => self.first_solution(id1, id2, self.nonce, prefix, budget, None),
                    Err(()) => false,
                }
            },
            None => false,
        }
    }

    /// The outcome of one search cycle over the generator words `draws`:
    /// nothing to breed without kitties; `Err(())` if none of the
    /// `MAX_ITERATIONS` attempts picks a pair of different gender; else the
    /// first such attempt decides the pair and the search goes on from it.
    pub open spec fn search_outcome(self, draws: Seq<u32>, r: Result<Option<Call>, ()>) -> bool {
        if self.tokens.len() == 0 {
            r == Ok::<Option<Call>, ()>(None)
        } else if forall|k: int| 0 <= k < MAX_ITERATIONS ==> #[trigger] self.pair_at(draws, k) is None {
            r == Err::<Option<Call>, ()>(())
        } else {
            exists|m: int|
                #![trigger self.pair_at(draws, m)]
                0 <= m < MAX_ITERATIONS && self.pair_at(draws, m) is Some && (forall|k: int|
                    0 <= k < m ==> #[trigger] self.pair_at(draws, k) is None) && self.searched_from(
                    draws,
                    m,
                    r,
                )
        }
    }

    /// The error, if any, of `buyer` buying kitty `id` from `seller`.
    pub open spec fn buy_error(self, buyer: AccountId, seller: AccountId, id: KittyIndex, max_price: Balance) -> Option<Error> {
        if buyer == seller {
            Some(Error::BuyFromSelf)
        } else if !self.prices.contains_key(id) {
            Some(Error::NotForSale)
        } else if max_price < self.prices[id] {
            Some(Error::PriceTooLow)
        } else if !self.has_kitty(id) {
            Some(Error::TokenNotFound)
        } else if !self.owns(seller, id) {
            Some(Error::NoPermission)
        } else {
            self.payment_error(buyer, seller, self.prices[id])
        }
    }
}

/// A bred kitty's genome is fixed byte by byte by its parents and the
/// selector drawn for the owner: each byte is `combine_dna` of the parents'
/// bytes under the selector byte.
pub proof fn lemma_bred_genome_is_combined(
    before: KittiesState,
    after: KittiesState,
    owner: AccountId,
    dna1: Seq<u8>,
    dna2: Seq<u8>,
)
    requires
        before.wf(),
        dna1.len() == 16,
        before.minted_kitty(after, owner, mixed_genome(dna1, dna2, before.random_for(owner)), true),
    ensures
        after.dna_of(before.tokens.len() as KittyIndex).len() == 16,
        forall|i: int|
            0 <= i < 16 ==> #[trigger] after.dna_of(before.tokens.len() as KittyIndex)[i]
                == mixed_byte(dna1[i], dna2[i], before.random_for(owner)[i]),
{
}

/// Balance of `who` in `balances`; an absent account holds zero.
pub open spec fn balance_in(balances: Map<AccountId, Balance>, who: AccountId) -> Balance {
    if balances.contains_key(who) {
        balances[who]
    } else {
        0
    }
}

/// Balances set from a list of pairs, a later pair overriding an earlier one.
pub open spec fn balances_from(pairs: Seq<(AccountId, Balance)>) -> Map<AccountId, Balance>
    decreases pairs.len(),
{
    if pairs.len() == 0 {
        Map::empty()
    } else {
        balances_from(pairs.drop_last()).insert(pairs.last().0, pairs.last().1)
    }
}

/// The pallet: asset store, price list, currency ledger, mining nonce and
/// emitted notifications.
pub struct Pallet {
    tokens: Vec<TokenInfo>,
    kitty_prices: HashMap<KittyIndex, Balance>,
    auto_breed_nonce: u32,
    difficulty: u32,
    balances: HashMap<AccountId, Balance>,
    existential_deposit: Balance,
    random_seed: [u8; 32],
    extrinsic_index: Option<u32>,
    events: Vec<Event>,
}

impl View for Pallet {
    type V = KittiesState;

    closed spec fn view(&self) -> KittiesState {
        KittiesState {
            tokens: self.tokens@,
            prices: self.kitty_prices@,
            nonce: self.auto_breed_nonce,
            difficulty: self.difficulty,
            balances: self.balances@,
            existential_deposit: self.existential_deposit,
            random_seed: self.random_seed@,
            extrinsic_index: self.extrinsic_index,
            events: self.events@,
        }
    }
}

impl GenesisConfig {
    /// The state at genesis: no kitties, no listings, nonce zero, the given
    /// balances, an all-zero random seed, and extrinsic index zero.
    pub fn build(&self, config: Config) -> (r: Pallet)
        requires
            config.difficulty > 0,
        ensures
            r@.wf(),
            r@.tokens.len() == 0,
            r@.prices.is_empty(),
            r@.nonce == 0,
            r@.difficulty == config.difficulty,
            r@.balances == balances_from(self.balances@),
            r@.existential_deposit == config.existential_deposit,
            r@.random_seed == Seq::new(32, |i: int| 0u8),
            r@.extrinsic_index == Some(0u32),
            r@.events.len() == 0,
    {
        let mut balances: HashMap<AccountId, Balance> = HashMap::new();
        let mut i: usize = 0;
        while i < self.balances.len()
            invariant
                i <= self.balances@.len(),
                balances@ == balances_from(self.balances@.subrange(0, i as int)),
            decreases self.balances@.len() - i,
        {
            let (who, amount) = self.balances[i];
            balances.insert(who, amount);
            assert(self.balances@.subrange(0, i + 1).drop_last() =~= self.balances@.subrange(
                0,
                i as int,
            ));
            i = i + 1;
        }
        assert(self.balances@.subrange(0, i as int) =~= self.balances@);
        let r = Pallet {
            tokens: Vec::new(),
            kitty_prices: HashMap::new(),
            auto_breed_nonce: 0,
            difficulty: config.difficulty,
            balances,
            existential_deposit: config.existential_deposit,
            random_seed: [0u8; 32],
            extrinsic_index: Some(0),
            events: Vec::new(),
        };
        assert(r@.random_seed =~= Seq::new(32, |i: int| 0u8));
        r
    }
}

impl Pallet {
    /// Owner and genome of kitty `kitty_id`, if it exists.
    pub fn tokens(&self, kitty_id: KittyIndex) -> (r: Option<TokenInfo>)
        ensures
            r == if self@.has_kitty(kitty_id) {
                Some(self@.tokens[kitty_id as int])
            } else {
                None
            },
    {
        if (kitty_id as usize) < self.tokens.len() {
            Some(self.tokens[kitty_id as usize])
        } else {
            None
        }
    }

    /// The kitty `kitty_id`, if `owner` owns it.
    pub fn kitties(&self, owner: &AccountId, kitty_id: KittyIndex) -> (r: Option<Kitty>)
        ensures
            r == if self@.owns(*owner, kitty_id) {
                Some(self@.tokens[kitty_id as int].data)
            } else {
                None
            },
    {
        match self.tokens(kitty_id) {
            Some(info) => {
                if info.owner == *owner {
                    Some(info.data)
                } else {
                    None
                }
            },
            None => None,
        }
    }

    /// The listed price of kitty `kitty_id`; `None` means not for sale.
    pub fn kitty_prices(&self, kitty_id: KittyIndex) -> (r: Option<Balance>)
        ensures
            r == if self@.prices.contains_key(kitty_id) {
                Some(self@.prices[kitty_id])
            } else {
                None
            },
    {
        match self.kitty_prices.get(&kitty_id) {
            Some(p) => Some(*p),
            None => None,
        }
    }

    /// Free balance of `who`.
    pub fn free_balance(&self, who: AccountId) -> (r: Balance)
        ensures
            r == self@.balance(who),
    {
        match self.balances.get(&who) {
            Some(b) => *b,
            None => 0,
        }
    }

    /// Mints a kitty to `owner` under the next id.
    fn mint(&mut self, owner: AccountId, kitty: Kitty) -> (r: Result<KittyIndex, Error>)
        requires
            old(self)@.wf(),
        ensures
            final(self)@.wf(),
            old(self)@.tokens.len() < u32::MAX ==> r == Ok::<KittyIndex, Error>(
                old(self)@.tokens.len() as KittyIndex,
            ) && final(self)@ == (KittiesState {
                tokens: old(self)@.tokens.push(TokenInfo { owner, data: kitty }),
                ..old(self)@
            }),
            old(self)@.tokens.len() == u32::MAX ==> r == Err::<KittyIndex, Error>(
                Error::ArithmeticOverflow,
            ) && final(self)@ == old(self)@,
    {
        if self.tokens.len() >= 0xffff_ffffusize {
            return Err(Error::ArithmeticOverflow);
        }
        let id = self.tokens.len() as KittyIndex;
        self.tokens.push(TokenInfo { owner, data: kitty });
        Ok(id)
    }

    /// Reassigns kitty `id` from `from` to `to` in the asset store.
    fn nft_transfer(&mut self, from: AccountId, to: AccountId, id: KittyIndex) -> (r: Result<(), Error>)
        requires
            old(self)@.wf(),
        ensures
            final(self)@.wf(),
            !old(self)@.has_kitty(id) ==> r == Err::<(), Error>(Error::TokenNotFound) && final(self)@
                == old(self)@,
            old(self)@.has_kitty(id) && !old(self)@.owns(from, id) ==> r == Err::<(), Error>(
                Error::NoPermission,
            ) && final(self)@ == old(self)@,
            old(self)@.owns(from, id) ==> r is Ok && final(self)@ == (KittiesState {
                tokens: old(self)@.with_owner(id, to),
                ..old(self)@
            }),
    {
        if (id as usize) >= self.tokens.len() {
            return Err(Error::TokenNotFound);
        }
        let info = self.tokens[id as usize];
        if info.owner != from {
            return Err(Error::NoPermission);
        }
        if from == to {
            assert(old(self)@.with_owner(id, to) =~= old(self)@.tokens);
            return Ok(());
        }
        self.tokens.set(id as usize, TokenInfo { owner: to, data: info.data });
        Ok(())
    }

    /// Pays `value` from `from` to `to`, refusing to take the payer below
    /// the existential deposit.
    fn currency_transfer(&mut self, from: AccountId, to: AccountId, value: Balance) -> (r: Result<(), Error>)
        requires
            old(self)@.wf(),
        ensures
            final(self)@.wf(),
            r == match old(self)@.payment_error(from, to, value) {
                Some(e) => Err::<(), Error>(e),
                None => Ok(()),
            },
            r is Err ==> final(self)@ == old(self)@,
            r is Ok ==> final(self)@ == (KittiesState {
                balances: old(self)@.paid(from, to, value),
                ..old(self)@
            }),
    {
        if value == 0 || from == to {
            return Ok(());
        }
        let from_balance = self.free_balance(from);
        let to_balance = self.free_balance(to);
        if value > from_balance {
            return Err(Error::InsufficientBalance);
        }
        let new_to = match to_balance.checked_add(value) {
            Some(b) => b,
            None => {
                return Err(Error::ArithmeticOverflow);
            },
        };
        if new_to < self.existential_deposit {
            return Err(Error::ExistentialDeposit);
        }
        let new_from = from_balance - value;
        if new_from < self.existential_deposit {
            return Err(Error::KeepAlive);
        }
        self.balances.insert(from, new_from);
        self.balances.insert(to, new_to);
        Ok(())
    }

    fn deposit_event(&mut self, event: Event)
        requires
            old(self)@.wf(),
        ensures
            final(self)@.wf(),
            final(self)@ == (KittiesState { events: old(self)@.events.push(event), ..old(self)@ }),
    {
        self.events.push(event);
    }

    /// Creates a kitty for `sender` with a genome drawn from the chain's
    /// randomness.
    pub fn create(&mut self, sender: AccountId) -> (r: Result<(), Error>)
        requires
            old(self)@.wf(),
        ensures
            final(self)@.wf(),
            r is Ok <==> old(self)@.tokens.len() < u32::MAX,
            r is Ok ==> old(self)@.minted_kitty(final(self)@, sender, old(self)@.random_for(sender), false),
            r is Err ==> r == Err::<(), Error>(Error::ArithmeticOverflow) && final(self)@ == old(self)@,
    {
        let dna = random_value(&self.random_seed, sender, self.extrinsic_index);
        let kitty = Kitty(dna);
        let kitty_id = match self.mint(sender, kitty) {
            Ok(id) => id,
            Err(e) => {
                return Err(e);
            },
        };
        self.deposit_event(Event::KittyCreated(sender, kitty_id, kitty));
        assert(self@.tokens.subrange(0, old(self)@.tokens.len() as int) =~= old(self)@.tokens);
        Ok(())
    }

    /// Breeds two kitties into a new one for `owner`; the offspring takes
    /// each genome bit from one parent as a random selector decides.
    fn do_breed(&mut self, owner: AccountId, kitty1: Kitty, kitty2: Kitty) -> (r: Result<(), Error>)
        requires
            old(self)@.wf(),
        ensures
            final(self)@.wf(),
            gender_of(kitty1.dna()) == gender_of(kitty2.dna()) ==> r == Err::<(), Error>(
                Error::SameGender,
            ),
            gender_of(kitty1.dna()) != gender_of(kitty2.dna()) && old(self)@.tokens.len() == u32::MAX
                ==> r == Err::<(), Error>(Error::ArithmeticOverflow),
            gender_of(kitty1.dna()) != gender_of(kitty2.dna()) && old(self)@.tokens.len() < u32::MAX
                ==> r is Ok,
            r is Err ==> final(self)@ == old(self)@,
            r == Err::<(), Error>(Error::SameGender) <==> gender_of(kitty1.dna()) == gender_of(
                kitty2.dna(),
            ),
            r is Ok ==> old(self)@.minted_kitty(
                final(self)@,
                owner,
                mixed_genome(kitty1.dna(), kitty2.dna(), old(self)@.random_for(owner)),
                true,
            ),
    {
        if kitty1.gender() == kitty2.gender() {
            return Err(Error::SameGender);
        }
        let selector = random_value(&self.random_seed, owner, self.extrinsic_index);
        let new_dna = combine(&kitty1.0, &kitty2.0, &selector);
        let new_kitty = Kitty(new_dna);
        let kitty_id = match self.mint(owner, new_kitty) {
            Ok(id) => id,
            Err(e) => {
                return Err(e);
            },
        };
        self.deposit_event(Event::KittyBred(owner, kitty_id, new_kitty));
        assert(self@.tokens.subrange(0, old(self)@.tokens.len() as int) =~= old(self)@.tokens);
        Ok(())
    }

    /// Breeds two kitties that `sender` owns.
    pub fn breed(&mut self, sender: AccountId, kitty_id_1: KittyIndex, kitty_id_2: KittyIndex) -> (r: Result<(), Error>)
        requires
            old(self)@.wf(),
        ensures
            final(self)@.wf(),
            r is Err ==> final(self)@ == old(self)@,
            r == Err::<(), Error>(Error::SameGender) <==> (old(self)@.owns(sender, kitty_id_1)
                && old(self)@.owns(sender, kitty_id_2) && gender_of(old(self)@.dna_of(kitty_id_1))
                == gender_of(old(self)@.dna_of(kitty_id_2))),
            !(old(self)@.owns(sender, kitty_id_1) && old(self)@.owns(sender, kitty_id_2)) ==> r
                == Err::<(), Error>(Error::InvalidKittyId),
            old(self)@.owns(sender, kitty_id_1) && old(self)@.owns(sender, kitty_id_2) ==> {
                let d1 = old(self)@.dna_of(kitty_id_1);
                let d2 = old(self)@.dna_of(kitty_id_2);
                &&& gender_of(d1) == gender_of(d2) ==> r == Err::<(), Error>(Error::SameGender)
                &&& gender_of(d1) != gender_of(d2) && old(self)@.tokens.len() == u32::MAX ==> r
                    == Err::<(), Error>(Error::ArithmeticOverflow)
                &&& gender_of(d1) != gender_of(d2) && old(self)@.tokens.len() < u32::MAX ==> r is Ok
                &&& r is Ok ==> old(self)@.minted_kitty(
                    final(self)@,
                    sender,
                    mixed_genome(d1, d2, old(self)@.random_for(sender)),
                    true,
                )
            },
    {
        let kitty1 = match self.kitties(&sender, kitty_id_1) {
            Some(k) => k,
            None => {
                return Err(Error::InvalidKittyId);
            },
        };
        let kitty2 = match self.kitties(&sender, kitty_id_2) {
            Some(k) => k,
            None => {
                return Err(Error::InvalidKittyId);
            },
        };
        self.do_breed(sender, kitty1, kitty2)
    }

    /// Transfers kitty `kitty_id` from `sender` to `to`. A transfer to
    /// oneself changes nothing; any other clears the kitty's listing.
    pub fn transfer(&mut self, sender: AccountId, to: AccountId, kitty_id: KittyIndex) -> (r: Result<(), Error>)
        requires
            old(self)@.wf(),
        ensures
            final(self)@.wf(),
            !old(self)@.has_kitty(kitty_id) ==> r == Err::<(), Error>(Error::TokenNotFound),
            old(self)@.has_kitty(kitty_id) && !old(self)@.owns(sender, kitty_id) ==> r == Err::<
                (),
                Error,
            >(Error::NoPermission),
            old(self)@.owns(sender, kitty_id) ==> r is Ok,
            r is Err ==> final(self)@ == old(self)@,
            r is Ok && sender == to ==> final(self)@ == old(self)@,
            r is Ok && sender != to ==> final(self)@ == (KittiesState {
                tokens: old(self)@.with_owner(kitty_id, to),
                prices: old(self)@.prices.remove(kitty_id),
                events: old(self)@.events.push(Event::KittyTransferred(sender, to, kitty_id)),
                ..old(self)@
            }),
    {
        match self.nft_transfer(sender, to, kitty_id) {
            Ok(()) => {},
            Err(e) => {
                return Err(e);
            },
        }
        if sender == to {
            assert(old(self)@.with_owner(kitty_id, to) =~= old(self)@.tokens);
        } else {
            self.kitty_prices.remove(&kitty_id);
            self.deposit_event(Event::KittyTransferred(sender, to, kitty_id));
        }
        Ok(())
    }

    /// Lists kitty `kitty_id` at `new_price`, or delists it when `None`.
    pub fn set_price(&mut self, sender: AccountId, kitty_id: KittyIndex, new_price: Option<Balance>) -> (r: Result<(), Error>)
        requires
            old(self)@.wf(),
        ensures
            final(self)@.wf(),
            r is Ok <==> old(self)@.owns(sender, kitty_id),
            r is Err ==> r == Err::<(), Error>(Error::NotOwner) && final(self)@ == old(self)@,
            r is Ok ==> final(self)@ == (KittiesState {
                prices: match new_price {
                    Some(p) => old(self)@.prices.insert(kitty_id, p),
                    None => old(self)@.prices.remove(kitty_id),
                },
                events: old(self)@.events.push(Event::KittyPriceUpdated(sender, kitty_id, new_price)),
                ..old(self)@
            }),
    {
        let owns = match self.kitties(&sender, kitty_id) {
            Some(_) => true,
            None => false,
        };
        if !owns {
            return Err(Error::NotOwner);
        }
        match new_price {
            Some(p) => {
                self.kitty_prices.insert(kitty_id, p);
            },
            None => {
                self.kitty_prices.remove(&kitty_id);
            },
        }
        self.deposit_event(Event::KittyPriceUpdated(sender, kitty_id, new_price));
        Ok(())
    }

    /// Buys kitty `kitty_id` from `owner` at its listed price, if that is at
    /// most `max_price`. Listing removal, ownership change and payment
    /// happen together or not at all.
    pub fn buy(&mut self, sender: AccountId, owner: AccountId, kitty_id: KittyIndex, max_price: Balance) -> (r: Result<(), Error>)
        requires
            old(self)@.wf(),
        ensures
            final(self)@.wf(),
            r == match old(self)@.buy_error(sender, owner, kitty_id, max_price) {
                Some(e) => Err::<(), Error>(e),
                None => Ok(()),
            },
            r is Err ==> final(self)@ == old(self)@,
            r is Ok ==> {
                let price = old(self)@.prices[kitty_id];
                &&& final(self)@ == (KittiesState {
                    tokens: old(self)@.with_owner(kitty_id, sender),
                    prices: old(self)@.prices.remove(kitty_id),
                    balances: old(self)@.paid(sender, owner, price),
                    events: old(self)@.events.push(Event::KittySold(owner, sender, kitty_id, price)),
                    ..old(self)@
                })
                &&& !final(self)@.prices.contains_key(kitty_id)
                &&& final(self)@.owns(sender, kitty_id)
                &&& final(self)@.balance(sender) == old(self)@.balance(sender) - price
                &&& final(self)@.balance(owner) == old(self)@.balance(owner) + price
            },
    {
        if sender == owner {
            return Err(Error::BuyFromSelf);
        }
        let price = match self.kitty_prices(kitty_id) {
            Some(p) => p,
            None => {
                return Err(Error::NotForSale);
            },
        };
        if max_price < price {
            return Err(Error::PriceTooLow);
        }
        let ghost before = self@;
        match self.nft_transfer(owner, sender, kitty_id) {
            Ok(()) => {},
            Err(e) => {
                return Err(e);
            },
        }
        match self.currency_transfer(sender, owner, price) {
            Ok(()) => {},
            Err(e) => {
                // undo the ownership change: the call commits nothing
                self.tokens.set(kitty_id as usize, TokenInfo { owner, data: self.tokens[kitty_id as usize].data });
                assert(self@.tokens =~= before.tokens);
                return Err(e);
            },
        }
        self.kitty_prices.remove(&kitty_id);
        self.deposit_event(Event::KittySold(owner, sender, kitty_id, price));
        Ok(())
    }

    /// The current mining nonce.
    pub fn auto_breed_nonce(&self) -> (r: u32)
        ensures
            r == self@.nonce,
    {
        self.auto_breed_nonce
    }

    /// Notifications emitted so far, oldest first.
    pub fn events(&self) -> (r: &Vec<Event>)
        ensures
            r@ == self@.events,
    {
        &self.events
    }

    /// Forgets the notifications emitted so far.
    pub fn reset_events(&mut self)
        requires
            old(self)@.wf(),
        ensures
            final(self)@.wf(),
            final(self)@ == (KittiesState { events: Seq::empty(), ..old(self)@ }),
    {
        self.events = Vec::new();
    }

    /// Sets the chain's random seed, as a new block brings one.
    pub fn set_random_seed(&mut self, seed: [u8; 32])
        requires
            old(self)@.wf(),
        ensures
            final(self)@.wf(),
            final(self)@ == (KittiesState { random_seed: seed@, ..old(self)@ }),
    {
        self.random_seed = seed;
    }

    /// Sets the index of the extrinsic being applied.
    pub fn set_extrinsic_index(&mut self, index: Option<u32>)
        requires
            old(self)@.wf(),
        ensures
            final(self)@.wf(),
            final(self)@ == (KittiesState { extrinsic_index: index, ..old(self)@ }),
    {
        self.extrinsic_index = index;
    }

    /// Whether the proof-of-work hash of a proposal meets the difficulty.
    pub fn validate_solution(&self, kitty_id_1: KittyIndex, kitty_id_2: KittyIndex, nonce: u32, solution: u128) -> (r: bool)
        requires
            self@.wf(),
        ensures
            r == solution_accepted(kitty_id_1, kitty_id_2, nonce, solution, self@.difficulty),
    {
        hash_meets_difficulty(proof_hash(kitty_id_1, kitty_id_2, nonce, solution), self.difficulty)
    }

    /// Admits an unsigned call: only a breeding proposal whose proof meets
    /// the difficulty and whose nonce is the current one. Admitting it
    /// advances the nonce, which voids every other proposal with that nonce.
    pub fn validate_unsigned(&mut self, call: &Call) -> (r: Result<ValidTransaction, InvalidTransaction>)
        requires
            old(self)@.wf(),
        ensures
            final(self)@.wf(),
            r == validation_outcome(old(self)@.nonce, old(self)@.difficulty, *call),
            final(self)@ == (KittiesState {
                nonce: nonce_after(old(self)@.nonce, old(self)@.difficulty, *call),
                ..old(self)@
            }),
    {
        match *call {
            Call::AutoBreed(kitty_id_1, kitty_id_2, nonce, solution) => {
                if self.validate_solution(kitty_id_1, kitty_id_2, nonce, solution) {
                    if nonce != self.auto_breed_nonce {
                        return Err(InvalidTransaction::BadProof);
                    }
                    self.auto_breed_nonce = self.auto_breed_nonce.saturating_add(1);
                    Ok(ValidTransaction { longevity: PROPOSAL_LONGEVITY, propagate: true })
                } else {
                    Err(InvalidTransaction::BadProof)
                }
            },
            _ => Err(InvalidTransaction::Call),
        }
    }

    /// The execution step of a breeding proposal that `validate_unsigned`
    /// has admitted: it checks neither the proof nor the nonce, so the
    /// guarded entry is `submit_mining_proposal`. Both kitties must exist
    /// and differ in gender; the offspring goes to the owner of the first.
    /// No signature and no relation between submitter and owners is needed.
    pub fn auto_breed(&mut self, kitty_id_1: KittyIndex, kitty_id_2: KittyIndex, _nonce: u32, _solution: u128) -> (r: Result<(), Error>)
        requires
            old(self)@.wf(),
        ensures
            final(self)@.wf(),
            old(self)@.proposal_breeding(final(self)@, kitty_id_1, kitty_id_2, r),
    {
        let kitty1 = match self.tokens(kitty_id_1) {
            Some(info) => info,
            None => {
                return Err(Error::InvalidKittyId);
            },
        };
        let kitty2 = match self.tokens(kitty_id_2) {
            Some(info) => info,
            None => {
                return Err(Error::InvalidKittyId);
            },
        };
        self.do_breed(kitty1.owner, kitty1.data, kitty2.data)
    }

    /// Submits an unsigned breeding proposal: it is validated, which
    /// advances the nonce, and if admitted it is executed.
    pub fn submit_mining_proposal(&mut self, kitty_id_1: KittyIndex, kitty_id_2: KittyIndex, nonce: u32, solution: u128) -> (r: Result<(), Error>)
        requires
            old(self)@.wf(),
        ensures
            final(self)@.wf(),
            ({
                let call = Call::AutoBreed(kitty_id_1, kitty_id_2, nonce, solution);
                let s = old(self)@;
                if validation_outcome(s.nonce, s.difficulty, call) is Ok {
                    (KittiesState { nonce: nonce_after(s.nonce, s.difficulty, call), ..s }).proposal_breeding(
                        final(self)@,
                        kitty_id_1,
                        kitty_id_2,
                        r,
                    )
                } else {
                    r == Err::<(), Error>(Error::BadProof) && final(self)@ == s
                }
            }),
    {
        let call = Call::AutoBreed(kitty_id_1, kitty_id_2, nonce, solution);
        match self.validate_unsigned(&call) {
            Ok(_) => self.auto_breed(kitty_id_1, kitty_id_2, nonce, solution),
            Err(_) => Err(Error::BadProof),
        }
    }

    /// One cycle of the off-chain search. Gives up at once if another
    /// search of this node holds the lock. Otherwise takes generator words
    /// from a ChaCha generator seeded with `random_seed` and searches with
    /// them (see `search_with_draws`).
    pub fn run_offchain_worker(&self, lock: &mut WorkerLock, block: u64, random_seed: [u8; 32]) -> (r: Result<Option<Call>, ()>)
        requires
            self@.wf(),
        ensures
            !old(lock).is_free_at(block) ==> r is Err && *final(lock) == *old(lock),
            old(lock).is_free_at(block) ==> final(lock)@ is None,
            old(lock).is_free_at(block) ==> exists|draws: Seq<u32>|
                draws.len() == SEARCH_DRAWS && #[trigger] self@.search_outcome(draws, r),
            old(lock).is_free_at(block) && self@.tokens.len() == 0 ==> r == Ok::<Option<Call>, ()>(
                None,
            ),
            r matches Ok(Some(call)) ==> self@.is_acceptable_proposal(call),
    {
        if !lock.try_lock(block) {
            return Err(());
        }
        let r = self.search_proposal(random_seed);
        lock.unlock();
        r
    }

    /// The pair that two generator draws pick among the kitties: each draw
    /// modulo the kitty count. A pair of equal gender is no pair.
    pub fn pair_from_draws(&self, draw1: u32, draw2: u32) -> (r: Option<(KittyIndex, KittyIndex)>)
        requires
            self@.wf(),
        ensures
            r == self@.pair_of(draw1, draw2),
    {
        let kitty_count = self.tokens.len() as u32;
        if kitty_count == 0 {
            return None;
        }
        let kitty_id_1 = draw1 % kitty_count;
        let kitty_id_2 = draw2 % kitty_count;
        let kitty_1 = self.tokens[kitty_id_1 as usize].data;
        let kitty_2 = self.tokens[kitty_id_2 as usize].data;
        if kitty_1.gender() != kitty_2.gender() {
            Some((kitty_id_1, kitty_id_2))
        } else {
            None
        }
    }

    /// The first of the solutions `(prefix << 32) + i`, for `i` below
    /// `budget`, that meets the difficulty for this pair and nonce.
    pub fn find_solution(&self, kitty_id_1: KittyIndex, kitty_id_2: KittyIndex, nonce: u32, prefix: u32, budget: u128) -> (r: Option<u128>)
        requires
            self@.wf(),
            budget <= 0x1_0000_0000,
        ensures
            self@.first_solution(kitty_id_1, kitty_id_2, nonce, prefix, budget, r),
    {
        let solution_prefix = prefix as u128;
        let mut i: u128 = 0;
        while i < budget
            invariant
                self@.wf(),
                solution_prefix == prefix,
                budget <= 0x1_0000_0000,
                i <= budget,
                forall|j: u128|
                    j < i ==> !#[trigger] solution_accepted(
                        kitty_id_1,
                        kitty_id_2,
                        nonce,
                        (prefix * 0x1_0000_0000 + j) as u128,
                        self@.difficulty,
                    ),
            decreases budget - i,
        {
            assert(solution_prefix << 32u128 == solution_prefix * 0x1_0000_0000) by (bit_vector)
                requires
                    solution_prefix < 0x1_0000_0000,
            ;
            let solution = (solution_prefix << 32u128) + i;
            assert(solution / 0x1_0000_0000 == prefix && solution % 0x1_0000_0000 == i) by (
            nonlinear_arith)
                requires
                    solution == prefix * 0x1_0000_0000 + i,
                    i < 0x1_0000_0000,
            ;
            if self.validate_solution(kitty_id_1, kitty_id_2, nonce, solution) {
                return Some(solution);
            }
            i = i + 1;
        }
        None
    }

    /// One search cycle over the generator words `draws`. Attempt `k` picks
    /// a pair from draws `2k` and `2k + 1`; after `MAX_ITERATIONS` attempts
    /// without a pair of different gender the cycle fails with `Err(())`.
    /// Otherwise the next draw is a prefix that keeps independent searchers
    /// apart, the attempts left are the budget, and the first solution
    /// under the prefix that meets the difficulty makes the proposal;
    /// `Ok(None)` if there is none, or no kitty at all.
    pub fn search_with_draws(&self, draws: &Vec<u32>) -> (r: Result<Option<Call>, ()>)
        requires
            self@.wf(),
            draws@.len() == SEARCH_DRAWS,
        ensures
            self@.search_outcome(draws@, r),
            r matches Ok(Some(call)) ==> self@.is_acceptable_proposal(call),
    {
        if self.tokens.len() == 0 {
            return Ok(None);
        }
        let nonce = self.auto_breed_nonce;
        let mut remaining_iterations: u128 = MAX_ITERATIONS;
        let mut k: usize = 0;
        let mut pair: (KittyIndex, KittyIndex) = (0, 0);
        loop
            invariant
                self@.wf(),
                self@.tokens.len() > 0,
                draws@.len() == SEARCH_DRAWS,
                0 < remaining_iterations <= MAX_ITERATIONS,
                k + remaining_iterations == MAX_ITERATIONS,
                forall|j: int| 0 <= j < k ==> #[trigger] self@.pair_at(draws@, j) is None,
            ensures
                0 < remaining_iterations <= MAX_ITERATIONS,
                k + remaining_iterations == MAX_ITERATIONS,
                forall|j: int| 0 <= j < k ==> #[trigger] self@.pair_at(draws@, j) is None,
                self@.pair_at(draws@, k as int) == Some(pair),
            decreases remaining_iterations,
        {
            match self.pair_from_draws(draws[2 * k], draws[2 * k + 1]) {
                Some(p) => {
                    pair = p;
                    break;
                },
                None => {},
            }
            assert(self@.pair_at(draws@, k as int) is None);
            remaining_iterations = remaining_iterations - 1;
            k = k + 1;
            if remaining_iterations == 0 {
                assert(forall|j: int|
                    0 <= j < MAX_ITERATIONS ==> #[trigger] self@.pair_at(draws@, j) is None);
                return Err(());
            }
        }
        let prefix = draws[2 * k + 2];
        let found = self.find_solution(pair.0, pair.1, nonce, prefix, remaining_iterations);
        let r = match found {
            Some(solution) => Ok(Some(Call::AutoBreed(pair.0, pair.1, nonce, solution))),
            None => Ok(None),
        };
        assert(self@.searched_from(draws@, k as int, r));
        r
    }

    /// Draws the generator words of one search cycle and searches with them.
    fn search_proposal(&self, random_seed: [u8; 32]) -> (r: Result<Option<Call>, ()>)
        requires
            self@.wf(),
        ensures
            exists|draws: Seq<u32>| draws.len() == SEARCH_DRAWS && #[trigger] self@.search_outcome(draws, r),
            r matches Ok(Some(call)) ==> self@.is_acceptable_proposal(call),
    {
        if self.tokens.len() == 0 {
            assert(self@.search_outcome(Seq::new(SEARCH_DRAWS as nat, |i: int| 0u32), Ok(None)));
            return Ok(None);
        }
        let mut rng = rng_from_seed(random_seed);
        let mut draws: Vec<u32> = Vec::new();
        while draws.len() < SEARCH_DRAWS
            invariant
                draws@.len() <= SEARCH_DRAWS,
            decreases SEARCH_DRAWS - draws@.len(),
        {
            draws.push(rng_next_u32(&mut rng));
        }
        let r = self.search_with_draws(&draws);
        assert(draws@.len() == SEARCH_DRAWS && self@.search_outcome(draws@, r));
        r
    }
}

} // verus!
