//! Genomes, genders and the bitwise combination of two parents' genomes.
use vstd::prelude::*;

verus! {

/// Number of bytes in a genome.
pub const DNA_LEN: usize = 16;

/// Gender of a kitty, derived from the parity of the first genome byte.
#[derive(Clone, Copy, Debug, PartialEq, Eq, Structural)]
pub enum KittyGender {
    Male,
    Female,
}

/// A kitty: a 128-bit genome, fixed once created.
#[derive(Clone, Copy, Debug, PartialEq, Eq)]
pub struct Kitty(pub [u8; 16]);

/// Gender of a genome: male iff its first byte is even.
pub open spec fn gender_of(dna: Seq<u8>) -> KittyGender
    recommends
        dna.len() > 0,
{
    if dna[0] % 2 == 0 {
        KittyGender::Male
    } else {
        KittyGender::Female
    }
}

/// Bit `i` of a byte.
pub open spec fn bit(b: u8, i: u8) -> bool {
    (b >> i) & 1u8 == 1u8
}

/// One byte of an offspring: the bits of `dna1` where `selector` is 0 and
/// the bits of `dna2` where it is 1.
pub open spec fn mixed_byte(dna1: u8, dna2: u8, selector: u8) -> u8 {
    (!selector & dna1) | (selector & dna2)
}

/// A whole offspring genome, byte by byte.
pub open spec fn mixed_genome(dna1: Seq<u8>, dna2: Seq<u8>, selector: Seq<u8>) -> Seq<u8> {
    Seq::new(dna1.len(), |i: int| mixed_byte(dna1[i], dna2[i], selector[i]))
}

impl Kitty {
    pub open spec fn dna(self) -> Seq<u8> {
        self.0@
    }

    /// Male iff the first genome byte is even.
    pub fn gender(&self) -> (r: KittyGender)
        ensures
            r == gender_of(self.dna()),
    {
        if self.0[0] % 2 == 0 {
            KittyGender::Male
        } else {
            KittyGender::Female
        }
    }
}

/// Each output bit comes from `dna1` where the selector bit is 0, else from
/// `dna2`.
pub proof fn lemma_mixed_byte_selects_bits(dna1: u8, dna2: u8, selector: u8, i: u8)
    requires
        i < 8,
    ensures
        bit(mixed_byte(dna1, dna2, selector), i) == if bit(selector, i) {
            bit(dna2, i)
        } else {
            bit(dna1, i)
        },
{
    assert(((((!selector & dna1) | (selector & dna2)) >> i) & 1u8 == 1u8) == if (selector >> i)
        & 1u8 == 1u8 {
        (dna2 >> i) & 1u8 == 1u8
    } else {
        (dna1 >> i) & 1u8 == 1u8
    }) by (bit_vector)
        requires
            i < 8,
    ;
}

/// Bit `i` of byte `j` of an offspring comes from the first parent where
/// the selector's bit is 0, else from the second.
pub proof fn lemma_mixed_genome_selects_bits(
    dna1: Seq<u8>,
    dna2: Seq<u8>,
    selector: Seq<u8>,
    j: int,
    i: u8,
)
    requires
        dna1.len() == DNA_LEN,
        dna2.len() == DNA_LEN,
        selector.len() == DNA_LEN,
        0 <= j < DNA_LEN,
        i < 8,
    ensures
        bit(mixed_genome(dna1, dna2, selector)[j], i) == if bit(selector[j], i) {
            bit(dna2[j], i)
        } else {
            bit(dna1[j], i)
        },
{
    lemma_mixed_byte_selects_bits(dna1[j], dna2[j], selector[j], i);
}

/// Combines one byte of each parent under a selector byte.
pub fn combine_dna(dna1: u8, dna2: u8, selector: u8) -> (r: u8)
    ensures
        r == mixed_byte(dna1, dna2, selector),
{
    (!selector & dna1) | (selector & dna2)
}

/// Combines two genomes byte by byte under a selector.
pub fn combine(dna1: &[u8; 16], dna2: &[u8; 16], selector: &[u8; 16]) -> (r: [u8; 16])
    ensures
        r@ == mixed_genome(dna1@, dna2@, selector@),
{
    let mut new_dna: [u8; 16] = [0u8; 16];
    let mut i: usize = 0;
    while i < DNA_LEN
        invariant
            i <= DNA_LEN,
            new_dna@.len() == DNA_LEN,
            dna1@.len() == DNA_LEN,
            dna2@.len() == DNA_LEN,
            selector@.len() == DNA_LEN,
            forall|j: int|
                0 <= j < i ==> new_dna@[j] == mixed_byte(dna1@[j], dna2@[j], selector@[j]),
        decreases DNA_LEN - i,
    {
        new_dna[i] = combine_dna(dna1[i], dna2[i], selector[i]);
        i = i + 1;
    }
    assert(new_dna@ =~= mixed_genome(dna1@, dna2@, selector@));
    new_dna
}

} // verus!
