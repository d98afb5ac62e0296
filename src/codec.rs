//! Little-endian byte layouts of the values that are hashed, and the
//! reading of a 128-bit hash as an integer.
use vstd::prelude::*;

verus! {

/// The `n` low bytes of `v`, least significant first.
pub open spec fn le_bytes(v: nat, n: nat) -> Seq<u8>
    decreases n,
{
    if n == 0 {
        Seq::empty()
    } else {
        seq![(v % 256) as u8] + le_bytes(v / 256, (n - 1) as nat)
    }
}

/// The number whose little-endian bytes are `s`.
pub open spec fn le_value(s: Seq<u8>) -> nat
    decreases s.len(),
{
    if s.len() == 0 {
        0
    } else {
        s[0] as nat + 256 * le_value(s.drop_first())
    }
}

/// `256` to the power `n`.
pub open spec fn byte_scale(n: nat) -> nat
    decreases n,
{
    if n == 0 {
        1
    } else {
        256 * byte_scale((n - 1) as nat)
    }
}

/// An optional 32-bit value: a tag byte, then the value if present.
pub open spec fn option_u32_bytes(v: Option<u32>) -> Seq<u8> {
    match v {
        Some(x) => seq![1u8] + le_bytes(x as nat, 4),
        None => seq![0u8],
    }
}

pub proof fn lemma_le_value_bound(s: Seq<u8>)
    ensures
        le_value(s) < byte_scale(s.len()),
    decreases s.len(),
{
    if s.len() > 0 {
        lemma_le_value_bound(s.drop_first());
    }
}

/// Appends the `n` low bytes of `v` to `out`, least significant first.
pub fn push_le(out: &mut Vec<u8>, v: u128, n: usize)
    ensures
        final(out)@ == old(out)@ + le_bytes(v as nat, n as nat),
{
    let mut x: u128 = v;
    let mut k: usize = 0;
    while k < n
        invariant
            k <= n,
            out@ + le_bytes(x as nat, (n - k) as nat) == old(out)@ + le_bytes(v as nat, n as nat),
        decreases n - k,
    {
        let ghost before = out@;
        out.push((x % 256) as u8);
        assert(le_bytes(x as nat, (n - k) as nat) == seq![(x % 256) as u8] + le_bytes(
            (x / 256) as nat,
            (n - k - 1) as nat,
        ));
        assert(before + le_bytes(x as nat, (n - k) as nat) =~= out@ + le_bytes(
            (x / 256) as nat,
            (n - k - 1) as nat,
        ));
        x = x / 256;
        k = k + 1;
    }
    assert(out@ =~= out@ + le_bytes(x as nat, 0));
}

/// Appends an optional 32-bit value: tag byte, then the value if present.
pub fn push_option_u32(out: &mut Vec<u8>, v: Option<u32>)
    ensures
        final(out)@ == old(out)@ + option_u32_bytes(v),
{
    match v {
        Some(x) => {
            out.push(1u8);
            push_le(out, x as u128, 4);
            assert(out@ =~= old(out)@ + option_u32_bytes(v));
        },
        None => {
            out.push(0u8);
            assert(out@ =~= old(out)@ + option_u32_bytes(v));
        },
    }
}

/// Reads sixteen bytes as a little-endian unsigned integer.
pub fn u128_from_le(bytes: &[u8; 16]) -> (r: u128)
    ensures
        r as nat == le_value(bytes@),
{
    let mut acc: u128 = 0;
    let mut i: usize = 16;
    proof {
        assert(bytes@.subrange(16, 16) =~= Seq::<u8>::empty());
        reveal_with_fuel(byte_scale, 17);
    }
    while i > 0
        invariant
            i <= 16,
            bytes@.len() == 16,
            acc as nat == le_value(bytes@.subrange(i as int, 16)),
            byte_scale(16) == 0x1_0000_0000_0000_0000_0000_0000_0000_0000,
        decreases i,
    {
        let ghost tail = bytes@.subrange(i as int, 16);
        i = i - 1;
        let ghost s = bytes@.subrange(i as int, 16);
        assert(s.drop_first() =~= tail);
        proof {
            lemma_le_value_bound(s);
            let n = (16 - i) as nat;
            assert(byte_scale(n) <= byte_scale(16)) by {
                lemma_byte_scale_monotone(n, 16);
            }
        }
        acc = acc * 256 + bytes[i] as u128;
    }
    assert(bytes@.subrange(0, 16) =~= bytes@);
    acc
}

proof fn lemma_byte_scale_monotone(a: nat, b: nat)
    requires
        a <= b,
    ensures
        byte_scale(a) <= byte_scale(b),
    decreases b,
{
    if a < b {
        lemma_byte_scale_monotone(a, (b - 1) as nat);
    }
}

} // verus!
