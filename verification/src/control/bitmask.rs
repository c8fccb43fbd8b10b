//! Capability bitmasks: 32-bit fields in which bit `i` says whether the
//! resource of index `i` can be paired with the owner of the mask.

use vstd::prelude::*;
use vstd::arithmetic::div_mod::{lemma_basic_div, lemma_breakdown};
use vstd::arithmetic::power2::{
    lemma2_to64, lemma_pow2_pos, lemma_pow2_strictly_increases, lemma_pow2_unfold, pow2,
};
use vstd::bits::lemma_u32_shr_is_div;

verus! {

/// Whether bit `index` of `mask` is one, the least significant bit being
/// bit zero.
pub open spec fn bit_is_set(mask: u32, index: nat) -> bool {
    (mask as nat / pow2(index)) % 2 == 1
}

/// The bit that an index selects. A mask has 32 bits, and an index past the
/// last of them starts over at bit zero.
pub open spec fn wrapped_index(index: u32) -> nat {
    (index % 32) as nat
}

/// The indices that a mask admits.
pub open spec fn members(mask: u32) -> Set<nat> {
    Set::new(|index: nat| index < 32 && bit_is_set(mask, index))
}

/// A bit of a mask is one exactly where the mask and the power of two of
/// that bit have a bit in common.
pub proof fn lemma_bit_is_set_bitwise(mask: u32, index: u32)
    requires
        index < 32,
    ensures
        bit_is_set(mask, index as nat) <==> mask & (1u32 << index) != 0,
{
    assert((mask & (1u32 << index)) != 0 <==> ((mask >> index) & 1) == 1) by (bit_vector)
        requires
            index < 32,
    ;
    let shifted: u32 = mask >> index;
    assert((shifted & 1) == shifted % 2) by (bit_vector);
    lemma_u32_shr_is_div(mask, index);
}

/// A mask has no bit past its 32nd: were an index not wrapped, no mask
/// would admit one of 32 or more.
pub proof fn lemma_no_bit_past_width(mask: u32, index: nat)
    requires
        index >= 32,
    ensures
        !bit_is_set(mask, index),
{
    lemma2_to64();
    if index > 32 {
        lemma_pow2_strictly_increases(32, index);
    }
    lemma_basic_div(mask as int, pow2(index) as int);
}

/// An index selects one of the 32 bits: itself where it is below 32, and
/// else the bit that the index 32 lower selects.
pub proof fn lemma_wrapped_index(index: u32)
    ensures
        wrapped_index(index) < 32,
        index < 32 ==> wrapped_index(index) == index,
        index >= 32 ==> wrapped_index(index) == wrapped_index((index - 32) as u32),
{
}

/// Masks that agree in their lowest `width` bits leave the same remainder
/// when divided by two to the power of `width`.
proof fn lemma_low_bits_agree(a: u32, b: u32, width: nat)
    requires
        forall|index: nat| index < width ==> bit_is_set(a, index) == bit_is_set(b, index),
    ensures
        a as nat % pow2(width) == b as nat % pow2(width),
    decreases width,
{
    if width == 0 {
        lemma2_to64();
    } else {
        let below = (width - 1) as nat;
        lemma_low_bits_agree(a, b, below);
        lemma_pow2_unfold(width);
        lemma_pow2_pos(below);
        lemma_breakdown(a as int, pow2(below) as int, 2);
        lemma_breakdown(b as int, pow2(below) as int, 2);
        assert(bit_is_set(a, below) == bit_is_set(b, below));
        assert((a as nat / pow2(below)) % 2 == (b as nat / pow2(below)) % 2);
    }
}

/// A mask is known by the indices that it admits: two masks that admit the
/// same indices are the same 32 bits.
pub proof fn lemma_members_determine_mask(a: u32, b: u32)
    requires
        members(a) == members(b),
    ensures
        a == b,
{
    assert forall|index: nat| index < 32 implies bit_is_set(a, index) == bit_is_set(b, index) by {
        assert(members(a).contains(index) <==> bit_is_set(a, index));
        assert(members(b).contains(index) <==> bit_is_set(b, index));
    }
    lemma_low_bits_agree(a, b, 32);
    lemma2_to64();
}

/// Tests whether `mask` admits `index`. No index is refused: one of 32 or
/// more selects the bit `index mod 32`.
pub fn mask_contains(mask: u32, index: u32) -> (admitted: bool)
    ensures
        admitted == bit_is_set(mask, wrapped_index(index)),
        admitted == members(mask).contains(wrapped_index(index)),
{
    let bit: u32 = 1u32.wrapping_shl(index);
    proof {
        lemma_bit_is_set_bitwise(mask, index % 32);
    }
    mask & bit != 0
}

} // verus!
