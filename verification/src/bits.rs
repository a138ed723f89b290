//! Sets of at most eight members, held as the bits of one byte.

use vstd::prelude::*;

verus! {

/// The byte whose only bit is that of member `index`.
pub open spec fn bit(index: u8) -> u8 {
    1u8 << index
}

/// Member `index` is in the set that `mask` holds.
pub open spec fn in_mask(mask: u8, index: u8) -> bool {
    mask & bit(index) != 0
}

/// The bits of the first five members, by value.
pub proof fn lemma_bit_values()
    ensures
        bit(0) == 1,
        bit(1) == 2,
        bit(2) == 4,
        bit(3) == 8,
        bit(4) == 16,
{
    assert(1u8 << 0u8 == 1 && 1u8 << 1u8 == 2 && 1u8 << 2u8 == 4 && 1u8 << 3u8 == 8 && 1u8 << 4u8
        == 16) by (bit_vector);
}

/// Setting one bit adds that member and no other.
pub proof fn lemma_insert(mask: u8, added: u8, index: u8)
    requires
        added < 8,
        index < 8,
    ensures
        in_mask(mask | bit(added), index) <==> (index == added || in_mask(mask, index)),
{
    assert(added < 8 && index < 8 ==> (((mask | (1u8 << added)) & (1u8 << index) != 0) <==> (index
        == added || mask & (1u8 << index) != 0))) by (bit_vector);
}

/// Clearing one bit removes that member and no other.
pub proof fn lemma_remove(mask: u8, removed: u8, index: u8)
    requires
        removed < 8,
        index < 8,
    ensures
        in_mask(mask & !bit(removed), index) <==> (index != removed && in_mask(mask, index)),
{
    assert(removed < 8 && index < 8 ==> (((mask & !(1u8 << removed)) & (1u8 << index) != 0) <==> (
    index != removed && mask & (1u8 << index) != 0))) by (bit_vector);
}

/// The empty byte holds no member.
pub proof fn lemma_empty(index: u8)
    ensures
        !in_mask(0, index),
{
    assert(0u8 & (1u8 << index) == 0) by (bit_vector);
}

/// A byte that is not empty and holds no bit past the first five holds one of
/// those.
pub proof fn lemma_nonempty(mask: u8)
    requires
        mask != 0,
        mask < 32,
    ensures
        in_mask(mask, 0) || in_mask(mask, 1) || in_mask(mask, 2) || in_mask(mask, 3) || in_mask(
            mask,
            4,
        ),
{
    assert(mask != 0 && mask < 32 ==> (mask & (1u8 << 0u8) != 0 || mask & (1u8 << 1u8) != 0 || mask
        & (1u8 << 2u8) != 0 || mask & (1u8 << 3u8) != 0 || mask & (1u8 << 4u8) != 0))
        by (bit_vector);
}

/// Setting or clearing a bit among the first five stays among them.
pub proof fn lemma_small(mask: u8, index: u8)
    requires
        mask < 32,
        index < 5,
    ensures
        mask | bit(index) < 32,
        mask | bit(index) != 0,
        mask & !bit(index) < 32,
{
    assert(mask < 32 && index < 5 ==> (mask | (1u8 << index)) < 32 && (mask | (1u8 << index)) != 0
        && (mask & !(1u8 << index)) < 32) by (bit_vector);
}

} // verus!
