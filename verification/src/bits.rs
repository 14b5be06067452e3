//! Facts about masks, shifts and byte splitting that the components share.

use vstd::prelude::*;

verus! {

/// A masked value never exceeds its mask.
pub proof fn lemma_mask_bound_u32(x: u32, m: u32)
    by (bit_vector)
    ensures
        x & m <= m,
{
}

/// A masked value never exceeds its mask.
pub proof fn lemma_mask_bound_u16(x: u16, m: u16)
    by (bit_vector)
    ensures
        x & m <= m,
{
}

/// A masked value never exceeds its mask.
pub proof fn lemma_mask_bound_u8(x: u8, m: u8)
    by (bit_vector)
    ensures
        x & m <= m,
{
}

/// A halfword is its two bytes put together again, low byte first.
pub proof fn lemma_halfword_of_bytes(value: u16)
    by (bit_vector)
    ensures
        ((value as u8) as u16) | ((((value >> 8) as u8) as u16) << 8) == value,
{
}

/// A word is its four bytes put together again, lowest byte first.
pub proof fn lemma_word_of_bytes(value: u32)
    by (bit_vector)
    ensures
        ((value as u8) as u32) | ((((value >> 8) as u8) as u32) << 8) | ((((value >> 16) as u8)
            as u32) << 16) | ((((value >> 24) as u8) as u32) << 24) == value,
{
}

/// A word is its two halfwords put together again, low halfword first.
pub proof fn lemma_word_of_halfwords(value: u32)
    by (bit_vector)
    ensures
        ((value as u16) as u32) | ((((value >> 16) as u16) as u32) << 16) == value,
{
}

} // verus!
