//! Nibble exchange on fixed-width integers.

use vstd::prelude::*;

verus! {

/// The 4-bit group of `x` at position `k`, counted from the least significant.
pub open spec fn nibble_u32(x: u32, k: u32) -> u32 {
    (x >> (4 * k) as u32) & 0xF
}

/// The 4-bit group of `x` at position `k`, counted from the least significant.
pub open spec fn nibble_u64(x: u64, k: u64) -> u64 {
    (x >> (4 * k) as u64) & 0xF
}

/// `x` with the two halves of each of its four bytes exchanged.
pub open spec fn nibbles_swapped_u32(x: u32) -> u32 {
    ((x >> 4) & 0x0F0F0F0F) | ((x & 0x0F0F0F0F) << 4)
}

/// `x` with the two halves of each of its eight bytes exchanged.
pub open spec fn nibbles_swapped_u64(x: u64) -> u64 {
    ((x >> 4) & 0x0F0F0F0F0F0F0F0F) | ((x & 0x0F0F0F0F0F0F0F0F) << 4)
}

/// Integers whose bytes can have their 4-bit halves exchanged.
pub trait SwapNibbles: Sized {
    /// The value that `swap_nibbles` returns.
    spec fn nibbles_swapped(&self) -> Self;

    /// Exchanges the high and the low 4 bits of every byte.
    fn swap_nibbles(&self) -> (swapped: Self)
        ensures
            swapped == self.nibbles_swapped(),
    ;
}

impl SwapNibbles for u32 {
    open spec fn nibbles_swapped(&self) -> u32 {
        nibbles_swapped_u32(*self)
    }

    fn swap_nibbles(&self) -> (swapped: u32) {
        ((*self >> 4) & 0x0F0F0F0F) | ((*self & 0x0F0F0F0F) << 4)
    }
}

impl SwapNibbles for u64 {
    open spec fn nibbles_swapped(&self) -> u64 {
        nibbles_swapped_u64(*self)
    }

    fn swap_nibbles(&self) -> (swapped: u64) {
        ((*self >> 4) & 0x0F0F0F0F0F0F0F0F) | ((*self & 0x0F0F0F0F0F0F0F0F) << 4)
    }
}

/// Nibble `k` of the result is nibble `k ^ 1` of the argument: within each
/// byte the two halves change places, and nothing moves between bytes.
pub proof fn lemma_nibbles_swapped_u32(x: u32, k: u32)
    requires
        k < 8,
    ensures
        nibble_u32(nibbles_swapped_u32(x), k) == nibble_u32(x, k ^ 1),
{
    assert(k < 8 ==> ((((x >> 4) & 0x0F0F0F0F) | ((x & 0x0F0F0F0F) << 4)) >> (4 * k) as u32) & 0xF
        == (x >> (4 * (k ^ 1)) as u32) & 0xF) by (bit_vector);
}

/// Nibble `k` of the result is nibble `k ^ 1` of the argument.
pub proof fn lemma_nibbles_swapped_u64(x: u64, k: u64)
    requires
        k < 16,
    ensures
        nibble_u64(nibbles_swapped_u64(x), k) == nibble_u64(x, k ^ 1),
{
    assert(k < 16 ==> ((((x >> 4) & 0x0F0F0F0F0F0F0F0F) | ((x & 0x0F0F0F0F0F0F0F0F) << 4)) >> (4
        * k) as u64) & 0xF == (x >> (4 * (k ^ 1)) as u64) & 0xF) by (bit_vector);
}

/// Exchanging the nibbles twice gives the value back.
pub proof fn lemma_swap_nibbles_twice_u32(x: u32)
    ensures
        nibbles_swapped_u32(nibbles_swapped_u32(x)) == x,
{
    assert(nibbles_swapped_u32(nibbles_swapped_u32(x)) == x) by (bit_vector);
}

/// Exchanging the nibbles twice gives the value back.
pub proof fn lemma_swap_nibbles_twice_u64(x: u64)
    ensures
        nibbles_swapped_u64(nibbles_swapped_u64(x)) == x,
{
    assert(nibbles_swapped_u64(nibbles_swapped_u64(x)) == x) by (bit_vector);
}

} // verus!
