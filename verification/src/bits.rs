//! Bit-level building blocks: scattering and gathering bits under a mask,
//! byte-order reversal and bit-order reversal.

use bitintr::{Pdep, Pext};
use vstd::prelude::*;

verus! {

/// Parallel bit deposit: the low-order bits of `value`, taken in order, are
/// placed at the positions where `mask` has a set bit, lowest position first.
/// Every other bit of the result is zero.
pub open spec fn deposit(value: u64, mask: u64) -> u64
    decreases mask,
{
    if mask == 0 {
        0
    } else if mask % 2 == 1 {
        (value & 1) | (deposit(value >> 1, mask / 2) << 1)
    } else {
        deposit(value, mask / 2) << 1
    }
}

/// Parallel bit extract: the bits of `value` at the positions where `mask` has
/// a set bit are gathered, lowest position first, into the low-order bits of
/// the result. Every higher bit of the result is zero.
pub open spec fn extract(value: u64, mask: u64) -> u64
    decreases mask,
{
    if mask == 0 {
        0
    } else if mask % 2 == 1 {
        (value & 1) | (extract(value >> 1, mask / 2) << 1)
    } else {
        extract(value >> 1, mask / 2)
    }
}

/// `x` with its eight bytes in the opposite order.
pub open spec fn bytes_reversed_u64(x: u64) -> u64 {
    ((x & 0xFF) << 56) | ((x & 0xFF00) << 40) | ((x & 0xFF_0000) << 24) | ((x & 0xFF00_0000) << 8)
        | ((x >> 8) & 0xFF00_0000) | ((x >> 24) & 0xFF_0000) | ((x >> 40) & 0xFF00) | ((x >> 56)
        & 0xFF)
}

/// `x` with its four bytes in the opposite order.
pub open spec fn bytes_reversed_u32(x: u32) -> u32 {
    ((x & 0xFF) << 24) | ((x & 0xFF00) << 8) | ((x >> 8) & 0xFF00) | ((x >> 24) & 0xFF)
}

/// `x` with its eight bits in the opposite order: bit `k` goes to bit `7 - k`.
pub open spec fn bits_reversed_u8(x: u8) -> u8 {
    ((x & 0x01) << 7) | ((x & 0x02) << 5) | ((x & 0x04) << 3) | ((x & 0x08) << 1) | ((x >> 1)
        & 0x08) | ((x >> 3) & 0x04) | ((x >> 5) & 0x02) | ((x >> 7) & 0x01)
}

/// Trusted: `bitintr::Pdep::pdep` on `u64` deposits the low bits of `value`
/// at the set positions of `mask`, as the `PDEP` instruction does. A mask of
/// all ones is left out: the portable fallback doubles a `u64` counter once
/// per set bit, and the 64th doubling overflows.
#[verifier::external_body]
pub(crate) fn pdep(value: u64, mask: u64) -> (scattered: u64)
    requires
        mask != u64::MAX,
    ensures
        scattered == deposit(value, mask),
{
    value.pdep(mask)
}

/// Trusted: `bitintr::Pext::pext` on `u64` gathers the bits of `value` at the
/// set positions of `mask` into the low bits of the result, as the `PEXT`
/// instruction does. A mask of all ones is left out, for the same reason as
/// in `pdep`.
#[verifier::external_body]
pub(crate) fn pext(value: u64, mask: u64) -> (gathered: u64)
    requires
        mask != u64::MAX,
    ensures
        gathered == extract(value, mask),
{
    value.pext(mask)
}

/// Trusted: `u64::swap_bytes` reverses the byte order of the integer.
pub assume_specification[ u64::swap_bytes ](x: u64) -> (reversed: u64)
    ensures
        reversed == bytes_reversed_u64(x),
;

/// Trusted: `u32::swap_bytes` reverses the byte order of the integer.
pub assume_specification[ u32::swap_bytes ](x: u32) -> (reversed: u32)
    ensures
        reversed == bytes_reversed_u32(x),
;

/// Trusted: `u8::reverse_bits` reverses the order of the bits of the integer.
pub assume_specification[ u8::reverse_bits ](x: u8) -> (reversed: u8)
    ensures
        reversed == bits_reversed_u8(x),
;

/// Trusted: `u64::checked_shl` returns `None` when the shift amount is at
/// least the width of the type, and the shifted value otherwise.
pub assume_specification[ u64::checked_shl ](x: u64, rhs: u32) -> (shifted: Option<u64>)
    ensures
        rhs < 64 ==> shifted == Some(x << rhs),
        rhs >= 64 ==> shifted is None,
;

/// Byte `k` of the reversed value is byte `7 - k` of the value.
pub proof fn lemma_bytes_reversed_u64(x: u64, k: u64)
    requires
        k < 8,
    ensures
        (bytes_reversed_u64(x) >> (8 * k) as u64) & 0xFF == (x >> (8 * (7 - k)) as u64) & 0xFF,
{
    assert((bytes_reversed_u64(x) >> (8 * k) as u64) & 0xFF == (x >> (8 * (7 - k)) as u64) & 0xFF)
        by (bit_vector)
        requires
            k < 8,
    ;
}

/// Byte `k` of the reversed value is byte `3 - k` of the value.
pub proof fn lemma_bytes_reversed_u32(x: u32, k: u32)
    requires
        k < 4,
    ensures
        (bytes_reversed_u32(x) >> (8 * k) as u32) & 0xFF == (x >> (8 * (3 - k)) as u32) & 0xFF,
{
    assert((bytes_reversed_u32(x) >> (8 * k) as u32) & 0xFF == (x >> (8 * (3 - k)) as u32) & 0xFF)
        by (bit_vector)
        requires
            k < 4,
    ;
}

/// Bit `k` of the reversed value is bit `7 - k` of the value.
pub proof fn lemma_bits_reversed_u8(x: u8, k: u8)
    requires
        k < 8,
    ensures
        (bits_reversed_u8(x) >> k) & 1 == (x >> (7 - k) as u8) & 1,
{
    assert((bits_reversed_u8(x) >> k) & 1 == (x >> (7 - k) as u8) & 1) by (bit_vector)
        requires
            k < 8,
    ;
}

/// Reversing the byte order twice gives the value back.
pub proof fn lemma_bytes_reversed_twice_u64(x: u64)
    ensures
        bytes_reversed_u64(bytes_reversed_u64(x)) == x,
{
    assert(bytes_reversed_u64(bytes_reversed_u64(x)) == x) by (bit_vector);
}

/// Reversing the byte order twice gives the value back.
pub proof fn lemma_bytes_reversed_twice_u32(x: u32)
    ensures
        bytes_reversed_u32(bytes_reversed_u32(x)) == x,
{
    assert(bytes_reversed_u32(bytes_reversed_u32(x)) == x) by (bit_vector);
}

/// As many low-order ones as `mask` has set bits: the bits of a value that
/// `deposit` places under `mask`.
pub open spec fn consumed(mask: u64) -> u64
    decreases mask,
{
    if mask == 0 {
        0
    } else if mask % 2 == 1 {
        (consumed(mask / 2) << 1) | 1
    } else {
        consumed(mask / 2)
    }
}

/// What is deposited lies under the mask: no bit is set outside it.
pub proof fn lemma_deposit_within_mask(value: u64, mask: u64)
    ensures
        deposit(value, mask) & !mask == 0,
    decreases mask,
{
    if mask == 0 {
        assert(0u64 & !mask == 0) by (bit_vector);
    } else if mask % 2 == 1 {
        let rest = deposit(value >> 1, mask / 2);
        lemma_deposit_within_mask(value >> 1, mask / 2);
        assert(((value & 1) | (rest << 1)) & !mask == 0) by (bit_vector)
            requires
                rest & !(mask / 2) == 0,
                mask % 2 == 1,
        ;
    } else {
        let rest = deposit(value, mask / 2);
        lemma_deposit_within_mask(value, mask / 2);
        assert((rest << 1) & !mask == 0) by (bit_vector)
            requires
                rest & !(mask / 2) == 0,
        ;
    }
}

/// What is extracted depends on the bits under the mask alone.
pub proof fn lemma_extract_ignores(a: u64, b: u64, mask: u64)
    requires
        a & mask == b & mask,
    ensures
        extract(a, mask) == extract(b, mask),
    decreases mask,
{
    if mask != 0 {
        assert((a >> 1) & (mask / 2) == (b >> 1) & (mask / 2) && (mask % 2 == 1 ==> a & 1 == b
            & 1)) by (bit_vector)
            requires
                a & mask == b & mask,
        ;
        lemma_extract_ignores(a >> 1, b >> 1, mask / 2);
    }
}

/// Extracting under the mask that a value was deposited under gives back the
/// bits of the value that were placed.
pub proof fn lemma_extract_deposit(value: u64, mask: u64)
    ensures
        extract(deposit(value, mask), mask) == value & consumed(mask),
    decreases mask,
{
    if mask == 0 {
        assert(value & 0 == 0) by (bit_vector);
    } else if mask % 2 == 1 {
        let rest = deposit(value >> 1, mask / 2);
        let placed = consumed(mask / 2);
        lemma_deposit_within_mask(value >> 1, mask / 2);
        lemma_extract_deposit(value >> 1, mask / 2);
        assert({
            let whole = (value & 1) | (rest << 1);
            &&& whole & 1 == value & 1
            &&& whole >> 1 == rest
            &&& (value & 1) | (((value >> 1) & placed) << 1) == value & ((placed << 1) | 1)
        }) by (bit_vector)
            requires
                rest & !(mask / 2) == 0,
        ;
    } else {
        let rest = deposit(value, mask / 2);
        lemma_deposit_within_mask(value, mask / 2);
        lemma_extract_deposit(value, mask / 2);
        assert((rest << 1) >> 1 == rest) by (bit_vector)
            requires
                rest & !(mask / 2) == 0,
        ;
    }
}

} // verus!
