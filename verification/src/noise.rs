//! The filler byte of a friend code: eight bits derived from a hash of the
//! account number.

use crate::bits::bits_reversed_u8;
use vstd::bytes::{spec_u64_to_le_bytes, spec_u64_to_le_bytes_to_open};
use vstd::prelude::*;

verus! {

/// The bytes `C`, `S`, `G`, `O` as the high half of a 64-bit word.
pub const NOISE_TAG: u64 = 0x4353_474F_0000_0000;

/// The MD5 digest of `data`: 16 bytes.
pub uninterp spec fn md5_digest(data: Seq<u8>) -> Seq<u8>;

/// Trusted: `md5::compute` returns the MD5 digest of the bytes it is given,
/// which depends on those bytes alone.
#[verifier::external_body]
pub(crate) fn md5_compute(data: &[u8]) -> (digest: [u8; 16])
    ensures
        digest@ == md5_digest(data@),
{
    md5::compute(data).0
}

/// The eight bytes that are hashed for account `xuid`: the tagged account
/// number, least significant byte first. That is the account number's four
/// bytes, then the letters `O`, `G`, `S`, `C`.
pub open spec fn hash_input(xuid: u32) -> Seq<u8> {
    seq![
        (xuid & 0xFF) as u8,
        ((xuid >> 8) & 0xFF) as u8,
        ((xuid >> 16) & 0xFF) as u8,
        ((xuid >> 24) & 0xFF) as u8,
        0x4F,
        0x47,
        0x53,
        0x43,
    ]
}

/// The tagged account number, written least significant byte first, is the
/// hash input.
pub proof fn lemma_hash_input(xuid: u32)
    ensures
        spec_u64_to_le_bytes(xuid as u64 | NOISE_TAG) == hash_input(xuid),
{
    let tagged = xuid as u64 | NOISE_TAG;
    spec_u64_to_le_bytes_to_open(tagged);
    assert({
        let tagged = xuid as u64 | 0x4353_474F_0000_0000;
        &&& (tagged & 0xFF) as u8 == (xuid & 0xFF) as u8
        &&& ((tagged >> 8) & 0xFF) as u8 == ((xuid >> 8) & 0xFF) as u8
        &&& ((tagged >> 16) & 0xFF) as u8 == ((xuid >> 16) & 0xFF) as u8
        &&& ((tagged >> 24) & 0xFF) as u8 == ((xuid >> 24) & 0xFF) as u8
        &&& ((tagged >> 32) & 0xFF) as u8 == 0x4F
        &&& ((tagged >> 40) & 0xFF) as u8 == 0x47
        &&& ((tagged >> 48) & 0xFF) as u8 == 0x53
        &&& ((tagged >> 56) & 0xFF) as u8 == 0x43
    }) by (bit_vector);
    assert(spec_u64_to_le_bytes(tagged) =~= hash_input(xuid));
}

/// The filler byte that a digest gives: its first byte with the bit order
/// reversed. (The first four bytes read as a little-endian 32-bit integer
/// have that byte as their low eight bits.)
pub open spec fn digest_noise(digest: Seq<u8>) -> u8
    recommends
        digest.len() >= 4,
{
    bits_reversed_u8(digest[0])
}

/// The filler byte of account `xuid`.
pub open spec fn noise_of(xuid: u32) -> u8 {
    digest_noise(md5_digest(hash_input(xuid)))
}

/// Reads the filler byte off a digest.
pub fn noise_from_digest(digest: &[u8; 16]) -> (noise: u8)
    ensures
        noise == digest_noise(digest@),
{
    let b0: u32 = digest[0] as u32;
    let b1: u32 = digest[1] as u32;
    let b2: u32 = digest[2] as u32;
    let b3: u32 = digest[3] as u32;
    let word: u32 = b0 | b1 << 8 | b2 << 16 | b3 << 24;
    assert((b0 | b1 << 8 | b2 << 16 | b3 << 24) & 0xFF == b0) by (bit_vector)
        requires
            b0 < 256,
            b1 < 256,
            b2 < 256,
            b3 < 256,
    ;
    let low: u8 = (word & 0xFF) as u8;
    low.reverse_bits()
}

} // verus!
