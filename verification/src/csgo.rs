//! Friend codes: the text form of an account number.
//!
//! A code is written from a 40-bit state. The account number, with the
//! halves of each byte exchanged and its bytes in the opposite order, lies
//! on the 32 positions of `NIBBLE_MASK`; a filler byte lies on the eight
//! positions between them. The state's bytes are put in the opposite order,
//! the resulting word is cut into 13 groups of five bits, and each group is
//! written as one symbol of the alphabet. The first four symbols are always
//! `A` and are left out.

use crate::alphabet::{
    alphabet, lemma_alphabet_text, symbol_index, symbol_value, ALPHABET, SEPARATOR,
};
use crate::bits::{bytes_reversed_u32, bytes_reversed_u64, deposit, extract, pdep, pext};
use crate::noise::{lemma_hash_input, md5_compute, noise_from_digest, noise_of, NOISE_TAG};
use crate::num::{nibbles_swapped_u32, nibbles_swapped_u64, SwapNibbles};
use crate::steam::SteamId;
use crate::theorems::{theorem_foreign_character, theorem_written_shape};
use vstd::bytes::u64_to_le_bytes;
use vstd::prelude::*;

verus! {

/// The bit positions of a state that carry the account number: from bit 1
/// on, four of every five bits, up to bit 39. The bits between them, at
/// positions 0, 5, .., 35, carry the filler.
pub const NIBBLE_MASK: u64 = 0xF7_BDEF_7BDE;

/// The bits of a state that must be zero: positions 40 to 63.
pub const HIGH_BITS: u64 = 0xFFFF_FF00_0000_0000;

/// Why a text is not the friend code of any account.
#[derive(Debug, Copy, Clone, PartialEq, Eq, Structural)]
pub enum FriendCodeError {
    /// The text holds this character, which is neither a symbol nor the
    /// separator.
    InvalidCharacter(char),
    /// The symbols give a state with a set bit among its 24 highest.
    BadFriendCode,
    /// A shift by more than the width of the word was asked for.
    Overflow,
}

/// A friend code: the account number that it stands for.
#[derive(Debug, Copy, Clone, PartialEq, Eq, Structural)]
pub struct FriendCode {
    pub xuid: u32,
}

/// The account number with the halves of each byte exchanged and the bytes
/// in the opposite order.
pub open spec fn scrambled(xuid: u32) -> u32 {
    bytes_reversed_u32(nibbles_swapped_u32(xuid))
}

/// The 40-bit state of a code: the scrambled account number on the data
/// positions, the filler byte on the positions between them.
pub open spec fn state_word(xuid: u32, noise: u8) -> u64 {
    deposit(scrambled(xuid) as u64, NIBBLE_MASK) | deposit(noise as u64, !NIBBLE_MASK)
}

/// Symbol `i` of a word: the alphabet's entry for bits `5 * i` to `5 * i + 4`.
pub open spec fn word_symbol(word: u64, i: int) -> char {
    alphabet()[((word >> (5 * i) as u64) & 0x1F) as int]
}

/// The 13 symbols of a word, least significant first.
pub open spec fn word_symbols(word: u64) -> Seq<char> {
    Seq::new(13, |i: int| word_symbol(word, i))
}

/// The written form of a word: of its 13 symbols the first four are dropped,
/// and the separator stands between the next five and the last four.
pub open spec fn written(word: u64) -> Seq<char> {
    let symbols = word_symbols(word);
    symbols.subrange(4, 9) + seq![SEPARATOR] + symbols.subrange(9, 13)
}

/// The written code of account `xuid` with filler `noise`: the written form
/// of its state with the bytes in the opposite order.
pub open spec fn encoded(xuid: u32, noise: u8) -> Seq<char> {
    written(bytes_reversed_u64(state_word(xuid, noise)))
}

/// The shape of a written code: ten characters, the sixth the separator, the
/// others symbols of the alphabet.
pub open spec fn is_written_code(text: Seq<char>) -> bool {
    &&& text.len() == 10
    &&& text[5] == SEPARATOR
    &&& forall|i: int| 0 <= i < 10 && i != 5 ==> symbol_value(#[trigger] text[i]) is Some
}

/// The four symbols that a written code leaves out, all of value zero.
pub open spec fn placeholder() -> Seq<char> {
    seq!['A', 'A', 'A', 'A']
}

/// Holds of every character but the separator.
pub open spec fn not_separator() -> spec_fn(char) -> bool {
    |c: char| c != SEPARATOR
}

/// Holds of a character that no code may hold: one that is neither a symbol
/// nor the separator.
pub open spec fn is_foreign(c: char) -> bool {
    c != SEPARATOR && symbol_value(c) is None
}

/// Holds of a text with a foreign character in it.
pub open spec fn has_foreign(text: Seq<char>) -> bool {
    exists|i: int| 0 <= i < text.len() && is_foreign(#[trigger] text[i])
}

/// The symbols that a text stands for: the placeholder, then the text
/// without its separators.
pub open spec fn code_symbols(text: Seq<char>) -> Seq<char> {
    placeholder() + text.filter(not_separator())
}

/// The last character of `symbols` that is no symbol of the alphabet, if
/// there is one.
pub open spec fn last_foreign(symbols: Seq<char>) -> Option<char>
    decreases symbols.len(),
{
    if symbols.len() == 0 {
        None
    } else {
        match last_foreign(symbols.drop_first()) {
            Some(c) => Some(c),
            None => if symbol_value(symbols[0]) is None {
                Some(symbols[0])
            } else {
                None
            },
        }
    }
}

/// The word that symbols give: five bits each, the first symbol lowest. What
/// is shifted beyond bit 63 is lost.
pub open spec fn packed(symbols: Seq<char>) -> u64
    decreases symbols.len(),
{
    if symbols.len() == 0 {
        0
    } else {
        (packed(symbols.drop_first()) << 5) | (symbol_value(symbols[0]).unwrap_or(0) as u64)
    }
}

/// The state that the symbols of a text give: their word with the bytes in
/// the opposite order.
pub open spec fn text_state(text: Seq<char>) -> u64 {
    bytes_reversed_u64(packed(code_symbols(text)))
}

/// The account number in a state: the bits on the data positions, gathered,
/// with the halves of each byte exchanged and the bytes in the opposite order.
pub open spec fn state_xuid(state: u64) -> u32 {
    bytes_reversed_u32(nibbles_swapped_u64(extract(state, NIBBLE_MASK)) as u32)
}

/// What a text decodes to: an error with the last foreign character, if it
/// has one; else an error if its state has a bit above position 39; else
/// the account number in its state. The filler is not looked at.
pub open spec fn decoded(text: Seq<char>) -> Result<FriendCode, FriendCodeError> {
    match last_foreign(code_symbols(text)) {
        Some(c) => Err(FriendCodeError::InvalidCharacter(c)),
        None => {
            let state = text_state(text);
            if state & HIGH_BITS == 0 {
                Ok(FriendCode { xuid: state_xuid(state) })
            } else {
                Err(FriendCodeError::BadFriendCode)
            }
        },
    }
}

/// A foreign character stays the last one when characters are put in front.
proof fn lemma_last_foreign_stays(symbols: Seq<char>, i: int)
    requires
        0 <= i <= symbols.len(),
        last_foreign(symbols.skip(i)) is Some,
    ensures
        last_foreign(symbols) == last_foreign(symbols.skip(i)),
    decreases i,
{
    if i == 0 {
        assert(symbols.skip(0) =~= symbols);
    } else {
        assert(symbols.skip(i - 1).drop_first() =~= symbols.skip(i));
        lemma_last_foreign_stays(symbols, i - 1);
    }
}

/// Writes the code of account `xuid` with the filler byte `noise`.
pub fn encode_with_noise(xuid: u32, noise: u8) -> (code: String)
    ensures
        code@ == encoded(xuid, noise),
        is_written_code(code@),
{
    proof {
        lemma_alphabet_text();
        theorem_written_shape(bytes_reversed_u64(state_word(xuid, noise)));
    }
    assert(!NIBBLE_MASK != u64::MAX) by (bit_vector);
    // Scatter the filler so that it fits between the data positions.
    let noise_bits = pdep(noise as u64, !NIBBLE_MASK);
    // Prepare the account number for scattering.
    let steamid = xuid.swap_nibbles().swap_bytes() as u64;
    // Scatter it and combine it with the filler.
    let word = (pdep(steamid, NIBBLE_MASK) | noise_bits).swap_bytes();
    // Five bits give one symbol of the code.
    let mut symbols = String::new();
    let mut i: u32 = 0;
    while i < 13
        invariant
            i <= 13,
            ALPHABET@ == alphabet(),
            symbols@ == word_symbols(word).take(i as int),
        decreases 13 - i,
    {
        let index = ((word >> (5 * i)) & 0x1F) as usize;
        assert((word >> (5 * i)) & 0x1F < 32) by (bit_vector);
        symbols.append(ALPHABET.substring_char(index, index + 1));
        proof {
            assert(ALPHABET@.subrange(index as int, index + 1) =~= seq![
                word_symbol(word, i as int),
            ]);
            assert(symbols@ =~= word_symbols(word).take(i + 1));
        }
        i += 1;
    }
    // Leave out the leading symbols and set the separator.
    let mut code = String::from_str(symbols.as_str().substring_char(4, 9));
    code.append("-");
    code.append(symbols.as_str().substring_char(9, 13));
    proof {
        reveal_strlit("-");
        assert("-"@ =~= seq![SEPARATOR]);
        assert(symbols@ =~= word_symbols(word));
    }
    code
}

impl FriendCode {
    /// Calculates the filler byte of account `xuid`: the first byte of the
    /// hash of the tagged account number, its bits in the opposite order.
    /// It never fails.
    pub fn calculate_noise(xuid: u32) -> (noise: Result<u32, FriendCodeError>)
        ensures
            noise == Ok::<u32, FriendCodeError>(noise_of(xuid) as u32),
    {
        let tagged: u64 = xuid as u64 | NOISE_TAG;
        let bytes = u64_to_le_bytes(tagged);
        proof {
            lemma_hash_input(xuid);
        }
        let digest = md5_compute(bytes.as_slice());
        Ok(noise_from_digest(&digest) as u32)
    }
}

impl TryInto<String> for FriendCode {
    type Error = FriendCodeError;

    /// Writes the code of this account. Eight bits of a code are free; they
    /// are filled from the hash of the account number. It never fails.
    fn try_into(self) -> (code: Result<String, Self::Error>)
        ensures
            ({
                let code: Result<String, FriendCodeError> = code;
                &&& code is Ok
                &&& code->Ok_0@ == encoded(self.xuid, noise_of(self.xuid))
                &&& is_written_code(code->Ok_0@)
            }),
    {
        let noise = match FriendCode::calculate_noise(self.xuid) {
            Ok(noise) => noise,
            Err(e) => {
                return Err(e);
            },
        };
        Ok(encode_with_noise(self.xuid, noise as u8))
    }
}

impl vstd::std_specs::convert::TryIntoSpecImpl<String> for FriendCode {
    /// A `String` cannot be written down in a specification, so the
    /// conversion is described by the `ensures` of `try_into`, over the view
    /// of its result.
    open spec fn obeys_try_into_spec() -> bool {
        false
    }

    open spec fn try_into_spec(self) -> Result<String, FriendCodeError> {
        arbitrary()
    }
}

impl<'a> TryFrom<&'a str> for FriendCode {
    type Error = FriendCodeError;

    /// Reads a written code. Separators are passed over wherever they stand,
    /// and the text may have any length: symbols beyond the thirteenth are
    /// shifted out of the word. The filler is not checked against the hash
    /// of the account number.
    fn try_from(value: &'a str) -> (code: Result<FriendCode, FriendCodeError>)
        ensures
            code == decoded(value@),
            has_foreign(value@) <==> code matches Err(FriendCodeError::InvalidCharacter(_)),
            !has_foreign(value@) && text_state(value@) & HIGH_BITS != 0 <==> code == Err::<
                FriendCode,
                FriendCodeError,
            >(FriendCodeError::BadFriendCode),
            !has_foreign(value@) && text_state(value@) & HIGH_BITS == 0 <==> code is Ok,
    {
        proof {
            theorem_foreign_character(value@);
        }
        // Put the leading symbols back and take the separators out.
        let mut symbols: Vec<char> = vec!['A', 'A', 'A', 'A'];
        assert(symbols@ =~= placeholder());
        for c in it: value.chars()
            invariant
                it.seq() == value@,
                symbols@ == placeholder() + value@.take(it.index() as int).filter(
                    not_separator(),
                ),
        {
            proof {
                let next = value@.take(it.index() + 1);
                assert(next.drop_last() =~= value@.take(it.index() as int));
                assert(next.last() == c);
                reveal(Seq::filter);
            }
            if c != SEPARATOR {
                symbols.push(c);
            }
        }
        assert(value@.take(value@.len() as int) =~= value@);
        // Fold the symbols into a word, the last symbol first.
        let mut word: u64 = 0;
        let mut i: usize = symbols.len();
        while i > 0
            invariant
                i <= symbols.len(),
                symbols@ == code_symbols(value@),
                last_foreign(symbols@.skip(i as int)) is None,
                word == packed(symbols@.skip(i as int)),
            decreases i,
        {
            i -= 1;
            let c = symbols[i];
            proof {
                let rest = symbols@.skip(i as int);
                assert(rest.drop_first() =~= symbols@.skip(i + 1));
                assert(rest[0] == c);
            }
            let digit = match symbol_index(c) {
                Some(digit) => digit as u64,
                None => {
                    proof {
                        lemma_last_foreign_stays(symbols@, i as int);
                        theorem_foreign_character(value@);
                    }
                    return Err(FriendCodeError::InvalidCharacter(c));
                },
            };
            let shifted = match word.checked_shl(5) {
                Some(shifted) => shifted,
                None => {
                    return Err(FriendCodeError::Overflow);
                },
            };
            assert(shifted + digit == shifted | digit && shifted + digit <= u64::MAX)
                by (bit_vector)
                requires
                    shifted == word << 5u32,
                    digit < 32,
            ;
            word = shifted + digit;
        }
        assert(symbols@.skip(0) =~= symbols@);
        let state = word.swap_bytes();
        if state & HIGH_BITS == 0 {
            // Gather the bits of the account number.
            let xuid = pext(state, NIBBLE_MASK);
            assert(nibbles_swapped_u64(extract(state, 0xF7_BDEF_7BDE)) <= 0xFFFF_FFFF)
                by (bit_vector);
            // Swap all nibbles in the integer.
            let xuid = xuid.swap_nibbles();
            // Do a final endianness swap.
            let xuid = (xuid as u32).swap_bytes();
            return Ok(FriendCode { xuid });
        }
        Err(FriendCodeError::BadFriendCode)
    }
}

impl<'a> vstd::std_specs::convert::TryFromSpecImpl<&'a str> for FriendCode {
    open spec fn obeys_try_from_spec() -> bool {
        true
    }

    open spec fn try_from_spec(value: &'a str) -> Result<FriendCode, FriendCodeError> {
        decoded(value@)
    }
}

impl From<SteamId> for FriendCode {
    /// Keeps the account number and drops the rest of the identity.
    fn from(steamid: SteamId) -> (code: FriendCode)
        ensures
            code.xuid == steamid.xuid,
    {
        FriendCode { xuid: steamid.xuid }
    }
}

impl vstd::std_specs::convert::FromSpecImpl<SteamId> for FriendCode {
    open spec fn obeys_from_spec() -> bool {
        true
    }

    open spec fn from_spec(steamid: SteamId) -> FriendCode {
        FriendCode { xuid: steamid.xuid }
    }
}

impl From<FriendCode> for SteamId {
    /// A code names the account only: universe, account type and instance
    /// are the defaults, whatever they were in the identity that the code
    /// was made from.
    fn from(code: FriendCode) -> (steamid: SteamId)
        ensures
            steamid == SteamId::of_account(code.xuid),
    {
        SteamId { xuid: code.xuid, ..Default::default() }
    }
}

impl vstd::std_specs::convert::FromSpecImpl<FriendCode> for SteamId {
    open spec fn obeys_from_spec() -> bool {
        true
    }

    open spec fn from_spec(code: FriendCode) -> SteamId {
        SteamId::of_account(code.xuid)
    }
}

impl From<u32> for FriendCode {
    fn from(xuid: u32) -> (code: FriendCode)
        ensures
            code.xuid == xuid,
    {
        FriendCode { xuid }
    }
}

impl vstd::std_specs::convert::FromSpecImpl<u32> for FriendCode {
    open spec fn obeys_from_spec() -> bool {
        true
    }

    open spec fn from_spec(xuid: u32) -> FriendCode {
        FriendCode { xuid }
    }
}

} // verus!
