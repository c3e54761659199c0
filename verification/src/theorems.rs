//! What holds of the codec as a whole.

use crate::alphabet::{lemma_symbol_value_at, symbol_value, SEPARATOR};
use crate::bits::{
    bytes_reversed_u32, bytes_reversed_u64, consumed, deposit, extract,
    lemma_bytes_reversed_twice_u64, lemma_extract_ignores,
};
use crate::csgo::{
    code_symbols, decoded, encoded, is_foreign, is_written_code, last_foreign, not_separator,
    packed, placeholder, scrambled, state_word, state_xuid, text_state, word_symbol,
    word_symbols, written, FriendCode, FriendCodeError, HIGH_BITS, NIBBLE_MASK,
};
use crate::num::{nibbles_swapped_u32, nibbles_swapped_u64};
use vstd::prelude::*;

verus! {

/// The mask holds bit `k` exactly when `k` is below 40 and no multiple of
/// five: 32 data positions, with eight filler positions between them.
pub proof fn lemma_mask_layout(k: u64)
    requires
        k < 64,
    ensures
        (NIBBLE_MASK >> k) & 1 == 1 <==> k < 40 && k % 5 != 0,
        consumed(NIBBLE_MASK) == 0xFFFF_FFFF,
        consumed(!NIBBLE_MASK & !HIGH_BITS) == 0xFF,
{
    assert(((0xF7_BDEF_7BDEu64 >> k) & 1 == 1 <==> k < 40 && k % 5 != 0) && consumed(
        0xF7_BDEF_7BDE,
    ) == 0xFFFF_FFFF && consumed(!0xF7_BDEF_7BDEu64 & !0xFFFF_FF00_0000_0000u64) == 0xFF)
        by (bit_vector)
        requires
            k < 64,
    ;
}

/// How a state is laid out: for `j` below eight, bit `j` of the filler is bit
/// `5 * j` of the state, and nibble `j` of the scrambled account number is
/// the four bits above it.
pub proof fn lemma_state_layout(xuid: u32, noise: u8, j: u64)
    requires
        j < 8,
    ensures
        (state_word(xuid, noise) >> (5 * j) as u64) & 1 == (noise as u64 >> j) & 1,
        (state_word(xuid, noise) >> (5 * j + 1) as u64) & 0xF == (scrambled(xuid) as u64 >> (4
            * j) as u64) & 0xF,
{
    let data = scrambled(xuid) as u64;
    let filler = noise as u64;
    assert({
        let state = deposit(data, 0xF7_BDEF_7BDE) | deposit(filler, !0xF7_BDEF_7BDEu64);
        &&& (state >> (5 * j) as u64) & 1 == (filler >> j) & 1
        &&& (state >> (5 * j + 1) as u64) & 0xF == (data >> (4 * j) as u64) & 0xF
    }) by (bit_vector)
        requires
            j < 8,
            data <= 0xFFFF_FFFF,
            filler <= 0xFF,
    ;
}

/// The word that symbols give holds the value of symbol `i` on bits `5 * i`
/// to `5 * i + 4`, for each symbol that lies within the word.
pub proof fn lemma_packed_groups(symbols: Seq<char>, i: int)
    requires
        0 <= i < symbols.len(),
        i < 12,
    ensures
        (packed(symbols) >> (5 * i) as u64) & 0x1F == symbol_value(symbols[i]).unwrap_or(0),
    decreases i,
{
    let rest = packed(symbols.drop_first());
    let first = symbol_value(symbols[0]).unwrap_or(0) as u64;
    if i == 0 {
        assert((((rest << 5) | first) >> 0) & 0x1F == first) by (bit_vector)
            requires
                first < 32,
        ;
    } else {
        lemma_packed_groups(symbols.drop_first(), i - 1);
        let low = (5 * i) as u64;
        let below = (5 * (i - 1)) as u64;
        assert((((rest << 5) | first) >> low) & 0x1F == (rest >> below) & 0x1F) by (bit_vector)
            requires
                first < 32,
                low == below + 5,
                low <= 55,
        ;
    }
}

/// Every symbol of a word is in the alphabet, and its value is the word's
/// five bits at that place.
pub proof fn lemma_word_symbol_value(word: u64, i: int)
    requires
        0 <= i < 13,
    ensures
        symbol_value(word_symbol(word, i)) == Some(((word >> (5 * i) as u64) & 0x1F) as u8),
{
    let shift = (5 * i) as u64;
    assert((word >> shift) & 0x1F < 32) by (bit_vector);
    lemma_symbol_value_at(((word >> shift) & 0x1F) as int);
}

/// The written form of any word has the shape of a written code.
pub proof fn theorem_written_shape(word: u64)
    ensures
        is_written_code(written(word)),
{
    let text = written(word);
    assert forall|i: int| 0 <= i < 10 && i != 5 implies symbol_value(#[trigger] text[i]) is Some by {
        if i < 5 {
            assert(text[i] == word_symbol(word, i + 4));
            lemma_word_symbol_value(word, i + 4);
        } else {
            assert(text[i] == word_symbol(word, i + 3));
            lemma_word_symbol_value(word, i + 3);
        }
    }
}

/// A sequence whose every element passes a filter passes whole.
proof fn lemma_filter_keeps_all(s: Seq<char>, pred: spec_fn(char) -> bool)
    requires
        forall|i: int| 0 <= i < s.len() ==> pred(#[trigger] s[i]),
    ensures
        s.filter(pred) == s,
    decreases s.len(),
{
    reveal(Seq::filter);
    if s.len() > 0 {
        lemma_filter_keeps_all(s.drop_last(), pred);
        assert(s.drop_last().push(s.last()) =~= s);
    }
}

/// Symbols alone have no foreign character among them.
proof fn lemma_no_foreign(symbols: Seq<char>)
    requires
        forall|i: int| 0 <= i < symbols.len() ==> symbol_value(#[trigger] symbols[i]) is Some,
    ensures
        last_foreign(symbols) is None,
    decreases symbols.len(),
{
    if symbols.len() > 0 {
        lemma_no_foreign(symbols.drop_first());
    }
}

/// The symbols of a word from place `i` on give the word shifted down to
/// that place.
proof fn lemma_packed_from(word: u64, i: int)
    requires
        0 <= i <= 12,
    ensures
        packed(word_symbols(word).skip(i)) == word >> (5 * i) as u64,
    decreases 12 - i,
{
    let symbols = word_symbols(word);
    let rest = symbols.skip(i);
    let low = (5 * i) as u64;
    assert(rest[0] == word_symbol(word, i));
    lemma_word_symbol_value(word, i);
    if i == 12 {
        assert(rest.drop_first() =~= Seq::<char>::empty());
        assert(packed(rest.drop_first()) == 0);
        assert(low == 60);
        assert((0u64 << 5) | ((((word >> 60) & 0x1F) as u8) as u64) == word >> 60) by (bit_vector);
    } else {
        assert(rest.drop_first() =~= symbols.skip(i + 1));
        lemma_packed_from(word, i + 1);
        let high = (5 * (i + 1)) as u64;
        assert(((word >> high) << 5) | ((((word >> low) & 0x1F) as u8) as u64) == word >> low)
            by (bit_vector)
            requires
                low <= 55,
                high == low + 5,
        ;
    }
}

/// The 13 symbols of a word give the word back.
pub proof fn lemma_packed_word_symbols(word: u64)
    ensures
        last_foreign(word_symbols(word)) is None,
        packed(word_symbols(word)) == word,
{
    let symbols = word_symbols(word);
    assert forall|i: int| 0 <= i < symbols.len() implies symbol_value(#[trigger] symbols[i]) is Some by {
        lemma_word_symbol_value(word, i);
    }
    lemma_no_foreign(symbols);
    lemma_packed_from(word, 0);
    assert(symbols.skip(0) =~= symbols);
    assert(word >> 0 == word) by (bit_vector);
}

/// Reading the written form of a word whose 20 lowest bits are zero gives
/// all 13 symbols of the word.
pub proof fn lemma_symbols_of_written(word: u64)
    requires
        word & 0xF_FFFF == 0,
    ensures
        code_symbols(written(word)) == word_symbols(word),
{
    let symbols = word_symbols(word);
    let left = symbols.subrange(4, 9);
    let right = symbols.subrange(9, 13);
    let mid = seq![SEPARATOR];
    let keep = not_separator();
    assert forall|i: int| 0 <= i < 13 implies keep(#[trigger] symbols[i]) by {
        lemma_word_symbol_value(word, i);
    }
    lemma_filter_keeps_all(left, keep);
    lemma_filter_keeps_all(right, keep);
    assert(mid.filter(keep) =~= Seq::<char>::empty()) by {
        reveal_with_fuel(Seq::filter, 2);
        assert(mid.drop_last() =~= Seq::<char>::empty());
    }
    Seq::filter_distributes_over_add(left, mid, keep);
    Seq::filter_distributes_over_add(left + mid, right, keep);
    assert((word >> 0) & 0x1F == 0 && (word >> 5) & 0x1F == 0 && (word >> 10) & 0x1F == 0 && (word
        >> 15) & 0x1F == 0) by (bit_vector)
        requires
            word & 0xF_FFFF == 0,
    ;
    assert(forall|i: int| 0 <= i < 4 ==> symbols[i] == 'A');
    assert(code_symbols(written(word)) =~= symbols);
}

/// The state of a code has no bit above position 39, and the bits on its
/// data positions are the scrambled account number, whatever the filler.
pub proof fn lemma_state_word(xuid: u32, noise: u8)
    ensures
        state_word(xuid, noise) & HIGH_BITS == 0,
        extract(state_word(xuid, noise), NIBBLE_MASK) == scrambled(xuid) as u64,
{
    let data = scrambled(xuid) as u64;
    let filler = noise as u64;
    assert({
        let state = deposit(data, 0xF7_BDEF_7BDE) | deposit(filler, !0xF7_BDEF_7BDEu64);
        &&& state & 0xFFFF_FF00_0000_0000 == 0
        &&& extract(state, 0xF7_BDEF_7BDE) == data
    }) by (bit_vector)
        requires
            data <= 0xFFFF_FFFF,
            filler <= 0xFF,
    ;
}

/// A text written from a state without high bits reads back as that state,
/// and decodes to the account number on the state's data positions.
pub proof fn theorem_written_state_decodes(state: u64)
    requires
        state & HIGH_BITS == 0,
    ensures
        text_state(written(bytes_reversed_u64(state))) == state,
        decoded(written(bytes_reversed_u64(state))) matches Ok(code) && code.xuid == state_xuid(
            state,
        ),
{
    let word = bytes_reversed_u64(state);
    assert(bytes_reversed_u64(state) & 0xF_FFFF == 0) by (bit_vector)
        requires
            state & 0xFFFF_FF00_0000_0000 == 0,
    ;
    lemma_symbols_of_written(word);
    lemma_packed_word_symbols(word);
    lemma_bytes_reversed_twice_u64(state);
}

/// Scrambling an account number and undoing it gives the number back.
pub proof fn lemma_unscramble(xuid: u32)
    ensures
        bytes_reversed_u32(nibbles_swapped_u64(scrambled(xuid) as u64) as u32) == xuid,
{
    assert(bytes_reversed_u32(
        nibbles_swapped_u64(bytes_reversed_u32(nibbles_swapped_u32(xuid)) as u64) as u32,
    ) == xuid) by (bit_vector);
}

/// Decoding the code of an account gives the account back, whatever filler
/// byte the code was written with.
pub proof fn theorem_round_trip(xuid: u32, noise: u8)
    ensures
        decoded(encoded(xuid, noise)) matches Ok(code) && code.xuid == xuid,
{
    lemma_state_word(xuid, noise);
    lemma_unscramble(xuid);
    theorem_written_state_decodes(state_word(xuid, noise));
}

/// The account number in a state depends on its data positions alone: two
/// states that differ only on the filler positions hold the same number.
pub proof fn theorem_filler_ignored(a: u64, b: u64)
    requires
        a & NIBBLE_MASK == b & NIBBLE_MASK,
    ensures
        state_xuid(a) == state_xuid(b),
{
    lemma_extract_ignores(a, b, NIBBLE_MASK);
}

/// Flipping filler bits in the state of a code, in any number, leaves a text
/// that decodes to the same account.
pub proof fn theorem_filler_corruption(xuid: u32, noise: u8, flips: u64)
    requires
        flips & NIBBLE_MASK == 0,
        flips & HIGH_BITS == 0,
    ensures
        decoded(written(bytes_reversed_u64(state_word(xuid, noise) ^ flips))) matches Ok(code)
            && code.xuid == xuid,
{
    let state = state_word(xuid, noise);
    lemma_state_word(xuid, noise);
    lemma_unscramble(xuid);
    assert((state ^ flips) & 0xF7_BDEF_7BDE == state & 0xF7_BDEF_7BDE && (state ^ flips)
        & 0xFFFF_FF00_0000_0000 == 0) by (bit_vector)
        requires
            flips & 0xF7_BDEF_7BDE == 0,
            flips & 0xFFFF_FF00_0000_0000 == 0,
            state & 0xFFFF_FF00_0000_0000 == 0,
    ;
    theorem_filler_ignored(state ^ flips, state);
    theorem_written_state_decodes(state ^ flips);
}

/// Two texts that both decode, and whose states agree on the data positions,
/// decode to the same account.
pub proof fn theorem_noise_independence(a: Seq<char>, b: Seq<char>)
    requires
        decoded(a) is Ok,
        decoded(b) is Ok,
        text_state(a) & NIBBLE_MASK == text_state(b) & NIBBLE_MASK,
    ensures
        decoded(a) == decoded(b),
{
    theorem_filler_ignored(text_state(a), text_state(b));
}

/// A character put behind the others is the last foreign one if it is no
/// symbol; else the last foreign one is what it was.
proof fn lemma_last_foreign_push(symbols: Seq<char>, c: char)
    ensures
        last_foreign(symbols.push(c)) == if symbol_value(c) is None {
            Some(c)
        } else {
            last_foreign(symbols)
        },
    decreases symbols.len(),
{
    let longer = symbols.push(c);
    if symbols.len() == 0 {
        assert(longer.drop_first() =~= Seq::<char>::empty());
        assert(last_foreign(longer.drop_first()) is None);
        assert(longer[0] == c);
    } else {
        assert(longer.drop_first() =~= symbols.drop_first().push(c));
        assert(longer[0] == symbols[0]);
        lemma_last_foreign_push(symbols.drop_first(), c);
    }
}

/// Behind symbols that hold no foreign character, the last foreign character
/// of a text's symbols is the last foreign character of the text.
proof fn lemma_last_foreign_of_text(front: Seq<char>, text: Seq<char>)
    requires
        last_foreign(front) is None,
    ensures
        match last_foreign(front + text.filter(not_separator())) {
            Some(c) => exists|i: int|
                0 <= i < text.len() && text[i] == c && is_foreign(c) && forall|j: int|
                    i < j < text.len() ==> !is_foreign(text[j]),
            None => forall|i: int| 0 <= i < text.len() ==> !is_foreign(text[i]),
        },
    decreases text.len(),
{
    reveal(Seq::filter);
    let keep = not_separator();
    if text.len() == 0 {
        assert(front + text.filter(keep) =~= front);
    } else {
        let shorter = text.drop_last();
        let c = text.last();
        lemma_last_foreign_of_text(front, shorter);
        let before = front + shorter.filter(keep);
        if c != SEPARATOR {
            assert(front + text.filter(keep) =~= before.push(c));
            lemma_last_foreign_push(before, c);
        }
        match last_foreign(front + text.filter(keep)) {
            Some(found) => {
                if c != SEPARATOR && symbol_value(c) is None {
                    let i = text.len() - 1;
                    assert(text[i] == found && is_foreign(found));
                } else {
                    let i = choose|i: int|
                        0 <= i < shorter.len() && shorter[i] == found && is_foreign(found)
                            && forall|j: int| i < j < shorter.len() ==> !is_foreign(shorter[j]);
                    assert(text[i] == found);
                    assert forall|j: int| i < j < text.len() implies !is_foreign(text[j]) by {
                        if j < shorter.len() {
                            assert(text[j] == shorter[j]);
                        }
                    }
                }
            },
            None => {
                assert forall|i: int| 0 <= i < text.len() implies !is_foreign(text[i]) by {
                    if i < shorter.len() {
                        assert(text[i] == shorter[i]);
                    }
                }
            },
        }
    }
}

/// A text is rejected for a character exactly when it holds a foreign one,
/// and the character named is the last such in the text.
pub proof fn theorem_foreign_character(text: Seq<char>)
    ensures
        match decoded(text) {
            Err(FriendCodeError::InvalidCharacter(c)) => exists|i: int|
                0 <= i < text.len() && text[i] == c && is_foreign(c) && forall|j: int|
                    i < j < text.len() ==> !is_foreign(text[j]),
            _ => forall|i: int| 0 <= i < text.len() ==> !is_foreign(text[i]),
        },
{
    assert forall|i: int| 0 <= i < 4 implies symbol_value(#[trigger] placeholder()[i]) is Some by {
        lemma_symbol_value_at(0);
    }
    lemma_no_foreign(placeholder());
    lemma_last_foreign_of_text(placeholder(), text);
}

/// A text without a foreign character is rejected exactly when its state has
/// a bit above position 39, and never for any other reason.
pub proof fn theorem_high_bits(text: Seq<char>)
    requires
        forall|i: int| 0 <= i < text.len() ==> !is_foreign(text[i]),
    ensures
        text_state(text) & HIGH_BITS != 0 ==> decoded(text) == Err::<FriendCode, FriendCodeError>(
            FriendCodeError::BadFriendCode,
        ),
        text_state(text) & HIGH_BITS == 0 ==> (decoded(text) matches Ok(code) && code.xuid
            == state_xuid(text_state(text))),
{
    theorem_foreign_character(text);
}

/// Where no character is foreign to the symbols, every one of them has a
/// value.
proof fn lemma_all_symbols(symbols: Seq<char>)
    requires
        last_foreign(symbols) is None,
    ensures
        forall|i: int| 0 <= i < symbols.len() ==> symbol_value(#[trigger] symbols[i]) is Some,
    decreases symbols.len(),
{
    if symbols.len() > 0 {
        let rest = symbols.drop_first();
        lemma_all_symbols(rest);
        assert forall|i: int| 0 <= i < symbols.len() implies symbol_value(
            #[trigger] symbols[i],
        ) is Some by {
            if i > 0 {
                assert(symbols[i] == rest[i - 1]);
            }
        }
    }
}

/// Whether a text without foreign characters decodes rests with its first
/// symbol: the four low bits of that symbol's value are bits 44 to 47 of the
/// state, the placeholder fills bits 40 to 43 and 48 to 63 with zeros, and
/// every other symbol lies below bit 40 or is shifted out of the word.
pub proof fn theorem_first_symbol_decides(text: Seq<char>)
    requires
        forall|i: int| 0 <= i < text.len() ==> !is_foreign(text[i]),
        text.filter(not_separator()).len() > 0,
    ensures
        symbol_value(text.filter(not_separator())[0]) is Some,
        decoded(text) is Ok <==> symbol_value(text.filter(not_separator())[0]).unwrap() % 16 == 0,
{
    theorem_foreign_character(text);
    let own = text.filter(not_separator());
    let symbols = code_symbols(text);
    lemma_all_symbols(symbols);
    assert(symbols[4] == own[0]);
    lemma_symbol_value_at(0);
    assert(symbols.skip(0) =~= symbols);
    assert forall|k: int| 0 <= k < 4 implies packed(#[trigger] symbols.skip(k)) == packed(
        symbols.skip(k + 1),
    ) << 5 | 0 by {
        assert(symbols.skip(k).drop_first() =~= symbols.skip(k + 1));
        assert(symbols.skip(k)[0] == 'A');
    }
    assert(symbols.skip(4) =~= own);
    let rest = packed(own.drop_first());
    let first = symbol_value(own[0]).unwrap() as u64;
    let w4 = packed(symbols.skip(4));
    let w3 = packed(symbols.skip(3));
    let w2 = packed(symbols.skip(2));
    let w1 = packed(symbols.skip(1));
    let w0 = packed(symbols.skip(0));
    assert((bytes_reversed_u64(w0) & 0xFFFF_FF00_0000_0000 == 0) <==> first % 16 == 0)
        by (bit_vector)
        requires
            w4 == rest << 5 | first,
            w3 == w4 << 5 | 0,
            w2 == w3 << 5 | 0,
            w1 == w2 << 5 | 0,
            w0 == w1 << 5 | 0,
            first < 32,
    ;
}

/// No text is rejected for an overlong shift: each step shifts by five bits.
pub proof fn theorem_no_overflow(text: Seq<char>)
    ensures
        decoded(text) != Err::<FriendCode, FriendCodeError>(FriendCodeError::Overflow),
{
}

} // verus!
