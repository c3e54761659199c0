//! The symbols that friend codes are written in.

use vstd::prelude::*;

verus! {

/// The 32 symbols of a friend code, in the order of their values. The
/// characters `0`, `1`, `I` and `O` are left out, as they are easily misread.
pub const ALPHABET: &'static str = "ABCDEFGHJKLMNPQRSTUVWXYZ23456789";

/// The character between the two groups of a written code.
pub const SEPARATOR: char = '-';

/// The symbols of a friend code, in the order of their values.
pub open spec fn alphabet() -> Seq<char> {
    seq![
        'A', 'B', 'C', 'D', 'E', 'F', 'G', 'H', 'J', 'K', 'L', 'M', 'N', 'P', 'Q', 'R',
        'S', 'T', 'U', 'V', 'W', 'X', 'Y', 'Z', '2', '3', '4', '5', '6', '7', '8', '9',
    ]
}

/// The value of a symbol: its position in the alphabet. `None` for a
/// character that is no symbol.
pub open spec fn symbol_value(c: char) -> Option<u8> {
    if alphabet().contains(c) {
        Some(alphabet().index_of(c) as u8)
    } else {
        None
    }
}

/// The constant `ALPHABET` spells out `alphabet()`.
pub proof fn lemma_alphabet_text()
    ensures
        ALPHABET@ == alphabet(),
{
    reveal_strlit("ABCDEFGHJKLMNPQRSTUVWXYZ23456789");
    assert(ALPHABET@ =~= alphabet());
}

/// No symbol occurs twice, so each position is the value of its symbol.
pub proof fn lemma_symbol_value_at(i: int)
    requires
        0 <= i < 32,
    ensures
        symbol_value(alphabet()[i]) == Some(i as u8),
{
    let c = alphabet()[i];
    assert(alphabet().contains(c));
    assert(forall|a: int, b: int| 0 <= a < b < 32 ==> alphabet()[a] != alphabet()[b]);
}

/// The alphabet holds none of the characters that are easily misread, nor
/// the separator.
pub proof fn theorem_alphabet_unambiguous()
    ensures
        symbol_value('0') is None,
        symbol_value('1') is None,
        symbol_value('I') is None,
        symbol_value('O') is None,
        symbol_value(SEPARATOR) is None,
{
}

/// Looks a character up in the alphabet.
pub fn symbol_index(c: char) -> (value: Option<u8>)
    ensures
        value == symbol_value(c),
{
    proof {
        lemma_alphabet_text();
    }
    let mut i: usize = 0;
    while i < 32
        invariant
            i <= 32,
            ALPHABET@ == alphabet(),
            forall|j: int| 0 <= j < i ==> alphabet()[j] != c,
        decreases 32 - i,
    {
        if ALPHABET.get_char(i) == c {
            proof {
                lemma_symbol_value_at(i as int);
            }
            return Some(i as u8);
        }
        i += 1;
    }
    None
}

} // verus!
