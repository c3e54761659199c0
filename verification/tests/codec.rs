use friend_code::alphabet::{symbol_index, ALPHABET};
use friend_code::csgo::{encode_with_noise, FriendCode, FriendCodeError, NIBBLE_MASK};
use friend_code::noise::noise_from_digest;
use std::convert::{TryFrom, TryInto};

// GabeN's CS:GO friend code
const FRIEND_CODE: &str = "SUCVS-FADA";

fn encode(xuid: u32) -> String {
    let code: Result<String, FriendCodeError> = FriendCode::from(xuid).try_into();
    code.unwrap()
}

fn decode(text: &str) -> Result<u32, FriendCodeError> {
    FriendCode::try_from(text).map(|code| code.xuid)
}

#[test]
fn test_decode() {
    let result = FriendCode::try_from(FRIEND_CODE);
    assert!(result.is_ok());
    assert_eq!(result.unwrap().xuid, 22202);
}

#[test]
fn test_encode() {
    let result = FriendCode::from(22202);
    let code: Result<String, FriendCodeError> = result.try_into();
    assert!(code.is_ok());
    assert_eq!(code.unwrap(), FRIEND_CODE);
}

#[test]
fn encode_known_accounts() {
    assert_eq!(encode(0), "AEJJS-ABCA");
    assert_eq!(encode(1), "AJJJS-ABAA");
    assert_eq!(encode(0x1234_5678), "SBCVE-FGEJ");
    assert_eq!(encode(0x8000_0000), "AEJAS-ABBD");
    assert_eq!(encode(u32::MAX), "S9ZZR-999P");
}

#[test]
fn decode_known_codes() {
    assert_eq!(decode("AEJJS-ABCA"), Ok(0));
    assert_eq!(decode("AJJJS-ABAA"), Ok(1));
    assert_eq!(decode("SBCVE-FGEJ"), Ok(0x1234_5678));
    assert_eq!(decode("AEJAS-ABBD"), Ok(0x8000_0000));
    assert_eq!(decode("S9ZZR-999P"), Ok(u32::MAX));
    assert_eq!(decode("AUCVS-FADA"), Ok(22170));
}

#[test]
fn round_trip_on_many_accounts() {
    let mut xuid: u32 = 0;
    for _ in 0..5000 {
        assert_eq!(decode(&encode(xuid)), Ok(xuid));
        xuid = xuid.wrapping_mul(1_664_525).wrapping_add(1_013_904_223);
    }
    for shift in 0..32 {
        let xuid = 1u32 << shift;
        assert_eq!(decode(&encode(xuid)), Ok(xuid));
        assert_eq!(decode(&encode(!xuid)), Ok(!xuid));
    }
}

#[test]
fn calculate_noise_known_values() {
    assert_eq!(FriendCode::calculate_noise(22202), Ok(25));
    assert_eq!(FriendCode::calculate_noise(0), Ok(245));
    assert_eq!(FriendCode::calculate_noise(1), Ok(116));
    assert_eq!(FriendCode::calculate_noise(0x1234_5678), Ok(0));
    assert_eq!(FriendCode::calculate_noise(u32::MAX), Ok(141));
}

#[test]
fn calculate_noise_is_one_byte() {
    let mut xuid: u32 = 7;
    for _ in 0..1000 {
        assert!(FriendCode::calculate_noise(xuid).unwrap() < 256);
        xuid = xuid.wrapping_mul(1_664_525).wrapping_add(1_013_904_223);
    }
}

#[test]
fn noise_from_digest_reverses_first_byte() {
    let mut digest = [0u8; 16];
    digest[0] = 0x01;
    assert_eq!(noise_from_digest(&digest), 0x80);
    digest[0] = 0x98;
    assert_eq!(noise_from_digest(&digest), 0x19);
    digest[0] = 0xF0;
    digest[1] = 0xFF;
    digest[2] = 0xFF;
    digest[3] = 0xFF;
    digest[15] = 0xFF;
    assert_eq!(noise_from_digest(&digest), 0x0F);
    for byte in 0..=255u8 {
        digest[0] = byte;
        assert_eq!(noise_from_digest(&digest), byte.reverse_bits());
    }
}

#[test]
fn encode_with_noise_known_values() {
    assert_eq!(encode_with_noise(0, 0), "AAAAA-AAAA");
    assert_eq!(encode_with_noise(0, 0xFF), "AEJJS-ABDC");
    assert_eq!(encode_with_noise(0, 0xA5), "AEJAA-ABCA");
    assert_eq!(encode_with_noise(1, 0), "AJAAA-AAAA");
    assert_eq!(encode_with_noise(22202, 0), "SUCVA-FAAA");
    assert_eq!(encode_with_noise(22202, 25), "SUCVS-FADA");
    assert_eq!(encode_with_noise(22202, 0xFF), "SYL5S-FBDC");
    assert_eq!(encode_with_noise(0x8000_0000, 0), "AAAAA-AAAB");
    assert_eq!(encode_with_noise(u32::MAX, 0), "S5ZZR-986P");
    assert_eq!(encode_with_noise(u32::MAX, 0xFF), "S9999-999R");
    assert_eq!(encode_with_noise(0x1234_5678, 0xA5), "SFLVE-FHGJ");
}

#[test]
fn decode_ignores_the_noise() {
    for xuid in [0u32, 1, 22202, 0x1234_5678, 0x8000_0000, u32::MAX] {
        let mut seen = std::collections::HashSet::new();
        for noise in 0..=255u8 {
            let text = encode_with_noise(xuid, noise);
            assert_eq!(decode(&text), Ok(xuid));
            seen.insert(text);
        }
        assert_eq!(seen.len(), 256);
    }
}

fn symbols_of(text: &str) -> Vec<u64> {
    text.chars()
        .filter(|c| *c != '-')
        .map(|c| symbol_index(c).unwrap() as u64)
        .collect()
}

fn state_of(text: &str) -> u64 {
    let mut word: u64 = 0;
    for (i, value) in symbols_of(text).iter().enumerate() {
        word |= value << (5 * (i + 4));
    }
    word.swap_bytes()
}

fn text_of(state: u64) -> String {
    let word = state.swap_bytes();
    let alphabet: Vec<char> = ALPHABET.chars().collect();
    let symbols: String = (4..13).map(|i| alphabet[((word >> (5 * i)) & 0x1F) as usize]).collect();
    format!("{}-{}", &symbols[0..5], &symbols[5..9])
}

#[test]
fn corrupting_noise_positions_keeps_the_account() {
    let noise_positions: u64 = !NIBBLE_MASK & 0xFF_FFFF_FFFF;
    assert_eq!(noise_positions.count_ones(), 8);
    for xuid in [22202u32, 0, u32::MAX, 0xDEAD_BEEF] {
        let state = state_of(&encode(xuid));
        assert_eq!(text_of(state), encode(xuid));
        for position in 0..40 {
            let bit = 1u64 << position;
            let corrupted = text_of(state ^ bit);
            if noise_positions & bit != 0 {
                assert_eq!(decode(&corrupted), Ok(xuid));
            } else {
                assert_ne!(decode(&corrupted), Ok(xuid));
            }
        }
        assert_eq!(decode(&text_of(state ^ noise_positions)), Ok(xuid));
    }
}

#[test]
fn encoded_text_has_the_code_format() {
    let mut xuid: u32 = 99;
    for _ in 0..2000 {
        let text = encode(xuid);
        let chars: Vec<char> = text.chars().collect();
        assert_eq!(text.len(), 10);
        assert_eq!(chars.len(), 10);
        for (i, c) in chars.iter().enumerate() {
            if i == 5 {
                assert_eq!(*c, '-');
            } else {
                assert!(ALPHABET.contains(*c));
            }
        }
        xuid = xuid.wrapping_mul(22_695_477).wrapping_add(1);
    }
}

#[test]
fn alphabet_has_32_unambiguous_symbols() {
    assert_eq!(ALPHABET, "ABCDEFGHJKLMNPQRSTUVWXYZ23456789");
    assert_eq!(ALPHABET.chars().count(), 32);
    for c in ['0', '1', 'I', 'O', '-'] {
        assert!(!ALPHABET.contains(c));
        assert_eq!(symbol_index(c), None);
    }
    let distinct: std::collections::HashSet<char> = ALPHABET.chars().collect();
    assert_eq!(distinct.len(), 32);
}

#[test]
fn symbol_index_is_the_position() {
    for (i, c) in ALPHABET.chars().enumerate() {
        assert_eq!(symbol_index(c), Some(i as u8));
    }
    assert_eq!(symbol_index('A'), Some(0));
    assert_eq!(symbol_index('S'), Some(16));
    assert_eq!(symbol_index('9'), Some(31));
    assert_eq!(symbol_index('a'), None);
    assert_eq!(symbol_index(' '), None);
    assert_eq!(symbol_index('\u{e9}'), None);
}

#[test]
fn decode_rejects_a_foreign_character() {
    assert_eq!(decode("SUCVS-FAD0"), Err(FriendCodeError::InvalidCharacter('0')));
    assert_eq!(decode("sucvs-fada"), Err(FriendCodeError::InvalidCharacter('a')));
    assert_eq!(decode("SUCVS FADA"), Err(FriendCodeError::InvalidCharacter(' ')));
    assert_eq!(decode("SUCVS-FAD\u{e9}"), Err(FriendCodeError::InvalidCharacter('\u{e9}')));
    assert_eq!(decode("SUCVS_FADA"), Err(FriendCodeError::InvalidCharacter('_')));
    for foreign in ['0', '1', 'I', 'O'] {
        for position in 0..10 {
            if position == 5 {
                continue;
            }
            let mut chars: Vec<char> = FRIEND_CODE.chars().collect();
            chars[position] = foreign;
            let text: String = chars.into_iter().collect();
            assert_eq!(decode(&text), Err(FriendCodeError::InvalidCharacter(foreign)));
        }
    }
}

#[test]
fn decode_names_the_last_foreign_character() {
    assert_eq!(decode("0UCVS-FAD1"), Err(FriendCodeError::InvalidCharacter('1')));
    assert_eq!(decode("1UCVS-FAD0"), Err(FriendCodeError::InvalidCharacter('0')));
    assert_eq!(decode("xyz"), Err(FriendCodeError::InvalidCharacter('z')));
    assert_eq!(decode("BUCVS-FAD0"), Err(FriendCodeError::InvalidCharacter('0')));
}

#[test]
fn decode_rejects_set_high_bits() {
    assert_eq!(decode("BUCVS-FADA"), Err(FriendCodeError::BadFriendCode));
    assert_eq!(decode("99999-9999"), Err(FriendCodeError::BadFriendCode));
    assert_eq!(decode("B"), Err(FriendCodeError::BadFriendCode));
    assert_eq!(decode("S9999-9999"), Ok(u32::MAX));
    assert_eq!(decode("AAAAA-AAAA"), Ok(0));
}

#[test]
fn first_symbol_decides_the_high_bits() {
    for c in ALPHABET.chars() {
        let text = format!("{}UCVS-FADA", c);
        let result = decode(&text);
        if symbol_index(c).unwrap() % 16 == 0 {
            assert!(result.is_ok());
        } else {
            assert_eq!(result, Err(FriendCodeError::BadFriendCode));
        }
    }
    for tail in ["99", "Z9", "9Z", "A9", "29"] {
        let text = format!("SUCVS-FA{}", tail);
        assert!(decode(&text).is_ok());
    }
}

#[test]
fn decode_passes_over_separators() {
    assert_eq!(decode("SUCVSFADA"), Ok(22202));
    assert_eq!(decode("S-U-C-V-S-F-A-D-A"), Ok(22202));
    assert_eq!(decode("-SUCVS--FADA-"), Ok(22202));
    assert_eq!(decode("-"), Ok(0));
}

#[test]
fn decode_of_short_and_long_texts() {
    assert_eq!(decode(""), Ok(0));
    assert_eq!(decode("A"), Ok(0));
    assert_eq!(decode("S"), Ok(32));
    assert_eq!(decode("SUCVS-FADAB"), Ok(22202));
    assert_eq!(decode("SUCVS-FADA99999"), Ok(22202));
    assert_eq!(decode("SUCVS-FADS"), Ok(22202));
    let long: String = std::iter::repeat('9').take(1000).collect();
    assert_eq!(decode(&format!("SUCVS-FADA{}", long)), Ok(22202));
}

#[test]
fn decode_never_reports_overflow() {
    for text in ["", "SUCVS-FADA", "99999-9999", "SUCVS-FADA99999999999999999999", "0"] {
        assert_ne!(decode(text), Err(FriendCodeError::Overflow));
    }
}
