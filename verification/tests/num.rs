use friend_code::num::SwapNibbles;

#[test]
fn swap_nibbles_u32_known_values() {
    assert_eq!(0x1234_5678u32.swap_nibbles(), 0x2143_6587);
    assert_eq!(0u32.swap_nibbles(), 0);
    assert_eq!(u32::MAX.swap_nibbles(), u32::MAX);
    assert_eq!(0x0000_000Fu32.swap_nibbles(), 0x0000_00F0);
    assert_eq!(0xF000_0000u32.swap_nibbles(), 0x0F00_0000);
    assert_eq!(22202u32.swap_nibbles(), 0x0000_65AB);
}

#[test]
fn swap_nibbles_u64_known_values() {
    assert_eq!(0x0123_4567_89AB_CDEFu64.swap_nibbles(), 0x1032_5476_98BA_DCFE);
    assert_eq!(0u64.swap_nibbles(), 0);
    assert_eq!(u64::MAX.swap_nibbles(), u64::MAX);
    assert_eq!(0xF000_0000_0000_000Fu64.swap_nibbles(), 0x0F00_0000_0000_00F0);
}

#[test]
fn swap_nibbles_twice_is_identity() {
    let mut x: u64 = 0x9E37_79B9_7F4A_7C15;
    for _ in 0..1000 {
        assert_eq!(x.swap_nibbles().swap_nibbles(), x);
        let low = x as u32;
        assert_eq!(low.swap_nibbles().swap_nibbles(), low);
        assert_eq!(low.swap_nibbles() as u64, (low as u64).swap_nibbles());
        x = x.wrapping_mul(6_364_136_223_846_793_005).wrapping_add(1_442_695_040_888_963_407);
    }
}

#[test]
fn swap_nibbles_moves_each_nibble_to_its_neighbour() {
    let x: u32 = 0xA1B2_C3D4;
    let y = x.swap_nibbles();
    for k in 0..8u32 {
        assert_eq!((y >> (4 * k)) & 0xF, (x >> (4 * (k ^ 1))) & 0xF);
    }
}
