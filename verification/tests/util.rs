use nes::emulator::util::{
    bcd_to_hex, combine_bytes, hex_to_bcd, reverse_bits, rotate_left, rotate_right, shift_left,
    shift_right, split_word,
};

#[test]
fn test_combine_bytes() {
    assert_eq!(combine_bytes(0x12, 0xAB), 0x12AB);
}

#[test]
fn test_reverse_bits() {
    assert_eq!(reverse_bits(0b1101_0101), 0b1010_1011);
}

fn check_shr(inp: u8, out: u8, cry: bool) {
    let (o, c) = shift_right(inp);
    assert_eq!(o, out);
    assert_eq!(c, cry);
}

fn check_shl(inp: u8, out: u8, cry: bool) {
    let (o, c) = shift_left(inp);
    assert_eq!(o, out);
    assert_eq!(c, cry);
}

fn check_rtr(inp: u8, cry: bool, out: u8, ncy: bool) {
    let (o, c) = rotate_right(inp, cry);
    assert_eq!(o, out);
    assert_eq!(c, ncy);
}

fn check_rtl(inp: u8, cry: bool, out: u8, ncy: bool) {
    let (o, c) = rotate_left(inp, cry);
    assert_eq!(o, out);
    assert_eq!(c, ncy);
}

#[test]
fn test_shr_0() {
    check_shr(0x00, 0x00, false);
}

#[test]
fn test_shr_carry() {
    check_shr(0b0000_0001, 0b0000_0000, true);
}

#[test]
fn test_shr_128() {
    check_shr(0b1000_0000, 0b0100_0000, false);
}

#[test]
fn test_shl_0() {
    check_shl(0x00, 0x00, false);
}

#[test]
fn test_shl_1() {
    check_shl(0b0000_0001, 0b0000_0010, false);
}

#[test]
fn test_shl_carry() {
    check_shl(0b1000_0000, 0b0000_0000, true);
}

#[test]
fn test_rtr_0() {
    check_rtr(0x00, false, 0x00, false);
}

#[test]
fn test_rtr_0_carry() {
    check_rtr(0x00, true, 0b1000_0000, false);
}

#[test]
fn test_rtr_1_carry() {
    check_rtr(0x01, true, 0b1000_0000, true);
}

#[test]
fn test_rtr_128_no_carry() {
    check_rtr(0b1000_0000, false, 0b0100_0000, false);
}

#[test]
fn test_rtr_128_carry() {
    check_rtr(0b1000_0000, true, 0b1100_0000, false);
}

#[test]
fn test_rtl_0() {
    check_rtl(0x00, false, 0x00, false);
}

#[test]
fn test_rtl_0_carry() {
    check_rtl(0x00, true, 0x01, false);
}

#[test]
fn test_rtl_1_carry() {
    check_rtl(0x01, true, 0b0000_0011, false);
}

#[test]
fn test_rtl_128_no_carry() {
    check_rtl(0b1000_0000, false, 0b0000_0000, true);
}

#[test]
fn test_rtl_128_carry() {
    check_rtl(0b1000_0000, true, 0b0000_0001, true);
}

#[test]
fn test_b2h_0() {
    assert_eq!(bcd_to_hex(0b0000_0000), 0);
}

#[test]
fn test_b2h_9() {
    assert_eq!(bcd_to_hex(0b0000_1001), 9);
}

#[test]
fn test_b2h_11() {
    assert_eq!(bcd_to_hex(0b0001_0001), 11);
}

#[test]
fn test_b2h_98() {
    assert_eq!(bcd_to_hex(0b1001_1000), 98);
}

#[test]
fn test_h2b_0() {
    assert_eq!(hex_to_bcd(0), 0b0000_0000);
}

#[test]
fn test_h2b_9() {
    assert_eq!(hex_to_bcd(9), 0b0000_1001);
}

#[test]
fn test_h2b_11() {
    assert_eq!(hex_to_bcd(11), 0b0001_0001);
}

#[test]
fn test_h2b_98() {
    assert_eq!(hex_to_bcd(98), 0b1001_1000);
}

#[test]
fn test_split_word_undoes_combine_bytes() {
    assert_eq!(split_word(0xBEEF), (0xBE, 0xEF));
    let (high, low) = split_word(0x1234);
    assert_eq!(combine_bytes(high, low), 0x1234);
}

#[test]
fn test_rotations_undo_each_other() {
    let (r, c) = rotate_right(0b1011_0001, false);
    assert_eq!((r, c), (0b0101_1000, true));
    assert_eq!(rotate_left(r, c), (0b1011_0001, false));
}

#[test]
fn test_bcd_round_trip() {
    for n in 0..100u8 {
        assert_eq!(bcd_to_hex(hex_to_bcd(n)), n);
    }
}

#[test]
fn test_reverse_bits_twice() {
    assert_eq!(reverse_bits(0b0000_0001), 0b1000_0000);
    assert_eq!(reverse_bits(reverse_bits(0b0110_0101)), 0b0110_0101);
}
