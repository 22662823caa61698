//! Tests for the register file, the flag packing and the byte helpers.
use gb_core::registers::{Flags, Registers};
use gb_core::{combine_u8s, pallete_to_rgba, split_u16};

#[test]
fn power_on_state() {
    let r = Registers::new();
    assert_eq!(r.a, 0);
    assert_eq!(r.b, 0);
    assert_eq!(r.sp, 0xFFFE);
    assert_eq!(r.pc, 0);
    assert!(!r.f.z && !r.f.n && !r.f.h && !r.f.c);
}

#[test]
fn pairs_compose_high_cell_first() {
    let mut r = Registers::new();
    r.set_bc(0x1234);
    assert_eq!(r.b, 0x12); // b is the high cell
    assert_eq!(r.c, 0x34);
    assert_eq!(r.bc(), 0x1234);

    r.set_de(0xABCD);
    assert_eq!(r.d, 0xAB);
    assert_eq!(r.e, 0xCD);
    assert_eq!(r.de(), 0xABCD);

    r.set_hl(0x8001);
    assert_eq!(r.h, 0x80);
    assert_eq!(r.l, 0x01);
    assert_eq!(r.hl(), 0x8001);
}

#[test]
fn af_roundtrip_forces_low_nibble_to_zero() {
    let mut r = Registers::new();
    for x in [0xFFFFu16, 0x1234, 0x00FF, 0xABF0, 0x0000] {
        r.set_af(x);
        assert_eq!(r.af(), x & 0xFFF0);
    }
}

#[test]
fn af_unpacks_flag_bits() {
    let mut r = Registers::new();
    r.set_af(0x42B0); // flags byte 0b1011_0000: z, h, c set, n clear
    assert_eq!(r.a, 0x42);
    assert!(r.f.z);
    assert!(!r.f.n);
    assert!(r.f.h);
    assert!(r.f.c);
}

#[test]
fn flags_pack_and_unpack() {
    let f = Flags::from_u8(0b1001_1111);
    assert!(f.z && !f.n && !f.h && f.c);
    assert_eq!(f.as_u8(), 0b1001_0000); // low nibble forced to zero

    let mut f = Flags::new();
    f.set_n_flag(true);
    f.set_h_flag(true);
    assert_eq!(f.as_u8(), 0b0110_0000);
    assert!(f.n_flag() && f.h_flag() && !f.z_flag() && !f.c_flag());
}

#[test]
fn hli_hld_return_pre_mutation_value() {
    let mut r = Registers::new();
    r.set_hl(0x00FF);
    assert_eq!(r.hli(), 0x00FF);
    assert_eq!(r.hl(), 0x0100);
    assert_eq!(r.hld(), 0x0100);
    assert_eq!(r.hl(), 0x00FF);
}

#[test]
fn hli_hld_wrap_modulo_65536() {
    let mut r = Registers::new();
    r.set_hl(0xFFFF);
    assert_eq!(r.hli(), 0xFFFF);
    assert_eq!(r.hl(), 0x0000);
    assert_eq!(r.hld(), 0x0000);
    assert_eq!(r.hl(), 0xFFFF);
}

#[test]
fn pc_fetch_auto_increments() {
    let mut r = Registers::new();
    r.set_pc(0x0100);
    assert_eq!(r.pc(), 0x0100);
    assert_eq!(r.pc(), 0x0101);
    r.set_pc(0xFFFF);
    assert_eq!(r.pc(), 0xFFFF);
    assert_eq!(r.pc, 0x0000); // wraps
}

#[test]
fn jump_pc_adds_signed_offset_with_wrap() {
    let mut r = Registers::new();
    r.set_pc(0x0100);
    r.jump_pc(-2);
    assert_eq!(r.pc, 0x00FE);
    r.jump_pc(127);
    assert_eq!(r.pc, 0x017D);
    r.set_pc(0x0001);
    r.jump_pc(-2);
    assert_eq!(r.pc, 0xFFFF); // wraps below zero
}

#[test]
fn combine_and_split_are_little_endian() {
    assert_eq!(combine_u8s(0x34, 0x12), 0x1234);
    assert_eq!(split_u16(0x1234), (0x12, 0x34)); // upper byte first
    for x in [0u16, 1, 0x00FF, 0xFF00, 0xFFFF, 0xABCD] {
        let (hi, lo) = split_u16(x);
        assert_eq!(combine_u8s(lo, hi), x);
    }
}

#[test]
fn pallete_maps_the_four_colours() {
    assert_eq!(pallete_to_rgba(0), (0x00, 0x00, 0x00));
    assert_eq!(pallete_to_rgba(1), (0x50, 0x50, 0x50));
    assert_eq!(pallete_to_rgba(2), (0xA0, 0xA0, 0xA0));
    assert_eq!(pallete_to_rgba(3), (0xFF, 0xFF, 0xFF));
}
