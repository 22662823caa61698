//! Tests for the ALU / bit-operation library and the accumulator
//! arithmetic of the CPU.
use gb_core::cpu::Cpu;
use gb_core::opcodes;
use gb_core::registers::Flags;

fn flags(z: bool, n: bool, h: bool, c: bool) -> Flags {
    Flags { z, n, h, c }
}

#[test]
fn add_wraps_modulo_256() {
    let mut cpu = Cpu::new();
    cpu.regs.a = 200;
    cpu.add(100);
    assert_eq!(cpu.regs.a, 44); // (200 + 100) mod 256
    assert!(cpu.regs.f.c); // 300 >= 256
    assert!(!cpu.regs.f.z);
    assert!(!cpu.regs.f.n);
}

#[test]
fn add_half_carry_exactly_at_nibble_overflow() {
    let mut cpu = Cpu::new();
    cpu.regs.a = 0x0F;
    cpu.add(0x01);
    assert_eq!(cpu.regs.a, 0x10);
    assert!(cpu.regs.f.h); // 0xF + 0x1 >= 0x10
    assert!(!cpu.regs.f.c);

    cpu.regs.a = 0x0E;
    cpu.add(0x01);
    assert_eq!(cpu.regs.a, 0x0F);
    assert!(!cpu.regs.f.h);
}

#[test]
fn add_to_zero_sets_z() {
    let mut cpu = Cpu::new();
    cpu.regs.a = 0x80;
    cpu.add(0x80);
    assert_eq!(cpu.regs.a, 0);
    assert!(cpu.regs.f.z);
    assert!(cpu.regs.f.c);
}

#[test]
fn adc_includes_incoming_carry() {
    let mut cpu = Cpu::new();
    cpu.regs.a = 0xFF;
    cpu.regs.f.c = true;
    cpu.adc(0x00);
    assert_eq!(cpu.regs.a, 0x00);
    assert!(cpu.regs.f.c); // 0xFF + 0 + 1 carries
    assert!(cpu.regs.f.h);
    assert!(cpu.regs.f.z);
}

#[test]
fn sub_borrow_and_flags() {
    let mut cpu = Cpu::new();
    cpu.regs.a = 0x10;
    cpu.sub(0x20);
    assert_eq!(cpu.regs.a, 0xF0);
    assert!(cpu.regs.f.c); // borrow
    assert!(cpu.regs.f.n);
    assert!(!cpu.regs.f.h); // 0x0 < 0x0 is false

    cpu.regs.a = 0x10;
    cpu.sub(0x01);
    assert_eq!(cpu.regs.a, 0x0F);
    assert!(cpu.regs.f.h); // low nibble borrows
    assert!(!cpu.regs.f.c);
}

#[test]
fn sbc_includes_incoming_borrow() {
    let mut cpu = Cpu::new();
    cpu.regs.a = 0x01;
    cpu.regs.f.c = true;
    cpu.sbc(0x00);
    assert_eq!(cpu.regs.a, 0x00);
    assert!(cpu.regs.f.z);
    assert!(!cpu.regs.f.c);

    cpu.regs.a = 0x00;
    cpu.regs.f.c = true;
    cpu.sbc(0x00);
    assert_eq!(cpu.regs.a, 0xFF);
    assert!(cpu.regs.f.c);
    assert!(cpu.regs.f.h);
}

#[test]
fn and_or_xor_flag_rules() {
    let mut cpu = Cpu::new();
    cpu.regs.a = 0b1010_1010;
    cpu.and(0b0101_0101);
    assert_eq!(cpu.regs.a, 0);
    assert!(cpu.regs.f.z);
    assert!(cpu.regs.f.h); // and forces h
    assert!(!cpu.regs.f.c);

    cpu.regs.a = 0b1010_0000;
    cpu.or(0b0000_0101);
    assert_eq!(cpu.regs.a, 0b1010_0101);
    assert!(!cpu.regs.f.h);
    assert!(!cpu.regs.f.z);

    cpu.regs.a = 0xFF;
    cpu.xor(0xFF);
    assert_eq!(cpu.regs.a, 0);
    assert!(cpu.regs.f.z);
}

#[test]
fn cp_keeps_accumulator() {
    let mut cpu = Cpu::new();
    cpu.regs.a = 0x42;
    cpu.cp(0x42);
    assert_eq!(cpu.regs.a, 0x42);
    assert!(cpu.regs.f.z);
    assert!(cpu.regs.f.n);
}

#[test]
fn add_u16_half_carry_at_bit_11_and_z_untouched() {
    let mut cpu = Cpu::new();
    cpu.regs.f.z = true;
    let r = cpu.add_u16(0x0FFF, 0x0001);
    assert_eq!(r, 0x1000);
    assert!(cpu.regs.f.h);
    assert!(!cpu.regs.f.c);
    assert!(cpu.regs.f.z); // untouched

    let r = cpu.add_u16(0xFFFF, 0x0002);
    assert_eq!(r, 0x0001);
    assert!(cpu.regs.f.c);
}

#[test]
fn add_sp_uses_unsigned_low_byte_flags() {
    let mut cpu = Cpu::new();
    cpu.regs.sp = 0xFFF8;
    let r = cpu.add_sp(8);
    assert_eq!(r, 0x0000); // wraps modulo 65536
    assert!(cpu.regs.f.h); // 0x8 + 0x8 >= 0x10
    assert!(!cpu.regs.f.z);
    assert!(!cpu.regs.f.n);

    cpu.regs.sp = 0x0001;
    let r = cpu.add_sp(-2); // 0xFE unsigned
    assert_eq!(r, 0xFFFF);
    assert!(!cpu.regs.f.h); // 0x1 + 0xE < 0x10
    assert!(!cpu.regs.f.c); // 0x01 + 0xFE < 0x100
}

#[test]
fn daa_after_addition() {
    // 0x15 + 0x27 = 0x3C; the decimal adjust corrects it to 0x42
    let mut cpu = Cpu::new();
    cpu.regs.a = 0x15;
    cpu.add(0x27);
    cpu.daa();
    assert_eq!(cpu.regs.a, 0x42);
    assert!(!cpu.regs.f.c);
    assert!(!cpu.regs.f.h);

    // 0x90 + 0x90 = 0x20 carry; adjust gives 0x80 with carry set
    cpu.regs.a = 0x90;
    cpu.add(0x90);
    cpu.daa();
    assert_eq!(cpu.regs.a, 0x80);
    assert!(cpu.regs.f.c);
}

#[test]
fn daa_after_subtraction() {
    // 0x42 - 0x15 = 0x2D; the adjust corrects it to 0x27
    let mut cpu = Cpu::new();
    cpu.regs.a = 0x42;
    cpu.sub(0x15);
    cpu.daa();
    assert_eq!(cpu.regs.a, 0x27);
    assert!(cpu.regs.f.n); // n survives daa
}

#[test]
fn inc_dec_roundtrip_preserves_carry() {
    // the carry must survive inc and dec for every starting value
    for a in 0..=255u8 {
        for &carry in &[false, true] {
            let mut value = a;
            let mut f = flags(false, false, false, carry);
            opcodes::inc(&mut value, &mut f);
            assert_eq!(f.c, carry);
            opcodes::dec(&mut value, &mut f);
            assert_eq!(value, a);
            assert_eq!(f.c, carry);
        }
    }
}

#[test]
fn inc_wraps_and_sets_half_carry() {
    let mut v = 0xFFu8;
    let mut f = flags(false, true, false, false);
    opcodes::inc(&mut v, &mut f);
    assert_eq!(v, 0);
    assert!(f.z);
    assert!(f.h);
    assert!(!f.n);
}

#[test]
fn dec_wraps_and_sets_n() {
    let mut v = 0x00u8;
    let mut f = flags(false, false, false, false);
    opcodes::dec(&mut v, &mut f);
    assert_eq!(v, 0xFF);
    assert!(f.h);
    assert!(f.n);
    assert!(!f.z);
}

#[test]
fn rlc_eight_times_restores_byte_and_carry_position() {
    for start in [0x01u8, 0x80, 0xB7, 0x00, 0xFF] {
        let mut v = start;
        let mut f = flags(false, false, false, false);
        let mut carries = Vec::new();
        for _ in 0..8 {
            opcodes::rlc(&mut v, &mut f);
            carries.push(f.c);
        }
        assert_eq!(v, start);
        // the eighth carry is bit 0 of the original byte: the rotation
        // has come full circle
        assert_eq!(carries[7], start & 1 != 0);
        // each carry is the bit that wrapped: carry k is bit (7-k)
        for (k, &c) in carries.iter().enumerate() {
            assert_eq!(c, (start >> (7 - k)) & 1 != 0);
        }
    }
}

#[test]
fn rl_rr_rotate_through_carry() {
    let mut v = 0b1000_0000u8;
    let mut f = flags(false, false, false, false);
    opcodes::rl(&mut v, &mut f);
    assert_eq!(v, 0); // carry-in was 0
    assert!(f.c); // bit 7 went out
    assert!(f.z);
    opcodes::rl(&mut v, &mut f);
    assert_eq!(v, 1); // the old carry came back in
    assert!(!f.c);

    let mut v = 0b0000_0001u8;
    let mut f = flags(false, false, false, false);
    opcodes::rr(&mut v, &mut f);
    assert_eq!(v, 0);
    assert!(f.c);
    opcodes::rr(&mut v, &mut f);
    assert_eq!(v, 0x80);
    assert!(!f.c);
}

#[test]
fn rrc_rotates_circularly() {
    let mut v = 0b0000_0001u8;
    let mut f = flags(false, false, false, false);
    opcodes::rrc(&mut v, &mut f);
    assert_eq!(v, 0b1000_0000);
    assert!(f.c);
    assert!(!f.z);
}

#[test]
fn accumulator_rotates_leave_z_untouched() {
    let mut v = 0x80u8;
    let mut f = flags(true, true, true, false);
    opcodes::rlca(&mut v, &mut f);
    assert_eq!(v, 0x01);
    assert!(f.z); // z untouched by the accumulator form
    assert!(f.c);
    assert!(!f.n);
    assert!(!f.h);

    let mut v = 0x01u8;
    let mut f = flags(true, false, false, false);
    opcodes::rrca(&mut v, &mut f);
    assert_eq!(v, 0x80);
    assert!(f.z);

    let mut v = 0x00u8;
    let mut f = flags(true, false, false, true);
    opcodes::rla(&mut v, &mut f);
    assert_eq!(v, 0x01); // carry came in at bit 0
    assert!(f.z);
    assert!(!f.c);

    let mut v = 0x00u8;
    let mut f = flags(true, false, false, true);
    opcodes::rra(&mut v, &mut f);
    assert_eq!(v, 0x80);
    assert!(f.z);
    assert!(!f.c);
}

#[test]
fn shifts_and_swap() {
    let mut v = 0b1100_0001u8;
    let mut f = flags(false, false, false, false);
    opcodes::sla(&mut v, &mut f);
    assert_eq!(v, 0b1000_0010);
    assert!(f.c);

    let mut v = 0b1000_0001u8;
    let mut f = flags(false, false, false, false);
    opcodes::sra(&mut v, &mut f);
    assert_eq!(v, 0b1100_0000); // bit 7 kept
    assert!(f.c);

    let mut v = 0b1000_0001u8;
    let mut f = flags(false, false, false, false);
    opcodes::srl(&mut v, &mut f);
    assert_eq!(v, 0b0100_0000); // bit 7 cleared
    assert!(f.c);

    let mut v = 0xABu8;
    let mut f = flags(false, false, false, true);
    opcodes::swap(&mut v, &mut f);
    assert_eq!(v, 0xBA);
    assert!(!f.c); // swap clears carry
    assert!(!f.z);
}

#[test]
fn bit_tests_z_against_the_tested_bit() {
    let mut v = 0b0000_0100u8;
    let mut f = flags(false, true, false, true);
    opcodes::bit(&mut v, 2, &mut f);
    assert!(!f.z); // bit 2 is set, so z is clear
    assert!(f.h);
    assert!(!f.n);
    assert!(f.c); // carry untouched
    assert_eq!(v, 0b0000_0100); // byte unchanged

    opcodes::bit(&mut v, 3, &mut f);
    assert!(f.z); // bit 3 is clear, so z is set
}

#[test]
fn res_and_set_change_one_bit() {
    let mut v = 0xFFu8;
    opcodes::res(&mut v, 4);
    assert_eq!(v, 0b1110_1111);
    let mut v = 0x00u8;
    gb_core::opcodes::set(&mut v, 7);
    assert_eq!(v, 0x80);
}

#[test]
fn cpl_and_carry_ops() {
    let mut cpu = Cpu::new();
    cpu.regs.a = 0b1010_0101;
    cpu.cpl();
    assert_eq!(cpu.regs.a, 0b0101_1010);
    assert!(cpu.regs.f.n);
    assert!(cpu.regs.f.h);

    cpu.cf(true);
    assert!(cpu.regs.f.c);
    assert!(!cpu.regs.f.n);
    assert!(!cpu.regs.f.h);
    let c = cpu.regs.f.c;
    cpu.cf(!c);
    assert!(!cpu.regs.f.c);
}
