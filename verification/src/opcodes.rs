//! The ALU / bit-operation library: stateless functions taking a byte (and
//! sometimes a flag set) and updating the flags according to fixed rules.
//! The rotate family comes in two forms: the per-register forms that set the
//! zero flag from the result, and the accumulator-only forms (used by the
//! unprefixed rotate opcodes) that leave the zero flag untouched.
use vstd::prelude::*;

use crate::{wrap_add8, wrap_sub8};
use crate::registers::Flags;

verus! {

/// The byte rotated left circularly by one bit.
pub open spec fn rotl8(x: u8) -> u8 {
    (x << 1) | (x >> 7)
}

/// The byte rotated right circularly by one bit.
pub open spec fn rotr8(x: u8) -> u8 {
    (x >> 1) | (x << 7)
}

/// Nine-bit rotate left: the old carry enters at bit 0.
pub open spec fn rl_val(x: u8, c: bool) -> u8 {
    (x << 1) | (if c {
        1u8
    } else {
        0u8
    })
}

/// Nine-bit rotate right: the old carry enters at bit 7.
pub open spec fn rr_val(x: u8, c: bool) -> u8 {
    (x >> 1) | (if c {
        0x80u8
    } else {
        0u8
    })
}

/// `rotl8` iterated `n` times.
pub open spec fn rlc_iter(x: u8, n: nat) -> u8
    decreases n,
{
    if n == 0 {
        x
    } else {
        rotl8(rlc_iter(x, (n - 1) as nat))
    }
}

/// The flag outcome of an 8-bit increment: carry is never touched.
pub open spec fn inc_flags(a: u8, f: Flags) -> Flags {
    Flags { z: wrap_add8(a, 1) == 0, n: false, h: (a & 0xF) + 1 >= 0x10, c: f.c }
}

/// The flag outcome of an 8-bit decrement: carry is never touched.
pub open spec fn dec_flags(a: u8, f: Flags) -> Flags {
    Flags { z: wrap_sub8(a, 1) == 0, n: true, h: (a & 0xF) < 1, c: f.c }
}

/// True when adding the low nibbles carries out of bit 3.
pub fn half_carry_add(a: u8, b: u8) -> (r: bool)
    ensures
        r == ((a & 0xF) + (b & 0xF) >= 0x10),
{
    proof {
        assert(a & 0xF <= 0xF && b & 0xF <= 0xF) by (bit_vector);
    }
    (a & 0xF) + (b & 0xF) >= 0x10
}

/// True when subtracting the low nibbles borrows from bit 4.
pub fn half_carry_sub(a: u8, b: u8) -> (r: bool)
    ensures
        r == ((a & 0xF) < (b & 0xF)),
{
    (a & 0xF) < (b & 0xF)
}

/// Same as the byte half-carries but at the bit 11 to bit 12 transfer.
pub fn half_carry_u16(a: u16, b: u16) -> (r: bool)
    ensures
        r == ((a & 0xFFF) + (b & 0xFFF) >= 0x1000),
{
    proof {
        assert(a & 0xFFF <= 0xFFF && b & 0xFFF <= 0xFFF) by (bit_vector);
    }
    (a & 0xFFF) + (b & 0xFFF) >= 0x1000
}

/// Wrapping increment; recomputes z and h, clears n, preserves carry.
pub fn inc(data: &mut u8, flags: &mut Flags)
    ensures
        *final(data) == wrap_add8(*old(data), 1),
        *final(flags) == inc_flags(*old(data), *old(flags)),
{
    let h = half_carry_add(*data, 1);
    flags.set_h_flag(h);
    *data = data.wrapping_add(1);
    flags.set_z_flag(*data == 0);
    flags.set_n_flag(false);
    proof {
        assert(1u8 & 0xF == 1) by (bit_vector);
    }
}

/// Wrapping decrement; recomputes z and h, sets n, preserves carry.
pub fn dec(data: &mut u8, flags: &mut Flags)
    ensures
        *final(data) == wrap_sub8(*old(data), 1),
        *final(flags) == dec_flags(*old(data), *old(flags)),
{
    let h = half_carry_sub(*data, 1);
    flags.set_h_flag(h);
    *data = data.wrapping_sub(1);
    flags.set_z_flag(*data == 0);
    flags.set_n_flag(true);
    proof {
        assert(1u8 & 0xF == 1) by (bit_vector);
    }
}

/// Rotate right through carry (nine-bit rotation); z from the result.
pub fn rr(reg: &mut u8, flags: &mut Flags)
    ensures
        *final(reg) == rr_val(*old(reg), old(flags).c),
        *final(flags) == (Flags {
            z: rr_val(*old(reg), old(flags).c) == 0,
            n: false,
            h: false,
            c: *old(reg) & 1 != 0,
        }),
{
    let x = *reg;
    let carry_in = flags.c_flag();
    *reg = (x >> 1) | (if carry_in {
        0x80u8
    } else {
        0u8
    });
    flags.set_c_flag(x & 1 != 0);
    flags.set_n_flag(false);
    flags.set_h_flag(false);
    flags.set_z_flag(*reg == 0);
}

/// Rotate left through carry (nine-bit rotation); z from the result.
pub fn rl(reg: &mut u8, flags: &mut Flags)
    ensures
        *final(reg) == rl_val(*old(reg), old(flags).c),
        *final(flags) == (Flags {
            z: rl_val(*old(reg), old(flags).c) == 0,
            n: false,
            h: false,
            c: *old(reg) & 0x80 != 0,
        }),
{
    let x = *reg;
    let carry_in = flags.c_flag();
    *reg = (x << 1) | (if carry_in {
        1u8
    } else {
        0u8
    });
    flags.set_c_flag(x & 0x80 != 0);
    flags.set_n_flag(false);
    flags.set_h_flag(false);
    flags.set_z_flag(*reg == 0);
}

/// Rotate left circular; carry takes the bit that wrapped around, z from
/// the result.
pub fn rlc(reg: &mut u8, flags: &mut Flags)
    ensures
        *final(reg) == rotl8(*old(reg)),
        *final(flags) == (Flags {
            z: rotl8(*old(reg)) == 0,
            n: false,
            h: false,
            c: *old(reg) & 0x80 != 0,
        }),
{
    let x = *reg;
    *reg = (x << 1) | (x >> 7);
    flags.set_c_flag(x & 0x80 != 0);
    flags.set_h_flag(false);
    flags.set_n_flag(false);
    flags.set_z_flag(*reg == 0);
}

/// Rotate right circular; carry takes the bit that wrapped around, z from
/// the result.
pub fn rrc(reg: &mut u8, flags: &mut Flags)
    ensures
        *final(reg) == rotr8(*old(reg)),
        *final(flags) == (Flags {
            z: rotr8(*old(reg)) == 0,
            n: false,
            h: false,
            c: *old(reg) & 1 != 0,
        }),
{
    let x = *reg;
    *reg = (x >> 1) | (x << 7);
    flags.set_c_flag(x & 1 != 0);
    flags.set_h_flag(false);
    flags.set_n_flag(false);
    flags.set_z_flag(*reg == 0);
}

/// Accumulator-only rotate left circular: identical to `rlc` except that
/// the zero flag is left untouched.
pub fn rlca(reg: &mut u8, flags: &mut Flags)
    ensures
        *final(reg) == rotl8(*old(reg)),
        *final(flags) == (Flags {
            z: old(flags).z,
            n: false,
            h: false,
            c: *old(reg) & 0x80 != 0,
        }),
{
    let x = *reg;
    *reg = (x << 1) | (x >> 7);
    flags.set_c_flag(x & 0x80 != 0);
    flags.set_h_flag(false);
    flags.set_n_flag(false);
}

/// Accumulator-only rotate right circular: `rrc` with z untouched.
pub fn rrca(reg: &mut u8, flags: &mut Flags)
    ensures
        *final(reg) == rotr8(*old(reg)),
        *final(flags) == (Flags {
            z: old(flags).z,
            n: false,
            h: false,
            c: *old(reg) & 1 != 0,
        }),
{
    let x = *reg;
    *reg = (x >> 1) | (x << 7);
    flags.set_c_flag(x & 1 != 0);
    flags.set_h_flag(false);
    flags.set_n_flag(false);
}

/// Accumulator-only rotate left through carry: `rl` with z untouched.
pub fn rla(reg: &mut u8, flags: &mut Flags)
    ensures
        *final(reg) == rl_val(*old(reg), old(flags).c),
        *final(flags) == (Flags {
            z: old(flags).z,
            n: false,
            h: false,
            c: *old(reg) & 0x80 != 0,
        }),
{
    let x = *reg;
    let carry_in = flags.c_flag();
    *reg = (x << 1) | (if carry_in {
        1u8
    } else {
        0u8
    });
    flags.set_c_flag(x & 0x80 != 0);
    flags.set_n_flag(false);
    flags.set_h_flag(false);
}

/// Accumulator-only rotate right through carry: `rr` with z untouched.
pub fn rra(reg: &mut u8, flags: &mut Flags)
    ensures
        *final(reg) == rr_val(*old(reg), old(flags).c),
        *final(flags) == (Flags {
            z: old(flags).z,
            n: false,
            h: false,
            c: *old(reg) & 1 != 0,
        }),
{
    let x = *reg;
    let carry_in = flags.c_flag();
    *reg = (x >> 1) | (if carry_in {
        0x80u8
    } else {
        0u8
    });
    flags.set_c_flag(x & 1 != 0);
    flags.set_n_flag(false);
    flags.set_h_flag(false);
}

/// Arithmetic shift left; carry takes bit 7.
pub fn sla(reg: &mut u8, flags: &mut Flags)
    ensures
        *final(reg) == *old(reg) << 1,
        *final(flags) == (Flags {
            z: *old(reg) << 1 == 0,
            n: false,
            h: false,
            c: *old(reg) & 0x80 != 0,
        }),
{
    let x = *reg;
    flags.set_c_flag(x & 0x80 != 0);
    *reg = x << 1;
    flags.set_z_flag(*reg == 0);
    flags.set_h_flag(false);
    flags.set_n_flag(false);
}

/// Arithmetic shift right; bit 7 is kept, carry takes bit 0.
pub fn sra(reg: &mut u8, flags: &mut Flags)
    ensures
        *final(reg) == (*old(reg) >> 1) | (*old(reg) & 0x80),
        *final(flags) == (Flags {
            z: ((*old(reg) >> 1) | (*old(reg) & 0x80)) == 0,
            n: false,
            h: false,
            c: *old(reg) & 1 != 0,
        }),
{
    let x = *reg;
    flags.set_c_flag(x & 1 != 0);
    *reg = (x >> 1) | (x & 0x80);
    flags.set_h_flag(false);
    flags.set_n_flag(false);
    flags.set_z_flag(*reg == 0);
}

/// Swaps the two nibbles; carry, half-carry and n are cleared.
pub fn swap(reg: &mut u8, flags: &mut Flags)
    ensures
        *final(reg) == (*old(reg) >> 4) | (*old(reg) << 4),
        *final(flags) == (Flags {
            z: ((*old(reg) >> 4) | (*old(reg) << 4)) == 0,
            n: false,
            h: false,
            c: false,
        }),
{
    let x = *reg;
    *reg = (x >> 4) | (x << 4);
    flags.set_z_flag(*reg == 0);
    flags.set_c_flag(false);
    flags.set_h_flag(false);
    flags.set_n_flag(false);
}

/// Logical shift right; carry takes bit 0.
pub fn srl(reg: &mut u8, flags: &mut Flags)
    ensures
        *final(reg) == *old(reg) >> 1,
        *final(flags) == (Flags {
            z: *old(reg) >> 1 == 0,
            n: false,
            h: false,
            c: *old(reg) & 1 != 0,
        }),
{
    let x = *reg;
    flags.set_c_flag(x & 1 != 0);
    *reg = x >> 1;
    flags.set_z_flag(*reg == 0);
    flags.set_n_flag(false);
    flags.set_h_flag(false);
}

/// Single-bit test: z is set exactly when the tested bit is zero; n is
/// cleared, h set, carry untouched, and the byte is unchanged.
pub fn bit(reg: &mut u8, index: u8, flags: &mut Flags)
    requires
        index < 8,
    ensures
        *final(reg) == *old(reg),
        *final(flags) == (Flags {
            z: *old(reg) & (1u8 << index) == 0,
            n: false,
            h: true,
            c: old(flags).c,
        }),
{
    flags.set_n_flag(false);
    flags.set_h_flag(true);
    let is_set = (*reg & (1u8 << index)) != 0;
    flags.set_z_flag(!is_set);
}

/// Clears the bit at the index; flags untouched.
pub fn res(reg: &mut u8, index: u8)
    requires
        index < 8,
    ensures
        *final(reg) == (*old(reg) & !(1u8 << index)),
{
    *reg &= !(1u8 << index);
}

/// Sets the bit at the index; flags untouched.
pub fn set(reg: &mut u8, index: u8)
    requires
        index < 8,
    ensures
        *final(reg) == (*old(reg) | (1u8 << index)),
{
    *reg |= 1u8 << index;
}

/// An 8-bit increment followed by an 8-bit decrement restores the byte,
/// and since neither touches the carry flag, the carry recorded before the
/// pair of calls is exactly the carry after them.
pub proof fn lemma_inc_dec_roundtrip(a: u8, f: Flags)
    ensures
        wrap_sub8(wrap_add8(a, 1), 1) == a,
        dec_flags(wrap_add8(a, 1), inc_flags(a, f)).c == f.c,
{
    assert(wrap_sub8(wrap_add8(a, 1), 1) == a) by (bit_vector);
}

/// Eight successive circular left rotations restore the original byte, and
/// the carry produced by the eighth rotation is bit 0 of the original byte:
/// the rotation returns the carry history to its starting position.
pub proof fn lemma_rlc_eight_identity(x: u8)
    ensures
        rlc_iter(x, 8) == x,
        rlc_iter(x, 7) & 0x80 != 0 <==> x & 1 != 0,
{
    reveal_with_fuel(rlc_iter, 10);
    let x1 = rlc_iter(x, 1);
    let x2 = rlc_iter(x, 2);
    let x3 = rlc_iter(x, 3);
    let x4 = rlc_iter(x, 4);
    let x5 = rlc_iter(x, 5);
    let x6 = rlc_iter(x, 6);
    let x7 = rlc_iter(x, 7);
    assert(x1 == rotl8(x));
    assert(x2 == rotl8(x1));
    assert(x3 == rotl8(x2));
    assert(x4 == rotl8(x3));
    assert(x5 == rotl8(x4));
    assert(x6 == rotl8(x5));
    assert(x7 == rotl8(x6));
    assert(rlc_iter(x, 8) == rotl8(x7));
    assert(rotl8(rotl8(rotl8(rotl8(rotl8(rotl8(rotl8(rotl8(x)))))))) == x) by (bit_vector);
    assert(rotl8(rotl8(rotl8(rotl8(rotl8(rotl8(rotl8(x))))))) & 0x80 != 0 <==> x & 1 != 0)
        by (bit_vector);
}

} // verus!
