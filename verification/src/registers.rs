//! The register file: eight 8-bit cells paired into three 16-bit views, a
//! four-bit flag set, the stack pointer and the program counter.  Pure
//! storage plus composition/decomposition; no instruction logic lives here.
use vstd::prelude::*;

use crate::{combine_u8s, hi_byte, lo_byte, split_u16, wrap_add16, wrap_add16_i8};

verus! {

/// Flag register.  Packed into one byte only at `af` boundary crossings:
/// z, n, h, c occupy bits 7..4 and the low nibble is always zero.
#[derive(Clone, Copy, Debug, PartialEq, Eq, Structural)]
pub struct Flags {
    pub z: bool,
    pub n: bool,
    pub h: bool,
    pub c: bool,
}

/// The packed-byte form of a flag set: z, n, h, c in bits 7..4, low nibble
/// forced to zero.
pub open spec fn byte_of_flags(f: Flags) -> u8 {
    ((if f.z {
        0x80int
    } else {
        0int
    }) + (if f.n {
        0x40int
    } else {
        0int
    }) + (if f.h {
        0x20int
    } else {
        0int
    }) + (if f.c {
        0x10int
    } else {
        0int
    })) as u8
}

/// The flag set held in bits 7..4 of a byte; bits 3..0 are ignored.
pub open spec fn flags_of_byte(b: u8) -> Flags {
    Flags { z: b & 0x80 != 0, n: b & 0x40 != 0, h: b & 0x20 != 0, c: b & 0x10 != 0 }
}

impl Flags {
    /// All flags clear, the power-on state.
    pub fn new() -> (r: Flags)
        ensures
            r == (Flags { z: false, n: false, h: false, c: false }),
    {
        Flags { z: false, n: false, h: false, c: false }
    }

    /// Unpacks bits 7..4 of a byte; the low nibble is ignored.
    pub fn from_u8(data: u8) -> (r: Flags)
        ensures
            r == flags_of_byte(data),
    {
        Flags {
            z: data & 0b1000_0000 != 0,
            n: data & 0b0100_0000 != 0,
            h: data & 0b0010_0000 != 0,
            c: data & 0b0001_0000 != 0,
        }
    }

    pub fn set_z_flag(&mut self, data: bool)
        ensures
            *final(self) == (Flags { z: data, ..*old(self) }),
    {
        self.z = data
    }

    pub fn set_n_flag(&mut self, data: bool)
        ensures
            *final(self) == (Flags { n: data, ..*old(self) }),
    {
        self.n = data
    }

    pub fn set_h_flag(&mut self, data: bool)
        ensures
            *final(self) == (Flags { h: data, ..*old(self) }),
    {
        self.h = data
    }

    pub fn set_c_flag(&mut self, data: bool)
        ensures
            *final(self) == (Flags { c: data, ..*old(self) }),
    {
        self.c = data
    }

    pub fn c_flag(&self) -> (r: bool)
        ensures
            r == self.c,
    {
        self.c
    }

    pub fn z_flag(&self) -> (r: bool)
        ensures
            r == self.z,
    {
        self.z
    }

    pub fn n_flag(&self) -> (r: bool)
        ensures
            r == self.n,
    {
        self.n
    }

    pub fn h_flag(&self) -> (r: bool)
        ensures
            r == self.h,
    {
        self.h
    }

    /// Packs the flags into a byte with the low nibble forced to zero.
    pub fn as_u8(&self) -> (r: u8)
        ensures
            r == byte_of_flags(*self),
    {
        (if self.z {
            0x80u8
        } else {
            0
        }) + (if self.n {
            0x40u8
        } else {
            0
        }) + (if self.h {
            0x20u8
        } else {
            0
        }) + (if self.c {
            0x10u8
        } else {
            0
        })
    }
}

/// Pure register storage.  Reading a pair is always the composition
/// high cell first, low cell second (pair = high * 256 + low, where b, d
/// and h are the high cells); the write path decomposes the same way.
pub struct Registers {
    pub a: u8,
    pub f: Flags,
    pub b: u8,
    pub c: u8,
    pub d: u8,
    pub e: u8,
    pub h: u8,
    pub l: u8,
    pub sp: u16,
    pub pc: u16,
}

impl Registers {
    /// The 16-bit view of the b/c pair.
    pub open spec fn spec_bc(&self) -> u16 {
        (self.b * 256 + self.c) as u16
    }

    /// The 16-bit view of the d/e pair.
    pub open spec fn spec_de(&self) -> u16 {
        (self.d * 256 + self.e) as u16
    }

    /// The 16-bit view of the h/l pair.
    pub open spec fn spec_hl(&self) -> u16 {
        (self.h * 256 + self.l) as u16
    }

    /// The accumulator/flags view: accumulator high, packed flags low.
    pub open spec fn spec_af(&self) -> u16 {
        (self.a * 256 + byte_of_flags(self.f)) as u16
    }

    /// Power-on state: `sp` at the top of high RAM, `pc` at the reset
    /// vector, every other cell and flag zero.
    pub fn new() -> (r: Registers)
        ensures
            r == (Registers {
                a: 0,
                f: Flags { z: false, n: false, h: false, c: false },
                b: 0,
                c: 0,
                d: 0,
                e: 0,
                h: 0,
                l: 0,
                sp: 0xFFFE,
                pc: 0,
            }),
    {
        Registers {
            a: 0,
            f: Flags::new(),
            b: 0,
            c: 0,
            d: 0,
            e: 0,
            h: 0,
            l: 0,
            sp: 0xFFFE,
            pc: 0,
        }
    }

    pub fn set_bc(&mut self, data: u16)
        ensures
            *final(self) == (Registers { b: hi_byte(data), c: lo_byte(data), ..*old(self) }),
            final(self).spec_bc() == data,
    {
        let (hi, lo) = split_u16(data);
        self.b = hi;
        self.c = lo;
    }

    pub fn set_de(&mut self, data: u16)
        ensures
            *final(self) == (Registers { d: hi_byte(data), e: lo_byte(data), ..*old(self) }),
            final(self).spec_de() == data,
    {
        let (hi, lo) = split_u16(data);
        self.d = hi;
        self.e = lo;
    }

    pub fn set_hl(&mut self, data: u16)
        ensures
            *final(self) == (Registers { h: hi_byte(data), l: lo_byte(data), ..*old(self) }),
            final(self).spec_hl() == data,
    {
        let (hi, lo) = split_u16(data);
        self.h = hi;
        self.l = lo;
    }

    /// Decomposes into accumulator and flags-from-byte; bits 3..0 of the
    /// low byte are ignored.
    pub fn set_af(&mut self, data: u16)
        ensures
            *final(self) == (Registers {
                a: hi_byte(data),
                f: flags_of_byte(lo_byte(data)),
                ..*old(self)
            }),
    {
        let (a, f) = split_u16(data);
        self.a = a;
        self.f = Flags::from_u8(f);
    }

    pub fn bc(&self) -> (r: u16)
        ensures
            r == self.spec_bc(),
    {
        combine_u8s(self.c, self.b)
    }

    pub fn de(&self) -> (r: u16)
        ensures
            r == self.spec_de(),
    {
        combine_u8s(self.e, self.d)
    }

    pub fn hl(&self) -> (r: u16)
        ensures
            r == self.spec_hl(),
    {
        combine_u8s(self.l, self.h)
    }

    /// Returns the pre-mutation `hl` and bumps the pair by one, wrapping
    /// modulo 65536.
    pub fn hli(&mut self) -> (r: u16)
        ensures
            r == old(self).spec_hl(),
            *final(self) == (Registers {
                h: hi_byte(wrap_add16(old(self).spec_hl(), 1)),
                l: lo_byte(wrap_add16(old(self).spec_hl(), 1)),
                ..*old(self)
            }),
    {
        let cur = self.hl();
        let next = cur.wrapping_add(1);
        self.set_hl(next);
        cur
    }

    /// Returns the pre-mutation `hl` and drops the pair by one, wrapping
    /// modulo 65536.
    pub fn hld(&mut self) -> (r: u16)
        ensures
            r == old(self).spec_hl(),
            *final(self) == (Registers {
                h: hi_byte(wrap_add16(old(self).spec_hl(), 0xFFFF)),
                l: lo_byte(wrap_add16(old(self).spec_hl(), 0xFFFF)),
                ..*old(self)
            }),
    {
        let cur = self.hl();
        let next = cur.wrapping_sub(1);
        self.set_hl(next);
        cur
    }

    pub fn af(&self) -> (r: u16)
        ensures
            r == self.spec_af(),
    {
        combine_u8s(self.f.as_u8(), self.a)
    }

    /// Instruction-fetch auto-increment: returns the current program
    /// counter and advances it by one, wrapping modulo 65536.
    pub fn pc(&mut self) -> (r: u16)
        ensures
            r == old(self).pc,
            *final(self) == (Registers { pc: wrap_add16(old(self).pc, 1), ..*old(self) }),
    {
        let cur = self.pc;
        self.pc = self.pc.wrapping_add(1);
        cur
    }

    /// Raw program-counter write, bypassing auto-increment.
    pub fn set_pc(&mut self, val: u16)
        ensures
            *final(self) == (Registers { pc: val, ..*old(self) }),
    {
        self.pc = val;
    }

    /// Relative jump: adds a signed 8-bit offset to the program counter,
    /// wrapping modulo 65536.
    pub fn jump_pc(&mut self, val: i8)
        ensures
            *final(self) == (Registers { pc: wrap_add16_i8(old(self).pc, val), ..*old(self) }),
    {
        self.pc = self.pc.wrapping_add_signed(val as i16);
    }
}

/// Writing a word through `set_af` and reading `af` back yields the word
/// with its low nibble forced to zero, whatever the register file held
/// before: only bits 7..4 of the flag byte survive the unpacking.
pub proof fn lemma_af_roundtrip(regs: Registers, x: u16)
    ensures
        (Registers { a: hi_byte(x), f: flags_of_byte(lo_byte(x)), ..regs }).spec_af() == x & 0xFFF0,
{
    let b = lo_byte(x);
    assert(b & 0x80 == 0 || b & 0x80 == 0x80) by (bit_vector);
    assert(b & 0x40 == 0 || b & 0x40 == 0x40) by (bit_vector);
    assert(b & 0x20 == 0 || b & 0x20 == 0x20) by (bit_vector);
    assert(b & 0x10 == 0 || b & 0x10 == 0x10) by (bit_vector);
    assert((b & 0x80) + (b & 0x40) + (b & 0x20) + (b & 0x10) == b & 0xF0) by (bit_vector);
    assert(byte_of_flags(flags_of_byte(b)) == b & 0xF0);
    assert((x / 256) * 256 + ((x % 256) & 0xF0) == x & 0xFFF0) by (bit_vector);
}

} // verus!
