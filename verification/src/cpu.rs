//! The instruction interpreter: fetches one opcode per `process_next`
//! call from memory through the auto-incrementing program counter,
//! dispatches it (through the prefixed bit-operation table when the first
//! byte is 0xCB), executes its register/memory/ALU effect, and returns the
//! number of clock cycles consumed.
use vstd::prelude::*;

use crate::memory::{write_model, Memory, MemShadow};
use crate::opcodes::{
    bit, dec, dec_flags, inc, inc_flags, res, rl, rla, rlc, rlca, rr, rra, rrc, rrca, sla, sra,
    srl, swap, half_carry_add, half_carry_sub, half_carry_u16,
};
use crate::registers::{flags_of_byte, Flags, Registers};
use crate::{
    combine_u8s, hi_byte, lo_byte, split_u16, wrap_add16, wrap_add16_i8, wrap_add8, wrap_sub16,
    wrap_sub8, EmuError,
};

verus! {

/// Every byte is a defined opcode except the eleven holes of the primary
/// table (0xCB is the prefix of the second table, which is fully defined).
pub open spec fn is_defined_opcode(op: u8) -> bool {
    !(op == 0xD3 || op == 0xDB || op == 0xDD || op == 0xE3 || op == 0xE4 || op == 0xEB || op
        == 0xEC || op == 0xED || op == 0xF4 || op == 0xFC || op == 0xFD)
}

/// The memory effect of pushing a word: the stack pointer drops by two
/// and the word is stored little-endian through the CPU-visible write
/// path at the new stack top.
pub open spec fn push_model(m: MemShadow, sp: u16, w: u16) -> MemShadow {
    write_model(
        write_model(m, wrap_sub16(sp, 2), lo_byte(w)),
        wrap_add16(wrap_sub16(sp, 2), 1),
        hi_byte(w),
    )
}

/// The little-endian word at an address in a byte space: low byte first.
pub open spec fn word_at(m: MemShadow, addr: u16) -> u16 {
    (m.bytes[addr as int] + m.bytes[wrap_add16(addr, 1) as int] * 256) as u16
}

/// The word a `pop` reads at the stack pointer.
pub open spec fn stack_word(m: MemShadow, sp: u16) -> u16 {
    word_at(m, sp)
}

/// The program counter after a relative-jump opcode whose offset byte sat
/// at `pc`: the operand is always consumed; the signed offset is added
/// only when the condition held.
pub open spec fn jr_target(pc: u16, off: u8, cc: bool) -> u16 {
    let mid = wrap_add16(pc, 1);
    if cc {
        wrap_add16_i8(mid, #[verifier::truncate] (off as i8))
    } else {
        mid
    }
}

/// Nine-bit addition into the accumulator, wrapping modulo 256.
pub open spec fn adc_val(a: u8, b: u8, c: bool) -> u8 {
    wrap_add8(
        wrap_add8(a, b),
        if c {
            1u8
        } else {
            0u8
        },
    )
}

/// Nine-bit subtraction from the accumulator, wrapping modulo 256.
pub open spec fn sbc_val(a: u8, b: u8, c: bool) -> u8 {
    wrap_sub8(
        wrap_sub8(a, b),
        if c {
            1u8
        } else {
            0u8
        },
    )
}

/// The accumulator after row `kind` of the arithmetic block (add, adc,
/// sub, sbc, and, xor, or, cp in that order) on operand `v`.
pub open spec fn alu_acc(kind: u8, a: u8, v: u8, f: Flags) -> u8 {
    if kind == 0 {
        wrap_add8(a, v)
    } else if kind == 1 {
        adc_val(a, v, f.c)
    } else if kind == 2 {
        wrap_sub8(a, v)
    } else if kind == 3 {
        sbc_val(a, v, f.c)
    } else if kind == 4 {
        a & v
    } else if kind == 5 {
        a ^ v
    } else if kind == 6 {
        a | v
    } else {
        a
    }
}

/// The flag outcome of row `kind` of the arithmetic block on operand `v`.
pub open spec fn alu_flags(kind: u8, a: u8, v: u8, f: Flags) -> Flags {
    let cin: int = if f.c {
        1
    } else {
        0
    };
    if kind == 0 {
        Flags {
            z: wrap_add8(a, v) == 0,
            n: false,
            h: (a & 0xF) + (v & 0xF) >= 0x10,
            c: a + v >= 0x100,
        }
    } else if kind == 1 {
        Flags {
            z: adc_val(a, v, f.c) == 0,
            n: false,
            h: (a & 0xF) + (v & 0xF) + cin >= 0x10,
            c: a + v + cin >= 0x100,
        }
    } else if kind == 2 || kind == 7 {
        Flags { z: wrap_sub8(a, v) == 0, n: true, h: (a & 0xF) < (v & 0xF), c: a < v }
    } else if kind == 3 {
        Flags {
            z: sbc_val(a, v, f.c) == 0,
            n: true,
            h: (a & 0xF) < (v & 0xF) + cin,
            c: a < v + cin,
        }
    } else if kind == 4 {
        Flags { z: (a & v) == 0, n: false, h: true, c: false }
    } else if kind == 5 {
        Flags { z: (a ^ v) == 0, n: false, h: false, c: false }
    } else {
        Flags { z: (a | v) == 0, n: false, h: false, c: false }
    }
}

/// The decimal-adjust correction added after an addition: 6 for a dirty
/// low nibble, 0x60 for a dirty high nibble, both judged on the
/// pre-adjust accumulator.
pub open spec fn daa_add_adjust(a: u8, f: Flags) -> u8 {
    ((if f.h || (a & 0xF) > 9 {
        6int
    } else {
        0int
    }) + (if f.c || a > 0x99 {
        0x60int
    } else {
        0int
    })) as u8
}

/// The decimal-adjust correction subtracted after a subtraction, judged
/// on the half-carry and carry flags alone.
pub open spec fn daa_sub_adjust(f: Flags) -> u8 {
    ((if f.h {
        6int
    } else {
        0int
    }) + (if f.c {
        0x60int
    } else {
        0int
    })) as u8
}

/// The accumulator after a decimal adjust: the two-branch algorithm,
/// post-add or post-subtract according to the n flag.
pub open spec fn daa_val(a: u8, f: Flags) -> u8 {
    if !f.n {
        wrap_add8(a, daa_add_adjust(a, f))
    } else {
        wrap_sub8(a, daa_sub_adjust(f))
    }
}

/// The carry after a decimal adjust: set in the post-add branch when the
/// high nibble needed correction, untouched in the post-subtract branch.
pub open spec fn daa_carry(a: u8, f: Flags) -> bool {
    if !f.n {
        f.c || a > 0x99
    } else {
        f.c
    }
}

/// Whether the condition of a conditional JR/RET/JP/CALL opcode holds
/// under the given flags; unconditional opcodes always branch.
pub open spec fn cond_of(op: u8, f: Flags) -> bool {
    if op == 0x20 || op == 0xC0 || op == 0xC2 || op == 0xC4 {
        !f.z
    } else if op == 0x28 || op == 0xC8 || op == 0xCA || op == 0xCC {
        f.z
    } else if op == 0x30 || op == 0xD0 || op == 0xD2 || op == 0xD4 {
        !f.c
    } else if op == 0x38 || op == 0xD8 || op == 0xDA || op == 0xDC {
        f.c
    } else {
        true
    }
}

/// The clock cycles one primary-table opcode consumes, with the flag set
/// at evaluation time deciding whether a conditional branch pays for the
/// jump (undefined opcodes and the 0xCB prefix have no entry).
pub open spec fn step_cycles(op: u8, f: Flags) -> int {
    if op == 0x76 {
        4
    } else if 0x40 <= op && op < 0x80 {
        if op % 8 == 6 || (op - 0x40) / 8 == 6 {
            8
        } else {
            4
        }
    } else if 0x80 <= op && op < 0xC0 {
        if op % 8 == 6 {
            8
        } else {
            4
        }
    } else if op < 0x40 {
        let col = op % 16;
        if col == 0x0 {
            if op == 0x20 || op == 0x30 {
                if cond_of(op, f) {
                    12
                } else {
                    8
                }
            } else {
                4
            }
        } else if col == 0x1 {
            12
        } else if col == 0x2 || col == 0x3 {
            8
        } else if col == 0x4 || col == 0x5 {
            if op == 0x34 || op == 0x35 {
                12
            } else {
                4
            }
        } else if col == 0x6 {
            if op == 0x36 {
                12
            } else {
                8
            }
        } else if col == 0x7 {
            4
        } else if col == 0x8 {
            if op == 0x08 {
                20
            } else if op == 0x18 {
                12
            } else if cond_of(op, f) {
                12
            } else {
                8
            }
        } else if col == 0x9 || col == 0xA || col == 0xB || col == 0xE {
            8
        } else {
            4
        }
    } else if op == 0xC0 || op == 0xC8 || op == 0xD0 || op == 0xD8 {
        if cond_of(op, f) {
            20
        } else {
            8
        }
    } else if op == 0xC1 || op == 0xD1 || op == 0xE1 || op == 0xF1 {
        12
    } else if op == 0xC2 || op == 0xCA || op == 0xD2 || op == 0xDA {
        if cond_of(op, f) {
            16
        } else {
            12
        }
    } else if op == 0xC4 || op == 0xCC || op == 0xD4 || op == 0xDC {
        if cond_of(op, f) {
            24
        } else {
            12
        }
    } else if op == 0xC6 || op == 0xCE || op == 0xD6 || op == 0xDE || op == 0xE6 || op == 0xEE
        || op == 0xF6 || op == 0xFE {
        8
    } else if op == 0xC7 || op == 0xCF || op == 0xD7 || op == 0xDF || op == 0xE7 || op == 0xEF
        || op == 0xF7 || op == 0xFF {
        16
    } else if op == 0xC5 || op == 0xD5 || op == 0xE5 || op == 0xF5 {
        16
    } else if op == 0xC3 || op == 0xC9 || op == 0xD9 || op == 0xEA || op == 0xFA {
        16
    } else if op == 0xCD {
        24
    } else if op == 0xE0 || op == 0xF0 || op == 0xF8 {
        12
    } else if op == 0xE2 || op == 0xF2 || op == 0xF9 {
        8
    } else if op == 0xE8 {
        16
    } else if op == 0xE9 || op == 0xF3 || op == 0xFB {
        4
    } else {
        0
    }
}

/// The clock cycles one prefixed opcode consumes: eight in a register
/// column, and in the memory column twelve for a bit test, sixteen
/// otherwise.
pub open spec fn cb_cycles(op2: u8) -> int {
    if op2 % 8 == 6 {
        if 8 <= op2 / 8 && op2 / 8 <= 15 {
            12
        } else {
            16
        }
    } else {
        8
    }
}

/// The byte produced by entry `i` of the prefixed bit-operation table on
/// operand `v` with flags `f`: rotates and shifts for 0..7, bit tests
/// (which keep the byte) for 8..15, bit clears for 16..23, bit sets for
/// 24..31.
pub open spec fn cb_val(i: u8, v: u8, f: Flags) -> u8 {
    if i == 0 {
        crate::opcodes::rotl8(v)
    } else if i == 1 {
        crate::opcodes::rotr8(v)
    } else if i == 2 {
        crate::opcodes::rl_val(v, f.c)
    } else if i == 3 {
        crate::opcodes::rr_val(v, f.c)
    } else if i == 4 {
        v << 1
    } else if i == 5 {
        (v >> 1) | (v & 0x80)
    } else if i == 6 {
        (v >> 4) | (v << 4)
    } else if i == 7 {
        v >> 1
    } else if i < 16 {
        v
    } else if i < 24 {
        v & !(1u8 << ((i - 16) as u8))
    } else {
        v | (1u8 << ((i - 24) as u8))
    }
}

/// The flag outcome of entry `i` of the prefixed table: the rotate/shift
/// rows set z from the result and c from the bit shifted out (swap
/// clears it), the bit-test rows set z from the tested bit and leave
/// carry, and the bit clear/set rows leave the flags alone.
pub open spec fn cb_flags(i: u8, v: u8, f: Flags) -> Flags {
    if i < 8 {
        Flags {
            z: cb_val(i, v, f) == 0,
            n: false,
            h: false,
            c: if i == 6 {
                false
            } else if i == 0 || i == 2 || i == 4 {
                v & 0x80 != 0
            } else {
                v & 1 != 0
            },
        }
    } else if i < 16 {
        Flags { z: v & (1u8 << ((i - 8) as u8)) == 0, n: false, h: true, c: f.c }
    } else {
        f
    }
}

/// The register cell selected by a three-bit operand column (6, the
/// memory column, never reaches these two helpers).
pub open spec fn reg8_get(r: Registers, src: u8) -> u8 {
    if src == 0 {
        r.b
    } else if src == 1 {
        r.c
    } else if src == 2 {
        r.d
    } else if src == 3 {
        r.e
    } else if src == 4 {
        r.h
    } else if src == 5 {
        r.l
    } else {
        r.a
    }
}

/// The register file with the selected cell replaced.
pub open spec fn reg8_set(r: Registers, src: u8, v: u8) -> Registers {
    if src == 0 {
        Registers { b: v, ..r }
    } else if src == 1 {
        Registers { c: v, ..r }
    } else if src == 2 {
        Registers { d: v, ..r }
    } else if src == 3 {
        Registers { e: v, ..r }
    } else if src == 4 {
        Registers { h: v, ..r }
    } else if src == 5 {
        Registers { l: v, ..r }
    } else {
        Registers { a: v, ..r }
    }
}

/// The 16-bit pair selected by a two-bit operand field: bc, de, hl, sp.
pub open spec fn reg16_get(r: Registers, idx: u8) -> u16 {
    if idx == 0 {
        r.spec_bc()
    } else if idx == 1 {
        r.spec_de()
    } else if idx == 2 {
        r.spec_hl()
    } else {
        r.sp
    }
}

/// The register file with the selected 16-bit pair replaced.
pub open spec fn reg16_set(r: Registers, idx: u8, w: u16) -> Registers {
    if idx == 0 {
        Registers { b: hi_byte(w), c: lo_byte(w), ..r }
    } else if idx == 1 {
        Registers { d: hi_byte(w), e: lo_byte(w), ..r }
    } else if idx == 2 {
        Registers { h: hi_byte(w), l: lo_byte(w), ..r }
    } else {
        Registers { sp: w, ..r }
    }
}

/// The full effect of one opcode below 0x40 on the interpreter state:
/// `c0`/`m0` are the CPU and memory just after the opcode fetch (the
/// program counter points at the first operand byte), `c1`/`m1` the
/// state when the instruction has finished.
pub open spec fn low_step(op: u8, c0: Cpu, m0: MemShadow, c1: Cpu, m1: MemShadow) -> bool {
    let regs0 = c0.regs;
    let f0 = regs0.f;
    let a0 = regs0.a;
    let hl0 = regs0.spec_hl();
    let p0 = regs0.pc;
    let imm8 = m0.bytes[p0 as int];
    let imm16 = word_at(m0, p0);
    &&& (op == 0x00 ==> c1 == c0 && m1 == m0)
    &&& (op == 0x10 ==> c1 == (Cpu {
        regs: (Registers { pc: wrap_add16(p0, 1), ..regs0 }),
        halted: true,
        ..c0
    }) && m1 == m0)
    &&& (op % 16 == 1 ==> c1 == (Cpu {
        regs: (Registers {
            pc: wrap_add16(p0, 2),
            ..reg16_set(regs0, (op / 16) as u8, imm16)
        }),
        ..c0
    }) && m1 == m0)
    &&& (op == 0x02 ==> c1 == c0 && m1 == write_model(
        m0,
        regs0.spec_bc(),
        a0,
    ))
    &&& (op == 0x12 ==> c1 == c0 && m1 == write_model(
        m0,
        regs0.spec_de(),
        a0,
    ))
    &&& (op == 0x22 ==> c1 == (Cpu {
        regs: (Registers {
            h: hi_byte(wrap_add16(hl0, 1)),
            l: lo_byte(wrap_add16(hl0, 1)),
            ..regs0
        }),
        ..c0
    }) && m1 == write_model(m0, hl0, a0))
    &&& (op == 0x32 ==> c1 == (Cpu {
        regs: (Registers {
            h: hi_byte(wrap_sub16(hl0, 1)),
            l: lo_byte(wrap_sub16(hl0, 1)),
            ..regs0
        }),
        ..c0
    }) && m1 == write_model(m0, hl0, a0))
    &&& (op % 16 == 3 ==> c1 == (Cpu {
        regs: (reg16_set(
            regs0,
            (op / 16) as u8,
            wrap_add16(reg16_get(regs0, (op / 16) as u8), 1),
        )),
        ..c0
    }) && m1 == m0)
    &&& (op % 16 == 11 ==> c1 == (Cpu {
        regs: (reg16_set(
            regs0,
            (op / 16) as u8,
            wrap_sub16(reg16_get(regs0, (op / 16) as u8), 1),
        )),
        ..c0
    }) && m1 == m0)
    &&& (op % 8 == 4 && op != 0x34 ==> c1 == (Cpu {
        regs: (Registers {
            f: inc_flags(reg8_get(regs0, (op / 8) as u8), f0),
            ..reg8_set(
                regs0,
                (op / 8) as u8,
                wrap_add8(reg8_get(regs0, (op / 8) as u8), 1),
            )
        }),
        ..c0
    }) && m1 == m0)
    &&& (op % 8 == 5 && op != 0x35 ==> c1 == (Cpu {
        regs: (Registers {
            f: dec_flags(reg8_get(regs0, (op / 8) as u8), f0),
            ..reg8_set(
                regs0,
                (op / 8) as u8,
                wrap_sub8(reg8_get(regs0, (op / 8) as u8), 1),
            )
        }),
        ..c0
    }) && m1 == m0)
    &&& (op == 0x34 ==> c1 == (Cpu {
        regs: (Registers { f: inc_flags(m0.bytes[hl0 as int], f0), ..regs0 }),
        ..c0
    }) && m1 == write_model(m0, hl0, wrap_add8(m0.bytes[hl0 as int], 1)))
    &&& (op == 0x35 ==> c1 == (Cpu {
        regs: (Registers { f: dec_flags(m0.bytes[hl0 as int], f0), ..regs0 }),
        ..c0
    }) && m1 == write_model(m0, hl0, wrap_sub8(m0.bytes[hl0 as int], 1)))
    &&& (op % 8 == 6 && op != 0x36 ==> c1 == (Cpu {
        regs: (Registers {
            pc: wrap_add16(p0, 1),
            ..reg8_set(regs0, (op / 8) as u8, imm8)
        }),
        ..c0
    }) && m1 == m0)
    &&& (op == 0x36 ==> c1 == (Cpu {
        regs: (Registers { pc: wrap_add16(p0, 1), ..regs0 }),
        ..c0
    }) && m1 == write_model(m0, hl0, imm8))
    &&& (op == 0x07 ==> c1 == (Cpu {
        regs: (Registers {
            a: crate::opcodes::rotl8(a0),
            f: (Flags { z: f0.z, n: false, h: false, c: a0 & 0x80 != 0 }),
            ..regs0
        }),
        ..c0
    }) && m1 == m0)
    &&& (op == 0x0F ==> c1 == (Cpu {
        regs: (Registers {
            a: crate::opcodes::rotr8(a0),
            f: (Flags { z: f0.z, n: false, h: false, c: a0 & 1 != 0 }),
            ..regs0
        }),
        ..c0
    }) && m1 == m0)
    &&& (op == 0x17 ==> c1 == (Cpu {
        regs: (Registers {
            a: crate::opcodes::rl_val(a0, f0.c),
            f: (Flags { z: f0.z, n: false, h: false, c: a0 & 0x80 != 0 }),
            ..regs0
        }),
        ..c0
    }) && m1 == m0)
    &&& (op == 0x1F ==> c1 == (Cpu {
        regs: (Registers {
            a: crate::opcodes::rr_val(a0, f0.c),
            f: (Flags { z: f0.z, n: false, h: false, c: a0 & 1 != 0 }),
            ..regs0
        }),
        ..c0
    }) && m1 == m0)
    &&& (op == 0x27 ==> c1 == (Cpu {
        regs: (Registers {
            a: daa_val(a0, f0),
            f: (Flags {
                z: daa_val(a0, f0) == 0,
                n: f0.n,
                h: false,
                c: daa_carry(a0, f0),
            }),
            ..regs0
        }),
        ..c0
    }) && m1 == m0)
    &&& (op == 0x2F ==> c1 == (Cpu {
        regs: (Registers {
            a: !a0,
            f: (Flags { z: f0.z, n: true, h: true, c: f0.c }),
            ..regs0
        }),
        ..c0
    }) && m1 == m0)
    &&& (op == 0x37 ==> c1 == (Cpu {
        regs: (Registers {
            f: (Flags { z: f0.z, n: false, h: false, c: true }),
            ..regs0
        }),
        ..c0
    }) && m1 == m0)
    &&& (op == 0x3F ==> c1 == (Cpu {
        regs: (Registers {
            f: (Flags { z: f0.z, n: false, h: false, c: !f0.c }),
            ..regs0
        }),
        ..c0
    }) && m1 == m0)
    &&& (op == 0x18 || op == 0x20 || op == 0x28 || op == 0x30 || op == 0x38
        ==> c1 == (Cpu {
        regs: (Registers { pc: jr_target(p0, imm8, cond_of(op, f0)), ..regs0 }),
        ..c0
    }) && m1 == m0)
    &&& (op == 0x08 ==> c1 == (Cpu {
        regs: (Registers { pc: wrap_add16(p0, 2), ..regs0 }),
        ..c0
    }) && m1 == write_model(
        write_model(m0, imm16, lo_byte(regs0.sp)),
        wrap_add16(imm16, 1),
        hi_byte(regs0.sp),
    ))
    &&& (op % 16 == 9 ==> ({
        let p = reg16_get(regs0, (op / 16) as u8);
        c1 == (Cpu {
            regs: (Registers {
                h: hi_byte(wrap_add16(hl0, p)),
                l: lo_byte(wrap_add16(hl0, p)),
                f: (Flags {
                    z: f0.z,
                    n: false,
                    h: (hl0 & 0xFFF) + (p & 0xFFF) >= 0x1000,
                    c: hl0 + p >= 0x10000,
                }),
                ..regs0
            }),
            ..c0
        }) && m1 == m0
    }))
    &&& (op == 0x0A ==> c1 == (Cpu {
        regs: (Registers { a: m0.bytes[regs0.spec_bc() as int], ..regs0 }),
        ..c0
    }) && m1 == m0)
    &&& (op == 0x1A ==> c1 == (Cpu {
        regs: (Registers { a: m0.bytes[regs0.spec_de() as int], ..regs0 }),
        ..c0
    }) && m1 == m0)
    &&& (op == 0x2A ==> c1 == (Cpu {
        regs: (Registers {
            a: m0.bytes[hl0 as int],
            h: hi_byte(wrap_add16(hl0, 1)),
            l: lo_byte(wrap_add16(hl0, 1)),
            ..regs0
        }),
        ..c0
    }) && m1 == m0)
    &&& (op == 0x3A ==> c1 == (Cpu {
        regs: (Registers {
            a: m0.bytes[hl0 as int],
            h: hi_byte(wrap_sub16(hl0, 1)),
            l: lo_byte(wrap_sub16(hl0, 1)),
            ..regs0
        }),
        ..c0
    }) && m1 == m0)
}

/// The full effect of one opcode of the register-to-register load block
/// (0x40..0x7F, HALT excepted) on the post-fetch state.
pub open spec fn ld_step(op: u8, c0: Cpu, m0: MemShadow, c1: Cpu, m1: MemShadow) -> bool {
    let regs0 = c0.regs;
    let hl0 = regs0.spec_hl();
    &&& (op % 8 != 6 && (op - 0x40) / 8 != 6 ==> c1 == (Cpu {
        regs: (reg8_set(regs0, ((op - 0x40) / 8) as u8, reg8_get(regs0, (op % 8) as u8))),
        ..c0
    }) && m1 == m0)
    &&& (op % 8 == 6 && (op - 0x40) / 8 != 6 ==> c1 == (Cpu {
        regs: (reg8_set(regs0, ((op - 0x40) / 8) as u8, m0.bytes[hl0 as int])),
        ..c0
    }) && m1 == m0)
    &&& (op % 8 != 6 && (op - 0x40) / 8 == 6 ==> c1 == c0 && m1 == write_model(
        m0,
        hl0,
        reg8_get(regs0, (op % 8) as u8),
    ))
}

/// The full effect of one opcode of the accumulator arithmetic block
/// (0x80..0xBF) on the post-fetch state.
pub open spec fn alu_step(op: u8, c0: Cpu, m0: MemShadow, c1: Cpu, m1: MemShadow) -> bool {
    let regs0 = c0.regs;
    let f0 = regs0.f;
    let v = if op % 8 == 6 {
        m0.bytes[regs0.spec_hl() as int]
    } else {
        reg8_get(regs0, (op % 8) as u8)
    };
    &&& c1 == (Cpu {
        regs: (Registers {
            a: alu_acc(((op - 0x80) / 8) as u8, regs0.a, v, f0),
            f: alu_flags(((op - 0x80) / 8) as u8, regs0.a, v, f0),
            ..regs0
        }),
        ..c0
    })
    &&& m1 == m0
}

/// The full effect of one opcode from 0xC0 up (the eleven undefined
/// bytes and the 0xCB prefix excepted) on the post-fetch state.
pub open spec fn high_step(op: u8, c0: Cpu, m0: MemShadow, c1: Cpu, m1: MemShadow) -> bool {
    let regs0 = c0.regs;
    let f0 = regs0.f;
    let a0 = regs0.a;
    let hl0 = regs0.spec_hl();
    let sp0 = regs0.sp;
    let p0 = regs0.pc;
    let imm8 = m0.bytes[p0 as int];
    let imm16 = word_at(m0, p0);
    &&& (op == 0xC0 || op == 0xC8 || op == 0xD0 || op == 0xD8 ==> c1 == (
    if cond_of(op, f0) {
        Cpu {
            regs: (Registers {
                pc: stack_word(m0, sp0),
                sp: wrap_add16(sp0, 2),
                ..regs0
            }),
            ..c0
        }
    } else {
        c0
    }) && m1 == m0)
    &&& (op == 0xC9 ==> c1 == (Cpu {
        regs: (Registers {
            pc: stack_word(m0, sp0),
            sp: wrap_add16(sp0, 2),
            ..regs0
        }),
        ..c0
    }) && m1 == m0)
    &&& (op == 0xD9 ==> c1 == (Cpu {
        regs: (Registers {
            pc: stack_word(m0, sp0),
            sp: wrap_add16(sp0, 2),
            ..regs0
        }),
        scheduled_ime: true,
        ..c0
    }) && m1 == m0)
    &&& (op == 0xC1 || op == 0xD1 || op == 0xE1 ==> c1 == (Cpu {
        regs: (Registers {
            sp: wrap_add16(sp0, 2),
            ..reg16_set(regs0, ((op - 0xC1) / 16) as u8, stack_word(m0, sp0))
        }),
        ..c0
    }) && m1 == m0)
    &&& (op == 0xF1 ==> c1 == (Cpu {
        regs: (Registers {
            sp: wrap_add16(sp0, 2),
            a: hi_byte(stack_word(m0, sp0)),
            f: flags_of_byte(lo_byte(stack_word(m0, sp0))),
            ..regs0
        }),
        ..c0
    }) && m1 == m0)
    &&& (op == 0xC3 || op == 0xC2 || op == 0xCA || op == 0xD2 || op == 0xDA
        ==> c1 == (Cpu {
        regs: (Registers {
            pc: if cond_of(op, f0) {
                imm16
            } else {
                wrap_add16(p0, 2)
            },
            ..regs0
        }),
        ..c0
    }) && m1 == m0)
    &&& (op == 0xE9 ==> c1 == (Cpu {
        regs: (Registers { pc: hl0, ..regs0 }),
        ..c0
    }) && m1 == m0)
    &&& (op == 0xCD || op == 0xC4 || op == 0xCC || op == 0xD4 || op == 0xDC ==> (
    if cond_of(op, f0) {
        c1 == (Cpu {
            regs: (Registers { pc: imm16, sp: wrap_sub16(sp0, 2), ..regs0 }),
            ..c0
        }) && m1 == push_model(m0, sp0, wrap_add16(p0, 2))
    } else {
        c1 == (Cpu {
            regs: (Registers { pc: wrap_add16(p0, 2), ..regs0 }),
            ..c0
        }) && m1 == m0
    }))
    &&& (op % 8 == 7 ==> c1 == (Cpu {
        regs: (Registers {
            pc: (op - 0xC7) as u16,
            sp: wrap_sub16(sp0, 2),
            ..regs0
        }),
        ..c0
    }) && m1 == push_model(m0, sp0, p0))
    &&& (op == 0xC5 || op == 0xD5 || op == 0xE5 ==> c1 == (Cpu {
        regs: (Registers { sp: wrap_sub16(sp0, 2), ..regs0 }),
        ..c0
    }) && m1 == push_model(
        m0,
        sp0,
        reg16_get(regs0, ((op - 0xC5) / 16) as u8),
    ))
    &&& (op == 0xF5 ==> c1 == (Cpu {
        regs: (Registers { sp: wrap_sub16(sp0, 2), ..regs0 }),
        ..c0
    }) && m1 == push_model(m0, sp0, regs0.spec_af()))
    &&& (op % 8 == 6 ==> c1 == (Cpu {
        regs: (Registers {
            pc: wrap_add16(p0, 1),
            a: alu_acc(((op - 0xC6) / 8) as u8, a0, imm8, f0),
            f: alu_flags(((op - 0xC6) / 8) as u8, a0, imm8, f0),
            ..regs0
        }),
        ..c0
    }) && m1 == m0)
    &&& (op == 0xE0 ==> c1 == (Cpu {
        regs: (Registers { pc: wrap_add16(p0, 1), ..regs0 }),
        ..c0
    }) && m1 == write_model(m0, (0xFF00 + imm8) as u16, a0))
    &&& (op == 0xF0 ==> c1 == (Cpu {
        regs: (Registers {
            pc: wrap_add16(p0, 1),
            a: m0.bytes[0xFF00 + imm8],
            ..regs0
        }),
        ..c0
    }) && m1 == m0)
    &&& (op == 0xE2 ==> c1 == c0 && m1 == write_model(
        m0,
        (0xFF00 + regs0.c) as u16,
        a0,
    ))
    &&& (op == 0xF2 ==> c1 == (Cpu {
        regs: (Registers { a: m0.bytes[0xFF00 + regs0.c], ..regs0 }),
        ..c0
    }) && m1 == m0)
    &&& (op == 0xEA ==> c1 == (Cpu {
        regs: (Registers { pc: wrap_add16(p0, 2), ..regs0 }),
        ..c0
    }) && m1 == write_model(m0, imm16, a0))
    &&& (op == 0xFA ==> c1 == (Cpu {
        regs: (Registers {
            pc: wrap_add16(p0, 2),
            a: m0.bytes[imm16 as int],
            ..regs0
        }),
        ..c0
    }) && m1 == m0)
    &&& (op == 0xE8 ==> c1 == (Cpu {
        regs: (Registers {
            pc: wrap_add16(p0, 1),
            sp: wrap_add16_i8(sp0, #[verifier::truncate] (imm8 as i8)),
            f: (Flags {
                z: false,
                n: false,
                h: (sp0 & 0xF) + (imm8 & 0xF) >= 0x10,
                c: (sp0 & 0xFF) + imm8 >= 0x100,
            }),
            ..regs0
        }),
        ..c0
    }) && m1 == m0)
    &&& (op == 0xF8 ==> c1 == (Cpu {
        regs: (Registers {
            pc: wrap_add16(p0, 1),
            h: hi_byte(wrap_add16_i8(sp0, #[verifier::truncate] (imm8 as i8))),
            l: lo_byte(wrap_add16_i8(sp0, #[verifier::truncate] (imm8 as i8))),
            f: (Flags {
                z: false,
                n: false,
                h: (sp0 & 0xF) + (imm8 & 0xF) >= 0x10,
                c: (sp0 & 0xFF) + imm8 >= 0x100,
            }),
            ..regs0
        }),
        ..c0
    }) && m1 == m0)
    &&& (op == 0xF9 ==> c1 == (Cpu {
        regs: (Registers { sp: hl0, ..regs0 }),
        ..c0
    }) && m1 == m0)
    &&& (op == 0xF3 ==> c1 == (Cpu { scheduled_ime: false, ..c0 })
        && m1 == m0)
    &&& (op == 0xFB ==> c1 == (Cpu { scheduled_ime: true, ..c0 })
        && m1 == m0)
}

/// The full effect of one prefixed opcode on the state just after the
/// 0xCB byte was fetched: the second opcode byte sits at `c0`'s program
/// counter.
pub open spec fn cb_step(c0: Cpu, m0: MemShadow, c1: Cpu, m1: MemShadow) -> bool {
    let op2 = m0.bytes[c0.regs.pc as int];
    let inst = op2 / 8;
    let col = op2 % 8;
    let pc1 = wrap_add16(c0.regs.pc, 1);
    let f0 = c0.regs.f;
    if col == 6 {
        let v = m0.bytes[c0.regs.spec_hl() as int];
        &&& c1 == (Cpu {
            regs: (Registers { pc: pc1, f: cb_flags(inst, v, f0), ..c0.regs }),
            ..c0
        })
        &&& m1 == write_model(m0, c0.regs.spec_hl(), cb_val(inst, v, f0))
    } else {
        let v = reg8_get(c0.regs, col);
        &&& c1 == (Cpu {
            regs: (Registers {
                pc: pc1,
                f: cb_flags(inst, v, f0),
                ..reg8_set(c0.regs, col, cb_val(inst, v, f0))
            }),
            ..c0
        })
        &&& m1 == m0
    }
}

/// The interpreter state: the register file, a halted flag, and the
/// interrupt-enable pair — `ime` is the currently effective enable and
/// `scheduled_ime` the value it takes when the current step completes,
/// modelling the one-instruction latency of EI.
pub struct Cpu {
    pub regs: Registers,
    pub halted: bool,
    pub scheduled_ime: bool,
    pub ime: bool,
}

impl Cpu {
    /// Power-on state: fresh registers, running, interrupts disabled.
    pub fn new() -> (r: Cpu)
        ensures
            r.regs == (Registers {
                a: 0,
                f: Flags { z: false, n: false, h: false, c: false },
                b: 0,
                c: 0,
                d: 0,
                e: 0,
                h: 0,
                l: 0,
                sp: 0xFFFE,
                pc: 0,
            }),
            !r.halted,
            !r.scheduled_ime,
            !r.ime,
    {
        Cpu { regs: Registers::new(), halted: false, scheduled_ime: false, ime: false }
    }

    pub fn read(&self, mem: &Memory, address: u16) -> (r: u8)
        requires
            mem.wf(),
        ensures
            r == mem@.bytes[address as int],
    {
        mem.read(address)
    }

    /// Reads a little-endian word; the second byte comes from the next
    /// address, wrapping modulo 65536.
    pub fn read_u16(&self, mem: &Memory, address: u16) -> (r: u16)
        requires
            mem.wf(),
        ensures
            r == mem@.bytes[address as int] + mem@.bytes[wrap_add16(address, 1) as int] * 256,
    {
        combine_u8s(mem.read(address), mem.read(address.wrapping_add(1)))
    }

    pub fn write(&self, mem: &mut Memory, address: u16, data: u8)
        requires
            old(mem).wf(),
        ensures
            final(mem).wf(),
            final(mem)@ == write_model(old(mem)@, address, data),
    {
        mem.write(address, data);
    }

    /// Stores a word little-endian through the CPU-visible write path.
    pub fn write_u16(&self, mem: &mut Memory, address: u16, data: u16)
        requires
            old(mem).wf(),
        ensures
            final(mem).wf(),
            final(mem)@ == write_model(
                write_model(old(mem)@, address, lo_byte(data)),
                wrap_add16(address, 1),
                hi_byte(data),
            ),
    {
        let (upper, lower) = split_u16(data);
        self.write(mem, address, lower);
        self.write(mem, address.wrapping_add(1), upper);
    }

    /// The auto-incrementing fetch: returns the byte at the program
    /// counter and advances it by one.
    pub fn next_byte(&mut self, mem: &Memory) -> (r: u8)
        requires
            mem.wf(),
        ensures
            r == mem@.bytes[old(self).regs.pc as int],
            *final(self) == (Cpu {
                regs: (Registers { pc: wrap_add16(old(self).regs.pc, 1), ..old(self).regs }),
                ..*old(self)
            }),
    {
        let pc = self.regs.pc();
        self.read(mem, pc)
    }

    /// Fetches a little-endian word operand, advancing the program
    /// counter by two.
    pub fn next_word(&mut self, mem: &Memory) -> (r: u16)
        requires
            mem.wf(),
        ensures
            r == mem@.bytes[old(self).regs.pc as int] + mem@.bytes[wrap_add16(
                old(self).regs.pc,
                1,
            ) as int] * 256,
            *final(self) == (Cpu {
                regs: (Registers { pc: wrap_add16(old(self).regs.pc, 2), ..old(self).regs }),
                ..*old(self)
            }),
    {
        let lsb = self.next_byte(mem);
        let msb = self.next_byte(mem);
        combine_u8s(lsb, msb)
    }

    /// Pops a word: reads little-endian at the stack pointer and raises
    /// it by two.
    pub fn pop(&mut self, mem: &Memory) -> (r: u16)
        requires
            mem.wf(),
        ensures
            r == stack_word(mem@, old(self).regs.sp),
            *final(self) == (Cpu {
                regs: (Registers { sp: wrap_add16(old(self).regs.sp, 2), ..old(self).regs }),
                ..*old(self)
            }),
    {
        let lower = self.read(mem, self.regs.sp);
        let higher = self.read(mem, self.regs.sp.wrapping_add(1));
        let answer = combine_u8s(lower, higher);
        self.regs.sp = self.regs.sp.wrapping_add(2);
        answer
    }

    /// Pushes a word: drops the stack pointer by two and stores the word
    /// little-endian at the new stack top.
    pub fn push(&mut self, mem: &mut Memory, data: u16)
        requires
            old(mem).wf(),
        ensures
            final(mem).wf(),
            final(mem)@ == push_model(old(mem)@, old(self).regs.sp, data),
            *final(self) == (Cpu {
                regs: (Registers { sp: wrap_sub16(old(self).regs.sp, 2), ..old(self).regs }),
                ..*old(self)
            }),
    {
        self.regs.sp = self.regs.sp.wrapping_sub(2);
        let sp = self.regs.sp;
        self.write_u16(mem, sp, data);
    }

    /// Adds into the accumulator: the result wraps modulo 256, carry is
    /// the true carry out of bit 7, half-carry the carry out of bit 3.
    pub fn add(&mut self, data: u8)
        ensures
            *final(self) == (Cpu {
                regs: (Registers {
                    a: wrap_add8(old(self).regs.a, data),
                    f: (Flags {
                        z: wrap_add8(old(self).regs.a, data) == 0,
                        n: false,
                        h: (old(self).regs.a & 0xF) + (data & 0xF) >= 0x10,
                        c: old(self).regs.a + data >= 0x100,
                    }),
                    ..old(self).regs
                }),
                ..*old(self)
            }),
    {
        let a = self.regs.a;
        let h = half_carry_add(a, data);
        self.regs.f.set_h_flag(h);
        let result = a.wrapping_add(data);
        self.regs.a = result;
        self.regs.f.set_z_flag(result == 0);
        self.regs.f.set_n_flag(false);
        self.regs.f.set_c_flag((a as u16) + (data as u16) >= 0x100);
    }

    /// Add with carry: the incoming carry joins the nine-bit addition and
    /// the half-carry sum.
    pub fn adc(&mut self, data: u8)
        ensures
            *final(self) == (Cpu {
                regs: (Registers {
                    a: adc_val(old(self).regs.a, data, old(self).regs.f.c),
                    f: (Flags {
                        z: adc_val(old(self).regs.a, data, old(self).regs.f.c) == 0,
                        n: false,
                        h: (old(self).regs.a & 0xF) + (data & 0xF) + (if old(self).regs.f.c {
                            1int
                        } else {
                            0int
                        }) >= 0x10,
                        c: old(self).regs.a + data + (if old(self).regs.f.c {
                            1int
                        } else {
                            0int
                        }) >= 0x100,
                    }),
                    ..old(self).regs
                }),
                ..*old(self)
            }),
    {
        let a = self.regs.a;
        let cin: u8 = if self.regs.f.c_flag() {
            1
        } else {
            0
        };
        proof {
            assert(a & 0xF <= 0xF && data & 0xF <= 0xF) by (bit_vector);
        }
        let h = (a & 0xF) + (data & 0xF) + cin >= 0x10;
        let sum: u16 = a as u16 + data as u16 + cin as u16;
        let result = (sum % 256) as u8;
        self.regs.a = result;
        self.regs.f.set_z_flag(result == 0);
        self.regs.f.set_n_flag(false);
        self.regs.f.set_h_flag(h);
        self.regs.f.set_c_flag(sum >= 0x100);
    }

    /// Subtracts from the accumulator: carry is the true borrow out of
    /// bit 7, half-carry the borrow out of bit 4.
    pub fn sub(&mut self, data: u8)
        ensures
            *final(self) == (Cpu {
                regs: (Registers {
                    a: wrap_sub8(old(self).regs.a, data),
                    f: (Flags {
                        z: wrap_sub8(old(self).regs.a, data) == 0,
                        n: true,
                        h: (old(self).regs.a & 0xF) < (data & 0xF),
                        c: old(self).regs.a < data,
                    }),
                    ..old(self).regs
                }),
                ..*old(self)
            }),
    {
        let a = self.regs.a;
        let h = half_carry_sub(a, data);
        self.regs.f.set_h_flag(h);
        let result = a.wrapping_sub(data);
        self.regs.a = result;
        self.regs.f.set_c_flag(a < data);
        self.regs.f.set_z_flag(result == 0);
        self.regs.f.set_n_flag(true);
    }

    /// Subtract with carry: the incoming carry joins the nine-bit
    /// subtraction and the half-borrow.
    pub fn sbc(&mut self, data: u8)
        ensures
            *final(self) == (Cpu {
                regs: (Registers {
                    a: sbc_val(old(self).regs.a, data, old(self).regs.f.c),
                    f: (Flags {
                        z: sbc_val(old(self).regs.a, data, old(self).regs.f.c) == 0,
                        n: true,
                        h: (old(self).regs.a & 0xF) < (data & 0xF) + (if old(self).regs.f.c {
                            1int
                        } else {
                            0int
                        }),
                        c: old(self).regs.a < data + (if old(self).regs.f.c {
                            1int
                        } else {
                            0int
                        }),
                    }),
                    ..old(self).regs
                }),
                ..*old(self)
            }),
    {
        let a = self.regs.a;
        let cin: u8 = if self.regs.f.c_flag() {
            1
        } else {
            0
        };
        proof {
            assert(a & 0xF <= 0xF && data & 0xF <= 0xF) by (bit_vector);
        }
        let h = (a & 0xF) < (data & 0xF) + cin;
        let borrow = (a as u16) < data as u16 + cin as u16;
        let result = a.wrapping_sub(data).wrapping_sub(cin);
        self.regs.a = result;
        self.regs.f.set_z_flag(result == 0);
        self.regs.f.set_n_flag(true);
        self.regs.f.set_h_flag(h);
        self.regs.f.set_c_flag(borrow);
    }

    /// Bitwise and into the accumulator; half-carry is forced on.
    pub fn and(&mut self, data: u8)
        ensures
            *final(self) == (Cpu {
                regs: (Registers {
                    a: old(self).regs.a & data,
                    f: (Flags { z: (old(self).regs.a & data) == 0, n: false, h: true, c: false }),
                    ..old(self).regs
                }),
                ..*old(self)
            }),
    {
        self.regs.a &= data;
        let z = self.regs.a == 0;
        self.regs.f.set_z_flag(z);
        self.regs.f.set_n_flag(false);
        self.regs.f.set_h_flag(true);
        self.regs.f.set_c_flag(false);
    }

    /// Bitwise exclusive-or into the accumulator; h and c are cleared.
    pub fn xor(&mut self, data: u8)
        ensures
            *final(self) == (Cpu {
                regs: (Registers {
                    a: old(self).regs.a ^ data,
                    f: (Flags { z: (old(self).regs.a ^ data) == 0, n: false, h: false, c: false }),
                    ..old(self).regs
                }),
                ..*old(self)
            }),
    {
        self.regs.a ^= data;
        let z = self.regs.a == 0;
        self.regs.f.set_z_flag(z);
        self.regs.f.set_n_flag(false);
        self.regs.f.set_h_flag(false);
        self.regs.f.set_c_flag(false);
    }

    /// Bitwise or into the accumulator; h and c are cleared.
    pub fn or(&mut self, data: u8)
        ensures
            *final(self) == (Cpu {
                regs: (Registers {
                    a: old(self).regs.a | data,
                    f: (Flags { z: (old(self).regs.a | data) == 0, n: false, h: false, c: false }),
                    ..old(self).regs
                }),
                ..*old(self)
            }),
    {
        self.regs.a |= data;
        let z = self.regs.a == 0;
        self.regs.f.set_z_flag(z);
        self.regs.f.set_n_flag(false);
        self.regs.f.set_h_flag(false);
        self.regs.f.set_c_flag(false);
    }

    /// Compare: the flag effects of `sub` with the accumulator kept.
    pub fn cp(&mut self, data: u8)
        ensures
            *final(self) == (Cpu {
                regs: (Registers {
                    f: (Flags {
                        z: wrap_sub8(old(self).regs.a, data) == 0,
                        n: true,
                        h: (old(self).regs.a & 0xF) < (data & 0xF),
                        c: old(self).regs.a < data,
                    }),
                    ..old(self).regs
                }),
                ..*old(self)
            }),
    {
        let a = self.regs.a;
        let h = half_carry_sub(a, data);
        let result = a.wrapping_sub(data);
        self.regs.f.set_h_flag(h);
        self.regs.f.set_c_flag(a < data);
        self.regs.f.set_z_flag(result == 0);
        self.regs.f.set_n_flag(true);
    }

    /// 16-bit addition: half-carry at bit 11, carry from true 16-bit
    /// overflow, n cleared, z untouched.
    pub fn add_u16(&mut self, r1: u16, r2: u16) -> (r: u16)
        ensures
            r == wrap_add16(r1, r2),
            *final(self) == (Cpu {
                regs: (Registers {
                    f: (Flags {
                        z: old(self).regs.f.z,
                        n: false,
                        h: (r1 & 0xFFF) + (r2 & 0xFFF) >= 0x1000,
                        c: r1 + r2 >= 0x10000,
                    }),
                    ..old(self).regs
                }),
                ..*old(self)
            }),
    {
        let h = half_carry_u16(r1, r2);
        let result = r1.wrapping_add(r2);
        self.regs.f.set_n_flag(false);
        self.regs.f.set_h_flag(h);
        self.regs.f.set_c_flag((r1 as u32) + (r2 as u32) >= 0x10000);
        result
    }

    /// Stack-pointer-relative addition: the signed offset wraps modulo
    /// 65536, while carry and half-carry come from the unsigned low-byte
    /// addition; z and n are cleared.
    pub fn add_sp(&mut self, r2: i8) -> (r: u16)
        ensures
            r == wrap_add16_i8(old(self).regs.sp, r2),
            *final(self) == (Cpu {
                regs: (Registers {
                    f: (Flags {
                        z: false,
                        n: false,
                        h: (old(self).regs.sp & 0xF) + ((#[verifier::truncate] (r2 as u8)) & 0xF)
                            >= 0x10,
                        c: (old(self).regs.sp & 0xFF) + (#[verifier::truncate] (r2 as u8))
                            >= 0x100,
                    }),
                    ..old(self).regs
                }),
                ..*old(self)
            }),
    {
        let sp = self.regs.sp;
        let e = r2 as u8;
        proof {
            assert(sp & 0xF <= 0xF && sp & 0xFF <= 0xFF) by (bit_vector);
            assert(e & 0xF <= 0xF) by (bit_vector);
            assert((sp & 0xF) == ((sp as u8) & 0xF) as u16 && (e as u16) & 0xF == (e & 0xF) as u16)
                by (bit_vector);
        }
        let h = (sp & 0xF) + ((e & 0xF) as u16) >= 0x10;
        let c = (sp & 0xFF) + (e as u16) >= 0x100;
        let res = sp.wrapping_add_signed(r2 as i16);
        self.regs.f.set_n_flag(false);
        self.regs.f.set_z_flag(false);
        self.regs.f.set_h_flag(h);
        self.regs.f.set_c_flag(c);
        res
    }

    /// Decimal adjust: corrects the accumulator into packed BCD after an
    /// add or subtract, updating carry, clearing h and leaving n.
    pub fn daa(&mut self)
        ensures
            *final(self) == (Cpu {
                regs: (Registers {
                    a: daa_val(old(self).regs.a, old(self).regs.f),
                    f: (Flags {
                        z: daa_val(old(self).regs.a, old(self).regs.f) == 0,
                        n: old(self).regs.f.n,
                        h: false,
                        c: daa_carry(old(self).regs.a, old(self).regs.f),
                    }),
                    ..old(self).regs
                }),
                ..*old(self)
            }),
    {
        let a = self.regs.a;
        proof {
            assert(a & 0xF <= 0xF) by (bit_vector);
        }
        if !self.regs.f.n_flag() {
            let mut adjust: u8 = 0;
            if self.regs.f.h_flag() || (a & 0xF) > 9 {
                adjust = 6;
            }
            if self.regs.f.c_flag() || a > 0x99 {
                adjust += 0x60;
                self.regs.f.set_c_flag(true);
            }
            self.regs.a = a.wrapping_add(adjust);
        } else {
            let mut adjust: u8 = 0;
            if self.regs.f.h_flag() {
                adjust = 6;
            }
            if self.regs.f.c_flag() {
                adjust += 0x60;
            }
            self.regs.a = a.wrapping_sub(adjust);
        }
        let z = self.regs.a == 0;
        self.regs.f.set_z_flag(z);
        self.regs.f.set_h_flag(false);
    }

    /// Writes the carry flag (set for SCF, complemented for CCF) and
    /// clears n and h.
    pub fn cf(&mut self, val: bool)
        ensures
            *final(self) == (Cpu {
                regs: (Registers {
                    f: (Flags { z: old(self).regs.f.z, n: false, h: false, c: val }),
                    ..old(self).regs
                }),
                ..*old(self)
            }),
    {
        self.regs.f.set_c_flag(val);
        self.regs.f.set_n_flag(false);
        self.regs.f.set_h_flag(false);
    }

    /// Complements the accumulator, setting n and h.
    pub fn cpl(&mut self)
        ensures
            *final(self) == (Cpu {
                regs: (Registers {
                    a: !old(self).regs.a,
                    f: (Flags {
                        z: old(self).regs.f.z,
                        n: true,
                        h: true,
                        c: old(self).regs.f.c,
                    }),
                    ..old(self).regs
                }),
                ..*old(self)
            }),
    {
        self.regs.a = !self.regs.a;
        self.regs.f.set_n_flag(true);
        self.regs.f.set_h_flag(true);
    }

    /// Relative jump: the offset byte is always consumed, so the program
    /// counter advances identically whether or not the condition fires.
    pub fn jr(&mut self, mem: &Memory, cc: bool)
        requires
            mem.wf(),
        ensures
            *final(self) == (Cpu {
                regs: (Registers {
                    pc: jr_target(old(self).regs.pc, mem@.bytes[old(self).regs.pc as int], cc),
                    ..old(self).regs
                }),
                ..*old(self)
            }),
    {
        let fetched = self.next_byte(mem);
        let jump = #[verifier::truncate] (fetched as i8);
        if cc {
            self.regs.jump_pc(jump);
        }
    }

    /// Conditional return: pops the return address only when the
    /// condition holds.
    pub fn ret(&mut self, mem: &Memory, cc: bool)
        requires
            mem.wf(),
        ensures
            *final(self) == (if cc {
                Cpu {
                    regs: (Registers {
                        pc: stack_word(mem@, old(self).regs.sp),
                        sp: wrap_add16(old(self).regs.sp, 2),
                        ..old(self).regs
                    }),
                    ..*old(self)
                }
            } else {
                *old(self)
            }),
    {
        if !cc {
            return ;
        }
        let address = self.pop(mem);
        self.regs.set_pc(address);
    }

    /// Call: a fixed low-page target for RST, otherwise a word operand
    /// that is always consumed; when the condition holds, the address of
    /// the next instruction (the post-operand program counter) is pushed
    /// before jumping.
    pub fn call(&mut self, mem: &mut Memory, cc: bool, address: Option<u8>)
        requires
            old(mem).wf(),
        ensures
            final(mem).wf(),
            address matches Some(v) ==> (if cc {
                *final(self) == (Cpu {
                    regs: (Registers {
                        pc: v as u16,
                        sp: wrap_sub16(old(self).regs.sp, 2),
                        ..old(self).regs
                    }),
                    ..*old(self)
                }) && final(mem)@ == push_model(old(mem)@, old(self).regs.sp, old(self).regs.pc)
            } else {
                *final(self) == *old(self) && final(mem)@ == old(mem)@
            }),
            address is None ==> ({
                let target = (old(mem)@.bytes[old(self).regs.pc as int] + old(mem)@.bytes[
                    wrap_add16(old(self).regs.pc, 1) as int] * 256) as u16;
                let mid = wrap_add16(old(self).regs.pc, 2);
                if cc {
                    *final(self) == (Cpu {
                        regs: (Registers {
                            pc: target,
                            sp: wrap_sub16(old(self).regs.sp, 2),
                            ..old(self).regs
                        }),
                        ..*old(self)
                    }) && final(mem)@ == push_model(old(mem)@, old(self).regs.sp, mid)
                } else {
                    *final(self) == (Cpu {
                        regs: (Registers { pc: mid, ..old(self).regs }),
                        ..*old(self)
                    }) && final(mem)@ == old(mem)@
                }
            }),
    {
        let target: u16 = match address {
            Some(v) => v as u16,
            None => self.next_word(mem),
        };
        if cc {
            let next = self.regs.pc;
            self.push(mem, next);
            self.regs.set_pc(target);
        }
    }

    /// Jump: a register target for JP HL, otherwise a word operand that
    /// is always consumed; the program counter moves only when the
    /// condition holds.
    pub fn jp(&mut self, mem: &Memory, cc: bool, address: Option<u16>)
        requires
            mem.wf(),
        ensures
            address matches Some(a) ==> *final(self) == (if cc {
                Cpu { regs: (Registers { pc: a, ..old(self).regs }), ..*old(self) }
            } else {
                *old(self)
            }),
            address is None ==> ({
                let target = (mem@.bytes[old(self).regs.pc as int] + mem@.bytes[wrap_add16(
                    old(self).regs.pc,
                    1,
                ) as int] * 256) as u16;
                let mid = wrap_add16(old(self).regs.pc, 2);
                *final(self) == (Cpu {
                    regs: (Registers {
                        pc: if cc {
                            target
                        } else {
                            mid
                        },
                        ..old(self).regs
                    }),
                    ..*old(self)
                })
            }),
    {
        let target: u16 = match address {
            Some(a) => a,
            None => self.next_word(mem),
        };
        if cc {
            self.regs.set_pc(target);
        }
    }

    /// Dispatches one prefixed opcode through the 32-case bit-operation
    /// table: three bits select the operand register or `(HL)` memory,
    /// five bits select the operation.
    pub fn process_prefixed(&mut self, mem: &mut Memory) -> (cycles: u8)
        requires
            old(mem).wf(),
        ensures
            final(mem).wf(),
            8 <= cycles <= 16,
            cycles == cb_cycles(old(mem)@.bytes[old(self).regs.pc as int]),
            final(self).ime == old(self).ime,
            final(self).scheduled_ime == old(self).scheduled_ime,
            cb_step(*old(self), old(mem)@, *final(self), final(mem)@),
    {
        let opcode = self.next_byte(mem);
        let instruction = opcode / 8;
        let data_src = opcode % 8;

        // the (HL) column works through memory
        if data_src == 6 {
            let hl = self.regs.hl();
            let mut data = self.read(mem, hl);
            cb_apply(&mut data, &mut self.regs.f, instruction);
            let hl2 = self.regs.hl();
            self.write(mem, hl2, data);
            return if 8 <= instruction && instruction <= 15 {
                12
            } else {
                16
            };
        }
        match data_src {
            0 => cb_apply(&mut self.regs.b, &mut self.regs.f, instruction),
            1 => cb_apply(&mut self.regs.c, &mut self.regs.f, instruction),
            2 => cb_apply(&mut self.regs.d, &mut self.regs.f, instruction),
            3 => cb_apply(&mut self.regs.e, &mut self.regs.f, instruction),
            4 => cb_apply(&mut self.regs.h, &mut self.regs.f, instruction),
            5 => cb_apply(&mut self.regs.l, &mut self.regs.f, instruction),
            _ => cb_apply(&mut self.regs.a, &mut self.regs.f, instruction),
        }
        8
    }

    /// Fetches, decodes and executes one instruction, returning the
    /// number of clock cycles it consumed, or the fatal diagnostic for a
    /// byte with no defined behaviour.  EI, DI and RETI only schedule the
    /// interrupt-enable change: the effective `ime` keeps its old value
    /// until the following step completes.  A halted CPU consumes four
    /// idle cycles and changes nothing.  For every defined opcode the
    /// final register and memory state is pinned: it is the step
    /// predicate of the opcode's table region (`low_step`, `ld_step`,
    /// `alu_step`, `high_step`, `cb_step`) applied to the post-fetch
    /// state, followed by the interrupt-enable sync.
    #[verifier::rlimit(100)]
    pub fn process_next(&mut self, mem: &mut Memory) -> (r: Result<u8, EmuError>)
        requires
            old(mem).wf(),
        ensures
            final(mem).wf(),
            old(self).halted ==> r == Ok::<u8, EmuError>(4) && *final(self) == *old(self)
                && final(mem)@ == old(mem)@,
            !old(self).halted ==> ({
                let op = old(mem)@.bytes[old(self).regs.pc as int];
                &&& (is_defined_opcode(op) <==> r is Ok)
                &&& (r matches Ok(c) ==> 4 <= c <= 24)
                &&& (!is_defined_opcode(op) ==> r == Err::<u8, EmuError>(
                    EmuError::UnsupportedOpcode { opcode: op, pc: old(self).regs.pc },
                ) && *final(self) == (Cpu {
                    regs: (Registers { pc: wrap_add16(old(self).regs.pc, 1), ..old(self).regs }),
                    ..*old(self)
                }) && final(mem)@ == old(mem)@)
                &&& (op == 0xFB ==> *final(self) == (Cpu {
                    regs: (Registers { pc: wrap_add16(old(self).regs.pc, 1), ..old(self).regs }),
                    scheduled_ime: true,
                    ..*old(self)
                }) && final(mem)@ == old(mem)@ && r == Ok::<u8, EmuError>(4))
                &&& (op == 0xF3 ==> *final(self) == (Cpu {
                    regs: (Registers { pc: wrap_add16(old(self).regs.pc, 1), ..old(self).regs }),
                    scheduled_ime: false,
                    ..*old(self)
                }) && final(mem)@ == old(mem)@ && r == Ok::<u8, EmuError>(4))
                &&& (op == 0xD9 ==> *final(self) == (Cpu {
                    regs: (Registers {
                        pc: stack_word(old(mem)@, old(self).regs.sp),
                        sp: wrap_add16(old(self).regs.sp, 2),
                        ..old(self).regs
                    }),
                    scheduled_ime: true,
                    ..*old(self)
                }) && final(mem)@ == old(mem)@ && r == Ok::<u8, EmuError>(16))
                &&& (is_defined_opcode(op) && op != 0xFB && op != 0xF3 && op != 0xD9
                    ==> final(self).ime == old(self).scheduled_ime && final(self).scheduled_ime
                    == old(self).scheduled_ime)
                &&& (op == 0x76 ==> *final(self) == (Cpu {
                    regs: (Registers { pc: wrap_add16(old(self).regs.pc, 1), ..old(self).regs }),
                    halted: true,
                    ime: old(self).scheduled_ime,
                    ..*old(self)
                }) && final(mem)@ == old(mem)@ && r == Ok::<u8, EmuError>(4))
                &&& (op == 0xCB ==> r == Ok::<u8, EmuError>(
                    cb_cycles(old(mem)@.bytes[wrap_add16(old(self).regs.pc, 1) as int]) as u8,
                ))
                &&& (is_defined_opcode(op) && op != 0xCB ==> r == Ok::<u8, EmuError>(
                    step_cycles(op, old(self).regs.f) as u8,
                ))
                &&& ({
                    // the per-opcode effect: the final state is the step
                    // effect applied to the post-fetch state, with the
                    // interrupt-enable sync peeled off
                    let c0 = (Cpu {
                        regs: (Registers {
                            pc: wrap_add16(old(self).regs.pc, 1),
                            ..old(self).regs
                        }),
                        ..*old(self)
                    });
                    let c1 = (Cpu { ime: old(self).ime, ..*final(self) });
                    &&& (op < 0x40 ==> low_step(op, c0, old(mem)@, c1, final(mem)@))
                    &&& (0x40 <= op && op < 0x80 && op != 0x76 ==> ld_step(
                        op,
                        c0,
                        old(mem)@,
                        c1,
                        final(mem)@,
                    ))
                    &&& (0x80 <= op && op < 0xC0 ==> alu_step(op, c0, old(mem)@, c1, final(mem)@))
                    &&& (op >= 0xC0 && op != 0xCB && is_defined_opcode(op) ==> high_step(
                        op,
                        c0,
                        old(mem)@,
                        c1,
                        final(mem)@,
                    ))
                    &&& (op == 0xCB ==> cb_step(c0, old(mem)@, c1, final(mem)@))
                })
            }),
    {
        if self.halted {
            return Ok(4);
        }
        let pc0 = self.regs.pc;
        let opcode = self.next_byte(mem);
        if opcode == 0xCB {
            let c = self.process_prefixed(mem);
            self.ime = self.scheduled_ime;
            return Ok(c);
        }
        if opcode == 0xD3 || opcode == 0xDB || opcode == 0xDD || opcode == 0xE3 || opcode == 0xE4
            || opcode == 0xEB || opcode == 0xEC || opcode == 0xED || opcode == 0xF4 || opcode
            == 0xFC || opcode == 0xFD {
            return Err(EmuError::UnsupportedOpcode { opcode, pc: pc0 });
        }
        let cycles: u8 = if opcode < 0x40 {
            self.exec_low(mem, opcode)
        } else if opcode == 0x76 {
            // HALT
            self.halted = true;
            4
        } else if opcode < 0x80 {
            self.exec_ld(mem, opcode)
        } else if opcode < 0xC0 {
            self.exec_alu(mem, opcode)
        } else {
            self.exec_high(mem, opcode)
        };
        // EI, DI and RETI only schedule: the sync below must not see them
        if opcode != 0xF3 && opcode != 0xFB && opcode != 0xD9 {
            self.ime = self.scheduled_ime;
        }
        Ok(cycles)
    }

    /// The unprefixed opcodes below 0x40: immediate and indirect loads,
    /// 16-bit pair arithmetic, 8-bit increments, accumulator rotates,
    /// relative jumps and the miscellaneous control bytes.  The program
    /// counter on entry points at the first operand byte.
    #[verifier::rlimit(100)]
    pub fn exec_low(&mut self, mem: &mut Memory, opcode: u8) -> (cycles: u8)
        requires
            old(mem).wf(),
            opcode < 0x40,
        ensures
            final(mem).wf(),
            cycles == step_cycles(opcode, old(self).regs.f),
            final(self).ime == old(self).ime,
            final(self).scheduled_ime == old(self).scheduled_ime,
            low_step(opcode, *old(self), old(mem)@, *final(self), final(mem)@),
    {
        if opcode % 16 == 1 || opcode % 16 == 3 || opcode % 16 == 9 || opcode % 16 == 11 {
            return self.exec_low16(mem, opcode);
        }
        if opcode % 8 == 4 || opcode % 8 == 5 || opcode % 8 == 6 {
            return self.exec_low8(mem, opcode);
        }
        match opcode {
            0x00 => 4,  // NOP
            0x02 => {
                let bc = self.regs.bc();
                self.write(mem, bc, self.regs.a);
                8
            },  // LD (BC), A
            0x07 => {
                rlca(&mut self.regs.a, &mut self.regs.f);
                4
            },  // RLCA
            0x08 => {
                let a = self.next_word(mem);
                let sp = self.regs.sp;
                self.write_u16(mem, a, sp);
                20
            },  // LD (nn), SP
            0x0A => {
                let bc = self.regs.bc();
                self.regs.a = self.read(mem, bc);
                8
            },  // LD A, (BC)
            0x0F => {
                rrca(&mut self.regs.a, &mut self.regs.f);
                4
            },  // RRCA
            0x10 => {
                self.halted = true;
                self.next_byte(mem);
                4
            },  // STOP n
            0x12 => {
                let de = self.regs.de();
                self.write(mem, de, self.regs.a);
                8
            },  // LD (DE), A
            0x17 => {
                rla(&mut self.regs.a, &mut self.regs.f);
                4
            },  // RLA
            0x18 => {
                self.jr(mem, true);
                12
            },  // JR e
            0x1A => {
                let de = self.regs.de();
                self.regs.a = self.read(mem, de);
                8
            },  // LD A, (DE)
            0x1F => {
                rra(&mut self.regs.a, &mut self.regs.f);
                4
            },  // RRA
            0x20 => {
                let cc = !self.regs.f.z_flag();
                self.jr(mem, cc);
                if cc {
                    12
                } else {
                    8
                }
            },  // JR NZ, e
            0x22 => {
                let hl = self.regs.hli();
                self.write(mem, hl, self.regs.a);
                8
            },  // LD (HL+), A
            0x27 => {
                self.daa();
                4
            },  // DAA
            0x28 => {
                let cc = self.regs.f.z_flag();
                self.jr(mem, cc);
                if cc {
                    12
                } else {
                    8
                }
            },  // JR Z, e
            0x2A => {
                let hl = self.regs.hli();
                self.regs.a = self.read(mem, hl);
                8
            },  // LD A, (HL+)
            0x2F => {
                self.cpl();
                4
            },  // CPL
            0x30 => {
                let cc = !self.regs.f.c_flag();
                self.jr(mem, cc);
                if cc {
                    12
                } else {
                    8
                }
            },  // JR NC, e
            0x32 => {
                let hl = self.regs.hld();
                self.write(mem, hl, self.regs.a);
                8
            },  // LD (HL-), A
            0x37 => {
                self.cf(true);
                4
            },  // SCF
            0x38 => {
                let cc = self.regs.f.c_flag();
                self.jr(mem, cc);
                if cc {
                    12
                } else {
                    8
                }
            },  // JR C, e
            0x3A => {
                let hl = self.regs.hld();
                self.regs.a = self.read(mem, hl);
                8
            },  // LD A, (HL-)
            0x3F => {
                let c = self.regs.f.c_flag();
                self.cf(!c);
                4
            },  // CCF
            _ => 4,  // unreachable: every remaining byte below 0x40 is matched above
        }
    }

    /// The 16-bit columns of the low block: pair loads, pair increments
    /// and decrements, and the 16-bit additions into hl.  None of these
    /// touches memory.
    #[verifier::rlimit(100)]
    pub fn exec_low16(&mut self, mem: &mut Memory, opcode: u8) -> (cycles: u8)
        requires
            old(mem).wf(),
            opcode < 0x40,
            opcode % 16 == 1 || opcode % 16 == 3 || opcode % 16 == 9 || opcode % 16 == 11,
        ensures
            final(mem).wf(),
            final(mem)@ == old(mem)@,
            cycles == step_cycles(opcode, old(self).regs.f),
            ({
                let op = opcode;
                let m0 = old(mem)@;
                let regs0 = old(self).regs;
                let f0 = regs0.f;
                let hl0 = regs0.spec_hl();
                let p0 = regs0.pc;
                let imm16 = word_at(m0, p0);
                &&& (op % 16 == 1 ==> *final(self) == (Cpu {
                    regs: (Registers {
                        pc: wrap_add16(p0, 2),
                        ..reg16_set(regs0, (op / 16) as u8, imm16)
                    }),
                    ..*old(self)
                }) && final(mem)@ == m0)
                &&& (op % 16 == 3 ==> *final(self) == (Cpu {
                    regs: (reg16_set(
                        regs0,
                        (op / 16) as u8,
                        wrap_add16(reg16_get(regs0, (op / 16) as u8), 1),
                    )),
                    ..*old(self)
                }) && final(mem)@ == m0)
                &&& (op % 16 == 11 ==> *final(self) == (Cpu {
                    regs: (reg16_set(
                        regs0,
                        (op / 16) as u8,
                        wrap_sub16(reg16_get(regs0, (op / 16) as u8), 1),
                    )),
                    ..*old(self)
                }) && final(mem)@ == m0)
                &&& (op % 16 == 9 ==> ({
                    let p = reg16_get(regs0, (op / 16) as u8);
                    *final(self) == (Cpu {
                        regs: (Registers {
                            h: hi_byte(wrap_add16(hl0, p)),
                            l: lo_byte(wrap_add16(hl0, p)),
                            f: (Flags {
                                z: f0.z,
                                n: false,
                                h: (hl0 & 0xFFF) + (p & 0xFFF) >= 0x1000,
                                c: hl0 + p >= 0x10000,
                            }),
                            ..regs0
                        }),
                        ..*old(self)
                    }) && final(mem)@ == m0
                }))
            }),
    {
        match opcode {
            0x01 => {
                let w = self.next_word(mem);
                self.regs.set_bc(w);
                12
            },  // LD BC, nn
            0x03 => {
                let bc = self.regs.bc();
                self.regs.set_bc(bc.wrapping_add(1));
                8
            },  // INC BC
            0x09 => {
                let hl = self.regs.hl();
                let bc = self.regs.bc();
                let r = self.add_u16(hl, bc);
                self.regs.set_hl(r);
                8
            },  // ADD HL, BC
            0x0B => {
                let bc = self.regs.bc();
                self.regs.set_bc(bc.wrapping_sub(1));
                8
            },  // DEC BC
            0x11 => {
                let w = self.next_word(mem);
                self.regs.set_de(w);
                12
            },  // LD DE, nn
            0x13 => {
                let de = self.regs.de();
                self.regs.set_de(de.wrapping_add(1));
                8
            },  // INC DE
            0x19 => {
                let hl = self.regs.hl();
                let de = self.regs.de();
                let r = self.add_u16(hl, de);
                self.regs.set_hl(r);
                8
            },  // ADD HL, DE
            0x1B => {
                let de = self.regs.de();
                self.regs.set_de(de.wrapping_sub(1));
                8
            },  // DEC DE
            0x21 => {
                let w = self.next_word(mem);
                self.regs.set_hl(w);
                12
            },  // LD HL, nn
            0x23 => {
                self.regs.hli();
                8
            },  // INC HL
            0x29 => {
                let hl = self.regs.hl();
                let r = self.add_u16(hl, hl);
                self.regs.set_hl(r);
                8
            },  // ADD HL, HL
            0x2B => {
                let hl = self.regs.hl();
                self.regs.set_hl(hl.wrapping_sub(1));
                8
            },  // DEC HL
            0x31 => {
                self.regs.sp = self.next_word(mem);
                12
            },  // LD SP, nn
            0x33 => {
                self.regs.sp = self.regs.sp.wrapping_add(1);
                8
            },  // INC SP
            0x39 => {
                let hl = self.regs.hl();
                let sp = self.regs.sp;
                let r = self.add_u16(hl, sp);
                self.regs.set_hl(r);
                8
            },  // ADD HL, SP
            0x3B => {
                self.regs.sp = self.regs.sp.wrapping_sub(1);
                8
            },  // DEC SP
            _ => 4,  // unreachable: the dispatcher sends only the four columns here
        }
    }

    /// The 8-bit increment, decrement and immediate-load columns of the
    /// low block, including their `(HL)` variants.
    pub fn exec_low8(&mut self, mem: &mut Memory, opcode: u8) -> (cycles: u8)
        requires
            old(mem).wf(),
            opcode < 0x40,
            opcode % 8 == 4 || opcode % 8 == 5 || opcode % 8 == 6,
        ensures
            final(mem).wf(),
            cycles == step_cycles(opcode, old(self).regs.f),
            ({
                let op = opcode;
                let m0 = old(mem)@;
                let regs0 = old(self).regs;
                let f0 = regs0.f;
                let hl0 = regs0.spec_hl();
                let p0 = regs0.pc;
                let imm8 = m0.bytes[p0 as int];
                &&& (op % 8 == 4 && op != 0x34 ==> *final(self) == (Cpu {
                    regs: (Registers {
                        f: inc_flags(reg8_get(regs0, (op / 8) as u8), f0),
                        ..reg8_set(
                            regs0,
                            (op / 8) as u8,
                            wrap_add8(reg8_get(regs0, (op / 8) as u8), 1),
                        )
                    }),
                    ..*old(self)
                }) && final(mem)@ == m0)
                &&& (op % 8 == 5 && op != 0x35 ==> *final(self) == (Cpu {
                    regs: (Registers {
                        f: dec_flags(reg8_get(regs0, (op / 8) as u8), f0),
                        ..reg8_set(
                            regs0,
                            (op / 8) as u8,
                            wrap_sub8(reg8_get(regs0, (op / 8) as u8), 1),
                        )
                    }),
                    ..*old(self)
                }) && final(mem)@ == m0)
                &&& (op == 0x34 ==> *final(self) == (Cpu {
                    regs: (Registers { f: inc_flags(m0.bytes[hl0 as int], f0), ..regs0 }),
                    ..*old(self)
                }) && final(mem)@ == write_model(m0, hl0, wrap_add8(m0.bytes[hl0 as int], 1)))
                &&& (op == 0x35 ==> *final(self) == (Cpu {
                    regs: (Registers { f: dec_flags(m0.bytes[hl0 as int], f0), ..regs0 }),
                    ..*old(self)
                }) && final(mem)@ == write_model(m0, hl0, wrap_sub8(m0.bytes[hl0 as int], 1)))
                &&& (op % 8 == 6 && op != 0x36 ==> *final(self) == (Cpu {
                    regs: (Registers {
                        pc: wrap_add16(p0, 1),
                        ..reg8_set(regs0, (op / 8) as u8, imm8)
                    }),
                    ..*old(self)
                }) && final(mem)@ == m0)
                &&& (op == 0x36 ==> *final(self) == (Cpu {
                    regs: (Registers { pc: wrap_add16(p0, 1), ..regs0 }),
                    ..*old(self)
                }) && final(mem)@ == write_model(m0, hl0, imm8))
            }),
    {
        match opcode {
            0x04 => {
                inc(&mut self.regs.b, &mut self.regs.f);
                4
            },  // INC B
            0x05 => {
                dec(&mut self.regs.b, &mut self.regs.f);
                4
            },  // DEC B
            0x06 => {
                self.regs.b = self.next_byte(mem);
                8
            },  // LD B, n
            0x0C => {
                inc(&mut self.regs.c, &mut self.regs.f);
                4
            },  // INC C
            0x0D => {
                dec(&mut self.regs.c, &mut self.regs.f);
                4
            },  // DEC C
            0x0E => {
                self.regs.c = self.next_byte(mem);
                8
            },  // LD C, n
            0x14 => {
                inc(&mut self.regs.d, &mut self.regs.f);
                4
            },  // INC D
            0x15 => {
                dec(&mut self.regs.d, &mut self.regs.f);
                4
            },  // DEC D
            0x16 => {
                self.regs.d = self.next_byte(mem);
                8
            },  // LD D, n
            0x1C => {
                inc(&mut self.regs.e, &mut self.regs.f);
                4
            },  // INC E
            0x1D => {
                dec(&mut self.regs.e, &mut self.regs.f);
                4
            },  // DEC E
            0x1E => {
                self.regs.e = self.next_byte(mem);
                8
            },  // LD E, n
            0x24 => {
                inc(&mut self.regs.h, &mut self.regs.f);
                4
            },  // INC H
            0x25 => {
                dec(&mut self.regs.h, &mut self.regs.f);
                4
            },  // DEC H
            0x26 => {
                self.regs.h = self.next_byte(mem);
                8
            },  // LD H, n
            0x2C => {
                inc(&mut self.regs.l, &mut self.regs.f);
                4
            },  // INC L
            0x2D => {
                dec(&mut self.regs.l, &mut self.regs.f);
                4
            },  // DEC L
            0x2E => {
                self.regs.l = self.next_byte(mem);
                8
            },  // LD L, n
            0x34 => {
                let hl = self.regs.hl();
                let mut data = self.read(mem, hl);
                inc(&mut data, &mut self.regs.f);
                self.write(mem, hl, data);
                12
            },  // INC (HL)
            0x35 => {
                let hl = self.regs.hl();
                let mut data = self.read(mem, hl);
                dec(&mut data, &mut self.regs.f);
                self.write(mem, hl, data);
                12
            },  // DEC (HL)
            0x36 => {
                let o = self.next_byte(mem);
                let hl = self.regs.hl();
                self.write(mem, hl, o);
                12
            },  // LD (HL), n
            0x3C => {
                inc(&mut self.regs.a, &mut self.regs.f);
                4
            },  // INC A
            0x3D => {
                dec(&mut self.regs.a, &mut self.regs.f);
                4
            },  // DEC A
            0x3E => {
                self.regs.a = self.next_byte(mem);
                8
            },  // LD A, n
            _ => 4,  // unreachable: the dispatcher sends only the three columns here
        }
    }

    /// The register-to-register load block, 0x40..0x7F (HALT, the hole
    /// in the block, is handled by the dispatcher): three bits select
    /// the source register or `(HL)`, three bits the destination.
    pub fn exec_ld(&mut self, mem: &mut Memory, opcode: u8) -> (cycles: u8)
        requires
            old(mem).wf(),
            0x40 <= opcode < 0x80,
            opcode != 0x76,
        ensures
            final(mem).wf(),
            cycles == step_cycles(opcode, old(self).regs.f),
            final(self).ime == old(self).ime,
            final(self).scheduled_ime == old(self).scheduled_ime,
            ld_step(opcode, *old(self), old(mem)@, *final(self), final(mem)@),
    {
        {
                // the register-to-register load block
                let src = match opcode % 8 {
                    0 => self.regs.b,
                    1 => self.regs.c,
                    2 => self.regs.d,
                    3 => self.regs.e,
                    4 => self.regs.h,
                    5 => self.regs.l,
                    6 => {
                        let hl = self.regs.hl();
                        self.read(mem, hl)
                    },
                    _ => self.regs.a,
                };
                match (opcode - 0x40) / 8 {
                    0 => self.regs.b = src,
                    1 => self.regs.c = src,
                    2 => self.regs.d = src,
                    3 => self.regs.e = src,
                    4 => self.regs.h = src,
                    5 => self.regs.l = src,
                    6 => {
                        let hl = self.regs.hl();
                        self.write(mem, hl, src);
                    },
                    _ => self.regs.a = src,
                }
                if opcode % 8 == 6 || (opcode - 0x40) / 8 == 6 {
                    8
                } else {
                    4
                }
        }
    }

    /// The accumulator arithmetic block, 0x80..0xBF: three bits select
    /// the operand register or `(HL)`, three the operation row.
    #[verifier::rlimit(100)]
    pub fn exec_alu(&mut self, mem: &mut Memory, opcode: u8) -> (cycles: u8)
        requires
            old(mem).wf(),
            0x80 <= opcode < 0xC0,
        ensures
            final(mem).wf(),
            final(mem)@ == old(mem)@,
            cycles == step_cycles(opcode, old(self).regs.f),
            final(self).ime == old(self).ime,
            final(self).scheduled_ime == old(self).scheduled_ime,
            alu_step(opcode, *old(self), old(mem)@, *final(self), final(mem)@),
    {
        {
                // the accumulator arithmetic block
                let param = match opcode % 8 {
                    0 => self.regs.b,
                    1 => self.regs.c,
                    2 => self.regs.d,
                    3 => self.regs.e,
                    4 => self.regs.h,
                    5 => self.regs.l,
                    6 => {
                        let hl = self.regs.hl();
                        self.read(mem, hl)
                    },
                    _ => self.regs.a,
                };
                match (opcode - 0x80) / 8 {
                    0 => self.add(param),
                    1 => self.adc(param),
                    2 => self.sub(param),
                    3 => self.sbc(param),
                    4 => self.and(param),
                    5 => self.xor(param),
                    6 => self.or(param),
                    _ => self.cp(param),
                }
                if opcode % 8 == 6 {
                    8
                } else {
                    4
                }
        }
    }

    /// The unprefixed opcodes from 0xC0 up: stack traffic, absolute
    /// control flow, the high-page loads, the stack-pointer arithmetic
    /// and the interrupt-enable scheduling.  The eleven undefined bytes
    /// and the 0xCB prefix never reach this dispatcher.
    #[verifier::rlimit(100)]
    pub fn exec_high(&mut self, mem: &mut Memory, opcode: u8) -> (cycles: u8)
        requires
            old(mem).wf(),
            opcode >= 0xC0,
            opcode != 0xCB,
            is_defined_opcode(opcode),
        ensures
            final(mem).wf(),
            cycles == step_cycles(opcode, old(self).regs.f),
            final(self).ime == old(self).ime,
            opcode != 0xF3 && opcode != 0xFB && opcode != 0xD9 ==> final(self).scheduled_ime
                == old(self).scheduled_ime,
            opcode == 0xD9 ==> *final(self) == (Cpu {
                regs: (Registers {
                    pc: stack_word(old(mem)@, old(self).regs.sp),
                    sp: wrap_add16(old(self).regs.sp, 2),
                    ..old(self).regs
                }),
                scheduled_ime: true,
                ..*old(self)
            }) && final(mem)@ == old(mem)@,
            opcode == 0xF3 ==> *final(self) == (Cpu { scheduled_ime: false, ..*old(self) })
                && final(mem)@ == old(mem)@,
            opcode == 0xFB ==> *final(self) == (Cpu { scheduled_ime: true, ..*old(self) })
                && final(mem)@ == old(mem)@,
            high_step(opcode, *old(self), old(mem)@, *final(self), final(mem)@),
    {
        match opcode {
            0xC0 => {
                let cc = !self.regs.f.z_flag();
                self.ret(mem, cc);
                if cc {
                    20
                } else {
                    8
                }
            },  // RET NZ
            0xC1 => {
                let p = self.pop(mem);
                self.regs.set_bc(p);
                12
            },  // POP BC
            0xC2 => {
                let cc = !self.regs.f.z_flag();
                self.jp(mem, cc, None);
                if cc {
                    16
                } else {
                    12
                }
            },  // JP NZ, nn
            0xC3 => {
                self.jp(mem, true, None);
                16
            },  // JP nn
            0xC4 => {
                let cc = !self.regs.f.z_flag();
                self.call(mem, cc, None);
                if cc {
                    24
                } else {
                    12
                }
            },  // CALL NZ, nn
            0xC5 => {
                let bc = self.regs.bc();
                self.push(mem, bc);
                16
            },  // PUSH BC
            0xC6 => {
                let o = self.next_byte(mem);
                self.add(o);
                8
            },  // ADD A, n
            0xC7 => {
                self.call(mem, true, Some(0x00));
                16
            },  // RST 00
            0xC8 => {
                let cc = self.regs.f.z_flag();
                self.ret(mem, cc);
                if cc {
                    20
                } else {
                    8
                }
            },  // RET Z
            0xC9 => {
                self.ret(mem, true);
                16
            },  // RET
            0xCA => {
                let cc = self.regs.f.z_flag();
                self.jp(mem, cc, None);
                if cc {
                    16
                } else {
                    12
                }
            },  // JP Z, nn
            0xCC => {
                let cc = self.regs.f.z_flag();
                self.call(mem, cc, None);
                if cc {
                    24
                } else {
                    12
                }
            },  // CALL Z, nn
            0xCD => {
                self.call(mem, true, None);
                24
            },  // CALL nn
            0xCE => {
                let o = self.next_byte(mem);
                self.adc(o);
                8
            },  // ADC A, n
            0xCF => {
                self.call(mem, true, Some(0x08));
                16
            },  // RST 08
            0xD0 => {
                let cc = !self.regs.f.c_flag();
                self.ret(mem, cc);
                if cc {
                    20
                } else {
                    8
                }
            },  // RET NC
            0xD1 => {
                let p = self.pop(mem);
                self.regs.set_de(p);
                12
            },  // POP DE
            0xD2 => {
                let cc = !self.regs.f.c_flag();
                self.jp(mem, cc, None);
                if cc {
                    16
                } else {
                    12
                }
            },  // JP NC, nn
            0xD4 => {
                let cc = !self.regs.f.c_flag();
                self.call(mem, cc, None);
                if cc {
                    24
                } else {
                    12
                }
            },  // CALL NC, nn
            0xD5 => {
                let de = self.regs.de();
                self.push(mem, de);
                16
            },  // PUSH DE
            0xD6 => {
                let o = self.next_byte(mem);
                self.sub(o);
                8
            },  // SUB n
            0xD7 => {
                self.call(mem, true, Some(0x10));
                16
            },  // RST 10
            0xD8 => {
                let cc = self.regs.f.c_flag();
                self.ret(mem, cc);
                if cc {
                    20
                } else {
                    8
                }
            },  // RET C
            0xD9 => {
                self.ret(mem, true);
                self.scheduled_ime = true;
                16
            },  // RETI
            0xDA => {
                let cc = self.regs.f.c_flag();
                self.jp(mem, cc, None);
                if cc {
                    16
                } else {
                    12
                }
            },  // JP C, nn
            0xDC => {
                let cc = self.regs.f.c_flag();
                self.call(mem, cc, None);
                if cc {
                    24
                } else {
                    12
                }
            },  // CALL C, nn
            0xDE => {
                let o = self.next_byte(mem);
                self.sbc(o);
                8
            },  // SBC A, n
            0xDF => {
                self.call(mem, true, Some(0x18));
                16
            },  // RST 18
            0xE0 => {
                let n = self.next_byte(mem);
                let a = combine_u8s(n, 0xFF);
                self.write(mem, a, self.regs.a);
                12
            },  // LDH (n), A
            0xE1 => {
                let p = self.pop(mem);
                self.regs.set_hl(p);
                12
            },  // POP HL
            0xE2 => {
                let a = combine_u8s(self.regs.c, 0xFF);
                self.write(mem, a, self.regs.a);
                8
            },  // LD (C), A
            0xE5 => {
                let hl = self.regs.hl();
                self.push(mem, hl);
                16
            },  // PUSH HL
            0xE6 => {
                let o = self.next_byte(mem);
                self.and(o);
                8
            },  // AND A, n
            0xE7 => {
                self.call(mem, true, Some(0x20));
                16
            },  // RST 20
            0xE8 => {
                let o = self.next_byte(mem);
                proof {
                    assert((o as i8) as u8 == o) by (bit_vector);
                }
                let r = self.add_sp(#[verifier::truncate] (o as i8));
                self.regs.sp = r;
                16
            },  // ADD SP, e
            0xE9 => {
                let hl = self.regs.hl();
                self.jp(mem, true, Some(hl));
                4
            },  // JP HL
            0xEA => {
                let w = self.next_word(mem);
                self.write(mem, w, self.regs.a);
                16
            },  // LD (nn), A
            0xEE => {
                let o = self.next_byte(mem);
                self.xor(o);
                8
            },  // XOR A, n
            0xEF => {
                self.call(mem, true, Some(0x28));
                16
            },  // RST 28
            0xF0 => {
                let n = self.next_byte(mem);
                let a = combine_u8s(n, 0xFF);
                self.regs.a = self.read(mem, a);
                12
            },  // LDH A, (n)
            0xF1 => {
                let p = self.pop(mem);
                self.regs.set_af(p);
                12
            },  // POP AF
            0xF2 => {
                let a = combine_u8s(self.regs.c, 0xFF);
                self.regs.a = self.read(mem, a);
                8
            },  // LD A, (C)
            0xF3 => {
                self.scheduled_ime = false;
                4
            },  // DI
            0xF5 => {
                let af = self.regs.af();
                self.push(mem, af);
                16
            },  // PUSH AF
            0xF6 => {
                let o = self.next_byte(mem);
                self.or(o);
                8
            },  // OR A, n
            0xF7 => {
                self.call(mem, true, Some(0x30));
                16
            },  // RST 30
            0xF8 => {
                let o = self.next_byte(mem);
                proof {
                    assert((o as i8) as u8 == o) by (bit_vector);
                }
                let sp = self.add_sp(#[verifier::truncate] (o as i8));
                self.regs.set_hl(sp);
                12
            },  // LD HL, SP+e
            0xF9 => {
                self.regs.sp = self.regs.hl();
                8
            },  // LD SP, HL
            0xFA => {
                let w = self.next_word(mem);
                self.regs.a = self.read(mem, w);
                16
            },  // LD A, (nn)
            0xFB => {
                self.scheduled_ime = true;
                4
            },  // EI
            0xFE => {
                let o = self.next_byte(mem);
                self.cp(o);
                8
            },  // CP n
            0xFF => {
                self.call(mem, true, Some(0x38));
                16
            },  // RST 38
            _ => 4,  // unreachable: undefined bytes are refused before dispatch
        }
    }
}

/// Applies entry `i` of the prefixed bit-operation table to one operand
/// byte: rotates and shifts for 0..7, bit tests for 8..15, bit clears for
/// 16..23, bit sets for 24..31.
fn cb_apply(dst: &mut u8, flags: &mut Flags, i: u8)
    requires
        i < 32,
    ensures
        *final(dst) == cb_val(i, *old(dst), *old(flags)),
        *final(flags) == cb_flags(i, *old(dst), *old(flags)),
{
    match i {
        0 => rlc(dst, flags),
        1 => rrc(dst, flags),
        2 => rl(dst, flags),
        3 => rr(dst, flags),
        4 => sla(dst, flags),
        5 => sra(dst, flags),
        6 => swap(dst, flags),
        7 => srl(dst, flags),
        8..=15 => bit(dst, i - 8, flags),
        16..=23 => res(dst, i - 16),
        _ => crate::opcodes::set(dst, i - 24),
    }
}

} // verus!
