//! Core of an 8-bit handheld game console emulator: a register file, an
//! ALU/bit-operation library, a byte-addressable memory subsystem with
//! memory-mapped timing and DMA, an instruction interpreter, and a scanline
//! pixel pipeline.  Presentation (windowing, blitting, input, ROM loading)
//! is left to callers.
use vstd::prelude::*;

pub mod cpu;
pub mod memory;
pub mod opcodes;
pub mod ppu;
pub mod registers;

verus! {

/// Fatal diagnostics raised by the core.  Neither is retried; a caller is
/// expected to report the failing opcode or index and abort the run.
#[derive(Clone, Copy, Debug, PartialEq, Eq, Structural)]
pub enum EmuError {
    /// The fetched byte, prefixed or not, has no defined behaviour.  Carries
    /// the opcode and the program counter at fetch time.
    UnsupportedOpcode { opcode: u8, pc: u16 },
    /// An out-of-range sprite or tile-map index was requested.
    InvalidIndex { index: u8 },
}

/// Low byte of a 16-bit word.
pub open spec fn lo_byte(w: u16) -> u8 {
    (w % 256) as u8
}

/// High byte of a 16-bit word.
pub open spec fn hi_byte(w: u16) -> u8 {
    (w / 256) as u8
}

/// 16-bit addition wrapping modulo 65536.
pub open spec fn wrap_add16(a: u16, b: u16) -> u16 {
    ((a + b) % 0x10000) as u16
}

/// 16-bit subtraction wrapping modulo 65536.
pub open spec fn wrap_sub16(a: u16, b: u16) -> u16 {
    (((a - b) + 0x10000) % 0x10000) as u16
}

/// Adds a signed 8-bit offset to a 16-bit value, wrapping modulo 65536.
pub open spec fn wrap_add16_i8(a: u16, d: i8) -> u16 {
    (((a + d) + 0x10000) % 0x10000) as u16
}

/// 8-bit addition wrapping modulo 256.
pub open spec fn wrap_add8(a: u8, b: u8) -> u8 {
    ((a + b) % 256) as u8
}

/// 8-bit subtraction wrapping modulo 256.
pub open spec fn wrap_sub8(a: u8, b: u8) -> u8 {
    (((a - b) + 256) % 256) as u8
}

/// Little-endian composition: the first argument is the lower byte, the
/// second the upper byte.
pub fn combine_u8s(lsb: u8, msb: u8) -> (r: u16)
    ensures
        r == msb * 256 + lsb,
{
    (msb as u16) * 256 + (lsb as u16)
}

/// Splits a word into its bytes; the upper byte is returned first, the
/// lower byte second.
pub fn split_u16(a: u16) -> (r: (u8, u8))
    ensures
        r.0 == hi_byte(a),
        r.1 == lo_byte(a),
{
    ((a / 256) as u8, (a % 256) as u8)
}

/// Maps a 2-bit display colour to the RGB triple the presentation layer
/// blits.  Indices above 3 never come out of the pixel pipeline.
pub fn pallete_to_rgba(i: u8) -> (r: (u8, u8, u8))
    requires
        i < 4,
    ensures
        i == 0 ==> r == ((0x00u8, 0x00u8, 0x00u8)),
        i == 1 ==> r == ((0x50u8, 0x50u8, 0x50u8)),
        i == 2 ==> r == ((0xA0u8, 0xA0u8, 0xA0u8)),
        i == 3 ==> r == ((0xFFu8, 0xFFu8, 0xFFu8)),
{
    match i {
        0 => (0x00, 0x00, 0x00),
        1 => (0x50, 0x50, 0x50),
        2 => (0xA0, 0xA0, 0xA0),
        _ => (0xFF, 0xFF, 0xFF),
    }
}

} // verus!
