//! The memory subsystem: a flat 65536-byte address space with side effects
//! on specific addresses (echo-RAM mirroring, timer registers, the OAM DMA
//! trigger, the serial side-channel) and a `tick` operation that advances
//! the hardware timers and any in-flight DMA transfer.
use vstd::prelude::*;

use crate::{hi_byte, wrap_add16, wrap_add8, EmuError};

verus! {

/// The state of the OAM DMA engine: inactive, or copying from a fixed
/// source base with a count of bytes already moved and a sub-4-cycle
/// remainder.
pub ghost struct DmaShadow {
    pub active: bool,
    pub src: u16,
    pub copied: u16,
    pub rem: u8,
}

/// The mathematical model of the memory subsystem.
pub ghost struct MemShadow {
    pub bytes: Seq<u8>,
    pub div: u16,
    pub overflow: bool,
    pub dma: DmaShadow,
    pub serial: Seq<u8>,
}

/// Well-formedness of the model: the full address space is populated, the
/// DMA engine never moves more than the 160-byte object-attribute table,
/// and its source base is page-aligned low enough to stay in bounds.
pub open spec fn shadow_wf(m: MemShadow) -> bool {
    &&& m.bytes.len() == 0x10000
    &&& m.dma.copied <= 160
    &&& m.dma.rem < 4
    &&& m.dma.src <= 0xFF00
}

/// A store through the CPU-visible write path, without the special
/// registers: the byte lands at its address and, inside the two echo-RAM
/// windows, also at the mirrored address.
pub open spec fn mirror_write(bytes: Seq<u8>, addr: u16, data: u8) -> Seq<u8> {
    let b = bytes.update(addr as int, data);
    if 0xC000 <= addr && addr < 0xDE00 {
        b.update(addr + 0x2000, data)
    } else if 0xE000 <= addr && addr < 0xFE00 {
        b.update(addr - 0x2000, data)
    } else {
        b
    }
}

/// One byte of an OAM DMA transfer: byte `off` of the object-attribute
/// table takes byte `off` of the source page.
pub open spec fn dma_step(bytes: Seq<u8>, src: u16, off: int) -> Seq<u8> {
    bytes.update(0xFE00 + off, bytes[src + off])
}

/// `n` sequential bytes of an OAM DMA transfer starting at offset `start`.
pub open spec fn dma_copy(bytes: Seq<u8>, src: u16, start: int, n: int) -> Seq<u8>
    decreases n,
{
    if n <= 0 {
        bytes
    } else {
        dma_step(dma_copy(bytes, src, start, n - 1), src, start + n - 1)
    }
}

/// The effect of `write`: LY is read-only, a DIV write clears the whole
/// counter, value 0x81 at the serial-control address transmits the serial
/// data byte, the DMA trigger starts a transfer, and every other address
/// is an ordinary (possibly echo-mirrored) store.
pub open spec fn write_model(m: MemShadow, addr: u16, data: u8) -> MemShadow {
    if addr == 0xFF44 {
        m
    } else if addr == 0xFF04 {
        MemShadow { bytes: m.bytes.update(0xFF04, 0), div: 0, ..m }
    } else if addr == 0xFF02 && data == 0x81 {
        MemShadow {
            bytes: m.bytes.update(0xFF02, 0),
            serial: m.serial.push(m.bytes[0xFF01]),
            ..m
        }
    } else if addr == 0xFF46 {
        MemShadow {
            bytes: m.bytes.update(0xFF46, data),
            dma: DmaShadow { active: true, src: (data * 256) as u16, copied: 0, rem: 0 },
            ..m
        }
    } else {
        MemShadow { bytes: mirror_write(m.bytes, addr, data), ..m }
    }
}

/// Phase (a) of `tick`: an active DMA transfer moves one source byte per
/// four elapsed cycles (sub-4 remainders carry over) until 160 bytes have
/// moved, at which point the engine goes inactive.
pub open spec fn dma_tick_model(m: MemShadow, cycles: u8) -> MemShadow {
    if !m.dma.active {
        m
    } else {
        let total = m.dma.rem + cycles;
        let avail = total / 4;
        let room = 160 - m.dma.copied;
        let n = if avail < room {
            avail
        } else {
            room
        };
        MemShadow {
            bytes: dma_copy(m.bytes, m.dma.src, m.dma.copied as int, n),
            dma: DmaShadow {
                active: m.dma.copied + n < 160,
                src: m.dma.src,
                copied: (m.dma.copied + n) as u16,
                rem: (total % 4) as u8,
            },
            ..m
        }
    }
}

/// Phase (b) of `tick`: a timer overflow flagged on the previous tick
/// reloads TIMA from TMA and asserts the timer-interrupt request bit.
pub open spec fn timer_reload_model(m: MemShadow) -> MemShadow {
    if m.overflow {
        MemShadow {
            bytes: m.bytes.update(0xFF05, m.bytes[0xFF06]).update(0xFF0F, m.bytes[0xFF0F] | 4),
            overflow: false,
            ..m
        }
    } else {
        m
    }
}

/// The divider bit selected by the lower two bits of TAC:
/// 00 -> bit 9, 01 -> bit 3, 10 -> bit 5, 11 -> bit 7.
pub open spec fn timer_rate_bit(tac: u8) -> u16 {
    if tac & 3 == 0 {
        9
    } else {
        (1 + 2 * (tac & 3)) as u16
    }
}

/// Phases (c) and (d) of `tick`: the free-running divider advances by the
/// elapsed cycles; when the timer is enabled and the selected divider bit
/// falls across the advance, TIMA increments with overflow detection; the
/// top divider byte is republished at the DIV register.
pub open spec fn timer_count_model(m: MemShadow, cycles: u8) -> MemShadow {
    let tac = m.bytes[0xFF07];
    let mask = 1u16 << timer_rate_bit(tac);
    let new_div = wrap_add16(m.div, cycles as u16);
    let fired = tac & 4 != 0 && (m.div & mask) > (new_div & mask);
    let m2 = if fired {
        MemShadow {
            bytes: m.bytes.update(0xFF05, wrap_add8(m.bytes[0xFF05], 1)),
            overflow: m.bytes[0xFF05] == 255,
            ..m
        }
    } else {
        m
    };
    MemShadow { bytes: m2.bytes.update(0xFF04, hi_byte(new_div)), div: new_div, ..m2 }
}

/// The full effect of `tick`.
pub open spec fn tick_model(m: MemShadow, cycles: u8) -> MemShadow {
    timer_count_model(timer_reload_model(dma_tick_model(m, cycles)), cycles)
}

/// The memory subsystem.  `div` is the free-running 16-bit divider whose
/// top byte is exposed at the DIV register; `overflow` records a pending
/// TIMA reload; the `dma_*` fields are the DMA engine; `serial_out` holds
/// every byte transmitted on the serial side-channel, in order.
pub struct Memory {
    pub memory: Vec<u8>,
    pub div: u16,
    pub overflow: bool,
    pub dma_active: bool,
    pub dma_src: u16,
    pub dma_copied: u16,
    pub dma_rem: u8,
    pub serial_out: Vec<u8>,
}

impl View for Memory {
    type V = MemShadow;

    open spec fn view(&self) -> MemShadow {
        MemShadow {
            bytes: self.memory@,
            div: self.div,
            overflow: self.overflow,
            dma: DmaShadow {
                active: self.dma_active,
                src: self.dma_src,
                copied: self.dma_copied,
                rem: self.dma_rem,
            },
            serial: self.serial_out@,
        }
    }
}

impl Memory {
    pub open spec fn wf(&self) -> bool {
        shadow_wf(self@)
    }

    /// Builds the address space from a cartridge image: the image fills the
    /// low region and the remainder is zero-filled.  Images larger than the
    /// no-bank-switching ceiling are rejected before construction.
    pub fn new(rom: Vec<u8>) -> (r: Memory)
        requires
            rom@.len() <= 0x8000,
        ensures
            r.wf(),
            r@.bytes.len() == 0x10000,
            forall|i: int| 0 <= i < rom@.len() ==> r@.bytes[i] == rom@[i],
            forall|i: int| rom@.len() <= i < 0x10000 ==> r@.bytes[i] == 0,
            r@.div == 0,
            !r@.overflow,
            !r@.dma.active,
            r@.serial == Seq::<u8>::empty(),
    {
        let mut memory = rom;
        let ghost rom0 = memory@;
        let ghost rom_len = memory@.len();
        while memory.len() < 0x10000
            invariant
                rom_len == rom0.len(),
                rom_len <= memory@.len() <= 0x10000,
                forall|i: int| 0 <= i < rom_len ==> memory@[i] == rom0[i],
                forall|i: int| rom_len <= i < memory@.len() ==> memory@[i] == 0,
            decreases 0x10000 - memory@.len(),
        {
            memory.push(0);
        }
        Memory {
            memory,
            div: 0,
            overflow: false,
            dma_active: false,
            dma_src: 0,
            dma_copied: 0,
            dma_rem: 0,
            serial_out: Vec::new(),
        }
    }

    /// Starts an OAM DMA transfer from the page `pos << 8`; the bytes move
    /// during subsequent `tick` calls, one per four cycles.
    pub fn dma(&mut self, pos: u8)
        requires
            old(self).wf(),
        ensures
            final(self).wf(),
            final(self)@ == (MemShadow {
                dma: DmaShadow { active: true, src: (pos * 256) as u16, copied: 0, rem: 0 },
                ..old(self)@
            }),
    {
        self.dma_active = true;
        self.dma_src = (pos as u16) * 256;
        self.dma_copied = 0;
        self.dma_rem = 0;
    }

    /// Advances hardware time: an in-flight DMA moves one byte per four
    /// elapsed cycles; a pending timer overflow reloads TIMA from TMA and
    /// requests the timer interrupt; the divider advances and, on a falling
    /// edge of the TAC-selected bit while the timer is enabled, TIMA
    /// increments with overflow detection; the DIV register republishes the
    /// top divider byte.
    pub fn tick(&mut self, cycles: u8)
        requires
            old(self).wf(),
        ensures
            final(self).wf(),
            final(self)@ == tick_model(old(self)@, cycles),
    {
        // (a) advance any in-flight DMA transfer
        if self.dma_active {
            let total: u16 = self.dma_rem as u16 + cycles as u16;
            let avail: u16 = total / 4;
            let room: u16 = 160 - self.dma_copied;
            let n: u16 = if avail < room {
                avail
            } else {
                room
            };
            let ghost bytes0 = self.memory@;
            let src = self.dma_src;
            let base = self.dma_copied;
            let mut k: u16 = 0;
            while k < n
                invariant
                    k <= n,
                    n <= room,
                    src == self.dma_src,
                    base == self.dma_copied,
                    base + room == 160,
                    src <= 0xFF00,
                    self.memory@.len() == 0x10000,
                    self.memory@ == dma_copy(bytes0, src, base as int, k as int),
                    self.div == old(self).div,
                    self.overflow == old(self).overflow,
                    self.dma_active == old(self).dma_active,
                    self.dma_src == old(self).dma_src,
                    self.dma_copied == old(self).dma_copied,
                    self.dma_rem == old(self).dma_rem,
                    self.serial_out@ == old(self).serial_out@,
                decreases n - k,
            {
                let b = self.memory[(src + base + k) as usize];
                self.memory[(0xFE00 + base + k) as usize] = b;
                k += 1;
            }
            self.dma_copied = base + n;
            self.dma_rem = (total % 4) as u8;
            self.dma_active = self.dma_copied < 160;
        }
        proof {
            assert(self@ == dma_tick_model(old(self)@, cycles));
        }
        let ghost m1 = dma_tick_model(old(self)@, cycles);

        // (b) a pending overflow reloads TIMA and requests the interrupt
        if self.overflow {
            let tma = self.memory[0xFF06];
            self.memory[0xFF05] = tma;
            let iflags = self.memory[0xFF0F];
            self.memory[0xFF0F] = iflags | 4;
            self.overflow = false;
        }
        proof {
            assert(self@ == timer_reload_model(m1));
        }
        let ghost m2 = timer_reload_model(m1);

        // (c) advance the divider and detect a falling edge of the selected bit
        let tac = self.memory[0xFF07];
        let timing_bits = tac & 3;
        proof {
            assert(tac & 3 <= 3) by (bit_vector);
        }
        let rate: u16 = if timing_bits == 0 {
            9
        } else {
            1 + 2 * (timing_bits as u16)
        };
        let mask: u16 = 1u16 << rate;
        let new_div = self.div.wrapping_add(cycles as u16);
        if (tac & 4) != 0 && (self.div & mask) > (new_div & mask) {
            let tima = self.memory[0xFF05];
            self.memory[0xFF05] = tima.wrapping_add(1);
            self.overflow = tima == 255;
        }
        self.div = new_div;

        // (d) republish the top divider byte at the DIV register
        proof {
            assert(new_div >> 8 == new_div / 256) by (bit_vector);
        }
        self.memory[0xFF04] = (new_div >> 8) as u8;
        proof {
            assert(self@ == timer_count_model(m2, cycles));
        }
    }

    /// Internal store used by the scanline driver: no mirroring, no
    /// special-address rules (this is how the read-only LY register is
    /// driven).
    pub fn unchecked_write(&mut self, address: u16, data: u8)
        requires
            old(self).wf(),
        ensures
            final(self).wf(),
            final(self)@ == (MemShadow {
                bytes: old(self)@.bytes.update(address as int, data),
                ..old(self)@
            }),
    {
        self.memory[address as usize] = data;
    }

    /// The CPU-visible store, with every special-address rule applied.
    pub fn write(&mut self, address: u16, data: u8)
        requires
            old(self).wf(),
        ensures
            final(self).wf(),
            final(self)@ == write_model(old(self)@, address, data),
    {
        if address == 0xFF44 {
            // LY is driven by the scanline driver; CPU writes are dropped.
            return ;
        }
        if address == 0xFF04 {
            // any write to DIV clears the whole internal divider
            self.div = 0;
            self.memory[0xFF04] = 0;
            return ;
        }
        if address == 0xFF02 && data == 0x81 {
            // serial transmit: emit the data byte, then clear the control
            let ch = self.memory[0xFF01];
            self.serial_out.push(ch);
            self.memory[0xFF02] = 0;
            return ;
        }
        if address == 0xFF46 {
            self.dma(data);
        }
        self.memory[address as usize] = data;
        if 0xC000 <= address && address < 0xDE00 {
            self.memory[address as usize + 0x2000] = data;
        } else if 0xE000 <= address && address < 0xFE00 {
            self.memory[address as usize - 0x2000] = data;
        }
    }

    pub fn read(&self, address: u16) -> (r: u8)
        requires
            self.wf(),
        ensures
            r == self@.bytes[address as int],
    {
        self.memory[address as usize]
    }

    /// One of the 40 object-attribute entries: {y, x, tile index,
    /// attributes}.  An index past the table is the defensive
    /// `InvalidIndex` diagnostic.
    pub fn read_oam(&self, index: u8) -> (r: Result<[u8; 4], EmuError>)
        requires
            self.wf(),
        ensures
            index < 40 <==> r is Ok,
            index < 40 ==> (r matches Ok(e) && (forall|i: int|
                0 <= i < 4 ==> e[i] == self@.bytes[0xFE00 + 4 * index + i])),
            index >= 40 ==> r == Err::<[u8; 4], EmuError>(EmuError::InvalidIndex { index }),
    {
        if index >= 40 {
            return Err(EmuError::InvalidIndex { index });
        }
        let src = 0xFE00 + (index as usize) * 4;
        Ok([self.memory[src], self.memory[src + 1], self.memory[src + 2], self.memory[src + 3]])
    }

    /// Decodes the 16 bytes of a tile (8000-addressing) into 8 rows of 8
    /// two-bit palette indices, one row per word, leftmost pixel in the
    /// top two bits.
    #[verifier::rlimit(60)]
    pub fn read_tile(&self, index: u8) -> (r: [u16; 8])
        requires
            self.wf(),
        ensures
            forall|i: int|
                0 <= i < 8 ==> r[i] == crate::ppu::tile_row_spec(
                    self@.bytes[0x8000 + 16 * index + 2 * i],
                    self@.bytes[0x8000 + 16 * index + 2 * i + 1],
                ),
    {
        let src = 0x8000 + (index as usize) * 16;
        let r0 = crate::ppu::row_of_planes(self.memory[src], self.memory[src + 1]);
        let r1 = crate::ppu::row_of_planes(self.memory[src + 2], self.memory[src + 3]);
        let r2 = crate::ppu::row_of_planes(self.memory[src + 4], self.memory[src + 5]);
        let r3 = crate::ppu::row_of_planes(self.memory[src + 6], self.memory[src + 7]);
        let r4 = crate::ppu::row_of_planes(self.memory[src + 8], self.memory[src + 9]);
        let r5 = crate::ppu::row_of_planes(self.memory[src + 10], self.memory[src + 11]);
        let r6 = crate::ppu::row_of_planes(self.memory[src + 12], self.memory[src + 13]);
        let r7 = crate::ppu::row_of_planes(self.memory[src + 14], self.memory[src + 15]);
        [r0, r1, r2, r3, r4, r5, r6, r7]
    }

    /// One of the two 1024-byte background tile maps, as a flat vector.
    /// An index past the second map is the defensive `InvalidIndex`
    /// diagnostic.
    pub fn read_map(&self, index: u8) -> (r: Result<Vec<u8>, EmuError>)
        requires
            self.wf(),
        ensures
            index <= 1 <==> r is Ok,
            index <= 1 ==> (r matches Ok(v) && v@.len() == 1024 && (forall|i: int|
                0 <= i < 1024 ==> v@[i] == self@.bytes[0x9800 + 1024 * index + i])),
            index > 1 ==> r == Err::<Vec<u8>, EmuError>(EmuError::InvalidIndex { index }),
    {
        if index > 1 {
            return Err(EmuError::InvalidIndex { index });
        }
        let base = 0x9800 + (index as usize) * 1024;
        let mut v: Vec<u8> = Vec::new();
        let mut i: usize = 0;
        while i < 1024
            invariant
                self.wf(),
                i <= 1024,
                base == 0x9800 + index * 1024,
                index <= 1,
                v@.len() == i,
                forall|j: int| 0 <= j < i ==> v@[j] == self@.bytes[base + j],
            decreases 1024 - i,
        {
            v.push(self.memory[base + i]);
            i += 1;
        }
        Ok(v)
    }
}

/// Writing a byte anywhere in work RAM makes the same value readable both
/// at the written address and at the echo address 0x2000 above; writing
/// anywhere in echo RAM makes it readable at the written address and
/// 0x2000 below.
pub proof fn lemma_echo_mirror(m: MemShadow, addr: u16, data: u8)
    requires
        shadow_wf(m),
        (0xC000 <= addr && addr < 0xDE00) || (0xE000 <= addr && addr < 0xFE00),
    ensures
        write_model(m, addr, data).bytes[addr as int] == data,
        0xC000 <= addr && addr < 0xDE00 ==> write_model(m, addr, data).bytes[addr + 0x2000]
            == data,
        0xE000 <= addr && addr < 0xFE00 ==> write_model(m, addr, data).bytes[addr - 0x2000]
            == data,
{
}

/// A DMA copy writes only inside the 160-byte object-attribute window:
/// every byte outside `0xFE00..0xFEA0` keeps its value, and the length
/// of the space is kept.
pub proof fn lemma_dma_copy_preserves(bytes: Seq<u8>, src: u16, start: int, n: int)
    requires
        bytes.len() == 0x10000,
        0 <= start,
        start + n <= 160,
    ensures
        dma_copy(bytes, src, start, n).len() == bytes.len(),
        forall|a: int|
            0 <= a < 0x10000 && !(0xFE00 <= a < 0xFEA0) ==> dma_copy(bytes, src, start, n)[a]
                == bytes[a],
    decreases n,
{
    if n > 0 {
        lemma_dma_copy_preserves(bytes, src, start, n - 1);
    }
}

/// The DMA phase of a tick touches nothing the timer reads: the divider,
/// the pending-overflow flag, the serial log and every byte outside the
/// object-attribute window are unchanged.
pub proof fn lemma_dma_tick_preserves(m: MemShadow, cycles: u8)
    requires
        shadow_wf(m),
    ensures
        dma_tick_model(m, cycles).div == m.div,
        dma_tick_model(m, cycles).overflow == m.overflow,
        dma_tick_model(m, cycles).serial == m.serial,
        dma_tick_model(m, cycles).bytes.len() == m.bytes.len(),
        forall|a: int|
            0 <= a < 0x10000 && !(0xFE00 <= a < 0xFEA0) ==> dma_tick_model(m, cycles).bytes[a]
                == m.bytes[a],
{
    if m.dma.active {
        let total = m.dma.rem + cycles;
        let avail = total / 4;
        let room = 160 - m.dma.copied;
        let n = if avail < room {
            avail
        } else {
            room
        };
        lemma_dma_copy_preserves(m.bytes, m.dma.src, m.dma.copied as int, n);
    }
}

/// With TAC = 0x05 (timer enabled, rate selecting divider bit 3), a tick
/// whose cycle span crosses a falling edge of bit 3 increments TIMA by
/// exactly one, and flags an overflow exactly when TIMA was 255; a tick
/// that crosses no such edge leaves TIMA untouched.  An in-flight DMA
/// transfer does not disturb this: it writes only the object-attribute
/// window.
pub proof fn lemma_timer_edge(m: MemShadow, cycles: u8)
    requires
        shadow_wf(m),
        !m.overflow,
        m.bytes[0xFF07] == 0x05,
    ensures
        (m.div & 8) > (wrap_add16(m.div, cycles as u16) & 8) ==> tick_model(m, cycles).bytes[0xFF05]
            == wrap_add8(m.bytes[0xFF05], 1),
        !((m.div & 8) > (wrap_add16(m.div, cycles as u16) & 8)) ==> tick_model(m, cycles).bytes[0xFF05]
            == m.bytes[0xFF05],
        tick_model(m, cycles).overflow <==> ((m.div & 8) > (wrap_add16(m.div, cycles as u16) & 8)
            && m.bytes[0xFF05] == 255),
{
    assert(0x05u8 & 3 == 1 && 0x05u8 & 4 != 0) by (bit_vector);
    assert(1u16 << 3u16 == 8) by (bit_vector);
    lemma_dma_tick_preserves(m, cycles);
}

/// After a tick that flagged a TIMA overflow, the next tick — whatever
/// its cycle count, and with DMA possibly in flight — asserts the
/// timer-interrupt request bit and reloads TIMA from TMA; when a falling
/// edge of the selected divider bit lands inside that same tick, the
/// count phase then increments the freshly reloaded value (the phase
/// order of the tick), and the pending flag is re-raised only when TMA
/// itself was 255.
pub proof fn lemma_timer_reload(m: MemShadow, cycles: u8)
    requires
        shadow_wf(m),
        m.overflow,
    ensures
        tick_model(m, cycles).bytes[0xFF0F] & 4 != 0,
        ({
            let mask = 1u16 << timer_rate_bit(m.bytes[0xFF07]);
            let fired = m.bytes[0xFF07] & 4 != 0 && (m.div & mask) > (wrap_add16(
                m.div,
                cycles as u16,
            ) & mask);
            &&& (!fired ==> tick_model(m, cycles).bytes[0xFF05] == m.bytes[0xFF06] && !tick_model(
                m,
                cycles,
            ).overflow)
            &&& (fired ==> tick_model(m, cycles).bytes[0xFF05] == wrap_add8(m.bytes[0xFF06], 1)
                && (tick_model(m, cycles).overflow <==> m.bytes[0xFF06] == 255))
        }),
{
    lemma_dma_tick_preserves(m, cycles);
    let r = timer_reload_model(dma_tick_model(m, cycles));
    assert(r.bytes[0xFF0F] == m.bytes[0xFF0F] | 4);
    let b = m.bytes[0xFF0F];
    assert((b | 4) & 4 != 0) by (bit_vector);
}

/// On a TIMA wraparound from 255 (TAC = 0x05, a falling edge of divider
/// bit 3), the wrapped tick leaves TIMA at zero, and the next tick —
/// whatever its cycle count — asserts the timer-interrupt request bit
/// and reloads TIMA from TMA, incremented once more when a second edge
/// lands inside that same tick.
pub proof fn lemma_timer_wraparound(m: MemShadow, c1: u8, c2: u8)
    requires
        shadow_wf(m),
        !m.overflow,
        m.bytes[0xFF07] == 0x05,
        m.bytes[0xFF05] == 255,
        (m.div & 8) > (wrap_add16(m.div, c1 as u16) & 8),
    ensures
        tick_model(m, c1).bytes[0xFF05] == 0,
        tick_model(tick_model(m, c1), c2).bytes[0xFF0F] & 4 != 0,
        !((tick_model(m, c1).div & 8) > (wrap_add16(tick_model(m, c1).div, c2 as u16) & 8))
            ==> tick_model(tick_model(m, c1), c2).bytes[0xFF05] == m.bytes[0xFF06],
        (tick_model(m, c1).div & 8) > (wrap_add16(tick_model(m, c1).div, c2 as u16) & 8)
            ==> tick_model(tick_model(m, c1), c2).bytes[0xFF05] == wrap_add8(m.bytes[0xFF06], 1),
{
    lemma_timer_edge(m, c1);
    lemma_dma_tick_preserves(m, c1);
    let m1 = tick_model(m, c1);
    assert(0x05u8 & 3 == 1 && 0x05u8 & 4 != 0) by (bit_vector);
    assert(1u16 << 3u16 == 8) by (bit_vector);
    assert(wrap_add8(255, 1) == 0);
    assert(shadow_wf(m1));
    lemma_timer_reload(m1, c2);
}

} // verus!
