//! Tests for the memory subsystem: construction, echo mirroring, the
//! special registers, the timer and the paced OAM DMA transfer.
use gb_core::memory::Memory;
use gb_core::EmuError;

fn blank_memory() -> Memory {
    Memory::new(Vec::new())
}

#[test]
fn new_copies_rom_and_zero_fills() {
    let rom = vec![0xDE, 0xAD, 0xBE, 0xEF];
    let mem = Memory::new(rom);
    assert_eq!(mem.read(0), 0xDE);
    assert_eq!(mem.read(3), 0xEF);
    assert_eq!(mem.read(4), 0);
    assert_eq!(mem.read(0xFFFF), 0);
    assert_eq!(mem.memory.len(), 0x10000);
}

#[test]
fn work_ram_writes_mirror_up_into_echo_ram() {
    let mut mem = blank_memory();
    // the whole mirrored window, sampled at its edges and inside
    for addr in [0xC000u16, 0xC123, 0xDDFF] {
        mem.write(addr, 0x5A);
        assert_eq!(mem.read(addr), 0x5A);
        assert_eq!(mem.read(addr + 0x2000), 0x5A);
    }
}

#[test]
fn echo_ram_writes_mirror_down_into_work_ram() {
    let mut mem = blank_memory();
    for addr in [0xE000u16, 0xE777, 0xFDFF] {
        mem.write(addr, 0xA5);
        assert_eq!(mem.read(addr), 0xA5);
        assert_eq!(mem.read(addr - 0x2000), 0xA5);
    }
}

#[test]
fn mirroring_stops_at_the_window_edges() {
    let mut mem = blank_memory();
    mem.write(0xDE00, 0x11); // just past the upward window
    assert_eq!(mem.read(0xFE00), 0); // no mirror written
    mem.write(0xBFFF, 0x22); // just below it
    assert_eq!(mem.read(0xDFFF), 0);
}

#[test]
fn div_write_resets_the_counter() {
    let mut mem = blank_memory();
    mem.tick(255);
    mem.tick(255);
    assert_eq!(mem.read(0xFF04), 1); // divider advanced past 256
    mem.write(0xFF04, 0x77); // any value resets it
    assert_eq!(mem.read(0xFF04), 0);
    mem.tick(255);
    assert_eq!(mem.read(0xFF04), 0); // counting starts over from zero
}

#[test]
fn ly_writes_are_dropped() {
    let mut mem = blank_memory();
    mem.unchecked_write(0xFF44, 42); // the scanline driver path works
    assert_eq!(mem.read(0xFF44), 42);
    mem.write(0xFF44, 99); // the CPU path is silently dropped
    assert_eq!(mem.read(0xFF44), 42);
}

#[test]
fn serial_transmit_emits_byte_and_clears_control() {
    let mut mem = blank_memory();
    mem.write(0xFF01, 0x42);
    mem.write(0xFF02, 0x81);
    assert_eq!(mem.serial_out, vec![0x42]);
    assert_eq!(mem.read(0xFF02), 0); // control cleared after transmit
    // a non-transmit value is an ordinary store
    mem.write(0xFF02, 0x01);
    assert_eq!(mem.read(0xFF02), 0x01);
    assert_eq!(mem.serial_out.len(), 1);
}

#[test]
fn timer_increments_once_per_falling_edge_of_bit_3() {
    let mut mem = blank_memory();
    mem.write(0xFF07, 0x05); // enabled, rate selects divider bit 3
    mem.tick(8); // divider 0 -> 8: bit 3 rises, no increment
    assert_eq!(mem.read(0xFF05), 0);
    mem.tick(8); // divider 8 -> 16: bit 3 falls, one increment
    assert_eq!(mem.read(0xFF05), 1);
    mem.tick(4); // 16 -> 20: no edge
    assert_eq!(mem.read(0xFF05), 1);
    mem.tick(8); // 20 -> 28: bit 3 rose at 24, no falling edge yet
    assert_eq!(mem.read(0xFF05), 1);
    mem.tick(8); // 28 -> 36: bit 3 falls again
    assert_eq!(mem.read(0xFF05), 2);
}

#[test]
fn timer_disabled_never_increments() {
    let mut mem = blank_memory();
    mem.write(0xFF07, 0x01); // rate set but enable bit clear
    for _ in 0..64 {
        mem.tick(8);
    }
    assert_eq!(mem.read(0xFF05), 0);
}

#[test]
fn timer_overflow_reloads_from_tma_on_the_next_tick() {
    let mut mem = blank_memory();
    mem.write(0xFF07, 0x05);
    mem.write(0xFF06, 0xAB); // TMA
    mem.write(0xFF05, 0xFF); // TIMA on the brink
    mem.tick(8); // bit 3 rises
    mem.tick(8); // falling edge: TIMA wraps 255 -> 0, overflow flagged
    assert_eq!(mem.read(0xFF05), 0);
    assert_eq!(mem.read(0xFF0F) & 0x04, 0); // interrupt not yet requested
    mem.tick(4); // the next tick reloads and requests the interrupt
    assert_eq!(mem.read(0xFF05), 0xAB);
    assert_eq!(mem.read(0xFF0F) & 0x04, 0x04);
}

#[test]
fn dma_copies_one_byte_per_four_cycles() {
    let mut mem = blank_memory();
    for i in 0..160u16 {
        mem.write(0xC000 + i, (i as u8).wrapping_add(1));
    }
    mem.write(0xFF46, 0xC0); // trigger: source page 0xC000
    assert_eq!(mem.read(0xFE00), 0); // nothing moved yet
    mem.tick(4); // one byte
    assert_eq!(mem.read(0xFE00), 1);
    assert_eq!(mem.read(0xFE01), 0);
    mem.tick(2); // sub-4 cycles accumulate
    assert_eq!(mem.read(0xFE01), 0);
    mem.tick(2); // the remainder completes the second byte
    assert_eq!(mem.read(0xFE01), 2);
}

#[test]
fn dma_finishes_after_160_bytes() {
    let mut mem = blank_memory();
    for i in 0..160u16 {
        mem.write(0xC000 + i, i as u8);
    }
    // a marker beyond the table must never be touched
    mem.unchecked_write(0xFEA0, 0xEE);
    mem.write(0xFF46, 0xC0);
    for _ in 0..200 {
        mem.tick(4);
    }
    for i in 0..160u16 {
        assert_eq!(mem.read(0xFE00 + i), i as u8);
    }
    assert_eq!(mem.read(0xFEA0), 0xEE);
}

#[test]
fn read_oam_returns_entries_and_rejects_bad_indices() {
    let mut mem = blank_memory();
    mem.unchecked_write(0xFE00 + 4 * 7, 10);
    mem.unchecked_write(0xFE00 + 4 * 7 + 1, 20);
    mem.unchecked_write(0xFE00 + 4 * 7 + 2, 30);
    mem.unchecked_write(0xFE00 + 4 * 7 + 3, 40);
    assert_eq!(mem.read_oam(7).unwrap(), [10, 20, 30, 40]);
    assert_eq!(mem.read_oam(39).unwrap(), [0, 0, 0, 0]);
    assert_eq!(mem.read_oam(40), Err(EmuError::InvalidIndex { index: 40 }));
}

#[test]
fn read_map_returns_the_selected_map_and_rejects_bad_indices() {
    let mut mem = blank_memory();
    mem.write(0x9800, 0x11);
    mem.write(0x9800 + 1023, 0x22);
    mem.write(0x9C00, 0x33);
    let map0 = mem.read_map(0).unwrap();
    assert_eq!(map0.len(), 1024);
    assert_eq!(map0[0], 0x11);
    assert_eq!(map0[1023], 0x22);
    let map1 = mem.read_map(1).unwrap();
    assert_eq!(map1[0], 0x33);
    assert_eq!(mem.read_map(2), Err(EmuError::InvalidIndex { index: 2 }));
}

#[test]
fn read_tile_decodes_bitplanes_msb_first() {
    let mut mem = blank_memory();
    // tile 1, row 0: low plane 0b1100_0011, high plane 0b1010_0101
    mem.write(0x8010, 0b1100_0011);
    mem.write(0x8011, 0b1010_0101);
    let tile = mem.read_tile(1);
    // pixels left to right: 3, 1, 2, 0, 0, 2, 1, 3
    assert_eq!(tile[0], 0b11_01_10_00_00_10_01_11);
    assert_eq!(tile[1], 0); // untouched row decodes to zero
}
