//! Tests for the pixel pipeline: sprite selection, background
//! composition and the coincidence interrupt.
use gb_core::memory::Memory;
use gb_core::ppu::Ppu;

fn blank_memory() -> Memory {
    Memory::new(Vec::new())
}

/// Writes one object-attribute entry through the driver path.
fn put_sprite(mem: &mut Memory, index: u16, y: u8, x: u8, tile: u8, attrs: u8) {
    let base = 0xFE00 + index * 4;
    mem.unchecked_write(base, y);
    mem.unchecked_write(base + 1, x);
    mem.unchecked_write(base + 2, tile);
    mem.unchecked_write(base + 3, attrs);
}

#[test]
fn oam_scan_selects_at_most_ten_in_table_order() {
    let mut mem = blank_memory();
    mem.unchecked_write(0xFF44, 10); // scanline 10
    // eleven sprites all overlapping scanline 10 (height 8: y in 3..=10)
    for i in 0..11u16 {
        put_sprite(&mut mem, i, 10, (i + 1) as u8, i as u8, 0);
    }
    let mut ppu = Ppu::new();
    ppu.oam_scan(&mem);
    assert_eq!(ppu.scanline_buffer.len(), 10);
    for (k, e) in ppu.scanline_buffer.iter().enumerate() {
        assert_eq!(e[1], (k + 1) as u8); // entries 0..=9 in original order
        assert_eq!(e[2], k as u8);
    }
}

#[test]
fn oam_scan_never_selects_x_position_zero() {
    let mut mem = blank_memory();
    mem.unchecked_write(0xFF44, 10);
    for i in 0..11u16 {
        // entry 3 sits at x-position 0 and must be skipped
        let x = if i == 3 { 0 } else { 0x20 };
        put_sprite(&mut mem, i, 10, x, i as u8, 0);
    }
    let mut ppu = Ppu::new();
    ppu.oam_scan(&mem);
    assert_eq!(ppu.scanline_buffer.len(), 10);
    let tiles: Vec<u8> = ppu.scanline_buffer.iter().map(|e| e[2]).collect();
    assert_eq!(tiles, vec![0, 1, 2, 4, 5, 6, 7, 8, 9, 10]);
}

#[test]
fn oam_scan_respects_the_vertical_window() {
    let mut mem = blank_memory();
    mem.unchecked_write(0xFF44, 10);
    put_sprite(&mut mem, 0, 11, 5, 0, 0); // below: starts past the line
    put_sprite(&mut mem, 1, 3, 5, 1, 0); // last line of its span
    put_sprite(&mut mem, 2, 2, 5, 2, 0); // just above: ended at line 9
    put_sprite(&mut mem, 3, 10, 5, 3, 0); // first line of its span
    let mut ppu = Ppu::new();
    ppu.oam_scan(&mem);
    let tiles: Vec<u8> = ppu.scanline_buffer.iter().map(|e| e[2]).collect();
    assert_eq!(tiles, vec![1, 3]);
}

#[test]
fn tall_sprite_bit_doubles_the_height() {
    let mut mem = blank_memory();
    mem.unchecked_write(0xFF44, 20);
    mem.unchecked_write(0xFF40, 0b0000_0100); // tall sprites
    put_sprite(&mut mem, 0, 5, 9, 7, 0); // spans 5..21: overlaps line 20
    let mut ppu = Ppu::new();
    ppu.oam_scan(&mem);
    assert_eq!(ppu.scanline_buffer.len(), 1);
    assert_eq!(ppu.scanline_buffer[0][2], 7);
}

#[test]
fn disabled_lcd_gives_a_blank_scanline() {
    let mut mem = blank_memory();
    let mut ppu = Ppu::new();
    let line = ppu.draw_scanline(&mut mem);
    assert_eq!(line.len(), 160);
    assert!(line.iter().all(|&p| p == 0));
}

#[test]
fn scanline_composes_tiles_through_the_palette() {
    let mut mem = blank_memory();
    // LCD on, map select bit set (first map region), scroll zero
    mem.unchecked_write(0xFF40, 0b1000_1000);
    mem.unchecked_write(0xFF44, 0); // scanline 0
    mem.unchecked_write(0xFF47, 0b11_10_01_00); // identity palette
    mem.unchecked_write(0xFF45, 0xFF); // no coincidence
    // tile 1, row 0: pixels 3 1 2 0 0 2 1 3
    mem.write(0x8010, 0b1100_0011);
    mem.write(0x8011, 0b1010_0101);
    // the first two map cells name tile 1, the rest tile 0 (all zero)
    mem.write(0x9800, 1);
    mem.write(0x9801, 1);
    let mut ppu = Ppu::new();
    let line = ppu.draw_scanline(&mut mem);
    assert_eq!(line.len(), 160);
    assert_eq!(&line[0..8], &[3, 1, 2, 0, 0, 2, 1, 3]);
    assert_eq!(&line[8..16], &[3, 1, 2, 0, 0, 2, 1, 3]);
    assert!(line[16..].iter().all(|&p| p == 0));
}

#[test]
fn palette_register_remaps_the_indices() {
    let mut mem = blank_memory();
    mem.unchecked_write(0xFF40, 0b1000_1000);
    mem.unchecked_write(0xFF45, 0xFF);
    // palette sends index 0 -> 3, 1 -> 2, 2 -> 1, 3 -> 0
    mem.unchecked_write(0xFF47, 0b00_01_10_11);
    mem.write(0x8010, 0b1100_0011);
    mem.write(0x8011, 0b1010_0101);
    mem.write(0x9800, 1);
    let mut ppu = Ppu::new();
    let line = ppu.draw_scanline(&mut mem);
    assert_eq!(&line[0..8], &[0, 2, 1, 3, 3, 1, 2, 0]);
}

#[test]
fn scroll_registers_shift_the_background_window() {
    let mut mem = blank_memory();
    mem.unchecked_write(0xFF40, 0b1000_1000);
    mem.unchecked_write(0xFF45, 0xFF);
    mem.unchecked_write(0xFF47, 0b11_10_01_00);
    mem.unchecked_write(0xFF43, 4); // scroll four pixels left
    mem.write(0x8010, 0b1100_0011);
    mem.write(0x8011, 0b1010_0101);
    mem.write(0x9800, 1);
    let mut ppu = Ppu::new();
    let line = ppu.draw_scanline(&mut mem);
    // the first four pixels of the tile are scrolled out
    assert_eq!(&line[0..4], &[0, 2, 1, 3]);
    assert!(line[4..12].iter().all(|&p| p == 0));
}

#[test]
fn scroll_y_picks_the_tile_row() {
    let mut mem = blank_memory();
    mem.unchecked_write(0xFF40, 0b1000_1000);
    mem.unchecked_write(0xFF45, 0xFF);
    mem.unchecked_write(0xFF47, 0b11_10_01_00);
    mem.unchecked_write(0xFF42, 3); // scanline 0 + scroll 3 = tile row 3
    mem.write(0x8010 + 6, 0xFF); // tile 1, row 3, low plane all ones
    mem.write(0x9800, 1);
    let mut ppu = Ppu::new();
    let line = ppu.draw_scanline(&mut mem);
    assert_eq!(&line[0..8], &[1, 1, 1, 1, 1, 1, 1, 1]);
}

#[test]
fn coincidence_sets_stat_bit_and_requests_the_interrupt() {
    let mut mem = blank_memory();
    mem.unchecked_write(0xFF40, 0x80);
    mem.unchecked_write(0xFF44, 7);
    mem.unchecked_write(0xFF45, 7); // LY == LYC
    mem.unchecked_write(0xFF41, 0b0100_0000); // an enable bit already set
    let mut ppu = Ppu::new();
    ppu.draw_scanline(&mut mem);
    assert_eq!(mem.read(0xFF41), 0b0100_0100); // coincidence bit joined it
    assert_eq!(mem.read(0xFF0F) & 0x02, 0x02);

    // and with LY != LYC nothing is touched
    let mut mem = blank_memory();
    mem.unchecked_write(0xFF40, 0x80);
    mem.unchecked_write(0xFF44, 7);
    mem.unchecked_write(0xFF45, 8);
    let mut ppu = Ppu::new();
    ppu.draw_scanline(&mut mem);
    assert_eq!(mem.read(0xFF41), 0);
    assert_eq!(mem.read(0xFF0F) & 0x02, 0);
}
