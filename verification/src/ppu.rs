//! The pixel pipeline: sprite selection for a scanline and background
//! composition from tile and tile-map data, producing one scanline of
//! 2-bit display colours per call.
use vstd::prelude::*;

use crate::memory::{Memory, MemShadow};

verus! {

/// The 2-bit palette index of pixel `j` (0 = leftmost) of a tile row
/// packed from two bitplane bytes, MSB-first: the most significant plane
/// byte supplies the high bit.
#[verifier::opaque]
pub open spec fn tile_pix(lsb: u8, msb: u8, j: u8) -> u8 {
    ((((msb >> ((7 - j) as u8)) & 1) * 2) + ((lsb >> ((7 - j) as u8)) & 1)) as u8
}

/// A tile row as one word: pixel `j` occupies bits `2*(7-j)+1 .. 2*(7-j)`,
/// so the leftmost pixel sits in the top two bits.
pub open spec fn tile_row_spec(lsb: u8, msb: u8) -> u16 {
    (tile_pix(lsb, msb, 0) * 0x4000 + tile_pix(lsb, msb, 1) * 0x1000 + tile_pix(lsb, msb, 2)
        * 0x400 + tile_pix(lsb, msb, 3) * 0x100 + tile_pix(lsb, msb, 4) * 0x40 + tile_pix(
        lsb,
        msb,
        5,
    ) * 0x10 + tile_pix(lsb, msb, 6) * 4 + tile_pix(lsb, msb, 7)) as u16
}

/// Decodes one 2-bit pixel out of the two bitplane bytes of a tile row.
pub fn pixel_of_planes(lsb: u8, msb: u8, j: u8) -> (r: u8)
    requires
        j < 8,
    ensures
        r == tile_pix(lsb, msb, j),
        r < 4,
{
    proof {
        reveal(tile_pix);
        assert(((msb >> ((7 - j) as u8)) & 1) <= 1 && ((lsb >> ((7 - j) as u8)) & 1) <= 1)
            by (bit_vector);
    }
    (((msb >> (7 - j)) & 1) * 2) + ((lsb >> (7 - j)) & 1)
}

/// Packs the eight 2-bit pixels of two bitplane bytes into one word,
/// leftmost pixel in the top two bits.
pub fn row_of_planes(lsb: u8, msb: u8) -> (r: u16)
    ensures
        r == tile_row_spec(lsb, msb),
{
    let p0 = pixel_of_planes(lsb, msb, 0) as u16;
    let p1 = pixel_of_planes(lsb, msb, 1) as u16;
    let p2 = pixel_of_planes(lsb, msb, 2) as u16;
    let p3 = pixel_of_planes(lsb, msb, 3) as u16;
    let p4 = pixel_of_planes(lsb, msb, 4) as u16;
    let p5 = pixel_of_planes(lsb, msb, 5) as u16;
    let p6 = pixel_of_planes(lsb, msb, 6) as u16;
    let p7 = pixel_of_planes(lsb, msb, 7) as u16;
    p0 * 0x4000 + p1 * 0x1000 + p2 * 0x400 + p3 * 0x100 + p4 * 0x40 + p5 * 0x10 + p6 * 4 + p7
}

/// Sprite height for the scanline: 16 when the tall-sprite bit of the
/// LCD-control register is set, 8 otherwise.
pub open spec fn sprite_height(m: Seq<u8>) -> int {
    if m[0xFF40] & 4 != 0 {
        16
    } else {
        8
    }
}

/// Whether object-attribute entry `i` lands on scanline `ly`: entries
/// with x-position 0 are never shown, and the scanline must fall within
/// the sprite's vertical span.
pub open spec fn sprite_visible(m: Seq<u8>, ly: u8, i: int) -> bool {
    let y = m[0xFE00 + 4 * i];
    let x = m[0xFE00 + 4 * i + 1];
    x != 0 && y <= ly && ly < y + sprite_height(m)
}

/// The object-attribute indices below `n` whose sprites land on scanline
/// `ly`, in table order.
pub open spec fn selected_sprites(m: Seq<u8>, ly: u8, n: int) -> Seq<int>
    decreases n,
{
    if n <= 0 {
        Seq::empty()
    } else {
        let rest = selected_sprites(m, ly, n - 1);
        if sprite_visible(m, ly, n - 1) {
            rest.push(n - 1)
        } else {
            rest
        }
    }
}

/// A shorter sprite scan is a prefix of a longer one.
pub proof fn lemma_selected_prefix(m: Seq<u8>, ly: u8, i: int, j: int)
    requires
        0 <= i <= j,
    ensures
        selected_sprites(m, ly, i).len() <= selected_sprites(m, ly, j).len(),
        forall|k: int|
            0 <= k < selected_sprites(m, ly, i).len() ==> selected_sprites(m, ly, j)[k]
                == selected_sprites(m, ly, i)[k],
    decreases j - i,
{
    if i < j {
        lemma_selected_prefix(m, ly, i, j - 1);
    }
}

/// Every selected sprite really lands on the scanline — in particular no
/// sprite of x-position 0 is ever selected — and the selection keeps the
/// original table order.
pub proof fn lemma_selected_sound(m: Seq<u8>, ly: u8, n: int)
    ensures
        forall|k: int|
            0 <= k < selected_sprites(m, ly, n).len() ==> 0 <= #[trigger] selected_sprites(
                m,
                ly,
                n,
            )[k] < n && sprite_visible(m, ly, selected_sprites(m, ly, n)[k]),
        forall|k1: int, k2: int|
            0 <= k1 < k2 < selected_sprites(m, ly, n).len() ==> #[trigger] selected_sprites(
                m,
                ly,
                n,
            )[k1] < #[trigger] selected_sprites(m, ly, n)[k2],
    decreases n,
{
    if n > 0 {
        lemma_selected_sound(m, ly, n - 1);
        let rest = selected_sprites(m, ly, n - 1);
        let cur = selected_sprites(m, ly, n);
        if sprite_visible(m, ly, n - 1) {
            assert(cur == rest.push(n - 1));
            assert forall|k: int|
                0 <= k < cur.len() implies 0 <= #[trigger] cur[k] < n && sprite_visible(
                m,
                ly,
                cur[k],
            ) by {
                if k < rest.len() {
                    assert(cur[k] == rest[k]);
                } else {
                    assert(cur[k] == n - 1);
                }
            }
            assert forall|k1: int, k2: int|
                0 <= k1 < k2 < cur.len() implies #[trigger] cur[k1] < #[trigger] cur[k2] by {
                if k2 < rest.len() {
                    assert(cur[k1] == rest[k1] && cur[k2] == rest[k2]);
                } else {
                    assert(cur[k2] == n - 1);
                    assert(cur[k1] == rest[k1] && rest[k1] < n - 1);
                }
            }
        } else {
            assert(cur == rest);
        }
    }
}

/// The display colour of background pixel `x` on the scanline held in
/// the LY register: scroll registers give the background-space
/// coordinate, the active tile map names the tile, its two bitplane
/// bytes give a 2-bit palette index, and the background-palette register
/// maps that index to a display colour.
pub open spec fn scanline_color(m: Seq<u8>, x: int) -> u8 {
    let ly = m[0xFF44];
    let scx = m[0xFF43];
    let scy = m[0xFF42];
    let bgp = m[0xFF47];
    let bx = (scx + x) % 256;
    let by = (scy + ly) % 256;
    let map_base: int = if m[0xFF40] & 8 != 0 {
        0x9800
    } else {
        0x9C00
    };
    let tile_index = m[map_base + (by / 8) * 32 + bx / 8];
    let lsb = m[0x8000 + 16 * tile_index + 2 * (by % 8)];
    let msb = m[0x8000 + 16 * tile_index + 2 * (by % 8) + 1];
    let pi = tile_pix(lsb, msb, (bx % 8) as u8);
    (bgp >> ((pi * 2) as u8)) & 3
}

/// The interrupt bookkeeping after a composed scanline: when LY matches
/// LYC, the coincidence bit of STAT is set and an LCD-STAT interrupt is
/// requested.
pub open spec fn stat_update_model(m: MemShadow) -> MemShadow {
    if m.bytes[0xFF44] == m.bytes[0xFF45] {
        MemShadow {
            bytes: m.bytes.update(0xFF41, m.bytes[0xFF41] | 4).update(
                0xFF0F,
                m.bytes[0xFF0F] | 2,
            ),
            ..m
        }
    } else {
        m
    }
}

/// The pixel pipeline.  It holds no persistent pixel state beyond the
/// per-scanline sprite-selection buffer, rebuilt on every call.
pub struct Ppu {
    pub scanline_buffer: Vec<[u8; 4]>,
}

impl Ppu {
    pub fn new() -> (r: Ppu)
        ensures
            r.scanline_buffer@.len() == 0,
    {
        Ppu { scanline_buffer: Vec::new() }
    }

    pub fn read_memory(&self, mem: &Memory, address: u16) -> (r: u8)
        requires
            mem.wf(),
        ensures
            r == mem@.bytes[address as int],
    {
        mem.read(address)
    }

    /// The sprite scan: walks the 40 object-attribute entries in table
    /// order and keeps those landing on the current scanline, stopping at
    /// the hardware limit of 10.
    pub fn oam_scan(&mut self, mem: &Memory)
        requires
            mem.wf(),
        ensures
            ({
                let m = mem@.bytes;
                let sel = selected_sprites(m, m[0xFF44], 40);
                &&& final(self).scanline_buffer@.len() == (if sel.len() < 10 {
                    sel.len() as int
                } else {
                    10int
                })
                &&& forall|k: int, j: int|
                    0 <= k < final(self).scanline_buffer@.len() && 0 <= j < 4
                        ==> final(self).scanline_buffer@[k][j] == m[0xFE00 + 4 * sel[k] + j]
            }),
    {
        self.scanline_buffer.clear();
        let ly = mem.read(0xFF44);
        let lcdc = mem.read(0xFF40);
        let height: u16 = if lcdc & 4 != 0 {
            16
        } else {
            8
        };
        let ghost m = mem@.bytes;
        let mut i: u8 = 0;
        while i < 40 && self.scanline_buffer.len() < 10
            invariant
                mem.wf(),
                m == mem@.bytes,
                i <= 40,
                ly == m[0xFF44],
                height as int == sprite_height(m),
                self.scanline_buffer@.len() == selected_sprites(m, ly, i as int).len(),
                self.scanline_buffer@.len() <= 10,
                forall|k: int, j: int|
                    0 <= k < self.scanline_buffer@.len() && 0 <= j < 4
                        ==> self.scanline_buffer@[k][j] == m[0xFE00 + 4 * selected_sprites(
                        m,
                        ly,
                        i as int,
                    )[k] + j],
            decreases 40 - i,
        {
            let e = mem.read_oam(i).unwrap();
            let visible = e[1] != 0 && (e[0] as u16) <= (ly as u16) && (ly as u16) < (e[0] as u16)
                + height;
            proof {
                assert(visible == sprite_visible(m, ly, i as int));
            }
            if visible {
                self.scanline_buffer.push(e);
            }
            i += 1;
        }
        proof {
            lemma_selected_prefix(m, ly, i as int, 40);
        }
    }

    /// Composes one scanline of 160 display colours for the scanline in
    /// the LY register.  With the LCD disabled the line is blank and
    /// nothing else happens; otherwise the sprite scan runs, the
    /// background row is composed pixel by pixel, and when LY matches LYC
    /// the STAT coincidence bit is set and an LCD-STAT interrupt
    /// requested.
    pub fn draw_scanline(&mut self, mem: &mut Memory) -> (r: Vec<u8>)
        requires
            old(mem).wf(),
        ensures
            final(mem).wf(),
            r@.len() == 160,
            old(mem)@.bytes[0xFF40] & 0x80 == 0 ==> (forall|x: int| 0 <= x < 160 ==> r@[x] == 0)
                && final(mem)@ == old(mem)@ && *final(self) == *old(self),
            old(mem)@.bytes[0xFF40] & 0x80 != 0 ==> (forall|x: int|
                0 <= x < 160 ==> r@[x] == scanline_color(old(mem)@.bytes, x)) && final(mem)@
                == stat_update_model(old(mem)@) && ({
                let m = old(mem)@.bytes;
                let sel = selected_sprites(m, m[0xFF44], 40);
                &&& final(self).scanline_buffer@.len() == (if sel.len() < 10 {
                    sel.len() as int
                } else {
                    10int
                })
                &&& forall|k: int, j: int|
                    0 <= k < final(self).scanline_buffer@.len() && 0 <= j < 4
                        ==> final(self).scanline_buffer@[k][j] == m[0xFE00 + 4 * sel[k] + j]
            }),
    {
        let lcdc = mem.read(0xFF40);
        if lcdc & 0x80 == 0 {
            // the screen is off: a blank line, and both phases are skipped
            let mut blank: Vec<u8> = Vec::new();
            let mut i: usize = 0;
            while i < 160
                invariant
                    i <= 160,
                    blank@.len() == i,
                    forall|x: int| 0 <= x < i ==> blank@[x] == 0,
                decreases 160 - i,
            {
                blank.push(0);
                i += 1;
            }
            return blank;
        }
        self.oam_scan(mem);

        let ly = mem.read(0xFF44);
        let scx = mem.read(0xFF43);
        let scy = mem.read(0xFF42);
        let bgp = mem.read(0xFF47);
        let map_base: usize = if lcdc & 8 != 0 {
            0x9800
        } else {
            0x9C00
        };

        let mut line: Vec<u8> = Vec::new();
        let mut x: usize = 0;
        while x < 160
            invariant
                mem.wf(),
                mem@ == old(mem)@,
                x <= 160,
                line@.len() == x,
                ly == mem@.bytes[0xFF44],
                scx == mem@.bytes[0xFF43],
                scy == mem@.bytes[0xFF42],
                bgp == mem@.bytes[0xFF47],
                lcdc == mem@.bytes[0xFF40],
                map_base == (if lcdc & 8 != 0 {
                    0x9800int
                } else {
                    0x9C00int
                }),
                forall|i: int| 0 <= i < x ==> line@[i] == scanline_color(mem@.bytes, i),
            decreases 160 - x,
        {
            let bx = scx.wrapping_add(x as u8);
            let by = scy.wrapping_add(ly);
            let tile_index = mem.read((map_base + (by as usize / 8) * 32 + (bx as usize / 8))
                as u16);
            let tile_addr: u16 = 0x8000 + (tile_index as u16) * 16 + ((by as u16) % 8) * 2;
            let lsb = mem.read(tile_addr);
            let msb = mem.read(tile_addr + 1);
            let pi = pixel_of_planes(lsb, msb, bx % 8);
            let color = (bgp >> (pi * 2)) & 3;
            line.push(color);
            x += 1;
        }

        // the coincidence interrupt bookkeeping
        let lyc = mem.read(0xFF45);
        if ly == lyc {
            let stat = mem.read(0xFF41);
            mem.write(0xFF41, stat | 4);
            let iflags = mem.read(0xFF0F);
            mem.write(0xFF0F, iflags | 2);
        }
        line
    }
}

} // verus!
