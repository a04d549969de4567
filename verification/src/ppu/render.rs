//! Picture rendering: background and sprite pixels, colour math,
//! windows and the composed scanline.

use vstd::prelude::*;
use crate::bits::{
    lemma_and_le_u8, lemma_and_le_u16, lemma_and_le_u32, lemma_and_le_usize, lemma_mirror3_usize,
    lemma_shr_le_u32, lemma_zero_bits,
};
use crate::ppu::{Ppu, HEIGHT, OBJ_LAYER, WIDTH, spec_read_vram_word, spec_sprite_sizes, spec_window_masked, spec_color_math};

verus! {

/// RGB888 channels of a 15-bit BGR CGRAM colour.
pub open spec fn spec_color_of(word: u16) -> (u8, u8, u8) {
    ((((word & 0x1F) as u8) << 3u8) as u8, ((((word >> 5u16) & 0x1F) as u8) << 3u8) as u8, ((((
    word >> 10u16) & 0x1F) as u8) << 3u8) as u8)
}

pub open spec fn spec_mode_bpp(mode: u8) -> [u8; 4] {
    if mode == 0 {
        [2, 2, 2, 2]
    } else if mode == 1 {
        [4, 4, 2, 0]
    } else if mode == 2 {
        [4, 4, 0, 0]
    } else if mode == 3 {
        [8, 4, 0, 0]
    } else if mode == 4 {
        [8, 2, 0, 0]
    } else if mode == 5 {
        [4, 2, 0, 0]
    } else if mode == 6 {
        [4, 0, 0, 0]
    } else {
        [0, 0, 0, 0]
    }
}

/// Plane weight during tile decoding: after `plane` planes the pixel value
/// is below `w`, the next plane's weight.
spec fn plane_weight(plane: usize, w: u32) -> bool {
    (plane == 0 && w == 1) || (plane == 1 && w == 2) || (plane == 2 && w == 4) || (plane == 3
        && w == 8) || (plane == 4 && w == 16) || (plane == 5 && w == 32) || (plane == 6 && w
        == 64) || (plane == 7 && w == 128) || (plane == 8 && w == 256)
}

/// Number of distinct pixel values of a tile of the given depth (capped at a byte).
pub open spec fn spec_pixel_limit(bpp: u8) -> int {
    if bpp == 2 {
        4
    } else if bpp == 4 {
        16
    } else {
        256
    }
}

/// Palette base of a BG pixel: mode 0 gives each 2bpp layer its own 32
/// colours; in other modes 2bpp layers share entries 0-31.
pub open spec fn spec_bg_palette_base(bgmode: u8, layer: int, bpp: u8, pal: u8) -> int {
    if bpp == 2 && bgmode & 7 == 0 {
        layer * 32 + pal * 4
    } else if bpp == 2 {
        pal * 4
    } else if bpp == 4 {
        pal * 16
    } else {
        0
    }
}

/// An (r, g, b) triple packed as 0x00RRGGBB.
pub open spec fn rgb888(c: (u8, u8, u8)) -> u32 {
    ((c.0 as u32) << 16u32) | ((c.1 as u32) << 8u32) | c.2 as u32
}

/// Weight of bitplane `p` in a pixel value: 2^p.
pub open spec fn plane_bit_weight(p: nat) -> nat
    decreases p,
{
    if p == 0 {
        1
    } else {
        2 * plane_bit_weight((p - 1) as nat)
    }
}

/// The pixel value assembled from the first `n` bitplanes of row `row` of
/// the tile at byte address `tile_addr`: plane `p` lives in the byte at
/// `tile_addr + (p / 2) * 16 + row * 2 + p % 2` and contributes bit `bit`.
pub open spec fn bg_plane_bits(vram: Seq<u8>, tile_addr: int, row: int, bit: u8, n: nat) -> nat
    decreases n,
{
    if n == 0 {
        0
    } else {
        let p = (n - 1) as nat;
        let byte = vram[(tile_addr + (p / 2) * 16 + row * 2 + p % 2) % 0x10000];
        bg_plane_bits(vram, tile_addr, row, bit, p) + if (byte >> bit) & 1 != 0 {
            plane_bit_weight(p)
        } else {
            0
        }
    }
}

pub fn sprite_sizes(sel: u8) -> (r: ((i32, i32), (i32, i32)))
    ensures
        r == spec_sprite_sizes(sel),
{
    if sel == 0 {
        ((8, 8), (16, 16))
    } else if sel == 1 {
        ((8, 8), (32, 32))
    } else if sel == 2 {
        ((8, 8), (64, 64))
    } else if sel == 3 {
        ((16, 16), (32, 32))
    } else if sel == 4 {
        ((16, 16), (64, 64))
    } else if sel == 5 {
        ((32, 32), (64, 64))
    } else if sel == 6 {
        ((16, 32), (32, 64))
    } else {
        ((32, 64), (64, 64))
    }
}

fn mode_bpp(mode: u8) -> (r: [u8; 4])
    ensures
        r == spec_mode_bpp(mode),
{
    if mode == 0 {
        [2, 2, 2, 2]
    } else if mode == 1 {
        [4, 4, 2, 0]
    } else if mode == 2 {
        [4, 4, 0, 0]
    } else if mode == 3 {
        [8, 4, 0, 0]
    } else if mode == 4 {
        [8, 2, 0, 0]
    } else if mode == 5 {
        [4, 2, 0, 0]
    } else if mode == 6 {
        [4, 0, 0, 0]
    } else {
        [0, 0, 0, 0]
    }
}

/// Layer/priority pairs, front to back (layer 0-3 = BG1-4, 4 = OBJ).
fn priority_order(mode: u8, bg3_hi: bool) -> (order: Vec<(u8, u8)>)
    ensures
        forall|i: int| 0 <= i < order@.len() ==> order@[i].0 <= 4,
{
    let l = OBJ_LAYER;
    if mode == 0 {
        vec![(l, 3), (0, 1), (1, 1), (l, 2), (0, 0), (1, 0), (l, 1), (2, 1), (3, 1), (l, 0), (2, 0), (3, 0)]
    } else if mode == 1 && bg3_hi {
        vec![(2, 1), (l, 3), (0, 1), (1, 1), (l, 2), (0, 0), (1, 0), (l, 1), (l, 0), (2, 0)]
    } else if mode == 1 {
        vec![(l, 3), (0, 1), (1, 1), (l, 2), (0, 0), (1, 0), (l, 1), (2, 1), (l, 0), (2, 0)]
    } else if mode == 7 {
        vec![(l, 3), (0, 1), (l, 2), (l, 1), (0, 0), (l, 0)]
    } else {
        vec![(l, 3), (0, 1), (l, 2), (1, 1), (l, 1), (0, 0), (l, 0), (1, 0)]
    }
}

/// One colour-math channel (add/subtract, optional halving, clamped).
fn color_math(c: u8, f: u8, sub: bool, half: bool) -> (r: u8)
    ensures
        r == spec_color_math(c, f, sub, half),
{
    let v: i16 = if sub {
        c as i16 - f as i16
    } else {
        c as i16 + f as i16
    };
    if v <= 0 {
        return 0;
    }
    let h: i16 = if half {
        ((v as u16) / 2) as i16
    } else {
        v
    };
    if h > 255 {
        255
    } else {
        h as u8
    }
}

/// Brightness scaling of one 8-bit channel by INIDISP brightness 0-15.
fn scale_channel(c: u8, bright: u32) -> (r: u32)
    requires
        bright <= 15,
    ensures
        r == (((c as u32 * bright) / 15) as u32) & 0xFF,
        r <= 0xFF,
        bright == 0 ==> r == 0,
{
    let cc = c as u32;
    proof {
        lemma_zero_pixel();
        assert(cc * bright <= 255 * 15) by (nonlinear_arith)
            requires cc <= 255, bright <= 15;
        lemma_and_le_u32(((cc * bright) / 15) as u32, 0xFF);
    }
    ((cc * bright) / 15) & 0xFF
}

/// Brightness scaling of one channel: `c * bright / 15`.
pub open spec fn spec_scale(c: u8, bright: u32) -> u32 {
    (((c as u32 * bright) / 15) as u32) & 0xFF
}

/// An RGB888 pixel from its three channels.
pub open spec fn pack_rgb(r: u32, g: u32, b: u32) -> u32 {
    (r << 16u32) | (g << 8u32) | b
}

/// One channel of the backdrop with colour math against the fixed colour:
/// applied when CGADSUB enables it for the backdrop (bit 5), subtracting
/// when bit 7 is set and adding otherwise, halved when bit 6 is set.
pub open spec fn backdrop_channel(c: u8, f: u8, cgadsub: u8) -> u8 {
    if cgadsub & 0x3F & 0x20 != 0 {
        spec_color_math(c, f, cgadsub & 0x80 != 0, cgadsub & 0x40 != 0)
    } else {
        c
    }
}

/// The pixel of a column where no main-screen layer is enabled (TM = 0)
/// and CGWSEL is 0 (colour math everywhere, addend the fixed colour): the
/// backdrop with colour math, at the master brightness.
pub open spec fn backdrop_pixel(backdrop: (u8, u8, u8), fixed: (u8, u8, u8), cgadsub: u8, bright: u32) -> u32 {
    pack_rgb(
        spec_scale(backdrop_channel(backdrop.0, fixed.0, cgadsub), bright),
        spec_scale(backdrop_channel(backdrop.1, fixed.1, cgadsub), bright),
        spec_scale(backdrop_channel(backdrop.2, fixed.2, cgadsub), bright),
    )
}

/// Colour math on one channel adds or subtracts the addend, halving when
/// asked, and saturates to 0..255: adding never darkens the channel and
/// subtracting never brightens it.
pub proof fn lemma_color_math_add_sub(c: u8, f: u8)
    ensures
        spec_color_math(c, f, false, false) == if c + f > 255 { 255 } else { c + f },
        spec_color_math(c, f, true, false) == if c < f { 0 } else { c - f },
        spec_color_math(c, f, false, true) == (c + f) / 2,
        spec_color_math(c, f, true, true) == if c < f { 0 } else { (c - f) / 2 },
        spec_color_math(c, f, false, false) >= c,
        spec_color_math(c, f, true, false) <= c,
{
}

/// On a backdrop-only column with colour math enabled for the backdrop and
/// no halving, each channel of the pixel is the brightness-scaled saturated
/// sum of backdrop and fixed colour when CGADSUB bit 7 is clear, and the
/// scaled difference floored at 0 when it is set.
pub proof fn lemma_backdrop_add_sub(backdrop: (u8, u8, u8), fixed: (u8, u8, u8), cgadsub: u8, bright: u32)
    requires
        cgadsub & 0x3F & 0x20 != 0,
        cgadsub & 0x40 == 0,
    ensures
        cgadsub & 0x80 == 0 ==> backdrop_pixel(backdrop, fixed, cgadsub, bright) == pack_rgb(
            spec_scale(if backdrop.0 + fixed.0 > 255 { 255u8 } else { (backdrop.0 + fixed.0) as u8 }, bright),
            spec_scale(if backdrop.1 + fixed.1 > 255 { 255u8 } else { (backdrop.1 + fixed.1) as u8 }, bright),
            spec_scale(if backdrop.2 + fixed.2 > 255 { 255u8 } else { (backdrop.2 + fixed.2) as u8 }, bright),
        ),
        cgadsub & 0x80 != 0 ==> backdrop_pixel(backdrop, fixed, cgadsub, bright) == pack_rgb(
            spec_scale(if backdrop.0 < fixed.0 { 0u8 } else { (backdrop.0 - fixed.0) as u8 }, bright),
            spec_scale(if backdrop.1 < fixed.1 { 0u8 } else { (backdrop.1 - fixed.1) as u8 }, bright),
            spec_scale(if backdrop.2 < fixed.2 { 0u8 } else { (backdrop.2 - fixed.2) as u8 }, bright),
        ),
{
    lemma_color_math_add_sub(backdrop.0, fixed.0);
    lemma_color_math_add_sub(backdrop.1, fixed.1);
    lemma_color_math_add_sub(backdrop.2, fixed.2);
}

/// A zero channel value, and a pixel of three zero channels, are zero.
proof fn lemma_zero_pixel()
    by (bit_vector)
    ensures
        0u32 & 0xFF == 0,
        (0u32 << 16u32) | (0u32 << 8u32) | 0u32 == 0,
{
}

impl Ppu {
    // ----- rendering -----
    fn color(&self, index: u8) -> (rgb: (u8, u8, u8))
        ensures
            rgb == spec_color_of(
                ((self.cgram[(index as int) * 2] as u16) | ((self.cgram[(index as int) * 2 + 1] as u16) << 8u16)) as u16,
            ),
    {
        let a = index as usize * 2;
        let v: u16 = (self.cgram[a] as u16) | ((self.cgram[a + 1] as u16) << 8u16);
        let r = ((v & 0x1F) as u8) << 3u8;
        let g = (((v >> 5u16) & 0x1F) as u8) << 3u8;
        let b = (((v >> 10u16) & 0x1F) as u8) << 3u8;
        (r, g, b)
    }

    /// Layer `layer`'s map position of screen column `x`: scrolled by
    /// BGnHOFS and wrapped at 1024.
    pub open spec fn bg_map_x(&self, layer: int, x: u32) -> u32 {
        ((x + (self.bg_hofs[layer] as u32 & 0x3FF)) as u32) & 0x3FF
    }

    /// Layer `layer`'s map position of screen line `y`: scrolled by
    /// BGnVOFS plus one and wrapped at 1024.
    pub open spec fn bg_map_y(&self, layer: int, y: u32) -> u32 {
        ((y + ((self.bg_vofs[layer] as u32 & 0x3FF) + 1)) as u32) & 0x3FF
    }

    /// BGMODE selects 16x16 tiles for the layer.
    pub open spec fn bg_tile16(&self, layer: int) -> bool {
        (self.bgmode >> (4 + layer) as u8) & 1 != 0
    }

    /// The tilemap entry under screen pixel (x, y) of layer `layer`, with
    /// the 64-tile screen mirroring selected by BGnSC.
    pub open spec fn bg_entry(&self, layer: int, x: u32, y: u32) -> u16 {
        let px = self.bg_map_x(layer, x);
        let py = self.bg_map_y(layer, y);
        let sh: u32 = if self.bg_tile16(layer) { 4 } else { 3 };
        let tx = px >> sh;
        let ty = py >> sh;
        let sc = self.bg_sc[layer];
        let e0 = (tx & 0x1F) + (ty & 0x1F) * 32;
        let e1 = if sc & 0x01 != 0 && tx & 0x20 != 0 { e0 + 0x400 } else { e0 };
        let e2 = if sc & 0x02 != 0 && ty & 0x20 != 0 { e1 + 0x800 } else { e1 };
        let map_base = ((sc >> 2u8) as usize) << 10usize;
        spec_read_vram_word(self.vram@, (map_base + e2) as u16)
    }

    /// Byte address of the 8x8 character holding screen pixel (x, y):
    /// the layer's character base plus the tile number of the entry, moved
    /// to the flipped quarter of a 16x16 tile.
    pub open spec fn bg_tile_addr(&self, layer: int, bpp: u8, x: u32, y: u32) -> int {
        let entry = self.bg_entry(layer, x, y);
        let px = self.bg_map_x(layer, x);
        let py = self.bg_map_y(layer, y);
        let t16 = self.bg_tile16(layer);
        let fx0: u32 = if t16 { (px >> 3u32) & 1 } else { 0 };
        let fy0: u32 = if t16 { (py >> 3u32) & 1 } else { 0 };
        let fx = if t16 && entry & 0x4000 != 0 { 1 - fx0 } else { fx0 as int };
        let fy = if t16 && entry & 0x8000 != 0 { 1 - fy0 } else { fy0 as int };
        let nba = if layer < 2 {
            (self.bg_nba12 >> (layer * 4) as u8) & 0x7
        } else {
            (self.bg_nba34 >> ((layer - 2) * 4) as u8) & 0x7
        };
        nba * 0x2000 + ((entry & 0x3FF) + fx + fy * 16) * (8 * bpp)
    }

    /// Row of the 8x8 character for screen line `y`, vertically flipped by
    /// bit 15 of the entry.
    pub open spec fn bg_row(&self, layer: int, x: u32, y: u32) -> int {
        let r = self.bg_map_y(layer, y) & 7;
        if self.bg_entry(layer, x, y) & 0x8000 != 0 { (r ^ 7) as int } else { r as int }
    }

    /// Bit of the bitplane bytes for screen column `x`: column 0 is bit 7;
    /// bit 14 of the entry mirrors the column.
    pub open spec fn bg_bit(&self, layer: int, x: u32, y: u32) -> u8 {
        let c = self.bg_map_x(layer, x) & 7;
        let col = if self.bg_entry(layer, x, y) & 0x4000 != 0 { (c ^ 7) as int } else { c as int };
        (7 - col) as u8
    }

    /// The pixel (CGRAM index, priority) of layer `layer` at (x, y) with
    /// `bpp` bitplanes; index 0 is transparent.
    #[verifier::opaque]
    pub open spec fn spec_bg_pixel(&self, layer: int, bpp: u8, x: u32, y: u32) -> (u8, u8) {
        let entry = self.bg_entry(layer, x, y);
        let pri = ((entry >> 13u16) & 1) as u8;
        let pixel = bg_plane_bits(
            self.vram@,
            self.bg_tile_addr(layer, bpp, x, y),
            self.bg_row(layer, x, y),
            self.bg_bit(layer, x, y),
            bpp as nat,
        );
        if pixel == 0 {
            (0, pri)
        } else {
            ((spec_bg_palette_base(self.bgmode, layer, bpp, ((entry >> 10u16) & 7) as u8) + pixel) as u8, pri)
        }
    }

    /// Fetch one background pixel. Returns (cgram_index, priority); index 0
    /// is transparent, otherwise it is the palette base plus a non-zero pixel.
    #[verifier::rlimit(30)]
    #[verifier::spinoff_prover]
    pub fn bg_pixel(&self, layer: usize, mode_bpp: u8, x: u32, y: u32) -> (r: (u8, u8))
        requires
            layer < 4,
            mode_bpp <= 8,
            x < 0x10000,
            y < 0x10000,
        ensures
            r == self.spec_bg_pixel(layer as int, mode_bpp, x, y),
            r.1 <= 1,
            r.0 != 0 ==> exists|pal: u8|
                pal < 8 && #[trigger] spec_bg_palette_base(self.bgmode, layer as int, mode_bpp, pal)
                    < r.0 < spec_bg_palette_base(self.bgmode, layer as int, mode_bpp, pal)
                    + spec_pixel_limit(mode_bpp),
    {
        let sc = self.bg_sc[layer];
        let tile_16 = (self.bgmode >> (4 + layer) as u8) & 1 != 0;
        proof {
            lemma_and_le_u32(self.bg_hofs[layer as int] as u32, 0x3FF);
            lemma_and_le_u32(self.bg_vofs[layer as int] as u32, 0x3FF);
        }
        let hofs = self.bg_hofs[layer] as u32 & 0x3FF;
        // Hardware quirk: the effective vertical offset is the written value
        // plus one.
        let vofs = (self.bg_vofs[layer] as u32 & 0x3FF) + 1;
        proof {
            lemma_and_le_u32(self.bg_hofs[layer as int] as u32, 0x3FF);
            lemma_and_le_u32(self.bg_vofs[layer as int] as u32, 0x3FF);
        }
        let px = (x + hofs) & 0x3FF;
        let py = (y + vofs) & 0x3FF;
        proof {
            lemma_and_le_u32((x + hofs) as u32, 0x3FF);
            lemma_and_le_u32((y + vofs) as u32, 0x3FF);
        }
        let tile_shift: u32 = if tile_16 {
            4
        } else {
            3
        };
        let tx = px >> tile_shift;
        let ty = py >> tile_shift;
        proof {
            lemma_shr_le_u32(px, tile_shift);
            lemma_shr_le_u32(py, tile_shift);
            lemma_and_le_u32(tx, 0x1F);
            lemma_and_le_u32(ty, 0x1F);
        }
        // tilemap entry with screen mirroring
        let mut entry_idx = (tx & 0x1F) + (ty & 0x1F) * 32;
        if sc & 0x01 != 0 && tx & 0x20 != 0 {
            entry_idx += 0x400;
        }
        if sc & 0x02 != 0 && ty & 0x20 != 0 {
            entry_idx += 0x800;
        }
        let map_base = ((sc >> 2u8) as usize) << 10usize;
        proof {
            vstd::bits::lemma_u8_shr_is_div(sc, 2);
            vstd::arithmetic::power2::lemma2_to64();
            vstd::bits::lemma_usize_shl_is_mul((sc >> 2u8) as usize, 10);
        }
        let entry = self.read_vram_word((map_base + entry_idx as usize) as u16);
        let tile_num = (entry & 0x3FF) as usize;
        let pal = ((entry >> 10u16) & 7) as u8;
        let pri = ((entry >> 13u16) & 1) as u8;
        proof {
            lemma_and_le_u16(entry, 0x3FF);
            lemma_and_le_u16(entry >> 10u16, 7);
            lemma_and_le_u16(entry >> 13u16, 1);
        }
        let hflip = entry & 0x4000 != 0;
        let vflip = entry & 0x8000 != 0;
        // sub-tile position within 16x16 (only meaningful for 16x16 tiles;
        // for 8x8 tiles the flips act on row/col within the tile below)
        let mut fx: u32 = 0;
        let mut fy: u32 = 0;
        if tile_16 {
            fx = (px >> 3u32) & 1;
            fy = (py >> 3u32) & 1;
            proof {
                lemma_and_le_u32(px >> 3u32, 1);
                lemma_and_le_u32(py >> 3u32, 1);
            }
            if hflip {
                fx = 1 - fx;
            }
            if vflip {
                fy = 1 - fy;
            }
        }
        let bpp = mode_bpp as usize;
        let tiles_per_row: usize = 16;  // in 8x8 units within a row of the 16x16 tile grid
        let eff_tile = tile_num + (fx as usize) + (fy as usize) * tiles_per_row;
        let nba = if layer < 2 {
            (self.bg_nba12 >> (layer * 4) as u8) & 0x7
        } else {
            (self.bg_nba34 >> ((layer - 2) * 4) as u8) & 0x7
        };
        proof {
            lemma_and_le_u8(self.bg_nba12 >> (layer * 4) as u8, 7);
            lemma_and_le_u8(self.bg_nba34 >> ((layer - 2) * 4) as u8, 7);
        }
        // Character base: word address nba<<12 = byte address nba<<13.
        let char_base = (nba as usize) * 0x2000;
        proof {
            assert(eff_tile * (8 * bpp) <= 1040 * 64) by (nonlinear_arith)
                requires eff_tile <= 1040, bpp <= 8;
        }
        let tile_addr = char_base + eff_tile * (8 * bpp);
        // pixel position within the 8x8 sub-tile
        let mut row = (py & 7) as usize;
        if vflip {
            row = row ^ 7;
        }
        let mut col = (px & 7) as usize;
        if hflip {
            col = col ^ 7;
        }
        proof {
            lemma_and_le_u32(py, 7);
            lemma_and_le_u32(px, 7);
            lemma_mirror3_usize((py & 7) as usize);
            lemma_mirror3_usize((px & 7) as usize);
        }
        let bit = (7 - col) as u8;
        let mut pixel: u32 = 0;
        let mut w: u32 = 1;
        let mut plane: usize = 0;
        while plane < bpp
            invariant
                bpp <= 8,
                plane <= bpp,
                plane_weight(plane, w),
                w == plane_bit_weight(plane as nat),
                pixel < w,
                pixel == bg_plane_bits(self.vram@, tile_addr as int, row as int, bit, plane as nat),
                bit <= 7,
                row <= 7,
                tile_addr <= 0x40000,
            decreases bpp - plane,
        {
            let plane_pair = plane / 2;
            let in_pair = plane % 2;
            let byte = self.vram[(tile_addr + plane_pair * 16 + row * 2 + in_pair) % 0x10000];
            if (byte >> bit) & 1 != 0 {
                pixel = pixel + w;
            }
            w = w * 2;
            plane += 1;
        }
        proof {
            reveal(Ppu::spec_bg_pixel);
            assert(entry == self.bg_entry(layer as int, x, y));
            assert(tile_addr == self.bg_tile_addr(layer as int, mode_bpp, x, y));
            assert(row == self.bg_row(layer as int, x, y));
            assert(bit == self.bg_bit(layer as int, x, y));
        }
        if pixel == 0 {
            return (0, pri);
        }
        let pal_base: u8 = if bpp == 2 && self.bgmode & 7 == 0 {
            layer as u8 * 32 + pal * 4
        } else if bpp == 2 {
            pal * 4
        } else if bpp == 4 {
            pal * 16
        } else {
            0
        };
        let idx = pal_base + pixel as u8;
        assert(spec_bg_palette_base(self.bgmode, layer as int, mode_bpp, pal) + pixel == idx);
        proof {
            reveal(Ppu::spec_bg_pixel);
        }
        (idx, pri)
    }

    /// Sprite rendering into per-line buffers.
    pub fn render_sprites(
        &self,
        line: u32,
        pix: &mut [u8; WIDTH],
        pri: &mut [u8; WIDTH],
        opaque: &mut [bool; WIDTH],
    )
        ensures
            forall|i: int| 0 <= i < 256 && !final(opaque)[i] ==> final(pix)[i] == old(pix)[i],
            forall|i: int| 0 <= i < 256 && final(pix)[i] != old(pix)[i] ==> 128 <= final(pix)[i],
    {
        // OBSEL ($2101): bits 1-0 = character base, bits 4-3 = name select,
        // bits 7-5 = sprite size select. Base/select are byte offsets into VRAM.
        let name_base = ((self.obsel & 3) as usize) * 0x4000;
        let name_select = (((self.obsel >> 3u8) & 3) as usize) * 0x2000;
        proof {
            lemma_and_le_u8(self.obsel, 3);
            lemma_and_le_u8(self.obsel >> 3u8, 3);
            lemma_and_le_u8(self.obsel >> 5u8, 7);
        }
        let (small, large) = sprite_sizes((self.obsel >> 5u8) & 7);
        // Pass 1: select up to 32 sprites touching this scanline, in priority
        // order: starting at first_sprite ($2102/3 rotation) and wrapping
        // (earlier OAM slot in this order = higher priority).
        let first = self.first_sprite as usize;
        let mut active = [false;128];
        let mut count: usize = 0;
        let mut k: usize = 0;
        while k < 128
            invariant
                k <= 128,
                count <= 32,
                first < 256,
            decreases 128 - k,
        {
            let i = (first + k) % 128;
            let o = i * 4;
            let sx_hi = self.oam[0x200 + i / 4] >> ((i % 4) * 2) as u8;
            let big = sx_hi & 2 != 0;
            let h = if big {
                large.1
            } else {
                small.1
            };
            let sy = self.oam[o + 1] as u32;
            // Y wraps modulo 256 so sprites scrolled above the top edge still
            // show their lower rows.
            let dy = (line.wrapping_sub(sy) & 0xFF) as i32;
            if dy < h {
                if count >= 32 {
                    break ;
                }
                active[i] = true;
                count += 1;
            }
            k += 1;
        }
        // Pass 2: draw in reverse priority order so higher-priority sprites
        // are written last and appear on top.
        let mut kk: usize = 128;
        while kk > 0
            invariant
                kk <= 128,
                first < 256,
                (small, large) == spec_sprite_sizes((self.obsel >> 5u8) & 7),
                name_base <= 0xC000,
                name_select <= 0x6000,
                forall|j: int| 0 <= j < 256 && !opaque[j] ==> pix[j] == old(pix)[j],
                forall|j: int| 0 <= j < 256 && pix[j] != old(pix)[j] ==> 128 <= pix[j],
            decreases kk,
        {
            kk -= 1;
            let i = (first + kk) % 128;
            if !active[i] {
                continue ;
            }
            let o = i * 4;
            let sx_hi = self.oam[0x200 + i / 4] >> ((i % 4) * 2) as u8;
            proof {
                lemma_and_le_u8(sx_hi, 1);
            }
            let x9: i32 = (((sx_hi & 1) as i32) * 256) + self.oam[o] as i32;
            let x = if x9 >= 256 {
                x9 - 512
            } else {
                x9
            };
            let sy = self.oam[o + 1] as u32;
            let big = sx_hi & 2 != 0;
            let (w, h) = if big {
                large
            } else {
                small
            };
            let dy = (line.wrapping_sub(sy) & 0xFF) as u32;
            proof {
                lemma_and_le_u32(line.wrapping_sub(sy), 0xFF);
            }
            let attr = self.oam[o + 3];
            // Attribute byte layout: vhoopppn -> vflip(7), hflip(6),
            // priority(5-4), palette(3-1), char-name MSB(0).
            let pal = (attr >> 1u8) & 7;
            let prio = (attr >> 4u8) & 3;
            proof {
                lemma_and_le_u8(attr >> 1u8, 7);
            }
            let hflip = attr & 0x40 != 0;
            let vflip = attr & 0x80 != 0;
            // 9-bit character name: tile byte plus the attribute MSB.
            let name = self.oam[o + 2] as usize + ((attr & 1) as usize) * 256;
            proof {
                lemma_and_le_u8(attr, 1);
            }
            if dy as i32 >= h {
                // Only reachable when pass 1 selected the sprite, which
                // required it to cover this line.
                continue ;
            }
            let mut col: i32 = 0;
            while col < w
                invariant
                    8 <= w <= 64,
                    8 <= h <= 64,
                    w % 8 == 0,
                    h % 8 == 0,
                    0 <= col <= w,
                    -256 <= x < 256,
                    dy < h,
                    pal <= 7,
                    name < 512,
                    name_base <= 0xC000,
                    name_select <= 0x6000,
                    forall|j: int| 0 <= j < 256 && !opaque[j] ==> pix[j] == old(pix)[j],
                    forall|j: int| 0 <= j < 256 && pix[j] != old(pix)[j] ==> 128 <= pix[j],
                decreases w - col,
            {
                let screen_x = x + col;
                if screen_x < 0 || screen_x >= WIDTH as i32 {
                    col += 1;
                    continue ;
                }
                let colu = col as usize;
                let mut tx = colu / 8;
                let mut ty = dy as usize / 8;
                let mut fx = colu % 8;
                let mut fy = dy as usize % 8;
                if hflip {
                    tx = (w as usize / 8 - 1) - tx;
                    fx = 7 - fx;
                }
                if vflip {
                    ty = (h as usize / 8 - 1) - ty;
                    fy = 7 - fy;
                }
                // Sub-tile offset within the sprite (16 tiles per character row).
                let eff = name + tx + ty * 16;
                // Character data address: base + name*32, keeping bit 8 of the
                // name in the offset, plus the name-select offset when bit 8 is set.
                let mut char_addr = name_base + (eff % 0x400) * 32;
                if (eff / 0x100) % 2 != 0 {
                    char_addr = char_addr + name_select;
                }
                let bit = (7 - fx) as u8;
                let mut pixel: u32 = 0;
                let mut wt: u32 = 1;
                let mut plane: usize = 0;
                while plane < 4
                    invariant
                        plane <= 4,
                        plane_weight(plane, wt),
                        pixel < wt,
                        bit <= 7,
                        fy <= 7,
                        char_addr <= 0x30000,
                    decreases 4 - plane,
                {
                    let byte = self.vram[(char_addr + plane / 2 * 16 + fy * 2 + plane % 2) % 0x10000];
                    if (byte >> bit) & 1 != 0 {
                        pixel = pixel + wt;
                    }
                    wt = wt * 2;
                    plane += 1;
                }
                if pixel != 0 {
                    let sx = screen_x as usize;
                    pix[sx] = 128 + pal * 16 + pixel as u8;
                    pri[sx] = prio;
                    opaque[sx] = true;
                }
                col += 1;
            }
        }
    }

    fn window_masked(&self, sel: u8, x: usize) -> (m: bool)
        ensures
            m == spec_window_masked(self.wh, sel, x as int),
    {
        // returns true if the layer is masked (hidden) at x
        let w1_en = sel & 0x02 != 0;
        let w1_inv = sel & 0x01 != 0;
        let w2_en = sel & 0x20 != 0;
        let w2_inv = sel & 0x10 != 0;
        let logic = (sel >> 6u8) & 3;
        let in1 = (self.wh[0] as usize) <= x && x <= self.wh[1] as usize;
        let in2 = (self.wh[2] as usize) <= x && x <= self.wh[3] as usize;
        let a = if w1_en {
            in1 != w1_inv
        } else {
            false
        };
        let b = if w2_en {
            in2 != w2_inv
        } else {
            false
        };
        if w1_en && w2_en {
            if logic == 0 {
                a || b
            } else if logic == 1 {
                a && b
            } else if logic == 2 {
                a != b
            } else {
                a == b
            }
        } else if w1_en {
            a
        } else if w2_en {
            b
        } else {
            false
        }
    }

    /// Window masks of BG1-4 and OBJ at column `x` for one screen.
    fn screen_masks(&self, wmask: u8, x: usize) -> (m: [bool; 5]) {
        let mut m = [false;5];
        let mut l: usize = 0;
        while l < 4
            invariant
                l <= 4,
            decreases 4 - l,
        {
            let sel = if l == 0 {
                self.w12sel & 0x0F
            } else if l == 1 {
                self.w12sel >> 4u8
            } else if l == 2 {
                self.w34sel & 0x0F
            } else {
                self.w34sel >> 4u8
            };
            m[l] = (wmask >> l as u8) & 1 != 0 && self.window_masked(sel, x);
            l += 1;
        }
        m[4] = wmask & 0x10 != 0 && self.window_masked(self.wobjsel, x);
        m
    }

    /// Front-most visible (index, layer) for one screen at column `x`.
    fn pick_pixel(
        order: &Vec<(u8, u8)>,
        masks: &[bool; 5],
        en: u8,
        x: usize,
        bg_pix: &[u8; 1024],
        bg_pri: &[u8; 1024],
        obj_pix: &[u8; WIDTH],
        obj_pri: &[u8; WIDTH],
        obj_opq: &[bool; WIDTH],
    ) -> (r: Option<(u8, u8)>)
        requires
            x < 256,
            forall|i: int| 0 <= i < order@.len() ==> order@[i].0 <= 4,
        ensures
            r matches Some(p) ==> p.1 <= 4,
            en == 0 ==> r is None,
    {
        let mut i: usize = 0;
        while i < order.len()
            invariant
                x < 256,
                forall|j: int| 0 <= j < order@.len() ==> order@[j].0 <= 4,
            decreases order@.len() - i,
        {
            let (layer, pri) = order[i];
            let l = layer as usize;
            i += 1;
            proof {
                lemma_zero_bits(layer, 1);
            }
            if (en >> layer) & 1 == 0 || masks[l] {
                continue ;
            }
            let (p, ppri) = if l == 4 {
                if !obj_opq[x] {
                    continue ;
                }
                (obj_pix[x], obj_pri[x])
            } else {
                if bg_pix[l * 256 + x] == 0 {
                    continue ;
                }
                (bg_pix[l * 256 + x], bg_pri[l * 256 + x])
            };
            if ppri == pri {
                return Some((p, layer));
            }
        }
        None
    }

    fn fixed_color(&self) -> (c: (u8, u8, u8))
        ensures
            c == (self.fixed_rgb[0], self.fixed_rgb[1], self.fixed_rgb[2]),
    {
        (self.fixed_rgb[0], self.fixed_rgb[1], self.fixed_rgb[2])
    }

    /// Draw framebuffer row `y`; rows past the bottom are ignored. Forced
    /// blank (INIDISP bit 7) paints the row black.
    #[verifier::rlimit(40)]
    #[verifier::spinoff_prover]
    pub(crate) fn render_scanline(&mut self, y: usize)
        requires
            old(self).inv(),
        ensures
            final(self).inv(),
            final(self).master_accum == old(self).master_accum,
            final(self).line == old(self).line,
            final(self).dot == old(self).dot,
            final(self).vram == old(self).vram,
            final(self).cgram == old(self).cgram,
            final(self).oam == old(self).oam,
            final(self).setini == old(self).setini,
            final(self).frame == old(self).frame,
            final(self).frame_ended == old(self).frame_ended,
            final(self).inidisp == old(self).inidisp,
            forall|i: int| 0 <= i < 61440 && !(y * 256 <= i < y * 256 + 256) ==> final(self).framebuffer[i] == old(self).framebuffer[i],
            y < HEIGHT && old(self).inidisp & 0x80 != 0 ==> forall|i: int| y * 256 <= i < y * 256 + 256 ==> final(self).framebuffer[i] == 0,
            y < HEIGHT && old(self).inidisp & 0x0F == 0 ==> forall|i: int| y * 256 <= i < y * 256 + 256 ==> final(self).framebuffer[i] == 0,
            final(self).nmi_flag == old(self).nmi_flag,
            final(self).nmi_delay == old(self).nmi_delay,
    {
        if y >= HEIGHT {
            return ;
        }
        if self.dbg_scroll_log {
            self.dbg_scroll_ring.push(
                (y as u16, self.bg_hofs[0], self.bg_vofs[0], self.bg_hofs[1], self.bg_vofs[1]),
            );
        }
        // INIDISP: bit 7 = forced blank (black screen), bits 3-0 = brightness.
        if self.inidisp & 0x80 != 0 {
            let black = [0u32;WIDTH];
            self.store_row(y, &black);
            proof {
                assert forall|i: int| y * 256 <= i < y * 256 + 256 implies self.framebuffer[i] == 0 by {
                    assert(self.framebuffer[y * 256 + (i - y * 256)] == black[i - y * 256]);
                }
            }
            return ;
        }
        let bright = (self.inidisp & 0x0F) as u32;
        proof {
            lemma_and_le_u8(self.inidisp, 0x0F);
        }
        let mode = self.bgmode & 7;
        proof {
            lemma_and_le_u8(self.bgmode, 7);
        }
        self.dbg_mode_count[mode as usize] = self.dbg_mode_count[mode as usize].wrapping_add(1);
        let bg3_hi = mode == 1 && self.bgmode & 0x08 != 0;
        // TM: main-screen layer enables (bits 0-3 = BG1-4, bit 4 = OBJ).
        let tm = self.tm;
        let mut bg_pix = [0u8;1024];
        let mut bg_pri = [0u8;1024];
        let mut obj_pix = [0u8;WIDTH];
        let mut obj_pri = [0u8;WIDTH];
        let mut obj_opq = [false;WIDTH];
        let bpp = mode_bpp(mode);
        if mode != 7 {
            let mut layer: usize = 0;
            while layer < 4
                invariant
                    layer <= 4,
                    y < HEIGHT,
                    bpp == spec_mode_bpp(mode),
                decreases 4 - layer,
            {
                if bpp[layer] == 0 || ((self.tm | self.ts) >> layer as u8) & 1 == 0 {
                    layer += 1;
                    continue ;
                }
                let mut x: usize = 0;
                while x < WIDTH
                    invariant
                        x <= WIDTH,
                        layer < 4,
                        y < HEIGHT,
                        bpp == spec_mode_bpp(mode),
                    decreases WIDTH - x,
                {
                    let (p, pr) = self.bg_pixel(layer, bpp[layer], x as u32, y as u32);
                    bg_pix[layer * 256 + x] = p;
                    bg_pri[layer * 256 + x] = pr;
                    x += 1;
                }
                layer += 1;
            }
        } else if (self.tm | self.ts) & 1 != 0 {
            let mut line_pix = [0u8;WIDTH];
            let mut line_pri = [0u8;WIDTH];
            self.render_mode7_line(y, &mut line_pix, &mut line_pri);
            let mut x: usize = 0;
            while x < WIDTH
                invariant
                    x <= WIDTH,
                decreases WIDTH - x,
            {
                bg_pix[x] = line_pix[x];
                x += 1;
            }
        }
        if (self.tm | self.ts) & 0x10 != 0 {
            self.render_sprites(y as u32, &mut obj_pix, &mut obj_pri, &mut obj_opq);
        }
        let order = priority_order(mode, bg3_hi);
        let backdrop = self.color(0);
        let fixed = self.fixed_color();
        let mut row = [0u32;WIDTH];
        let mut x: usize = 0;
        while x < WIDTH
            invariant
                x <= WIDTH,
                bright <= 15,
                bright == (self.inidisp & 0x0F) as u32,
                forall|i: int| 0 <= i < order@.len() ==> order@[i].0 <= 4,
                bright == 0 ==> forall|k: int| 0 <= k < x ==> row[k] == 0,
            decreases WIDTH - x,
        {
            row[x] = self.compose_pixel(x, &order, tm, &bg_pix, &bg_pri, &obj_pix, &obj_pri, &obj_opq, backdrop, fixed, bright);
            x += 1;
        }
        self.store_row(y, &row);
        proof {
            if bright == 0 {
                assert forall|i: int| y * 256 <= i < y * 256 + 256 implies self.framebuffer[i] == 0 by {
                    assert(self.framebuffer[y * 256 + (i - y * 256)] == row[i - y * 256]);
                }
            }
        }
    }

    /// Copy one row of pixels into framebuffer row `y`.
    fn store_row(&mut self, y: usize, row: &[u32; WIDTH])
        requires
            y < HEIGHT,
        ensures
            *final(self) == (Ppu { framebuffer: final(self).framebuffer, ..*old(self) }),
            forall|i: int| 0 <= i < 61440 && !(y * 256 <= i < y * 256 + 256) ==> final(self).framebuffer[i] == old(self).framebuffer[i],
            forall|x: int| 0 <= x < 256 ==> #[trigger] final(self).framebuffer[y * 256 + x] == row[x],
    {
        let line_start = y * WIDTH;
        let mut x: usize = 0;
        while x < WIDTH
            invariant
                x <= WIDTH,
                y < HEIGHT,
                line_start == y * 256,
                *self == (Ppu { framebuffer: self.framebuffer, ..*old(self) }),
                forall|i: int| 0 <= i < 61440 && !(y * 256 <= i < y * 256 + x) ==> self.framebuffer[i] == old(self).framebuffer[i],
                forall|k: int| 0 <= k < x ==> #[trigger] self.framebuffer[y * 256 + k] == row[k],
            decreases WIDTH - x,
        {
            self.framebuffer[line_start + x] = row[x];
            x += 1;
        }
    }

    /// The RGB888 value of screen column `x`: main and sub screen layer
    /// choice, windows, colour math and master brightness.
    fn compose_pixel(
        &self,
        x: usize,
        order: &Vec<(u8, u8)>,
        tm: u8,
        bg_pix: &[u8; 1024],
        bg_pri: &[u8; 1024],
        obj_pix: &[u8; WIDTH],
        obj_pri: &[u8; WIDTH],
        obj_opq: &[bool; WIDTH],
        backdrop: (u8, u8, u8),
        fixed: (u8, u8, u8),
        bright: u32,
    ) -> (px: u32)
        requires
            x < WIDTH,
            bright <= 15,
            forall|i: int| 0 <= i < order@.len() ==> order@[i].0 <= 4,
        ensures
            bright == 0 ==> px == 0,
            tm == 0 && self.cgwsel == 0 ==> px == backdrop_pixel(backdrop, fixed, self.cgadsub, bright),
    {
        proof {
            lemma_zero_pixel();
            lemma_zero_bits(4, 3);
            lemma_zero_bits(6, 3);
            lemma_zero_bits(0, 2);
        }
        let math_layer_mask = self.cgadsub & 0x3F;
        let math_sub = self.cgadsub & 0x80 != 0;
        let math_half = self.cgadsub & 0x40 != 0;
        let ts = self.ts;
        // window masks per screen: main (TMW) and sub (TSW)
        let main_masks = self.screen_masks(self.tmw, x);
        let sub_masks = self.screen_masks(self.tsw, x);
        let chosen = Self::pick_pixel(order, &main_masks, tm, x, bg_pix, bg_pri, obj_pix, obj_pri, obj_opq);
        let chosen_sub = Self::pick_pixel(order, &sub_masks, ts, x, bg_pix, bg_pri, obj_pix, obj_pri, obj_opq);
        let (mut r, mut g, mut b) = match chosen {
            Some((idx, _)) => self.color(idx),
            None => backdrop,
        };
        // Sub screen: transparent pixels fall back to the FIXED color
        // (not the backdrop).
        let sub_rgb = match chosen_sub {
            Some((idx, _)) => self.color(idx),
            None => fixed,
        };
        // color math: main screen +/- addend (CGWSEL bit1 selects
        // sub screen pixel vs fixed color as the addend)
        let apply_layer = match chosen {
            Some((idx, layer)) => {
                (math_layer_mask >> layer) & 1 != 0
                // Hardware quirk: OBJ color math only applies to
                // sprites with palettes 4-7.
                 && (layer != 4 || (idx >> 4u8) & 7 >= 4)
            },
            None => math_layer_mask & 0x20 != 0,
        };
        // CGWSEL: color math only applies within the selected region
        // (bits 5-4: 0=always, 1=math window, 2=not math window, 3=never);
        // bits 7-6 force the main screen black in the same fashion.
        let math_win = self.window_masked(self.wobjsel >> 4u8, x);
        let region_sel = (self.cgwsel >> 4u8) & 3;
        let region_ok = if region_sel == 0 {
            true
        } else if region_sel == 1 {
            math_win
        } else if region_sel == 2 {
            !math_win
        } else {
            false
        };
        let black_sel = (self.cgwsel >> 6u8) & 3;
        let force_black = if black_sel == 0 {
            false
        } else if black_sel == 1 {
            !math_win
        } else if black_sel == 2 {
            math_win
        } else {
            true
        };
        if force_black {
            r = 0;
            g = 0;
            b = 0;
        } else if apply_layer && region_ok {
            let (or, og, ob) = if self.cgwsel & 0x02 != 0 {
                sub_rgb
            } else {
                fixed
            };
            r = color_math(r, or, math_sub, math_half);
            g = color_math(g, og, math_sub, math_half);
            b = color_math(b, ob, math_sub, math_half);
        }
        // brightness
        let sr = scale_channel(r, bright);
        let sg = scale_channel(g, bright);
        let sb = scale_channel(b, bright);
        (sr << 16u32) | (sg << 8u32) | sb
    }

    fn render_mode7_line(&mut self, y: usize, pix: &mut [u8; WIDTH], _pri: &mut [u8; WIDTH])
        requires
            y < HEIGHT,
        ensures
            *final(self) == (Ppu { m7_dbg: final(self).m7_dbg, m7_dbg_valid: final(self).m7_dbg_valid, ..*old(self) }),
    {
        let a = self.m7[0] as i16 as i32;
        let b = self.m7[1] as i16 as i32;
        let c = self.m7[2] as i16 as i32;
        let d = self.m7[3] as i16 as i32;
        let cx = self.m7[4] as i16 as i32;
        let cy = self.m7[5] as i16 as i32;
        let hofs = self.m7[6] as i16 as i32;
        let vofs = self.m7[7] as i16 as i32;
        let mut x: usize = 0;
        while x < WIDTH
            invariant
                x <= WIDTH,
                y < HEIGHT,
                *self == *old(self),
                -32768 <= cx < 32768,
                -32768 <= cy < 32768,
                -32768 <= hofs < 32768,
                -32768 <= vofs < 32768,
            decreases WIDTH - x,
        {
            let sx = x as i32 + hofs - cx;
            let sy = y as i32 + vofs - cy;
            let tx = (a.wrapping_mul(sx).wrapping_add(b.wrapping_mul(sy)) >> 8i32).wrapping_add(cx);
            let ty = (c.wrapping_mul(sx).wrapping_add(d.wrapping_mul(sy)) >> 8i32).wrapping_add(cy);
            let (tx, ty) = if self.m7sel & 0xC0 == 0xC0 {
                (tx & 0x3FF, ty & 0x3FF)  // repeat whole map

            } else {
                (tx, ty)
            };
            let in_map = 0 <= tx && tx < 1024 && 0 <= ty && ty < 1024;
            let tile: usize = if in_map {
                let map_idx = (ty as u32 / 8) as usize * 128 + (tx as u32 / 8) as usize;
                self.vram[map_idx * 2] as usize
            } else if self.m7sel & 0xC0 == 0x80 {
                0  // screen over: character 0 repeated

            } else {
                pix[x] = 0;  // screen over: transparent (backdrop)
                x += 1;
                continue ;
            };
            // Pixel data lives in the HIGH byte of each VRAM word:
            // byte address = (tile*64 + row*8 + col) * 2 + 1
            let char_byte = (tile * 64 + ((ty as u32 % 8) as usize) * 8 + ((tx as u32 % 8) as usize)) * 2 + 1;
            pix[x] = self.vram[char_byte % 0x10000];
            x += 1;
        }
        if y == 100 {
            let mut i: usize = 0;
            while i < WIDTH
                invariant
                    i <= WIDTH,
                    *self == (Ppu { m7_dbg: self.m7_dbg, ..*old(self) }),
                decreases WIDTH - i,
            {
                self.m7_dbg[i] = pix[i];
                i += 1;
            }
            self.m7_dbg_valid = true;
        }
    }

    /// Debug helper: mode 7 matrix state (M7SEL, [A,B,C,D,X,Y,HOFS,VOFS]).
    pub fn debug_m7(&self) -> (r: (u8, [u16; 8]))
        ensures
            r == (self.m7sel, self.m7),
    {
        (self.m7sel, self.m7)
    }

    /// Debug helper: render a single BG layer (raw CGRAM indices mapped
    /// through the palette) into an RGB888 buffer for inspection.
    pub fn debug_render_layer(&self, layer: usize, bpp: u8, out: &mut [u32; 61440])
        requires
            layer < 4,
            bpp <= 8,
        ensures
            forall|y: int, x: int|
                0 <= y < 240 && 0 <= x < 256 ==> #[trigger] final(out)[y * 256 + x] == self.layer_rgb(
                    layer as int,
                    bpp,
                    x,
                    y,
                ),
    {
        let mut y: usize = 0;
        while y < HEIGHT
            invariant
                y <= HEIGHT,
                layer < 4,
                bpp <= 8,
                forall|yy: int, xx: int|
                    0 <= yy < y && 0 <= xx < 256 ==> #[trigger] out[yy * 256 + xx] == self.layer_rgb(
                        layer as int,
                        bpp,
                        xx,
                        yy,
                    ),
            decreases HEIGHT - y,
        {
            let mut x: usize = 0;
            while x < WIDTH
                invariant
                    x <= WIDTH,
                    y < HEIGHT,
                    layer < 4,
                    bpp <= 8,
                    forall|yy: int, xx: int|
                        (0 <= yy < y && 0 <= xx < 256) || (yy == y && 0 <= xx < x) ==> #[trigger] out[yy * 256
                            + xx] == self.layer_rgb(layer as int, bpp, xx, yy),
                decreases WIDTH - x,
            {
                let (idx, _pri) = self.bg_pixel(layer, bpp, x as u32, y as u32);
                let (r, g, b) = self.color(idx);
                out[y * WIDTH + x] = ((r as u32) << 16u32) | ((g as u32) << 8u32) | b as u32;
                proof {
                    assert forall|yy: int, xx: int|
                        (0 <= yy < y && 0 <= xx < 256) || (yy == y && 0 <= xx < x + 1) implies #[trigger] out[yy
                            * 256 + xx] == self.layer_rgb(layer as int, bpp, xx, yy) by {
                        if yy == y && xx == x {
                        } else {
                            assert(yy * 256 + xx != y * 256 + x) by (nonlinear_arith)
                                requires
                                    (0 <= yy < y && 0 <= xx < 256) || (yy == y && 0 <= xx < x),
                                    0 <= x < 256,
                            ;
                        }
                    }
                }
                x += 1;
            }
            y += 1;
        }
    }

    /// The RGB888 value that `debug_render_layer` draws for screen pixel
    /// (x, y) of the layer.
    pub open spec fn layer_rgb(&self, layer: int, bpp: u8, x: int, y: int) -> u32 {
        rgb888(spec_color_of(self.cgram_word(self.spec_bg_pixel(layer, bpp, x as u32, y as u32).0)))
    }

    /// CGRAM colour `index` as its little-endian 15-bit word.
    pub open spec fn cgram_word(&self, index: u8) -> u16 {
        ((self.cgram[(index as int) * 2] as u16) | ((self.cgram[(index as int) * 2 + 1] as u16) << 8u16)) as u16
    }
}

} // verus!
