use snes_core::ppu::{Ppu, WIDTH};

/// Fill the 4bpp 8x8 tile at byte address `char_addr` so every pixel decodes to `p`.
fn set_tile_solid(ppu: &mut Ppu, char_addr: usize, p: u8) {
    let plane = |b: u8| if p >> b & 1 != 0 { 0xFF } else { 0x00 };
    for row in 0..8usize {
        ppu.vram[char_addr + row * 2] = plane(0);
        ppu.vram[char_addr + row * 2 + 1] = plane(1);
        ppu.vram[char_addr + 16 + row * 2] = plane(2);
        ppu.vram[char_addr + 16 + row * 2 + 1] = plane(3);
    }
}

/// Write sprite 0's four low-table bytes plus its high-table bits through the
/// $2102/$2103/$2104 register interface (the same path DMA uses).
fn write_sprite0(ppu: &mut Ppu, x: u8, y: u8, tile: u8, attr: u8, hi: u8) {
    ppu.write_register(0x2102, 0);
    ppu.write_register(0x2103, 0);
    ppu.write_register(0x2104, x);
    ppu.write_register(0x2104, y);
    ppu.write_register(0x2104, tile);
    ppu.write_register(0x2104, attr);
    ppu.write_register(0x2102, 0);
    ppu.write_register(0x2103, 1); // point at the high table
    ppu.write_register(0x2104, hi);
}

#[test]
fn oam_write_aligns_sprite_entries() {
    let mut ppu = Ppu::new();
    write_sprite0(&mut ppu, 10, 5, 0x42, 0x0E, 0x02);
    // Low table: sprite 0 occupies bytes 0..4 as x, y, tile, attr.
    assert_eq!(ppu.oam[0], 10);
    assert_eq!(ppu.oam[1], 5);
    assert_eq!(ppu.oam[2], 0x42);
    assert_eq!(ppu.oam[3], 0x0E);
    // High table byte 0 holds sprite 0's x-MSB (bit0) and size (bit1).
    assert_eq!(ppu.oam[0x200], 0x02);
}

#[test]
fn sprite_position_tile_and_palette() {
    let mut ppu = Ppu::new();
    ppu.write_register(0x2101, 0x00); // size 0 (8x8), name base 0, select 0
    set_tile_solid(&mut ppu, 0, 1); // tile 0 -> solid pixel value 1
    // Palette 7 lives in attr bits 3-1 (= 0x0E); priority 0, no flip, small sprite.
    write_sprite0(&mut ppu, 10, 5, 0, 0x0E, 0x00);

    let mut pix = [0u8; WIDTH];
    let mut pri = [0u8; WIDTH];
    let mut opq = [false; WIDTH];
    ppu.render_sprites(5, &mut pix, &mut pri, &mut opq);

    // 8px-wide sprite at x=10, palette 7, pixel 1 -> CGRAM index 128 + 7*16 + 1.
    for x in 10..18 {
        assert_eq!(pix[x], 128 + 7 * 16 + 1, "pixel at x={x}");
        assert!(opq[x]);
    }
    assert_eq!(pix[9], 0);
    assert_eq!(pix[18], 0);

    // The sprite is not present on the scanline above it.
    let mut pix2 = [0u8; WIDTH];
    let mut pri2 = [0u8; WIDTH];
    let mut opq2 = [false; WIDTH];
    ppu.render_sprites(4, &mut pix2, &mut pri2, &mut opq2);
    assert_eq!(pix2[10], 0);
}

#[test]
fn sprite_uses_name_msb_and_name_select() {
    let mut ppu = Ppu::new();
    // OBSEL: name base 0, name select = 1 (bits 4-3) -> select offset 0x2000.
    ppu.write_register(0x2101, 0x08);
    // Tile 0's region stays empty. With the name MSB set, the character resolves
    // to 0x100*32 + 0x2000 = 0x4000; put a solid pixel value 2 there.
    set_tile_solid(&mut ppu, 0x4000, 2);
    // attr bit0 = 1 selects the 9th name bit; palette 0, small sprite.
    write_sprite0(&mut ppu, 20, 8, 0, 0x01, 0x00);

    let mut pix = [0u8; WIDTH];
    let mut pri = [0u8; WIDTH];
    let mut opq = [false; WIDTH];
    ppu.render_sprites(8, &mut pix, &mut pri, &mut opq);

    assert_eq!(pix[20], 128 + 2, "should fetch the tile via the name-select offset");
}

#[test]
fn bg_2bpp_palette_base_depends_on_mode() {
    // A 2bpp BG3 in mode 1 indexes CGRAM at pal*4+pixel; only mode 0 gives
    // each layer its own 32-colour block.
    let mut ppu = Ppu::new();
    ppu.bg_sc[2] = 0x68; // BG3 tilemap at word 0x6800 (byte 0xD000)
    // Tilemap entry 0: tile 0, palette 6.
    ppu.vram[0xD000] = 0x00;
    ppu.vram[0xD001] = (6 << 2) as u8; // palette in entry bits 12-10
    // 2bpp tile 0 at char base 0: solid pixel value 1 (plane 0 set).
    for row in 0..8usize {
        ppu.vram[row * 2] = 0xFF;
        ppu.vram[row * 2 + 1] = 0x00;
    }
    // Mode 1: BG3 shares palettes 0-31 -> 6*4 + 1.
    ppu.bgmode = 0x09;
    assert_eq!(ppu.bg_pixel(2, 2, 0, 0).0, 6 * 4 + 1);
    // Mode 0: BG3 owns colors 64-95 -> 64 + 6*4 + 1.
    ppu.bgmode = 0x00;
    assert_eq!(ppu.bg_pixel(2, 2, 0, 0).0, 2 * 32 + 6 * 4 + 1);
}

#[test]
fn tick_wraps_lines_and_frames() {
    let mut ppu = Ppu::new();
    ppu.tick(1364 * 3 + 5);
    assert_eq!(ppu.scanline(), 3);
    assert_eq!(ppu.dot, 5);
    assert!(!ppu.frame_ended);
    ppu.tick(1364 * 259);
    assert_eq!(ppu.scanline(), 0);
    assert!(ppu.frame_ended);
    assert_eq!(ppu.frame, 1);
}

#[test]
fn vblank_and_nmi_after_line_225() {
    let mut ppu = Ppu::new();
    ppu.tick(1364 * 225);
    assert!(ppu.in_vblank());
    // The NMI flag rises a few clocks into vblank.
    ppu.tick(10);
    assert!(ppu.take_nmi());
    assert!(!ppu.take_nmi());
}

#[test]
fn vram_write_then_read_back() {
    let mut ppu = Ppu::new();
    ppu.write_register(0x2115, 0x80); // increment after the high byte
    ppu.write_register(0x2116, 0x34);
    ppu.write_register(0x2117, 0x12); // VMADD = $1234
    ppu.write_register(0x2118, 0xCD);
    ppu.write_register(0x2119, 0xAB);
    assert_eq!(ppu.read_vram_word(0x1234), 0xABCD);
    assert_eq!(ppu.vmadd, 0x1235);
}

#[test]
fn cgram_write_pairs_and_read() {
    let mut ppu = Ppu::new();
    ppu.write_register(0x2121, 3); // CGADD = 3
    ppu.write_register(0x2122, 0x1F);
    ppu.write_register(0x2122, 0x7C);
    assert_eq!(ppu.cgram[6], 0x1F);
    assert_eq!(ppu.cgram[7], 0x7C);
    ppu.write_register(0x2121, 3);
    assert_eq!(ppu.read_register(0x213B), 0x1F);
    assert_eq!(ppu.read_register(0x213B), 0x7C);
}

#[test]
fn debug_render_layer_draws_palette_colours() {
    let mut ppu = Ppu::new();
    ppu.bg_sc[0] = 0x04; // BG1 tilemap at word 0x0400 (byte 0x0800)
    ppu.bg_nba12 = 0x01; // BG1 characters at word 0x1000 (byte 0x2000)
    // Every map entry: tile 0, palette 0 (the map is already zero).
    // 2bpp tile 0: left half pixel 3, right half pixel 0.
    for row in 0..8usize {
        ppu.vram[0x2000 + row * 2] = 0xF0;
        ppu.vram[0x2000 + row * 2 + 1] = 0xF0;
    }
    // Colour 3 = pure red (0x001F), colour 0 = pure blue (0x7C00).
    ppu.cgram[6] = 0x1F;
    ppu.cgram[7] = 0x00;
    ppu.cgram[0] = 0x00;
    ppu.cgram[1] = 0x7C;
    ppu.bgmode = 0x01;
    ppu.bg_vofs[0] = 0x3FF; // cancels the +1 line offset
    let mut out = [0u32; 256 * 240];
    ppu.debug_render_layer(0, 2, &mut out);
    assert_eq!(out[0], 0x00F8_0000);
    assert_eq!(out[3], 0x00F8_0000);
    assert_eq!(out[4], 0x0000_00F8);
    assert_eq!(out[8], 0x00F8_0000);
    assert_eq!(out[239 * 256 + 255], 0x0000_00F8);
}

#[test]
fn scroll_registers_use_the_write_twice_latch() {
    let mut ppu = Ppu::new();
    ppu.write_register(0x210D, 0x34); // BG1HOFS low
    ppu.write_register(0x210D, 0x02); // BG1HOFS high -> 0x234
    assert_eq!(ppu.bg_hofs[0], 0x234);
    ppu.write_register(0x2110, 0xFF); // BG2VOFS low
    ppu.write_register(0x2110, 0x07); // high -> 0x7FF & 0x3FF
    assert_eq!(ppu.bg_vofs[1], 0x3FF);
    assert_eq!(ppu.bg_hofs[1], 0);
    // Fixed colour: only the channels whose bits are set change.
    ppu.write_register(0x2132, 0x20 | 0x1F);
    assert_eq!(ppu.fixed_rgb, [0xF8, 0, 0]);
}

#[test]
fn mode7_multiplier_product_reads() {
    let mut ppu = Ppu::new();
    ppu.write_register(0x211B, 0x34);
    ppu.write_register(0x211B, 0x12); // M7A = 0x1234
    ppu.write_register(0x211C, 0x10); // M7B high byte = 16
    assert_eq!(ppu.read_register(0x2134), 0x40);
    assert_eq!(ppu.read_register(0x2135), 0x23);
    assert_eq!(ppu.read_register(0x2136), 0x01);
    // -2 * 0x1234 = 0xFFDB98
    ppu.write_register(0x211C, 0xFE);
    assert_eq!(ppu.read_register(0x2134), 0x98);
    assert_eq!(ppu.read_register(0x2135), 0xDB);
    assert_eq!(ppu.read_register(0x2136), 0xFF);
}
