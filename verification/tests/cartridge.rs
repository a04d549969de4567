use snes_core::cartridge::{Cartridge, MapMode};

fn make_lorom_rom() -> Vec<u8> {
    let mut rom = vec![0u8; 0x8000];
    let h = 0x7FC0;
    rom[h..h + 21].copy_from_slice(b"TEST ROM             ");
    rom[h + 0x15] = 0x20; // LoROM
    rom[h + 0x1C] = 0x34;
    rom[h + 0x1D] = 0x12;
    rom[h + 0x1E] = 0xCB;
    rom[h + 0x1F] = 0xED; // complement pairs
    rom
}

#[test]
fn parses_lorom_header() {
    let cart = Cartridge::load(&make_lorom_rom()).unwrap();
    assert_eq!(cart.map_mode(), MapMode::LoRom);
    assert_eq!(cart.title(), "TEST ROM");
}

#[test]
fn lorom_address_mapping() {
    let mut rom = make_lorom_rom();
    rom.resize(0x20000, 0);
    rom[0x8000] = 0xAB; // bank 1, addr 0x8000
    let cart = Cartridge::load(&rom).unwrap();
    assert_eq!(cart.read(0x01, 0x8000), 0xAB);
    assert_eq!(cart.read(0x81, 0x8000), 0xAB); // mirror
}

#[test]
fn strips_copier_header() {
    let mut data = vec![0u8; 512];
    data.extend_from_slice(&make_lorom_rom());
    let cart = Cartridge::load(&data).unwrap();
    assert_eq!(cart.rom_len(), 0x8000);
}

#[test]
fn rejects_image_below_one_bank() {
    let err = Cartridge::load(&vec![0u8; 0x7FFF]).err().unwrap();
    assert_eq!(err, "ROM too small");
    // A copier header does not count towards the size.
    let err = Cartridge::load(&vec![0u8; 512]).err().unwrap();
    assert_eq!(err, "ROM too small");
}

#[test]
fn detects_hirom_header() {
    let mut rom = vec![0u8; 0x10000];
    let h = 0xFFC0;
    rom[h..h + 21].copy_from_slice(b"HIROM GAME           ");
    rom[h + 0x15] = 0x21; // HiROM
    rom[h + 0x16] = 0x02; // ROM+RAM+battery
    rom[h + 0x18] = 0x03; // 8 KiB SRAM
    rom[h + 0x1C] = 0x00;
    rom[h + 0x1D] = 0xFF;
    rom[h + 0x1E] = 0xFF;
    rom[h + 0x1F] = 0x00;
    rom[0x1234] = 0x5A;
    let cart = Cartridge::load(&rom).unwrap();
    assert_eq!(cart.map_mode(), MapMode::HiRom);
    assert_eq!(cart.title(), "HIROM GAME");
    assert_eq!(cart.cart_type(), 0x02);
    assert_eq!(cart.sram_size(), 8192);
    // $C0:1234 and its mirror $00:9234 (upper half of bank 0 only above $8000)
    assert_eq!(cart.read(0xC0, 0x1234), 0x5A);
    assert_eq!(cart.read(0x00, 0x1234), 0);
}

#[test]
fn lorom_high_banks_and_unmapped_low_half() {
    let mut rom = make_lorom_rom();
    rom.resize(0x40000, 0);
    rom[0x18000 + 0x10] = 0x77; // bank $03 $8010
    rom[0x20000 + 0x0102] = 0x66; // bank $42 full mapping: offset (0x42-0x40)*0x10000 + 0x0102
    let cart = Cartridge::load(&rom).unwrap();
    assert_eq!(cart.read(0x03, 0x8010), 0x77);
    assert_eq!(cart.read(0x83, 0x8010), 0x77);
    assert_eq!(cart.read(0x42, 0x0102), 0x66);
    // $00-$3F:$0000-$7FFF is not ROM in LoROM.
    assert_eq!(cart.read(0x03, 0x0010), 0);
}

#[test]
fn title_replaces_invalid_bytes_and_trims_padding() {
    let mut rom = make_lorom_rom();
    rom[0x7FC0..0x7FC0 + 21].copy_from_slice(b"  BAD\xFFNAME           ");
    let cart = Cartridge::load(&rom).unwrap();
    assert_eq!(cart.title(), "BAD\u{FFFD}NAME");
}
