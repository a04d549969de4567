use snes_core::cartridge::Cartridge;
use snes_core::Snes;

/// A LoROM image whose reset vector points at `BRA -2` at $00:8000.
fn idle_cart() -> Cartridge {
    let mut rom = vec![0u8; 0x8000];
    rom[0] = 0x80;
    rom[1] = 0xFE;
    rom[0x7FFC] = 0x00;
    rom[0x7FFD] = 0x80;
    Cartridge::load(&rom).unwrap()
}

#[test]
fn new_console_starts_at_frame_zero() {
    let snes = Snes::new(idle_cart());
    assert_eq!(snes.frame_count, 0);
    assert_eq!(snes.framebuffer().len(), 256 * 240);
}

#[test]
fn reset_enters_emulation_mode_at_vector() {
    let mut snes = Snes::new(idle_cart());
    snes.reset();
    assert!(snes.cpu.e);
    assert_eq!(snes.cpu.sp, 0x01FF);
    assert_eq!(snes.cpu.pc, 0x8000);
    assert_eq!(snes.cpu.pb, 0);
}

#[test]
fn run_frame_counts_frames_and_clears_ready() {
    let mut snes = Snes::new(idle_cart());
    snes.reset();
    snes.run_frame();
    assert_eq!(snes.frame_count, 1);
    assert!(!snes.bus.frame_ready);
    snes.run_frame();
    assert_eq!(snes.frame_count, 2);
    assert!(!snes.bus.frame_ready);
    // The idle loop never leaves its branch.
    assert_eq!(snes.cpu.pc, 0x8000);
}

#[test]
fn step_records_program_counter_for_debugging() {
    let mut snes = Snes::new(idle_cart());
    snes.reset();
    snes.step();
    assert_eq!(snes.bus.dbg_pc, 0x0000_8000);
    assert_eq!(snes.frame_count, 0);
}

/// A LoROM image with 2 KiB of battery-backed SRAM.
fn sram_cart() -> Cartridge {
    let mut rom = vec![0u8; 0x8000];
    rom[0] = 0x80;
    rom[1] = 0xFE;
    rom[0x7FC0 + 0x16] = 0x02; // ROM + RAM + battery
    rom[0x7FC0 + 0x18] = 0x01; // 1 KiB << 1
    rom[0x7FFC] = 0x00;
    rom[0x7FFD] = 0x80;
    Cartridge::load(&rom).unwrap()
}

#[test]
fn restore_sram_uses_only_a_matching_save() {
    let mut snes = Snes::new(sram_cart());
    assert_eq!(snes.bus.sram.len(), 0x800);
    snes.restore_sram(Some(vec![7u8; 0x400]));
    assert!(snes.bus.sram.iter().all(|&b| b == 0));
    snes.restore_sram(None);
    assert!(snes.bus.sram.iter().all(|&b| b == 0));
    snes.bus.sram_dirty = true;
    snes.restore_sram(Some(vec![7u8; 0x800]));
    assert!(snes.bus.sram.iter().all(|&b| b == 7));
    assert!(!snes.bus.sram_dirty);
}

#[test]
fn sram_is_flushed_only_when_dirty() {
    let mut snes = Snes::new(sram_cart());
    assert!(snes.sram_to_flush().is_none());
    snes.bus.write(0x70, 0x0000, 0x42); // LoROM SRAM bank
    assert!(snes.bus.sram_dirty);
    let data = snes.sram_to_flush().unwrap().to_vec();
    assert_eq!(data[0], 0x42);
    snes.note_flushed(false);
    assert!(snes.bus.sram_dirty);
    snes.note_flushed(true);
    assert!(snes.sram_to_flush().is_none());
}

#[test]
fn cartridge_without_sram_never_flushes() {
    let mut snes = Snes::new(idle_cart());
    snes.bus.sram_dirty = true;
    assert!(snes.sram_to_flush().is_none());
    snes.restore_sram(Some(vec![]));
    assert!(snes.bus.sram.is_empty());
}
