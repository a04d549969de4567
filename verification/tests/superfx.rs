use snes_core::superfx::SuperFx;

#[test]
fn new_gsu_has_clear_ram_and_nop_pipe() {
    let fx = SuperFx::new(0x8000);
    assert_eq!(fx.ram.len(), 0x20000);
    assert!(fx.ram.iter().all(|&b| b == 0));
    assert_eq!(fx.pipe, 0x01);
    assert!(!fx.irq_line);
    assert_eq!(fx.instruction_count, 0);
}

#[test]
fn register_write_then_read() {
    let rom = vec![0u8; 0x8000];
    let mut fx = SuperFx::new(0x8000);
    fx.write_register(0x3000, 0x34, &rom); // R0 low
    fx.write_register(0x3001, 0x12, &rom); // R0 high
    assert_eq!(fx.read_register(0x3000), 0x34);
    assert_eq!(fx.read_register(0x3001), 0x12);
    // Cache RAM window
    fx.write_register(0x3100, 0xAB, &rom);
    assert_eq!(fx.read_register(0x3100), 0xAB);
}

#[test]
fn reading_sfr_high_clears_irq() {
    let mut fx = SuperFx::new(0x8000);
    fx.irq_line = true;
    fx.read_register(0x3031);
    assert!(!fx.irq_line);
}

#[test]
fn ram_bank_register_masks_to_two_bits() {
    let rom = vec![0u8; 0x8000];
    let mut fx = SuperFx::new(0x8000);
    fx.write_register(0x303C, 0xFF, &rom);
    assert_eq!(fx.ram_bank_reg, 3);
}

#[test]
fn gsu_program_runs_to_stop() {
    // IBT R1,#$05; IBT R2,#$07; FROM R1; ADD R2 (R0 = 12); STOP; NOP
    let mut rom = vec![0u8; 0x8000];
    rom[0..8].copy_from_slice(&[0xA1, 0x05, 0xA2, 0x07, 0xB1, 0x52, 0x00, 0x01]);
    let mut fx = SuperFx::new(0x8000);
    fx.write_register(0x303A, 0x18, &rom); // SCMR: GSU owns ROM and RAM
    fx.write_register(0x3034, 0x00, &rom); // PBR
    fx.write_register(0x301E, 0x00, &rom); // R15 low
    fx.write_register(0x301F, 0x00, &rom); // R15 high: starts the GSU
    assert!(fx.instruction_count > 0);
    assert_eq!(fx.read_register(0x3000), 12);
}
