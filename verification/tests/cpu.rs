use snes_core::bus::Bus;
use snes_core::cartridge::Cartridge;
use snes_core::cpu::{step, Cpu, FLAG_C, FLAG_I, FLAG_M, FLAG_X};

/// Build a LoROM image with `code` placed at $00:8000 and reset vector pointing there.
fn make_bus(code: &[u8]) -> Bus {
    let mut rom = vec![0u8; 0x8000];
    rom[..code.len()].copy_from_slice(code);
    rom[0x7FFC] = 0x00;
    rom[0x7FFD] = 0x80;
    Bus::new(Cartridge::load(&rom).unwrap())
}

fn run(bus: &mut Bus, cpu: &mut Cpu, steps: usize) {
    cpu.reset(bus);
    for _ in 0..steps {
        step(cpu, bus);
    }
}

#[test]
fn basic_program_and_subroutine() {
    let code = [
        0xFB, // XCE (native; swaps C<->E so C is now set)
        0x18, // CLC
        0xC2, 0x30, // REP #$30 (16-bit A, X/Y)
        0xA9, 0x34, 0x12, // LDA #$1234
        0x8D, 0x00, 0x10, // STA $1000
        0xA2, 0x03, 0x00, // LDX #$0003
        0xCA, // DEX
        0xD0, 0xFD, // BNE -3
        0x69, 0x01, 0x00, // ADC #$0001 -> A = $1235
        0x20, 0x18, 0x80, // JSR $8018
        0x80, 0xFE, // BRA -2 (halt)
        // $8015:
        0x8D, 0x02, 0x10, // STA $1002
        0x60, // RTS
    ];
    let mut bus = make_bus(&code);
    let mut cpu = Cpu::new();
    run(&mut bus, &mut cpu, 30);
    assert_eq!(bus.wram[0x1000], 0x34);
    assert_eq!(bus.wram[0x1001], 0x12);
    assert_eq!(cpu.x, 0);
    assert_eq!(cpu.a, 0x1235);
    assert_eq!(bus.wram[0x1002], 0x35);
    assert_eq!(bus.wram[0x1003], 0x12);
    assert!(!cpu.e);
}

#[test]
fn decimal_adc() {
    let code = [
        0x18, // CLC
        0xF8, // SED
        0xA9, 0x09, // LDA #$09 (8-bit, emulation mode)
        0x69, 0x01, // ADC #$01 -> $10 BCD
        0x80, 0xFE,
    ];
    let mut bus = make_bus(&code);
    let mut cpu = Cpu::new();
    run(&mut bus, &mut cpu, 5);
    assert_eq!(cpu.a & 0xFF, 0x10);
    assert!(!cpu.flag(FLAG_C));
}

#[test]
fn mvn_block_move() {
    let code = [
        0x18, 0xFB, // CLC, XCE
        0xC2, 0x30, // REP #$30
        0xA2, 0x00, 0x20, // LDX #$2000
        0xA0, 0x00, 0x30, // LDY #$3000
        0xA9, 0x02, 0x00, // LDA #$0002 (move 3 bytes)
        0x54, 0x7E, 0x7E, // MVN $7E,$7E
        0x80, 0xFE,
    ];
    let mut bus = make_bus(&code);
    bus.wram[0x2000] = 0xAA;
    bus.wram[0x2001] = 0xBB;
    bus.wram[0x2002] = 0xCC;
    let mut cpu = Cpu::new();
    run(&mut bus, &mut cpu, 12);
    assert_eq!(&bus.wram[0x3000..0x3003], &[0xAA, 0xBB, 0xCC]);
}

#[test]
fn brk_vectors_to_bank0() {
    let mut rom = vec![0u8; 0x8000];
    rom[0] = 0x00; // BRK
    rom[1] = 0x99; // signature
    rom[0x7FFC] = 0x00;
    rom[0x7FFD] = 0x80; // reset -> $8000
    rom[0x7FFE] = 0x34; // IRQ/BRK vector -> $1234
    rom[0x7FFF] = 0x12;
    let mut bus = Bus::new(Cartridge::load(&rom).unwrap());
    let mut cpu = Cpu::new();
    run(&mut bus, &mut cpu, 2);
    assert_eq!(cpu.pc, 0x1234);
    assert!(cpu.flag(FLAG_I));
}

#[test]
fn native_mode_nmi_pushes_p_unchanged() {
    // In native mode bit 4 of P is the real X flag and must be pushed
    // as-is; only emulation mode pushes the B flag there.
    let code = [
        0x18, 0xFB, // CLC, XCE (enter native mode)
        0xE2, 0x30, // SEP #$30 (8-bit A and X/Y)
        0x80, 0xFE, // BRA -2 (spin)
    ];
    let mut bus = make_bus(&code);
    let mut cpu = Cpu::new();
    run(&mut bus, &mut cpu, 3);
    assert!(!cpu.e);
    assert!(cpu.flag(FLAG_M));
    assert!(cpu.flag(FLAG_X));
    cpu.nmi(&mut bus);
    // Stack after PB/PCH/PCL/P pushes: P is at sp+1.
    let pushed_p = bus.wram[cpu.sp as usize + 1];
    assert_eq!(pushed_p & (FLAG_M | FLAG_X), FLAG_M | FLAG_X);
}

#[test]
fn step_reports_instruction_cycles() {
    // NOP is 2 cycles; LDA #imm in emulation mode is 2; STA abs 4.
    let code = [0xEA, 0xA9, 0x42, 0x8D, 0x00, 0x10, 0x80, 0xFE];
    let mut bus = make_bus(&code);
    let mut cpu = Cpu::new();
    cpu.reset(&mut bus);
    assert_eq!(step(&mut cpu, &mut bus), 2);
    assert_eq!(step(&mut cpu, &mut bus), 2);
    assert_eq!(step(&mut cpu, &mut bus), 4);
    assert_eq!(bus.wram[0x1000], 0x42);
    assert_eq!(cpu.cycles, 8);
}

#[test]
fn stopped_cpu_takes_one_cycle_and_does_nothing() {
    let code = [0xDB, 0xEA]; // STP
    let mut bus = make_bus(&code);
    let mut cpu = Cpu::new();
    cpu.reset(&mut bus);
    step(&mut cpu, &mut bus);
    assert!(cpu.stopped);
    let pc = cpu.pc;
    assert_eq!(step(&mut cpu, &mut bus), 1);
    assert_eq!(cpu.pc, pc);
}

#[test]
fn push_then_pull_restores_value_and_stack() {
    // LDA #$5A; PHA; LDA #$00; PLA -> A = $5A, S back to $01FF
    let code = [0xA9, 0x5A, 0x48, 0xA9, 0x00, 0x68, 0x80, 0xFE];
    let mut bus = make_bus(&code);
    let mut cpu = Cpu::new();
    run(&mut bus, &mut cpu, 4);
    assert_eq!(cpu.a & 0xFF, 0x5A);
    assert_eq!(cpu.sp, 0x01FF);
    assert_eq!(bus.wram[0x01FF], 0x5A);
}

#[test]
fn binary_sbc_and_flags() {
    // SEC; LDA #$10; SBC #$20 -> $F0, borrow (C clear), N set
    let code = [0x38, 0xA9, 0x10, 0xE9, 0x20, 0x80, 0xFE];
    let mut bus = make_bus(&code);
    let mut cpu = Cpu::new();
    run(&mut bus, &mut cpu, 3);
    assert_eq!(cpu.a & 0xFF, 0xF0);
    assert!(!cpu.flag(FLAG_C));
    assert!(cpu.flag(0x80));
}

#[test]
fn emulation_nmi_pushes_b_clear() {
    let code = [0x80, 0xFE];
    let mut bus = make_bus(&code);
    let mut cpu = Cpu::new();
    cpu.reset(&mut bus);
    cpu.nmi(&mut bus);
    // Emulation mode: PCH, PCL, P pushed; P has M set and bit 4 (B) clear.
    let pushed_p = bus.wram[cpu.sp as usize + 1];
    assert_eq!(pushed_p & FLAG_M, FLAG_M);
    assert_eq!(pushed_p & FLAG_X, 0);
    assert_eq!(cpu.sp, 0x01FC);
}
