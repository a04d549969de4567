use snes_core::bus::Bus;
use snes_core::cartridge::Cartridge;

fn lorom_bus() -> Bus {
    let mut rom = vec![0u8; 0x8000];
    rom[0] = 0xEA;
    rom[0x7FFC] = 0x00;
    rom[0x7FFD] = 0x80;
    Bus::new(Cartridge::load(&rom).unwrap())
}

#[test]
fn wram_write_then_read_and_low_mirror() {
    let mut bus = lorom_bus();
    bus.write(0x7E, 0x0123, 0x99);
    assert_eq!(bus.read(0x7E, 0x0123), 0x99);
    // Low 8 KiB mirror in system banks
    assert_eq!(bus.read(0x00, 0x0123), 0x99);
    assert_eq!(bus.read(0x80, 0x0123), 0x99);
    bus.write(0x3F, 0x1FFF, 0x42);
    assert_eq!(bus.read(0x7E, 0x1FFF), 0x42);
    // Bank $7F is the upper 64 KiB.
    bus.write(0x7F, 0x0000, 0x11);
    assert_eq!(bus.wram[0x10000], 0x11);
}

#[test]
fn hardware_multiplier() {
    let mut bus = lorom_bus();
    bus.write(0x00, 0x4202, 200);
    bus.write(0x00, 0x4203, 150);
    let lo = bus.read(0x00, 0x4216) as u16;
    let hi = bus.read(0x00, 0x4217) as u16;
    assert_eq!(lo | hi << 8, 30000);
}

#[test]
fn hardware_divider() {
    let mut bus = lorom_bus();
    bus.write(0x00, 0x4204, 0x39); // dividend $3039 = 12345
    bus.write(0x00, 0x4205, 0x30);
    bus.write(0x00, 0x4206, 100);
    let q = bus.read(0x00, 0x4214) as u16 | (bus.read(0x00, 0x4215) as u16) << 8;
    let r = bus.read(0x00, 0x4216) as u16 | (bus.read(0x00, 0x4217) as u16) << 8;
    assert_eq!(q, 123);
    assert_eq!(r, 45);
    // Division by zero: quotient $FFFF, remainder = dividend.
    bus.write(0x00, 0x4206, 0);
    let q = bus.read(0x00, 0x4214) as u16 | (bus.read(0x00, 0x4215) as u16) << 8;
    let r = bus.read(0x00, 0x4216) as u16 | (bus.read(0x00, 0x4217) as u16) << 8;
    assert_eq!(q, 0xFFFF);
    assert_eq!(r, 12345);
}

#[test]
fn dma_registers_read_back() {
    let mut bus = lorom_bus();
    for reg in [0x0u16, 0x1, 0x2, 0x3, 0x4, 0x5, 0x6, 0x7, 0x8, 0x9, 0xB, 0xF] {
        let addr = 0x4350 | reg;
        bus.write(0x00, addr, 0xA0 | reg as u8);
        assert_eq!(bus.read(0x00, addr), 0xA0 | reg as u8, "register $435{:X}", reg);
    }
    // A zero line count reads back as 128 lines held as $FF / $7F.
    bus.write(0x00, 0x435A, 0x00);
    assert_eq!(bus.read(0x00, 0x435A), 0xFF);
    bus.write(0x00, 0x435A, 0x80);
    assert_eq!(bus.read(0x00, 0x435A), 0x7F);
}

#[test]
fn general_dma_copies_rom_to_wram_port() {
    let mut rom = vec![0u8; 0x8000];
    rom[0x100..0x104].copy_from_slice(&[1, 2, 3, 4]);
    let mut bus = Bus::new(Cartridge::load(&rom).unwrap());
    // WRAM port address $7E:2000
    bus.write(0x00, 0x2181, 0x00);
    bus.write(0x00, 0x2182, 0x20);
    bus.write(0x00, 0x2183, 0x00);
    // Channel 0: A->B, mode 0, B = $2180, A = $00:8100, 4 bytes
    bus.write(0x00, 0x4300, 0x00);
    bus.write(0x00, 0x4301, 0x80);
    bus.write(0x00, 0x4302, 0x00);
    bus.write(0x00, 0x4303, 0x81);
    bus.write(0x00, 0x4304, 0x00);
    bus.write(0x00, 0x4305, 0x04);
    bus.write(0x00, 0x4306, 0x00);
    bus.write(0x00, 0x420B, 0x01);
    assert_eq!(&bus.wram[0x2000..0x2004], &[1, 2, 3, 4]);
    // The A address advanced past the block.
    assert_eq!(bus.read(0x00, 0x4302), 0x04);
    assert_eq!(bus.read(0x00, 0x4303), 0x81);
}

#[test]
fn memory_speed_by_region() {
    let mut bus = lorom_bus();
    assert_eq!(bus.memory_speed(0x00, 0x8000), 8); // LoROM ROM
    assert_eq!(bus.memory_speed(0x00, 0x0000), 8); // low WRAM
    assert_eq!(bus.memory_speed(0x00, 0x4200), 6); // fast MMIO
    assert_eq!(bus.memory_speed(0x00, 0x4016), 12); // joypad port
    assert_eq!(bus.memory_speed(0x80, 0x8000), 8);
    bus.write(0x00, 0x420D, 0x01); // FastROM
    assert_eq!(bus.memory_speed(0x80, 0x8000), 6);
}

#[test]
fn rom_reads_and_open_bus() {
    let mut rom = vec![0u8; 0x8000];
    rom[0x10] = 0x5C;
    let mut bus = Bus::new(Cartridge::load(&rom).unwrap());
    assert_eq!(bus.read(0x00, 0x8010), 0x5C);
    // Unmapped system area returns the last value on the data bus.
    assert_eq!(bus.read(0x00, 0x5000), 0x5C);
}

#[test]
fn joypad_auto_read_at_vblank() {
    let mut bus = lorom_bus();
    bus.set_pad1(0x8040);
    assert_eq!(bus.debug_pad1(), 0);
    bus.ppu.nmi_flag = true;
    bus.poll_interrupts();
    assert_eq!(bus.debug_pad1(), 0x8040);
    assert_eq!(bus.read(0x00, 0x4218), 0x40);
    assert_eq!(bus.read(0x00, 0x4219), 0x80);
}

#[test]
fn lorom_sram_and_dirty_flag() {
    let mut rom = vec![0u8; 0x8000];
    rom[0x7FC0 + 0x16] = 0x02; // ROM+RAM+battery
    rom[0x7FC0 + 0x18] = 0x01; // 2 KiB
    let mut bus = Bus::new(Cartridge::load(&rom).unwrap());
    assert_eq!(bus.sram.len(), 2048);
    bus.write(0x70, 0x0005, 0xEE);
    assert!(bus.sram_dirty);
    assert_eq!(bus.sram[5], 0xEE);
    assert_eq!(bus.read(0x70, 0x0805), 0xEE); // mirrors every 2 KiB
}

#[test]
fn tick_charges_wait_states() {
    let mut bus = lorom_bus();
    bus.code_speed = 8;
    bus.read(0x00, 0x8000);
    bus.read(0x00, 0x8001);
    assert_eq!(bus.take_access_extra(), 4);
    assert_eq!(bus.take_access_extra(), 0);
}

#[test]
fn hdma_summary_lists_every_channel() {
    let mut bus = lorom_bus();
    bus.write(0x00, 0x4320, 0x02); // ch2 control
    bus.write(0x00, 0x4321, 0x0D); // ch2 B-bus register BG1HOFS
    bus.write(0x00, 0x4322, 0x34);
    bus.write(0x00, 0x4323, 0x12);
    bus.write(0x00, 0x4324, 0x7E);
    let text = bus.debug_hdma();
    assert!(text.starts_with("hdma_active=00 ch0[ctrl=00 breg=00 a=00:0000 size=0000 ibank=00 lc=00 ha=0000 dt=false]"));
    assert!(text.contains(" ch2[ctrl=02 breg=0D a=7E:1234 size=0000 ibank=00 lc=00 ha=0000 dt=false]"));
    assert!(text.ends_with(" ch7[ctrl=00 breg=00 a=00:0000 size=0000 ibank=00 lc=00 ha=0000 dt=false]"));
    assert_eq!(text.matches(" ch").count(), 8);
}

#[test]
fn hdma_table_dump_reads_the_table_without_charging_the_cpu() {
    let mut bus = lorom_bus();
    for i in 0..24u16 {
        bus.write(0x7E, 0x1000 + i, i as u8 + 1);
    }
    bus.write(0x00, 0x4331, 0x0E); // ch3 -> BG1VOFS
    bus.write(0x00, 0x4332, 0x00);
    bus.write(0x00, 0x4333, 0x10);
    bus.write(0x00, 0x4334, 0x7E);
    let before = bus.access_extra;
    let text = bus.debug_hdma_table(0x0E);
    assert_eq!(
        text,
        "ch3 a=7E:1000 table: 01 02 03 04 05 06 07 08 09 0A 0B 0C 0D 0E 0F 10 11 12 13 14 15 16 17 18"
    );
    assert_eq!(bus.access_extra, before);
    assert_eq!(bus.debug_hdma_table(0x22), "no channel");
}

#[test]
fn apu_port_write_reaches_the_spc700() {
    let mut bus = lorom_bus();
    bus.write(0x00, 0x2141, 0x5A);
    assert_eq!(bus.spc.read(0xF5), 0x5A);
    // $2140-$217F mirror the four ports.
    bus.write(0x80, 0x2176, 0xC3);
    assert_eq!(bus.spc.read(0xF6), 0xC3);
}

#[test]
fn vram_ports_write_at_the_word_address() {
    let mut bus = lorom_bus();
    bus.write(0x00, 0x2115, 0x80); // increment after the high byte
    bus.write(0x00, 0x2116, 0x00);
    bus.write(0x00, 0x2117, 0x10); // word address 0x1000
    bus.write(0x00, 0x2118, 0xCD);
    bus.write(0x00, 0x2119, 0xAB);
    assert_eq!(bus.ppu.read_vram_word(0x1000), 0xABCD);
    assert_eq!(bus.ppu.vmadd, 0x1001);
}
