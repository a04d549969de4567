//! System bus: memory map, MMIO dispatch, DMA/HDMA, timing.
//!
//! Timing model: the CPU reports cycles per instruction; the bus converts
//! them to master clocks and ticks the PPU, the APU and the Super FX.

use vstd::prelude::*;
use crate::bits::{
    lemma_and_le_u8, lemma_and_le_u16, lemma_and_le_u32, lemma_and_le_usize, lemma_bank_addr_u32,
    lemma_word_byte_roundtrip,
};
use crate::cartridge::{Cartridge, MapMode, cart_read_spec};
use crate::dsp1::Dsp1;
use crate::ppu::{Ppu, vmadd_after, vram_byte_index};
use crate::spc700::{Spc700, spc_plain_read};
use crate::superfx::SuperFx;

verus! {

/// Master clocks per CPU cycle at fast (3.58 MHz) speed; slower accesses
/// add their wait states through `charge_access`.
pub const MASTER_PER_CPU_CYCLE: u64 = 6;

/// Master clocks per scanline; paces the Super FX per-scanline budget.
pub const MASTER_PER_SCANLINE: u64 = 1364;

/// One DMA/HDMA channel's registers ($43x0-$43xF) and HDMA run state.
#[derive(Clone, Copy)]
pub struct DmaChannel {
    /// $43x0: direction, HDMA addressing, transfer mode.
    pub control: u8,
    /// $43x1: B-bus register ($21xx).
    pub b_reg: u8,
    /// $43x2/3: A-bus address.
    pub a_addr: u16,
    /// $43x4: A-bus bank.
    pub a_bank: u8,
    /// $43x5/6: DMA byte count / HDMA indirect address.
    pub size: u16,
    /// $43x7: HDMA indirect bank.
    pub hdma_bank: u8,
    /// $43xA: HDMA line counter.
    pub line_count: u8,
    /// $43xB/$43xF: the unused read/write byte.
    pub unused: u8,
    /// Current HDMA table address ($43x8/9).
    pub hdma_a: u16,
    /// HDMA transfers on the current line.
    pub hdma_do_transfer: bool,
}

impl DmaChannel {
    /// A channel with every register cleared.
    pub fn cleared() -> (d: Self)
        ensures
            d == (DmaChannel {
                control: 0,
                b_reg: 0,
                a_addr: 0,
                a_bank: 0,
                size: 0,
                hdma_bank: 0,
                line_count: 0,
                unused: 0,
                hdma_a: 0,
                hdma_do_transfer: false,
            }),
    {
        DmaChannel {
            control: 0,
            b_reg: 0,
            a_addr: 0,
            a_bank: 0,
            size: 0,
            hdma_bank: 0,
            line_count: 0,
            unused: 0,
            hdma_a: 0,
            hdma_do_transfer: false,
        }
    }
}

pub struct Bus {
    pub rom: Cartridge,
    /// 128 KiB work RAM ($7E:0000-$7F:FFFF).
    pub wram: Vec<u8>,
    /// Battery-backed SRAM (sized from the header).
    pub sram: Vec<u8>,
    /// Set when SRAM is written; the frontend flushes saves on it.
    pub sram_dirty: bool,
    pub ppu: Ppu,
    pub spc: Spc700,
    /// DSP-1 math coprocessor (cart types $03-$05), HiROM register window.
    pub dsp1: Option<Dsp1>,
    /// Super FX (GSU) coprocessor (cart types $13-$15/$1A).
    pub superfx: Option<SuperFx>,
    /// Master clocks towards the next Super FX scanline slice.
    pub sfx_line_accum: u64,
    /// Wait states charged by CPU bus accesses since the last `tick`:
    /// each access costs `code_speed - MASTER_PER_CPU_CYCLE` extra clocks.
    pub access_extra: u64,
    /// Master clocks per bus access for the current instruction, set from
    /// the bank its opcode is fetched from.
    pub code_speed: u64,
    /// MEMSEL ($420D) bit 0: FastROM for banks $80-$FF.
    pub fastrom: bool,
    /// HiROM carts with on-cart RAM map SRAM at banks $20-$3F/$A0-$BF, $6000-$7FFF.
    pub hirom_sram: bool,
    /// WRAM port address ($2181-$2183).
    pub wram_addr: u32,
    /// $4200.
    pub nmitimen: u8,
    /// $4207/8.
    pub htime: u16,
    /// $4209/A.
    pub vtime: u16,
    /// $4202.
    pub mult_a: u8,
    /// $4204/5.
    pub dividend: u16,
    /// $4214/5: quotient.
    pub mult_result: u16,
    /// $4216/7: product or remainder.
    pub div_result: u16,
    /// $4211 bit 7.
    pub irq_pending_flag: bool,
    /// $4210 bit 7.
    pub rdnmi_flag: bool,
    /// Auto-read joypad 1 ($4218/9).
    pub pad1: u16,
    pub pad_latch: u8,
    pub pad1_bits: u16,
    pub pad1_shift: u16,
    /// Set by bus devices; consumed by the CPU driver.
    pub nmi_line: bool,
    pub irq_line: bool,
    pub frame_ready: bool,
    /// Last value driven on the data bus (unmapped reads return it).
    pub open_bus: u8,
    /// CPU address of the instruction being executed.
    pub dbg_pc: u32,
    pub dma_channels: [DmaChannel; 8],
    /// $420C.
    pub hdma_active: u8,
    pub mdma_pending: bool,
}

/// Banks that see the system area (WRAM mirror and MMIO) at $0000-$5FFF.
pub open spec fn is_mmio_bank(bank: int) -> bool {
    bank < 0x40 || (0x80 <= bank && bank < 0xC0)
}

fn mmio_bank(bank: usize) -> (r: bool)
    ensures
        r == is_mmio_bank(bank as int),
{
    bank < 0x40 || (bank >= 0x80 && bank < 0xC0)
}

/// What a CPU address selects, in the order the bus decodes it.
pub enum BusTarget {
    LowWram,
    Wram,
    PpuReg,
    ApuPort,
    WramData,
    WramAddr,
    Joy1,
    Joy2,
    SystemReg,
    DmaReg,
    Dsp1Port,
    HiromSram,
    FxReg,
    FxRamWindow,
    FxRam,
    LoromSram,
    OpenBus,
    Rom,
}

/// Offset in WRAM of a WRAM address (low mirror or banks $7E/$7F).
pub open spec fn wram_index(bank: u8, addr: u16) -> int {
    if 0x7E <= bank <= 0x7F {
        (bank - 0x7E) * 0x10000 + addr
    } else {
        addr as int
    }
}

/// Offset in SRAM of a HiROM SRAM address.
pub open spec fn hirom_sram_index(bank: u8, addr: u16, len: nat) -> int {
    (((bank & 0x0F) as int) * 0x2000 + (addr & 0x1FFF)) % (len as int)
}

/// Offset in SRAM of a LoROM SRAM address.
pub open spec fn lorom_sram_index(bank: u8, addr: u16, len: nat) -> int {
    (((bank & 0x0F) as int) * 0x8000 + (addr & 0x7FFF)) % (len as int)
}

/// Offset in GSU RAM of a full-bank GSU RAM address ($70/$71/$F0/$F1).
pub open spec fn fx_ram_index(bank: u8, addr: u16) -> int {
    ((bank & 1) as int) * 0x10000 + addr
}

/// Master clocks per access at `bank:addr`: 8 for slow regions (LoROM ROM,
/// WRAM, most MMIO), 6 for fast ones ($4200-$5FFF, low WRAM on fast
/// banks, FastROM banks when MEMSEL is set), 12 for $4000-$41FF.
pub open spec fn spec_memory_speed(fastrom: bool, bank: u8, addr: u16) -> u64 {
    let a: u32 = ((bank as u32) << 16u32) | (addr as u32);
    if a & 0x408000 != 0 {
        if a & 0x800000 != 0 {
            if fastrom {
                6
            } else {
                8
            }
        } else {
            8
        }
    } else if ((a + 0x6000) as u32) & 0x4000 != 0 {
        8
    } else if vstd::wrapping::u32_specs::wrapping_sub(a as u32, 0x4000) & 0x7E00 != 0 {
        6
    } else {
        12
    }
}

/// B-bus register offset for byte `i` of a unit in DMA transfer mode `mode`.
pub open spec fn spec_dma_offset(mode: u8, i: int) -> u8 {
    let k = i % 4;
    if mode == 1 || mode == 5 {
        if k == 1 || k == 3 {
            1
        } else {
            0
        }
    } else if mode == 3 || mode == 7 {
        if k >= 2 {
            1
        } else {
            0
        }
    } else if mode == 4 {
        k as u8
    } else if mode == 6 {
        if k == 2 {
            1
        } else {
            0
        }
    } else {
        0
    }
}

fn dma_offset(mode: u8, i: usize) -> (r: u8)
    requires
        mode < 8,
    ensures
        r == spec_dma_offset(mode, i as int),
        r <= 3,
{
    let k = i % 4;
    if mode == 1 || mode == 5 {
        if k == 1 || k == 3 {
            1
        } else {
            0
        }
    } else if mode == 3 || mode == 7 {
        if k >= 2 {
            1
        } else {
            0
        }
    } else if mode == 4 {
        k as u8
    } else if mode == 6 {
        if k == 2 {
            1
        } else {
            0
        }
    } else {
        0
    }
}

/// Value of DMA register `reg` ($43xN) of channel `d`.
pub open spec fn spec_dma_reg_value(d: DmaChannel, reg: u8) -> u8 {
    if reg == 0x0 {
        d.control
    } else if reg == 0x1 {
        d.b_reg
    } else if reg == 0x2 {
        d.a_addr as u8
    } else if reg == 0x3 {
        (d.a_addr >> 8u16) as u8
    } else if reg == 0x4 {
        d.a_bank
    } else if reg == 0x5 {
        d.size as u8
    } else if reg == 0x6 {
        (d.size >> 8u16) as u8
    } else if reg == 0x7 {
        d.hdma_bank
    } else if reg == 0x8 {
        d.hdma_a as u8
    } else if reg == 0x9 {
        (d.hdma_a >> 8u16) as u8
    } else if reg == 0xA {
        d.line_count
    } else if reg == 0xB || reg == 0xF {
        d.unused
    } else {
        0
    }
}

/// The channel after `value` is written to its register `reg`.
pub open spec fn spec_dma_reg_write(d: DmaChannel, reg: u8, value: u8) -> DmaChannel {
    if reg == 0x0 {
        DmaChannel { control: value, ..d }
    } else if reg == 0x1 {
        DmaChannel { b_reg: value, ..d }
    } else if reg == 0x2 {
        DmaChannel { a_addr: (d.a_addr & 0xFF00) | value as u16, ..d }
    } else if reg == 0x3 {
        DmaChannel { a_addr: (d.a_addr & 0x00FF) | ((value as u16) << 8u16), ..d }
    } else if reg == 0x4 {
        DmaChannel { a_bank: value, ..d }
    } else if reg == 0x5 {
        DmaChannel { size: (d.size & 0xFF00) | value as u16, ..d }
    } else if reg == 0x6 {
        DmaChannel { size: (d.size & 0x00FF) | ((value as u16) << 8u16), ..d }
    } else if reg == 0x7 {
        DmaChannel { hdma_bank: value, ..d }
    } else if reg == 0x8 {
        DmaChannel { hdma_a: (d.hdma_a & 0xFF00) | value as u16, ..d }
    } else if reg == 0x9 {
        DmaChannel { hdma_a: (d.hdma_a & 0x00FF) | ((value as u16) << 8u16), ..d }
    } else if reg == 0xA {
        DmaChannel {
            line_count: if value & 0x7F != 0 {
                value
            } else if value & 0x80 != 0 {
                0x7F
            } else {
                0xFF
            },
            ..d
        }
    } else if reg == 0xB || reg == 0xF {
        DmaChannel { unused: value, ..d }
    } else {
        d
    }
}

pub open spec fn is_superfx_type(t: u8) -> bool {
    t == 0x13 || t == 0x14 || t == 0x15 || t == 0x1A
}

pub open spec fn is_dsp1_type(t: u8) -> bool {
    t == 0x03 || t == 0x04 || t == 0x05
}

/// SRAM size for a cartridge: the header's size, else 8 KiB for the
/// RAM-carrying types $01/$02/$05/$06, else none.
pub open spec fn spec_sram_len(cart_type: u8, header_size: usize) -> usize {
    if header_size == 0 && (cart_type == 0x01 || cart_type == 0x02 || cart_type == 0x05 || cart_type == 0x06) {
        0x2000
    } else {
        header_size
    }
}

fn sram_len_for(cart_type: u8, header_size: usize) -> (n: usize)
    ensures
        n == spec_sram_len(cart_type, header_size),
{
    let has_ram = cart_type == 0x01 || cart_type == 0x02 || cart_type == 0x05 || cart_type == 0x06;
    if header_size == 0 && has_ram {
        0x2000
    } else {
        header_size
    }
}

/// Value of the DMA register at `addr` ($4300-$437F).
pub open spec fn spec_read_dma(channels: [DmaChannel; 8], addr: u16) -> u8 {
    let a = (addr - 0x4300) as u16;
    let ch = (a >> 4u16) as int;
    if ch >= 8 {
        0
    } else {
        spec_dma_reg_value(channels[ch], (a & 0xF) as u8)
    }
}

/// Writing a DMA register and reading it back returns the written byte
/// (registers $43x0-$43x9, $43xB and $43xF; $43xA normalises a zero count).
pub proof fn lemma_dma_reg_roundtrip(d: DmaChannel, reg: u8, value: u8)
    requires
        reg <= 0x9 || reg == 0xB || reg == 0xF,
    ensures
        spec_dma_reg_value(spec_dma_reg_write(d, reg, value), reg) == value,
{
    lemma_word_byte_roundtrip(d.a_addr, value);
    lemma_word_byte_roundtrip(d.size, value);
    lemma_word_byte_roundtrip(d.hdma_a, value);
}

impl Bus {
    pub open spec fn wf(&self) -> bool {
        &&& self.wram@.len() == 0x20000
        &&& self.ppu.wf()
        &&& self.spc.wf()
        &&& (self.dsp1 matches Some(d) ==> d.wf())
        &&& (self.superfx matches Some(f) ==> f.wf())
        &&& self.code_speed >= MASTER_PER_CPU_CYCLE
        &&& self.code_speed <= 12
    }

    /// What the address `bank:addr` selects.
    pub open spec fn target(&self, bank: u8, addr: u16) -> BusTarget {
        let b = bank as int;
        let a = addr as int;
        if a < 0x2000 && is_mmio_bank(b) {
            BusTarget::LowWram
        } else if 0x7E <= b <= 0x7F {
            BusTarget::Wram
        } else if 0x2100 <= a <= 0x213F && is_mmio_bank(b) {
            BusTarget::PpuReg
        } else if 0x2140 <= a <= 0x217F && is_mmio_bank(b) {
            BusTarget::ApuPort
        } else if a == 0x2180 && is_mmio_bank(b) {
            BusTarget::WramData
        } else if 0x2181 <= a <= 0x2183 && is_mmio_bank(b) {
            BusTarget::WramAddr
        } else if a == 0x4016 && is_mmio_bank(b) {
            BusTarget::Joy1
        } else if a == 0x4017 && is_mmio_bank(b) {
            BusTarget::Joy2
        } else if 0x4200 <= a <= 0x421F && is_mmio_bank(b) {
            BusTarget::SystemReg
        } else if 0x4300 <= a <= 0x437F && is_mmio_bank(b) {
            BusTarget::DmaReg
        } else if (b <= 0x1F || (0x80 <= b <= 0x9F)) && 0x6000 <= a <= 0x7FFF && self.dsp1 is Some {
            BusTarget::Dsp1Port
        } else if (0x20 <= b <= 0x3F || (0xA0 <= b <= 0xBF)) && 0x6000 <= a <= 0x7FFF
            && self.hirom_sram && self.sram@.len() > 0 {
            BusTarget::HiromSram
        } else if (b <= 0x3F || (0x80 <= b <= 0xBF)) && 0x3000 <= a <= 0x32FF && self.superfx is Some {
            BusTarget::FxReg
        } else if (b <= 0x3F || (0x80 <= b <= 0xBF)) && 0x6000 <= a <= 0x7FFF && self.superfx is Some {
            BusTarget::FxRamWindow
        } else if (b == 0x70 || b == 0x71 || b == 0xF0 || b == 0xF1) && self.superfx is Some {
            BusTarget::FxRam
        } else if ((0x70 <= b <= 0x7D) || (0xF0 <= b <= 0xFD)) && self.sram@.len() > 0 {
            BusTarget::LoromSram
        } else if is_mmio_bank(b) && 0x2000 <= a < 0x6000 {
            BusTarget::OpenBus
        } else {
            BusTarget::Rom
        }
    }

    /// The byte a read of a memory-like target returns.
    pub open spec fn peek(&self, bank: u8, addr: u16) -> u8 {
        match self.target(bank, addr) {
            BusTarget::LowWram => self.wram@[addr as int],
            BusTarget::Wram => self.wram@[wram_index(bank, addr)],
            BusTarget::HiromSram => self.sram@[hirom_sram_index(bank, addr, self.sram@.len())],
            BusTarget::LoromSram => self.sram@[lorom_sram_index(bank, addr, self.sram@.len())],
            BusTarget::FxRamWindow => self.superfx->Some_0.ram@[addr - 0x6000],
            BusTarget::FxRam => self.superfx->Some_0.ram@[fx_ram_index(bank, addr)],
            BusTarget::Rom => cart_read_spec(self.rom.spec_map_mode(), self.rom.spec_rom(), bank, addr),
            BusTarget::OpenBus => self.open_bus,
            BusTarget::ApuPort => self.spc.cpu_out[(addr & 3) as int],
            BusTarget::WramData => self.wram@[(self.wram_addr & 0x1FFFF) as int],
            BusTarget::Joy2 => (self.open_bus & !3u8) | 0x1C,
            BusTarget::DmaReg => spec_read_dma(self.dma_channels, addr),
            _ => 0,
        }
    }

    /// Targets whose read returns `peek` and changes nothing but the
    /// data-bus latch (and the access charge).
    pub open spec fn plain_read_target(t: BusTarget) -> bool {
        t is LowWram || t is Wram || t is HiromSram || t is LoromSram || t is FxRamWindow || t is FxRam
            || t is Rom || t is ApuPort || t is Joy2 || t is DmaReg
    }

    /// `new` is `old` after an access: the wait-state charge added and the
    /// data-bus latch set to `latch`.
    pub open spec fn after_access(old: Bus, new: Bus, latch: u8) -> bool {
        new == (Bus {
            access_extra: vstd::wrapping::u64_specs::wrapping_add(old.access_extra, (old.code_speed - 6) as u64),
            open_bus: latch,
            ..old
        })
    }

    /// The cartridge can be mapped: a Super FX cartridge holds at least one
    /// 32 KiB ROM block.
    pub open spec fn can_map(rom: Cartridge) -> bool {
        is_superfx_type(rom.spec_cart_type()) ==> rom.spec_rom().len() >= 0x8000
    }

    pub fn new(rom: Cartridge) -> (bus: Self)
        requires
            Self::can_map(rom),
        ensures
            bus.wf(),
            bus.rom == rom,
            forall|i: int| 0 <= i < 0x20000 ==> bus.wram@[i] == 0,
            bus.sram@.len() == spec_sram_len(rom.spec_cart_type(), rom.spec_sram_size()),
            bus.dsp1 is Some <==> is_dsp1_type(rom.spec_cart_type()),
            bus.superfx is Some <==> is_superfx_type(rom.spec_cart_type()),
            bus.hirom_sram == (rom.spec_map_mode() == MapMode::HiRom && (rom.spec_cart_type() == 0x02
                || rom.spec_cart_type() == 0x05)),
            bus.htime == 0x1FF,
            bus.vtime == 0x1FF,
            bus.mult_a == 0xFF,
            bus.dividend == 0xFFFF,
            bus.mult_result == 0xFFFF,
            bus.div_result == 0xFFFF,
            bus.nmitimen == 0,
            bus.access_extra == 0,
            bus.code_speed == MASTER_PER_CPU_CYCLE,
            !bus.nmi_line && !bus.irq_line && !bus.frame_ready,
            forall|i: int| 0 <= i < bus.sram@.len() ==> bus.sram@[i] == 0,
            !bus.sram_dirty,
    {
        let cart_type = rom.cart_type();
        let is_hirom = rom.map_mode() == MapMode::HiRom;
        let rom_len = rom.rom_len();
        // Cart types with on-cart RAM: $01/$02 (LoROM), $05 (HiROM+RAM+BAT,
        // also DSP-1+RAM+BAT), $06 (SA-1). A header-declared size wins;
        // otherwise 8 KiB for RAM-carrying types, none else.
        let sram_len = sram_len_for(cart_type, rom.sram_size());
        let dsp1 = if cart_type == 0x03 || cart_type == 0x04 || cart_type == 0x05 {
            Some(Dsp1::new())
        } else {
            None
        };
        let superfx = if cart_type == 0x13 || cart_type == 0x14 || cart_type == 0x15 || cart_type == 0x1A {
            Some(SuperFx::new(rom_len))
        } else {
            None
        };
        let hirom_sram = is_hirom && (cart_type == 0x02 || cart_type == 0x05);
        Bus {
            rom,
            wram: vec![0u8; 0x20000],
            sram: vec![0u8; sram_len],
            sram_dirty: false,
            ppu: Ppu::new(),
            spc: Spc700::new(),
            dsp1,
            superfx,
            sfx_line_accum: 0,
            access_extra: 0,
            code_speed: MASTER_PER_CPU_CYCLE,
            fastrom: false,
            hirom_sram,
            wram_addr: 0,
            nmitimen: 0,
            htime: 0x1FF,
            vtime: 0x1FF,
            mult_a: 0xFF,
            dividend: 0xFFFF,
            mult_result: 0xFFFF,
            div_result: 0xFFFF,
            irq_pending_flag: false,
            rdnmi_flag: false,
            pad1: 0,
            pad_latch: 0,
            pad1_bits: 0,
            pad1_shift: 0,
            nmi_line: false,
            irq_line: false,
            frame_ready: false,
            open_bus: 0,
            dbg_pc: 0,
            dma_channels: [DmaChannel::cleared(); 8],
            hdma_active: 0,
            mdma_pending: false,
        }
    }

    /// Current joypad 1 buttons (bit 15 = B ... bit 4 = R).
    pub fn set_pad1(&mut self, buttons: u16)
        ensures
            *final(self) == (Bus {
                pad1_bits: buttons,
                pad1_shift: if old(self).pad_latch & 1 == 0 {
                    buttons
                } else {
                    old(self).pad1_shift
                },
                ..*old(self)
            }),
    {
        self.pad1_bits = buttons;
        if self.pad_latch & 1 == 0 {
            self.pad1_shift = buttons;
        }
    }

    /// Master clocks for one CPU access to `bank:addr`.
    pub fn memory_speed(&self, bank: u8, addr: u16) -> (r: u64)
        ensures
            r == spec_memory_speed(self.fastrom, bank, addr),
            r == 6 || r == 8 || r == 12,
    {
        let address: u32 = ((bank as u32) << 16u32) | (addr as u32);
        proof {
            lemma_bank_addr_u32(bank, addr);
        }
        if address & 0x408000 != 0 {
            if address & 0x800000 != 0 {
                if self.fastrom {
                    6
                } else {
                    8
                }
            } else {
                8
            }
        } else if (address + 0x6000) & 0x4000 != 0 {
            8
        } else if address.wrapping_sub(0x4000) & 0x7E00 != 0 {
            6
        } else {
            12
        }
    }

    /// Charge one CPU access's wait states.
    fn charge_access(&mut self)
        requires
            old(self).code_speed >= MASTER_PER_CPU_CYCLE,
        ensures
            *final(self) == (Bus {
                access_extra: vstd::wrapping::u64_specs::wrapping_add(
                    old(self).access_extra,
                    (old(self).code_speed - MASTER_PER_CPU_CYCLE) as u64,
                ),
                ..*old(self)
            }),
    {
        self.access_extra = self.access_extra.wrapping_add(self.code_speed - MASTER_PER_CPU_CYCLE);
    }

    /// Consume the wait states accumulated by CPU accesses this instruction.
    pub fn take_access_extra(&mut self) -> (r: u64)
        ensures
            r == old(self).access_extra,
            *final(self) == (Bus { access_extra: 0, ..*old(self) }),
    {
        let r = self.access_extra;
        self.access_extra = 0;
        r
    }

    /// Current auto-read joypad value as seen at $4218/9.
    pub fn debug_pad1(&self) -> (r: u16)
        ensures
            r == self.pad1,
    {
        self.pad1
    }

    /// Advance the system by one CPU instruction: its cycle count at
    /// `MASTER_PER_CPU_CYCLE` clocks plus the accumulated wait states (the
    /// sum saturates at `u64::MAX`).
    pub fn tick(&mut self, cpu_cycles: u64)
        requires
            old(self).wf(),
            cpu_cycles <= 0x2AAA_AAAA_AAAA_AAAA,
        ensures
            Self::progress(*old(self), *final(self)),
            final(self).access_extra == 0,
            final(self).ppu.frame_ended || final(self).ppu.beam() >= old(self).ppu.beam() + cpu_cycles * 6,
    {
        let extra = self.take_access_extra();
        self.tick_master((cpu_cycles * MASTER_PER_CPU_CYCLE).saturating_add(extra));
    }

    /// Advance PPU, APU and Super FX by `master` clocks. The GSU runs one
    /// instruction budget per scanline's worth of clocks.
    fn tick_master(&mut self, master: u64)
        requires
            old(self).wf(),
        ensures
            Self::progress(*old(self), *final(self)),
            final(self).ppu.frame_ended || final(self).ppu.beam() == old(self).ppu.beam() + master,
            final(self).ppu.dot == (old(self).ppu.dot + master) % 1364,
            final(self).ppu.line == (old(self).ppu.line + (old(self).ppu.dot + master) / 1364) % 262,
            final(self).access_extra == old(self).access_extra,
            final(self).wram == old(self).wram,
            final(self).sram == old(self).sram,
            final(self).dma_channels == old(self).dma_channels,
            final(self).hdma_active == old(self).hdma_active,
            final(self).dsp1 == old(self).dsp1,
            final(self).superfx is Some <==> old(self).superfx is Some,
            final(self).rom == old(self).rom,
            final(self).hirom_sram == old(self).hirom_sram,
            final(self).nmitimen == old(self).nmitimen,
    {
        self.ppu.tick(master);
        self.spc.tick(master);
        proof {
            assert(self.wf());
        }
        if self.superfx.is_some() {
            self.sfx_line_accum = self.sfx_line_accum.wrapping_add(master);
            let ghost snap = *self;
            while self.sfx_line_accum >= MASTER_PER_SCANLINE
                invariant
                    self.wf(),
                    self.superfx is Some,
                    *self == (Bus { superfx: self.superfx, sfx_line_accum: self.sfx_line_accum, ..snap }),
                decreases self.sfx_line_accum,
            {
                self.sfx_line_accum = self.sfx_line_accum - MASTER_PER_SCANLINE;
                match &mut self.superfx {
                    Some(sfx) => sfx.exec_line(self.rom.rom_bytes()),
                    None => {},
                }
            }
        }
    }

    /// The memory map and the cartridge are the same in `a` and `b`.
    pub open spec fn same_map(a: Bus, b: Bus) -> bool {
        &&& b.rom == a.rom
        &&& (b.dsp1 is Some <==> a.dsp1 is Some)
        &&& (b.superfx is Some <==> a.superfx is Some)
        &&& b.hirom_sram == a.hirom_sram
        &&& b.sram@.len() == a.sram@.len()
    }

    /// `new` follows `old` by bus activity: still well formed, same map,
    /// the frame-end latch only rises, and the beam never moves back within
    /// a frame.
    pub open spec fn progress(old: Bus, new: Bus) -> bool {
        &&& new.wf()
        &&& Self::same_map(old, new)
        &&& (old.ppu.frame_ended ==> new.ppu.frame_ended)
        &&& (new.ppu.frame_ended || new.ppu.beam() >= old.ppu.beam())
        &&& new.frame_ready == old.frame_ready
        &&& new.nmi_line == old.nmi_line
        &&& new.pad1 == old.pad1
    }

    /// Targets handled by the system-area register decoder.
    pub open spec fn io_target(t: BusTarget) -> bool {
        t is PpuReg || t is ApuPort || t is WramData || t is WramAddr || t is Joy1 || t is Joy2
            || t is SystemReg || t is DmaReg
    }

    /// Called after each instruction: latch NMI/IRQ, run HDMA and the WRAM
    /// refresh, and report a finished frame.
    pub fn poll_interrupts(&mut self)
        requires
            old(self).wf(),
        ensures
            final(self).wf(),
            Self::same_map(*old(self), *final(self)),
            old(self).frame_ready ==> final(self).frame_ready,
            final(self).frame_ready || (!final(self).ppu.frame_ended && final(self).ppu.beam() >= old(self).ppu.beam()),
            old(self).ppu.frame_ended ==> final(self).frame_ready,
            !final(self).ppu.frame_ended,
            old(self).ppu.nmi_flag ==> final(self).pad1 == old(self).pad1_bits,
            !old(self).ppu.nmi_flag ==> final(self).pad1 == old(self).pad1,
            old(self).nmi_line ==> final(self).nmi_line,
            old(self).ppu.nmi_flag && old(self).nmitimen & 0x80 != 0 ==> final(self).nmi_line,
            !old(self).nmi_line && !(old(self).ppu.nmi_flag && old(self).nmitimen & 0x80 != 0) ==> !final(self).nmi_line,
    {
        self.latch_nmi();
        self.service_hdma_and_refresh();
        if self.ppu.frame_ended {
            self.ppu.frame_ended = false;
            self.frame_ready = true;
        }
        // H/V timer IRQ
        let hit = if self.nmitimen & 0x30 != 0 {
            self.ppu.irq_hit(self.htime, self.vtime, self.nmitimen)
        } else {
            false
        };
        proof {
            assert(self.wf());
        }
        if hit {
            self.irq_pending_flag = true;
            self.irq_line = true;
        }
    }

    /// NMI at vblank start: latch RDNMI, raise the NMI line when enabled,
    /// and do the auto joypad read.
    fn latch_nmi(&mut self)
        requires
            old(self).wf(),
        ensures
            final(self).wf(),
            Self::same_map(*old(self), *final(self)),
            final(self).ppu == (Ppu { nmi_flag: false, ..old(self).ppu }),
            final(self).frame_ready == old(self).frame_ready,
            final(self).nmi_line == (old(self).nmi_line || (old(self).ppu.nmi_flag && old(self).nmitimen & 0x80 != 0)),
            final(self).pad1 == if old(self).ppu.nmi_flag { old(self).pad1_bits } else { old(self).pad1 },
    {
        let nmi = self.ppu.take_nmi();
        proof {
            assert(self.wf());
        }
        if nmi {
            self.rdnmi_flag = true;
            if self.nmitimen & 0x80 != 0 {
                self.nmi_line = true;
            }
            self.pad1 = self.pad1_bits;
        }
    }

    /// HDMA pointer reload at the line-0 frame wrap (not at NMI time), the
    /// line's HDMA, and the WRAM refresh (40 master clocks per visible line).
    fn service_hdma_and_refresh(&mut self)
        requires
            old(self).wf(),
        ensures
            Self::progress(*old(self), *final(self)),
    {
        self.hdma_service(true);
        self.wram_refresh();
    }

    /// The HDMA pointer reload at the frame wrap and the scanline's HDMA,
    /// whichever the PPU has flagged.
    fn hdma_service(&mut self, allow_dma: bool)
        requires
            old(self).wf(),
        ensures
            Self::progress(*old(self), *final(self)),
        decreases (if allow_dma { 1int } else { 0int }), 8int,
    {
        self.hdma_reload_service();
        self.hdma_line_service(allow_dma);
    }

    /// Take the PPU's frame-start HDMA flag and reload the pointers on it.
    fn hdma_reload_service(&mut self)
        requires
            old(self).wf(),
        ensures
            Self::progress(*old(self), *final(self)),
    {
        let init = self.ppu.take_hdma_init_due();
        self.hdma_reload(init);
    }

    /// Take the PPU's per-scanline HDMA flag and run the line's HDMA on it.
    fn hdma_line_service(&mut self, allow_dma: bool)
        requires
            old(self).wf(),
        ensures
            Self::progress(*old(self), *final(self)),
        decreases (if allow_dma { 1int } else { 0int }), 7int,
    {
        let due = self.ppu.take_hdma_due();
        self.hdma_line(due, allow_dma);
    }

    /// The HDMA pointer reload, when `due`.
    fn hdma_reload(&mut self, due: bool)
        requires
            old(self).wf(),
        ensures
            Self::progress(*old(self), *final(self)),
    {
        if due {
            self.hdma_frame_reset();
        }
    }

    /// One scanline of HDMA, when `due`.
    fn hdma_line(&mut self, due: bool, allow_dma: bool)
        requires
            old(self).wf(),
        ensures
            Self::progress(*old(self), *final(self)),
        decreases (if allow_dma { 1int } else { 0int }), 6int,
    {
        if due {
            if allow_dma {
                self.run_hdma();
            } else {
                self.run_hdma_inner(false);
            }
        }
    }

    /// The WRAM refresh: 40 master clocks per visible line.
    fn wram_refresh(&mut self)
        requires
            old(self).wf(),
        ensures
            Self::progress(*old(self), *final(self)),
    {
        if self.ppu.wram_refresh_pending {
            self.ppu.wram_refresh_pending = false;
            self.tick_master(40);
        }
    }

    /// CPU /IRQ input: the H/V timer latch or the Super FX IRQ output.
    pub fn cpu_irq(&self) -> (r: bool)
        ensures
            r == (self.irq_line || (self.superfx matches Some(f) && f.irq_line)),
    {
        self.irq_line || match &self.superfx {
            Some(f) => f.irq_line,
            None => false,
        }
    }

    /// CPU read of `bank:addr`.
    #[verifier::rlimit(80)]
    #[verifier::spinoff_prover]
    pub fn read(&mut self, bank: u8, addr: u16) -> (v: u8)
        requires
            old(self).wf(),
        ensures
            Self::progress(*old(self), *final(self)),
            final(self).wram == old(self).wram,
            Self::plain_read_target(old(self).target(bank, addr)) ==> v == old(self).peek(bank, addr)
                && Self::after_access(*old(self), *final(self), v),
            old(self).target(bank, addr) is OpenBus ==> v == old(self).open_bus && Self::after_access(
                *old(self),
                *final(self),
                v,
            ),
            old(self).target(bank, addr) is WramData ==> v == old(self).peek(bank, addr) && *final(self) == (Bus {
                access_extra: vstd::wrapping::u64_specs::wrapping_add(old(self).access_extra, (old(self).code_speed - 6) as u64),
                open_bus: v,
                wram_addr: vstd::wrapping::u32_specs::wrapping_add(old(self).wram_addr, 1) & 0x1FFFF,
                ..*old(self)
            }),
            old(self).target(bank, addr) is SystemReg && 0x4214 <= addr <= 0x4219 ==> v == spec_system_value(*old(self), addr)
                && Self::after_access(*old(self), *final(self), v),
            old(self).target(bank, addr) is SystemReg && addr == 0x4210 ==> v == (if old(self).rdnmi_flag { 0x82u8 } else {
                0x02u8
            }) && *final(self) == (Bus {
                access_extra: vstd::wrapping::u64_specs::wrapping_add(old(self).access_extra, (old(self).code_speed - 6) as u64),
                open_bus: v,
                rdnmi_flag: false,
                ..*old(self)
            }),
            old(self).target(bank, addr) is Joy1 ==> Self::joy1_read(
                Bus {
                    access_extra: vstd::wrapping::u64_specs::wrapping_add(old(self).access_extra, (old(self).code_speed - 6) as u64),
                    ..*old(self)
                },
                *final(self),
                v,
            ),
    {
        self.charge_access();
        let b = bank as usize;
        let a = addr as usize;
        if a < 0x2000 && mmio_bank(b) {
            let v = self.wram[a];
            self.open_bus = v;
            return v;
        }
        if b == 0x7E || b == 0x7F {
            let v = self.wram[(b - 0x7E) * 0x10000 + a];
            self.open_bus = v;
            return v;
        }
        if mmio_bank(b) && ((0x2100 <= a && a <= 0x2183) || a == 0x4016 || a == 0x4017 || (0x4200 <= a
            && a <= 0x421F) || (0x4300 <= a && a <= 0x437F)) {
            self.read_io(bank, addr)
        } else {
            self.read_cart(bank, addr)
        }
    }

    /// A read of the serial joypad port $4016: while the latch is held it
    /// returns the B button; otherwise it shifts the next button bit out
    /// (most significant first) and shifts a 1 in.
    pub open spec fn joy1_read(old: Bus, new: Bus, v: u8) -> bool {
        if old.pad_latch & 1 != 0 {
            v == (old.pad1_bits >> 15u16) as u8 && new == old
        } else {
            v == ((old.pad1_shift & 0x8000) >> 15u16) as u8 && new == (Bus {
                pad1_shift: ((old.pad1_shift << 1u16) | 1) as u16,
                open_bus: v,
                ..old
            })
        }
    }

    /// Reads of the system-area registers ($2100-$2183, $4016/7,
    /// $4200-$421F, $4300-$437F).
    #[verifier::rlimit(40)]
    #[verifier::spinoff_prover]
    fn read_io(&mut self, bank: u8, addr: u16) -> (v: u8)
        requires
            old(self).wf(),
            Self::io_target(old(self).target(bank, addr)),
        ensures
            Self::progress(*old(self), *final(self)),
            final(self).wram == old(self).wram,
            Self::plain_read_target(old(self).target(bank, addr)) ==> v == old(self).peek(bank, addr)
                && *final(self) == (Bus { open_bus: v, ..*old(self) }),
            old(self).target(bank, addr) is WramData ==> v == old(self).peek(bank, addr) && *final(self) == (Bus {
                open_bus: v,
                wram_addr: vstd::wrapping::u32_specs::wrapping_add(old(self).wram_addr, 1) & 0x1FFFF,
                ..*old(self)
            }),
            old(self).target(bank, addr) is SystemReg && 0x4214 <= addr <= 0x4219 ==> v == spec_system_value(*old(self), addr)
                && *final(self) == (Bus { open_bus: v, ..*old(self) }),
            old(self).target(bank, addr) is SystemReg && addr == 0x4210 ==> v == (if old(self).rdnmi_flag { 0x82u8 } else {
                0x02u8
            }) && *final(self) == (Bus { open_bus: v, rdnmi_flag: false, ..*old(self) }),
            old(self).target(bank, addr) is Joy1 ==> Self::joy1_read(*old(self), *final(self), v),
    {
        let a = addr as usize;
        let v: u8;
        if a >= 0x2100 && a <= 0x213F {
            v = self.ppu.read_register(addr);
        } else if a >= 0x2140 && a <= 0x217F {
            proof {
                lemma_and_le_u16(addr, 3);
            }
            v = self.spc.read_port((addr & 3) as u8);
            proof {
                vstd::bits::lemma_low_bits_mask_values();
                vstd::arithmetic::power2::lemma2_to64();
                vstd::bits::lemma_u8_low_bits_mask_is_mod((addr & 3) as u8, 2);
            }
        } else if a == 0x2180 {
            proof {
                lemma_and_le_u32(self.wram_addr, 0x1FFFF);
            }
            v = self.wram[(self.wram_addr & 0x1FFFF) as usize];
            self.wram_addr = self.wram_addr.wrapping_add(1) & 0x1FFFF;
        } else if a >= 0x2181 && a <= 0x2183 {
            v = self.open_bus;
        } else if a == 0x4016 {
            // Joypad 1 serial port
            if self.pad_latch & 1 != 0 {
                // While the latch is held the pad keeps reloading: reads
                // return the first bit (B).
                return (self.pad1_bits >> 15u16) as u8;
            }
            let bit = (self.pad1_shift & 0x8000) >> 15u16;
            self.pad1_shift = (self.pad1_shift << 1u16) | 1;
            self.open_bus = bit as u8;
            return self.open_bus;
        } else if a == 0x4017 {
            // No controller on port 2: bits 0-1 read 0, bits 2-4 read 1,
            // the rest is open bus.
            v = (self.open_bus & !0x03u8) | 0x1C;
        } else if a >= 0x4200 && a <= 0x421F {
            v = self.read_system(addr);
        } else {
            v = self.read_dma(addr);
        }
        self.open_bus = v;
        v
    }

    /// Reads of the cartridge area: coprocessors, SRAM, GSU RAM, ROM.
    #[verifier::rlimit(40)]
    #[verifier::spinoff_prover]
    fn read_cart(&mut self, bank: u8, addr: u16) -> (v: u8)
        requires
            old(self).wf(),
            !(old(self).target(bank, addr) is LowWram),
            !(old(self).target(bank, addr) is Wram),
            !Self::io_target(old(self).target(bank, addr)),
        ensures
            Self::progress(*old(self), *final(self)),
            final(self).wram == old(self).wram,
            Self::plain_read_target(old(self).target(bank, addr)) ==> v == old(self).peek(bank, addr)
                && *final(self) == (Bus { open_bus: v, ..*old(self) }),
            old(self).target(bank, addr) is OpenBus ==> v == old(self).open_bus && *final(self) == *old(self),
    {
        let b = bank as usize;
        let a = addr as usize;
        let v: u8;
        if (b <= 0x1F || (b >= 0x80 && b <= 0x9F)) && a >= 0x6000 && a <= 0x7FFF && self.dsp1.is_some() {
            // DSP-1 (HiROM): takes precedence over ROM in this window.
            v = match &mut self.dsp1 {
                Some(d) => d.get_byte(addr),
                None => 0,
            };
        } else if ((b >= 0x20 && b <= 0x3F) || (b >= 0xA0 && b <= 0xBF)) && a >= 0x6000 && a <= 0x7FFF
            && self.hirom_sram && self.sram.len() > 0 {
            // SRAM (HiROM)
            let off = (((b & 0x0F) << 13usize) | (a & 0x1FFF)) % self.sram.len();
            proof {
                lemma_sram_offsets(b, a);
            }
            v = self.sram[off];
        } else if (b <= 0x3F || (b >= 0x80 && b <= 0xBF)) && a >= 0x3000 && a <= 0x32FF && self.superfx.is_some() {
            // Super FX registers
            v = match &mut self.superfx {
                Some(f) => f.read_register(addr),
                None => 0,
            };
        } else if (b <= 0x3F || (b >= 0x80 && b <= 0xBF)) && a >= 0x6000 && a <= 0x7FFF && self.superfx.is_some() {
            // GSU RAM: first 8 KiB window
            v = match &self.superfx {
                Some(f) => f.ram[a - 0x6000],
                None => 0,
            };
        } else if (b == 0x70 || b == 0x71 || b == 0xF0 || b == 0xF1) && self.superfx.is_some() {
            // GSU RAM: full banks
            proof {
                lemma_sram_offsets(b, a);
            }
            v = match &self.superfx {
                Some(f) => f.ram[((b & 1) << 16usize) | a],
                None => 0,
            };
        } else if ((b >= 0x70 && b <= 0x7D) || (b >= 0xF0 && b <= 0xFD)) && self.sram.len() > 0 {
            // SRAM (LoROM)
            let off = (((b & 0xF) << 15usize) | (a & 0x7FFF)) % self.sram.len();
            proof {
                lemma_sram_offsets(b, a);
            }
            v = self.sram[off];
        } else {
            if mmio_bank(b) && a >= 0x2000 && a < 0x6000 {
                // Unmapped system-area addresses return open bus.
                return self.open_bus;
            }
            v = self.rom.read(bank, addr);
        }
        self.open_bus = v;
        v
    }

    /// $4200-$421F reads.
    fn read_system(&mut self, addr: u16) -> (v: u8)
        requires
            old(self).wf(),
        ensures
            Self::progress(*old(self), *final(self)),
            final(self).wram == old(self).wram,
            0x4214 <= addr <= 0x4219 ==> v == spec_system_value(*old(self), addr) && *final(self) == *old(self),
            addr == 0x4210 ==> v == (if old(self).rdnmi_flag { 0x82u8 } else { 0x02u8 }) && *final(self) == (Bus {
                rdnmi_flag: false,
                ..*old(self)
            }),
            addr == 0x4211 ==> v == (if old(self).irq_pending_flag { 0x80u8 } else { 0u8 }) && *final(self) == (Bus {
                irq_pending_flag: false,
                irq_line: false,
                ..*old(self)
            }),
    {
        if addr == 0x4210 {
            // Bit 7: NMI since the last read; bits 0-3: CPU revision 2.
            let v: u8 = if self.rdnmi_flag {
                0x82
            } else {
                0x02
            };
            self.rdnmi_flag = false;
            v
        } else if addr == 0x4211 {
            let v: u8 = if self.irq_pending_flag {
                0x80
            } else {
                0
            };
            self.irq_pending_flag = false;
            // A TIMEUP read acknowledges the level-triggered IRQ line.
            self.irq_line = false;
            v
        } else if addr == 0x4212 {
            let mut v: u8 = 0;
            if self.ppu.in_vblank() {
                v = v | 0x80;
            }
            if self.ppu.in_hblank() {
                v = v | 0x40;
            }
            // Auto-joypad read in progress during the first lines of vblank
            if self.ppu.in_vblank() && self.ppu.scanline() < 228 {
                v = v | 0x01;
            }
            v
        } else if addr == 0x4214 {
            self.mult_result as u8
        } else if addr == 0x4215 {
            (self.mult_result >> 8u16) as u8
        } else if addr == 0x4216 {
            self.div_result as u8
        } else if addr == 0x4217 {
            (self.div_result >> 8u16) as u8
        } else if addr == 0x4218 {
            self.pad1 as u8
        } else if addr == 0x4219 {
            (self.pad1 >> 8u16) as u8
        } else {
            // $421A/B (pad 2) and the rest read 0.
            0
        }
    }

    /// Channel and register number of a DMA register address.
    fn dma_reg(&self, addr: u16) -> (r: (usize, u8))
        requires
            addr >= 0x4300,
        ensures
            r.0 == ((addr - 0x4300) as u16 >> 4u16) as usize,
            r.1 == ((addr - 0x4300) as u16 & 0xF) as u8,
            r.1 <= 0xF,
    {
        let a = addr - 0x4300;
        proof {
            lemma_and_le_u16(a, 0xF);
        }
        ((a >> 4u16) as usize, (a & 0xF) as u8)
    }

    fn read_dma(&self, addr: u16) -> (v: u8)
        requires
            addr >= 0x4300,
        ensures
            v == spec_read_dma(self.dma_channels, addr),
    {
        let (ch, reg) = self.dma_reg(addr);
        if ch >= 8 {
            return 0;
        }
        let d = self.dma_channels[ch];
        if reg == 0x0 {
            d.control
        } else if reg == 0x1 {
            d.b_reg
        } else if reg == 0x2 {
            d.a_addr as u8
        } else if reg == 0x3 {
            (d.a_addr >> 8u16) as u8
        } else if reg == 0x4 {
            d.a_bank
        } else if reg == 0x5 {
            d.size as u8
        } else if reg == 0x6 {
            (d.size >> 8u16) as u8
        } else if reg == 0x7 {
            d.hdma_bank
        } else if reg == 0x8 {
            // $43x8/9: the current HDMA table address
            d.hdma_a as u8
        } else if reg == 0x9 {
            (d.hdma_a >> 8u16) as u8
        } else if reg == 0xA {
            d.line_count
        } else if reg == 0xB || reg == 0xF {
            d.unused
        } else {
            0
        }
    }

    fn write_dma(&mut self, addr: u16, value: u8)
        requires
            addr >= 0x4300,
        ensures
            ({
                let a = (addr - 0x4300) as u16;
                let ch = (a >> 4u16) as int;
                let reg = (a & 0xF) as u8;
                if ch >= 8 {
                    *final(self) == *old(self)
                } else {
                    *final(self) == (Bus { dma_channels: final(self).dma_channels, ..*old(self) })
                        && final(self).dma_channels@ == old(self).dma_channels@.update(
                        ch,
                        spec_dma_reg_write(old(self).dma_channels[ch], reg, value),
                    )
                }
            }),
    {
        let (ch, reg) = self.dma_reg(addr);
        if ch >= 8 {
            return ;
        }
        let mut d = self.dma_channels[ch];
        if reg == 0x0 {
            d.control = value;
        } else if reg == 0x1 {
            d.b_reg = value;
        } else if reg == 0x2 {
            d.a_addr = (d.a_addr & 0xFF00) | value as u16;
        } else if reg == 0x3 {
            d.a_addr = (d.a_addr & 0x00FF) | ((value as u16) << 8u16);
        } else if reg == 0x4 {
            d.a_bank = value;
        } else if reg == 0x5 {
            d.size = (d.size & 0xFF00) | value as u16;
        } else if reg == 0x6 {
            d.size = (d.size & 0x00FF) | ((value as u16) << 8u16);
        } else if reg == 0x7 {
            d.hdma_bank = value;
        } else if reg == 0x8 {
            // $43x8/9: the current HDMA table address (repositions the channel)
            d.hdma_a = (d.hdma_a & 0xFF00) | value as u16;
        } else if reg == 0x9 {
            d.hdma_a = (d.hdma_a & 0x00FF) | ((value as u16) << 8u16);
        } else if reg == 0xA {
            // $43xA: line counter, bit 7 = transfer every line; a zero count
            // means 128 lines, held as 127.
            if value & 0x7F != 0 {
                d.line_count = value;
            } else {
                d.line_count = if value & 0x80 != 0 {
                    0x7F
                } else {
                    0xFF
                };
            }
        } else if reg == 0xB || reg == 0xF {
            d.unused = value;
        }
        self.dma_channels[ch] = d;
    }

    /// CPU write of `value` to `bank:addr`.
    pub fn write(&mut self, bank: u8, addr: u16, value: u8)
        requires
            old(self).wf(),
        ensures
            Self::progress(*old(self), *final(self)),
            Self::wrote(*old(self), *final(self), bank, addr, value),
    {
        self.write_impl(bank, addr, value, true)
    }

    /// What a write of `value` to a memory-like target does.
    #[verifier::opaque]
    pub open spec fn wrote(old: Bus, new: Bus, bank: u8, addr: u16, value: u8) -> bool {
        let t = old.target(bank, addr);
        let charged = Bus {
            access_extra: vstd::wrapping::u64_specs::wrapping_add(old.access_extra, (old.code_speed - 6) as u64),
            ..old
        };
        &&& (t is LowWram || t is Wram) ==> new == (Bus { wram: new.wram, ..charged })
            && new.wram@ == old.wram@.update(wram_index(bank, addr), value)
        &&& t is HiromSram ==> new == (Bus { sram: new.sram, sram_dirty: true, ..charged })
            && new.sram@ == old.sram@.update(hirom_sram_index(bank, addr, old.sram@.len()), value)
        &&& t is LoromSram ==> new == (Bus { sram: new.sram, sram_dirty: true, ..charged })
            && new.sram@ == old.sram@.update(lorom_sram_index(bank, addr, old.sram@.len()), value)
        &&& t is WramData ==> new == (Bus {
            wram: new.wram,
            wram_addr: vstd::wrapping::u32_specs::wrapping_add(old.wram_addr, 1) & 0x1FFFF,
            ..charged
        }) && new.wram@ == old.wram@.update((old.wram_addr & 0x1FFFF) as int, value)
        &&& t is DmaReg ==> ({
            let a = (addr - 0x4300) as u16;
            let ch = (a >> 4u16) as int;
            ch < 8 ==> new == (Bus { dma_channels: new.dma_channels, ..charged }) && new.dma_channels@
                == old.dma_channels@.update(ch, spec_dma_reg_write(old.dma_channels[ch], (a & 0xF) as u8, value))
        })
        &&& (t is Rom || t is OpenBus || t is Joy2) ==> new == charged
        &&& t is SystemReg ==> Self::system_write(old.dividend, old.mult_a, new, addr, value)
        &&& t is ApuPort ==> new.spc.cpu_in@ == old.spc.cpu_in@.update((addr & 3) as int, value)
        &&& (t is PpuReg && (addr == 0x2118 || addr == 0x2119)) ==> {
            &&& new.ppu.vram@ == old.ppu.vram@.update(vram_byte_index(old.ppu.vmadd, addr == 0x2119), value)
            &&& new.ppu.vmadd == vmadd_after(old.ppu.vmadd, old.ppu.vmain, addr == 0x2119)
        }
    }

    /// What a write to the multiplier/divider registers does.
    pub open spec fn system_write(dividend: u16, mult_a: u8, new: Bus, addr: u16, value: u8) -> bool {
        &&& addr == 0x4202 ==> new.mult_a == value
        &&& addr == 0x4203 ==> new.div_result == mult_a as u16 * value as u16
        &&& addr == 0x4204 ==> new.dividend == (dividend & 0xFF00) | value as u16
        &&& addr == 0x4205 ==> new.dividend == (dividend & 0x00FF) | ((value as u16) << 8u16)
        &&& addr == 0x4206 && value == 0 ==> new.mult_result == 0xFFFF && new.div_result == dividend
        &&& addr == 0x4206 && value != 0 ==> new.mult_result == dividend / (value as u16) && new.div_result
            == dividend % (value as u16)
    }

    /// Write with DMA starts enabled (`allow_dma`) or suppressed: a DMA
    /// runs with them suppressed, so a transfer cannot start another one.
    #[verifier::rlimit(80)]
    #[verifier::spinoff_prover]
    fn write_impl(&mut self, bank: u8, addr: u16, value: u8, allow_dma: bool)
        requires
            old(self).wf(),
        ensures
            Self::progress(*old(self), *final(self)),
            Self::wrote(*old(self), *final(self), bank, addr, value),
        decreases (if allow_dma { 1int } else { 0int }), 3int,
    {
        proof {
            reveal(Bus::wrote);
            reveal(Bus::wrote_io);
        }
        self.charge_access();
        let b = bank as usize;
        let a = addr as usize;
        if a < 0x2000 && mmio_bank(b) {
            self.wram.set(a, value);
            return ;
        }
        if b == 0x7E || b == 0x7F {
            self.wram.set((b - 0x7E) * 0x10000 + a, value);
            return ;
        }
        if mmio_bank(b) && ((0x2100 <= a && a <= 0x2183) || a == 0x4016 || a == 0x4017 || (0x4200 <= a
            && a <= 0x421F) || (0x4300 <= a && a <= 0x437F)) {
            self.write_io(bank, addr, value, allow_dma);
        } else {
            self.write_cart(bank, addr, value);
        }
    }

    #[verifier::rlimit(40)]

    #[verifier::spinoff_prover]
    fn write_io(&mut self, bank: u8, addr: u16, value: u8, allow_dma: bool)
        requires
            old(self).wf(),
            Self::io_target(old(self).target(bank, addr)),
        ensures
            Self::progress(*old(self), *final(self)),
            Self::wrote_io(*old(self), *final(self), bank, addr, value),
        decreases (if allow_dma { 1int } else { 0int }), 2int,
    {
        proof {
            reveal(Bus::wrote_io);
        }
        let a = addr as usize;
        if a >= 0x2100 && a <= 0x213F {
            self.ppu.dbg_pc = self.dbg_pc;
            self.ppu.write_register(addr, value);
        } else if a >= 0x2140 && a <= 0x217F {
            proof {
                lemma_and_le_u16(addr, 3);
                vstd::bits::lemma_low_bits_mask_values();
                vstd::arithmetic::power2::lemma2_to64();
                vstd::bits::lemma_u8_low_bits_mask_is_mod((addr & 3) as u8, 2);
            }
            self.spc.write_port((addr & 3) as u8, value);
        } else if a == 0x2180 {
            proof {
                lemma_and_le_u32(self.wram_addr, 0x1FFFF);
            }
            let wa = (self.wram_addr & 0x1FFFF) as usize;
            self.wram.set(wa, value);
            self.wram_addr = self.wram_addr.wrapping_add(1) & 0x1FFFF;
        } else if a == 0x2181 {
            self.wram_addr = (self.wram_addr & !0xFFu32) | value as u32;
        } else if a == 0x2182 {
            self.wram_addr = (self.wram_addr & !0xFF00u32) | ((value as u32) << 8u32);
        } else if a == 0x2183 {
            self.wram_addr = (self.wram_addr & 0xFFFF) | ((value as u32 & 1) << 16u32);
        } else if a == 0x4016 {
            let old_latch = self.pad_latch;
            self.pad_latch = value & 1;
            if old_latch == 1 && self.pad_latch == 0 {
                self.pad1_shift = self.pad1_bits;
            }
            if self.pad_latch == 1 {
                self.pad1_shift = self.pad1_bits;
            }
        } else if a >= 0x4200 && a <= 0x421F {
            self.write_system(addr, value, allow_dma);
        } else if a >= 0x4300 && a <= 0x437F {
            self.write_dma(addr, value);
        }
    }

    /// The memory-like effects of a write to a system-area register.
    #[verifier::opaque]
    pub open spec fn wrote_io(old: Bus, new: Bus, bank: u8, addr: u16, value: u8) -> bool {
        let t = old.target(bank, addr);
        &&& t is WramData ==> new == (Bus {
            wram: new.wram,
            wram_addr: vstd::wrapping::u32_specs::wrapping_add(old.wram_addr, 1) & 0x1FFFF,
            ..old
        }) && new.wram@ == old.wram@.update((old.wram_addr & 0x1FFFF) as int, value)
        &&& t is DmaReg ==> ({
            let a = (addr - 0x4300) as u16;
            let ch = (a >> 4u16) as int;
            ch < 8 ==> new == (Bus { dma_channels: new.dma_channels, ..old }) && new.dma_channels@
                == old.dma_channels@.update(ch, spec_dma_reg_write(old.dma_channels[ch], (a & 0xF) as u8, value))
        })
        &&& t is Joy2 ==> new == old
        &&& t is SystemReg ==> Self::system_write(old.dividend, old.mult_a, new, addr, value)
        &&& t is ApuPort ==> new.spc.cpu_in@ == old.spc.cpu_in@.update((addr & 3) as int, value)
        &&& (t is PpuReg && (addr == 0x2118 || addr == 0x2119)) ==> {
            &&& new.ppu.vram@ == old.ppu.vram@.update(vram_byte_index(old.ppu.vmadd, addr == 0x2119), value)
            &&& new.ppu.vmadd == vmadd_after(old.ppu.vmadd, old.ppu.vmain, addr == 0x2119)
        }
    }

    /// Writes to the cartridge area: coprocessors, SRAM, GSU RAM.
    #[verifier::rlimit(40)]
    #[verifier::spinoff_prover]
    fn write_cart(&mut self, bank: u8, addr: u16, value: u8)
        requires
            old(self).wf(),
            !(old(self).target(bank, addr) is LowWram),
            !(old(self).target(bank, addr) is Wram),
            !Self::io_target(old(self).target(bank, addr)),
        ensures
            Self::progress(*old(self), *final(self)),
            old(self).target(bank, addr) is HiromSram ==> *final(self) == (Bus {
                sram: final(self).sram,
                sram_dirty: true,
                ..*old(self)
            }) && final(self).sram@ == old(self).sram@.update(hirom_sram_index(bank, addr, old(self).sram@.len()), value),
            old(self).target(bank, addr) is LoromSram ==> *final(self) == (Bus {
                sram: final(self).sram,
                sram_dirty: true,
                ..*old(self)
            }) && final(self).sram@ == old(self).sram@.update(lorom_sram_index(bank, addr, old(self).sram@.len()), value),
            (old(self).target(bank, addr) is Rom || old(self).target(bank, addr) is OpenBus) ==> *final(self) == *old(self),
    {
        let b = bank as usize;
        let a = addr as usize;
        if (b <= 0x1F || (b >= 0x80 && b <= 0x9F)) && a >= 0x6000 && a <= 0x7FFF && self.dsp1.is_some() {
            // DSP-1 (HiROM)
            match &mut self.dsp1 {
                Some(d) => d.set_byte(value, addr),
                None => {},
            }
        } else if ((b >= 0x20 && b <= 0x3F) || (b >= 0xA0 && b <= 0xBF)) && a >= 0x6000 && a <= 0x7FFF
            && self.hirom_sram && self.sram.len() > 0 {
            // SRAM (HiROM)
            let off = (((b & 0x0F) << 13usize) | (a & 0x1FFF)) % self.sram.len();
            proof {
                lemma_sram_offsets(b, a);
            }
            self.sram.set(off, value);
            self.sram_dirty = true;
        } else if (b <= 0x3F || (b >= 0x80 && b <= 0xBF)) && a >= 0x3000 && a <= 0x32FF && self.superfx.is_some() {
            // Super FX registers; a write can start the GSU.
            match &mut self.superfx {
                Some(f) => f.write_register(addr, value, self.rom.rom_bytes()),
                None => {},
            }
        } else if (b <= 0x3F || (b >= 0x80 && b <= 0xBF)) && a >= 0x6000 && a <= 0x7FFF && self.superfx.is_some() {
            // GSU RAM: first 8 KiB window
            match &mut self.superfx {
                Some(f) => f.ram.set(a - 0x6000, value),
                None => {},
            }
        } else if (b == 0x70 || b == 0x71 || b == 0xF0 || b == 0xF1) && self.superfx.is_some() {
            // GSU RAM: full banks
            proof {
                lemma_sram_offsets(b, a);
            }
            match &mut self.superfx {
                Some(f) => f.ram.set(((b & 1) << 16usize) | a, value),
                None => {},
            }
        } else if ((b >= 0x70 && b <= 0x7D) || (b >= 0xF0 && b <= 0xFD)) && self.sram.len() > 0 {
            // SRAM (LoROM)
            let off = (((b & 0xF) << 15usize) | (a & 0x7FFF)) % self.sram.len();
            proof {
                lemma_sram_offsets(b, a);
            }
            self.sram.set(off, value);
            self.sram_dirty = true;
        }
    }

    /// $4200-$421F writes; $420B starts general DMA when `allow_dma`.
    fn write_system(&mut self, addr: u16, value: u8, allow_dma: bool)
        requires
            old(self).wf(),
        ensures
            Self::progress(*old(self), *final(self)),
            Self::system_write(old(self).dividend, old(self).mult_a, *final(self), addr, value),
            addr != 0x420B ==> final(self).wram == old(self).wram && final(self).dma_channels == old(self).dma_channels,
        decreases (if allow_dma { 1int } else { 0int }), 1int,
    {
        if addr == 0x4200 {
            self.nmitimen = value;
            if value & 0x30 == 0 {
                self.irq_line = false;
                self.irq_pending_flag = false;
            }
        } else if addr == 0x4202 {
            self.mult_a = value;
        } else if addr == 0x4203 {
            // The product goes to $4216/7 (shared with the remainder);
            // $4214/5 keeps the last quotient.
            assert(self.mult_a as u16 * value as u16 <= 255 * 255) by (nonlinear_arith)
                requires
                    self.mult_a <= 255,
                    value <= 255,
            ;
            self.div_result = self.mult_a as u16 * value as u16;
        } else if addr == 0x4204 {
            self.dividend = (self.dividend & 0xFF00) | value as u16;
        } else if addr == 0x4205 {
            self.dividend = (self.dividend & 0x00FF) | ((value as u16) << 8u16);
        } else if addr == 0x4206 {
            if value == 0 {
                self.mult_result = 0xFFFF;
                self.div_result = self.dividend;
            } else {
                self.mult_result = self.dividend / value as u16;
                self.div_result = self.dividend % value as u16;
            }
        } else if addr == 0x4207 {
            self.htime = (self.htime & 0xFF00) | value as u16;
        } else if addr == 0x4208 {
            self.htime = (self.htime & 0x00FF) | ((value as u16 & 1) << 8u16);
        } else if addr == 0x4209 {
            self.vtime = (self.vtime & 0xFF00) | value as u16;
        } else if addr == 0x420A {
            self.vtime = (self.vtime & 0x00FF) | ((value as u16 & 1) << 8u16);
        } else if addr == 0x420B {
            // General DMA: each enabled channel in turn. The transfer ticks
            // the PPU/APU per byte itself.
            if allow_dma {
                let ghost pre = *self;
                let mut ch: usize = 0;
                while ch < 8
                    invariant
                        ch <= 8,
                        allow_dma,
                        Self::progress(pre, *self),
                        pre == *old(self),
                    decreases 8 - ch,
                {
                    if (value >> (ch as u8)) & 1 != 0 {
                        self.run_dma(ch);
                    }
                    ch += 1;
                }
            }
        } else if addr == 0x420C {
            self.hdma_active = value;
        } else if addr == 0x420D {
            self.fastrom = value & 1 != 0;
        }
    }

    /// Where a DMA transfer of `count` bytes leaves the A-bus address.
    pub open spec fn dma_end_addr(d: DmaChannel) -> u16 {
        let count: int = if d.size == 0 { 0x10000 } else { d.size as int };
        if d.control & 0x08 != 0 {
            d.a_addr
        } else if d.control & 0x10 != 0 {
            ((d.a_addr - count) % 0x10000) as u16
        } else {
            ((d.a_addr + count) % 0x10000) as u16
        }
    }

    /// General DMA on channel `ch`. Returns the master clocks it took
    /// (8 per byte plus 8 for setup).
    #[verifier::rlimit(100)]
    #[verifier::spinoff_prover]
    fn run_dma(&mut self, ch: usize) -> (cycles: u64)
        requires
            old(self).wf(),
            ch < 8,
        ensures
            Self::progress(*old(self), *final(self)),
            final(self).mdma_pending,
            final(self).access_extra == old(self).access_extra,
            final(self).dma_channels[ch as int].a_addr == Self::dma_end_addr(old(self).dma_channels[ch as int]),
            cycles == 8 + 8 * (if old(self).dma_channels[ch as int].size == 0 {
                0x10000
            } else {
                old(self).dma_channels[ch as int].size as int
            }),
        decreases 1int, 0int,
    {
        // DMA charges its own 8 master clocks per byte; the accesses below
        // must not accumulate CPU wait states.
        let saved_extra = self.access_extra;
        self.access_extra = 0;
        let d = self.dma_channels[ch];
        let count: usize = if d.size == 0 {
            0x10000
        } else {
            d.size as usize
        };
        let to_b = d.control & 0x80 == 0;  // A->B when bit 7 is clear
        let mode = d.control & 0x07;
        proof {
            lemma_and_le_u8(d.control, 0x07);
        }
        let fixed = d.control & 0x08 != 0;
        let decrement = d.control & 0x10 != 0;
        let mut a_addr = d.a_addr;
        let step: u16 = if fixed {
            0
        } else if decrement {
            0xFFFF
        } else {
            1
        };
        // WRAM-to-WRAM DMA ($7E/$7F -> $2180) transfers nothing.
        let invalid = (d.a_bank == 0x7E || d.a_bank == 0x7F) && d.b_reg == 0x80 && to_b;
        // Setup: 8 master clocks
        self.tick_master(8);
        let ghost pre = *old(self);
        let ghost a0 = d.a_addr as int;
        let ghost dir: int = if fixed { 0 } else if decrement { -1 } else { 1 };
        let mut cycles: u64 = 8;
        let mut i: usize = 0;
        while i < count
            invariant
                i <= count,
                count <= 0x10000,
                count == (if d.size == 0 { 0x10000 } else { d.size as int }),
                d == pre.dma_channels[ch as int],
                mode <= 7,
                ch < 8,
                Self::progress(pre, *self),
                cycles == 8 + 8 * i,
                a_addr as int == (a0 + dir * i) % 0x10000,
                dir == (if fixed { 0int } else if decrement { -1int } else { 1int }),
                step == (if fixed { 0u16 } else if decrement { 0xFFFFu16 } else { 1u16 }),
                fixed == (d.control & 0x08 != 0),
                decrement == (d.control & 0x10 != 0),
                0 <= a0 < 0x10000,
            decreases count - i,
        {
            if !invalid {
                let b_addr: u16 = 0x2100 | (d.b_reg as u16).wrapping_add(dma_offset(mode, i) as u16);
                self.dma_move(d.a_bank, a_addr, b_addr, to_b);
            }
            proof {
                lemma_dma_addr_step(a0, dir, i as int, a_addr, step);
            }
            a_addr = a_addr.wrapping_add(step);
            self.dma_byte_time();
            cycles = cycles + 8;
            i += 1;
        }
        proof {
            if dir == 0 {
                assert(a_addr as int == a0 % 0x10000);
                vstd::arithmetic::div_mod::lemma_small_mod(a0 as nat, 0x10000);
            }
        }
        self.dma_channels[ch].a_addr = a_addr;
        self.mdma_pending = true;
        self.access_extra = saved_extra;
        cycles
    }

    /// The 8 master clocks of one DMA byte. HDMA fires once per scanline
    /// even during a long DMA, and the line-0 pointer reload likewise.
    fn dma_byte_time(&mut self)
        requires
            old(self).wf(),
        ensures
            Self::progress(*old(self), *final(self)),
        decreases 0int, 9int,
    {
        self.tick_master(8);
        self.hdma_service(false);
    }

    /// Move one byte between A-bus `bank:a_addr` and B-bus `b_addr`, in
    /// the direction `to_b`; DMA starts are suppressed.
    fn dma_move(&mut self, bank: u8, a_addr: u16, b_addr: u16, to_b: bool)
        requires
            old(self).wf(),
        ensures
            Self::progress(*old(self), *final(self)),
        decreases 0int, 4int,
    {
        if to_b {
            let v = self.read(bank, a_addr);
            self.write_impl(0, b_addr, v, false);
        } else {
            let v = self.read(0, b_addr);
            self.write_impl(bank, a_addr, v, false);
        }
    }

    /// HDMA for one scanline; its bus accesses charge no CPU wait states.
    pub fn run_hdma(&mut self)
        requires
            old(self).wf(),
        ensures
            Self::progress(*old(self), *final(self)),
            final(self).access_extra == old(self).access_extra,
            old(self).hdma_active == 0 ==> *final(self) == *old(self),
        decreases 1int, 5int,
    {
        let saved_extra = self.take_access_extra();
        self.run_hdma_inner(true);
        self.access_extra = saved_extra;
    }

    #[verifier::rlimit(60)]

    #[verifier::spinoff_prover]
    fn run_hdma_inner(&mut self, allow_dma: bool)
        requires
            old(self).wf(),
        ensures
            Self::progress(*old(self), *final(self)),
            old(self).hdma_active == 0 ==> *final(self) == *old(self),
        decreases (if allow_dma { 1int } else { 0int }), 4int,
    {
        let mut ch: usize = 0;
        while ch < 8
            invariant
                ch <= 8,
                Self::progress(*old(self), *self),
                old(self).hdma_active == 0 ==> *self == *old(self),
            decreases 8 - ch,
        {
            proof {
                crate::bits::lemma_zero_bits(ch as u8, 1);
            }
            if (self.hdma_active >> (ch as u8)) & 1 == 0 {
                ch += 1;
                continue ;
            }
            let mut d = self.dma_channels[ch];
            if d.line_count == 0 {
                // Load the next table entry.
                let line = self.read(d.a_bank, d.hdma_a);
                d.hdma_a = d.hdma_a.wrapping_add(1);
                if line == 0 {
                    self.hdma_active = self.hdma_active & !(1u8 << (ch as u8));
                    d.hdma_do_transfer = false;
                    self.dma_channels[ch] = d;
                    ch += 1;
                    continue ;
                }
                d.line_count = line;
                // Indirect addressing ($43x0 bit 6): every entry carries a
                // 2-byte data pointer in bank $43x7.
                if d.control & 0x40 != 0 {
                    let lo = self.read(d.a_bank, d.hdma_a) as u16;
                    let hi = self.read(d.a_bank, d.hdma_a.wrapping_add(1)) as u16;
                    d.size = lo | (hi << 8u16);
                    d.hdma_a = d.hdma_a.wrapping_add(2);
                }
                d.hdma_do_transfer = true;
            }
            // Count bit 7 set: transfer every line with the pointer
            // advancing; clear: transfer on the entry's first line only.
            let every_line = d.line_count & 0x80 != 0;
            let indirect = d.control & 0x40 != 0;
            let mode = d.control & 0x07;
            proof {
                lemma_and_le_u8(d.control, 0x07);
            }
            let to_b = d.control & 0x80 == 0;
            // bytes transferred per line by transfer mode
            let bytes: usize = if mode == 0 {
                1
            } else if mode == 1 || mode == 2 || mode == 6 {
                2
            } else {
                4
            };
            if d.hdma_do_transfer {
                let mut i: usize = 0;
                while i < bytes
                    invariant
                        i <= bytes,
                        bytes <= 4,
                        mode <= 7,
                        Self::progress(*old(self), *self),
                    decreases bytes - i,
                {
                    let b_addr: u16 = 0x2100 | (d.b_reg as u16).wrapping_add(dma_offset(mode, i) as u16);
                    let (bank, addr) = if indirect {
                        (d.hdma_bank, d.size.wrapping_add(i as u16))
                    } else {
                        (d.a_bank, d.hdma_a.wrapping_add(i as u16))
                    };
                    let v = self.read(bank, addr);
                    if to_b {
                        self.write_impl(0, b_addr, v, allow_dma);
                    } else {
                        let bv = self.read(0, b_addr);
                        self.write_impl(bank, addr, bv, allow_dma);
                    }
                    i += 1;
                }
                if indirect {
                    d.size = d.size.wrapping_add(bytes as u16);
                } else {
                    d.hdma_a = d.hdma_a.wrapping_add(bytes as u16);
                }
            }
            d.hdma_do_transfer = every_line;
            d.line_count = (d.line_count & 0x80) | ((d.line_count & 0x7F).wrapping_sub(1));
            if d.line_count & 0x7F == 0 {
                d.line_count = 0;
            }
            self.dma_channels[ch] = d;
            ch += 1;
        }
    }

    /// At the line-0 frame wrap: reload every channel's HDMA table pointer.
    pub fn hdma_frame_reset(&mut self)
        ensures
            forall|c: int| 0 <= c < 8 ==> #[trigger] final(self).dma_channels[c] == (DmaChannel {
                hdma_a: old(self).dma_channels[c].a_addr,
                line_count: 0,
                hdma_do_transfer: false,
                ..old(self).dma_channels[c]
            }),
            *final(self) == (Bus { dma_channels: final(self).dma_channels, ..*old(self) }),
    {
        let mut ch: usize = 0;
        while ch < 8
            invariant
                ch <= 8,
                *self == (Bus { dma_channels: self.dma_channels, ..*old(self) }),
                forall|c: int| 0 <= c < ch ==> #[trigger] self.dma_channels[c] == (DmaChannel {
                    hdma_a: old(self).dma_channels[c].a_addr,
                    line_count: 0,
                    hdma_do_transfer: false,
                    ..old(self).dma_channels[c]
                }),
                forall|c: int| ch <= c < 8 ==> #[trigger] self.dma_channels[c] == old(self).dma_channels[c],
            decreases 8 - ch,
        {
            let mut d = self.dma_channels[ch];
            d.hdma_a = d.a_addr;
            d.line_count = 0;
            d.hdma_do_transfer = false;
            self.dma_channels[ch] = d;
            ch += 1;
        }
    }
}

/// Value of the read-only arithmetic and joypad registers $4214-$4219.
pub open spec fn spec_system_value(b: Bus, addr: u16) -> u8 {
    if addr == 0x4214 {
        b.mult_result as u8
    } else if addr == 0x4215 {
        (b.mult_result >> 8u16) as u8
    } else if addr == 0x4216 {
        b.div_result as u8
    } else if addr == 0x4217 {
        (b.div_result >> 8u16) as u8
    } else if addr == 0x4218 {
        b.pad1 as u8
    } else {
        (b.pad1 >> 8u16) as u8
    }
}

/// One DMA step moves the A-bus address by `dir` (0, -1 or +1) modulo 64 KiB.
proof fn lemma_dma_addr_step(a0: int, dir: int, i: int, a: u16, step: u16)
    requires
        a as int == (a0 + dir * i) % 0x10000,
        step == (if dir == 0 { 0u16 } else if dir == -1 { 0xFFFFu16 } else { 1u16 }),
        dir == 0 || dir == 1 || dir == -1,
    ensures
        vstd::wrapping::u16_specs::wrapping_add(a, step) as int == (a0 + dir * (i + 1)) % 0x10000,
{
    let x = (a0 + dir * i) % 0x10000;
    vstd::arithmetic::div_mod::lemma_add_mod_noop(a0 + dir * i, dir, 0x10000);
    vstd::arithmetic::div_mod::lemma_mod_twice(a0 + dir * i, 0x10000);
    assert(dir * (i + 1) == dir * i + dir) by (nonlinear_arith);
    vstd::arithmetic::div_mod::lemma_add_mod_noop(x, dir, 0x10000);
    if dir == -1 {
        vstd::arithmetic::div_mod::lemma_add_mod_noop(x, 0xFFFF, 0x10000);
        assert((x + 0xFFFF) % 0x10000 == (x - 1) % 0x10000) by {
            vstd::arithmetic::div_mod::lemma_mod_add_multiples_vanish(x - 1, 0x10000);
        }
    }
}

proof fn lemma_sram_offsets(b: usize, a: usize)
    by (bit_vector)
    requires
        b < 256,
        a < 0x10000,
    ensures
        (((b & 0x0F) << 13usize) | (a & 0x1FFF)) == (b & 0x0F) * 0x2000 + (a & 0x1FFF),
        (((b & 0x0F) << 15usize) | (a & 0x7FFF)) == (b & 0x0F) * 0x8000 + (a & 0x7FFF),
        (((b & 1) << 16usize) | a) == (b & 1) * 0x10000 + a,
        (((b & 1) << 16usize) | a) < 0x20000,
{
}

/// A byte the S-CPU writes to an APU port ($2140-$217F, mirrored every four
/// addresses) is what the SPC700 reads at $F4 plus the port number.
pub proof fn lemma_apu_port_write_reaches_spc(old: Bus, new: Bus, bank: u8, addr: u16, value: u8)
    requires
        Bus::wrote(old, new, bank, addr, value),
        old.target(bank, addr) is ApuPort,
    ensures
        spc_plain_read(new.spc, (0xF4 + (addr & 3)) as u16) == Some(value),
{
    reveal(Bus::wrote);
    lemma_and_le_u16(addr, 3);
    assert(new.spc.cpu_in@[(addr & 3) as int] == value);
}

/// A write to VRAM through the data ports $2118 (low byte) and $2119 (high
/// byte) stores the byte at the current VRAM word address and steps it.
pub proof fn lemma_vram_port_write(old: Bus, new: Bus, bank: u8, addr: u16, value: u8)
    requires
        Bus::wrote(old, new, bank, addr, value),
        old.target(bank, addr) is PpuReg,
        addr == 0x2118 || addr == 0x2119,
    ensures
        new.ppu.vram@[vram_byte_index(old.ppu.vmadd, addr == 0x2119)] == value,
        new.ppu.vmadd == vmadd_after(old.ppu.vmadd, old.ppu.vmain, addr == 0x2119),
{
    reveal(Bus::wrote);
    lemma_and_le_u16(old.ppu.vmadd, 0x7FFF);
    assert(0 <= vram_byte_index(old.ppu.vmadd, addr == 0x2119) < old.ppu.vram@.len());
}

/// A write to WRAM (either mirror) is what the next read of that address returns.
pub proof fn lemma_wram_write_then_read(old: Bus, new: Bus, bank: u8, addr: u16, value: u8)
    requires
        old.wf(),
        old.target(bank, addr) is LowWram || old.target(bank, addr) is Wram,
        Bus::wrote(old, new, bank, addr, value),
    ensures
        new.peek(bank, addr) == value,
{
    reveal(Bus::wrote);
}

/// The first 8 KiB of WRAM appear at $0000-$1FFF of every system bank.
pub proof fn lemma_low_wram_mirror(b: Bus, bank: u8, addr: u16)
    requires
        b.wf(),
        b.target(bank, addr) is LowWram,
    ensures
        b.peek(bank, addr) == b.peek(0x7E, addr),
{
}

/// The hardware divider: quotient * divisor + remainder = dividend, with the
/// remainder below the divisor; a zero divisor gives quotient $FFFF and the
/// dividend as remainder.
pub proof fn lemma_divider(dividend: u16, mult_a: u8, new: Bus, value: u8)
    requires
        Bus::system_write(dividend, mult_a, new, 0x4206, value),
    ensures
        value != 0 ==> new.mult_result * value + new.div_result == dividend && new.div_result < value,
        value == 0 ==> new.mult_result == 0xFFFF && new.div_result == dividend,
{
    if value != 0 {
        let d = dividend as int;
        let v = value as int;
        vstd::arithmetic::div_mod::lemma_fundamental_div_mod(d, v);
        vstd::arithmetic::div_mod::lemma_mod_bound(d, v);
        assert(new.mult_result == d / v);
        assert(new.div_result == d % v);
        assert((d / v) * v == v * (d / v)) by (nonlinear_arith);
    }
}

/// The hardware multiplier: the product of $4202 and the byte written to
/// $4203 lands in $4216/7 exactly (8 x 8 bits never overflows 16).
pub proof fn lemma_multiplier(dividend: u16, mult_a: u8, new: Bus, value: u8)
    requires
        Bus::system_write(dividend, mult_a, new, 0x4203, value),
    ensures
        new.div_result == mult_a * value,
{
    assert(mult_a * value <= 255 * 255) by (nonlinear_arith)
        requires
            mult_a <= 255,
            value <= 255,
    ;
}

} // verus!
