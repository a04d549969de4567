//! Super FX (GSU) coprocessor emulation.
//!
//! Registers are u32 holding possibly unmasked values, u16/i16 wrapping on
//! reads, arithmetic shifts, truncation on store. Branches have one delay
//! slot and the ROM buffer is refilled whenever R14 changes. ROM banks are
//! located through an offset table (banks $00-$3F hold 32 KiB blocks, the
//! others 64 KiB).
//!
//! The cache only tracks the base register, the active flag and
//! per-16-byte dirty flags; the 512-byte cache RAM is never overlaid onto
//! the program bank.

use vstd::prelude::*;
use crate::bits::{lemma_and_le_u8, lemma_and_le_u16, lemma_and_le_u32};

verus! {

/// Register file offsets within the $3000-$32FF page.
pub const GSU_SFR: usize = 0x30;
pub const GSU_PBR: usize = 0x34;
pub const GSU_ROMBR: usize = 0x36;
pub const GSU_CFGR: usize = 0x37;
pub const GSU_SCBR: usize = 0x38;
pub const GSU_CLSR: usize = 0x39;
pub const GSU_SCMR: usize = 0x3A;
pub const GSU_RAMBR: usize = 0x3C;
pub const GSU_CBR: usize = 0x3E;

// SFR flag bits.
pub const FLG_Z: u32 = 0x2;
pub const FLG_CY: u32 = 0x4;
pub const FLG_S: u32 = 0x8;
pub const FLG_OV: u32 = 0x10;
pub const FLG_G: u32 = 0x20;
pub const FLG_IRQ: u32 = 0x8000;
pub const FLG_ALT1: u32 = 0x100;
pub const FLG_ALT2: u32 = 0x200;
pub const FLG_B: u32 = 0x1000;

pub const FX_RAM_BANKS: u32 = 4;

/// GSU RAM size: 2 banks of 64 KB.
pub const RAM_BANKS: usize = 2;

/// Per-scanline instruction budget: 5823405 instructions per second spread
/// over 60 frames of 262 lines (rounded down).
pub const SPEED_PER_LINE: u32 = 370;

/// Flag for `rom_bank_off` entries of the low banks, whose 32 KiB blocks
/// each appear twice per 64 KiB of address space.
pub const LOW_BANK_FLAG: usize = 0x8000_0000;

pub struct SuperFx {
    /// SNES-visible register space $3000-$32FF (R0-R15, SFR..., cache RAM).
    pub regs: [u8; 0x300],
    /// 128 KB GSU work RAM.
    pub ram: Vec<u8>,
    // --- internal registers ---
    pub av_reg: [u32; 16],
    pub color_reg: u32,
    pub plot_option_reg: u32,
    pub status_reg: u32,
    pub prg_bank_reg: u32,
    pub rom_bank_reg: u32,
    pub ram_bank_reg: u32,
    pub cache_base_reg: u32,
    pub last_ram_adr: u32,
    pub dreg: usize,
    pub sreg: usize,
    pub rom_buffer: u8,
    pub pipe: u8,
    // status register working copies
    pub sign: u32,
    pub zero: u32,
    pub carry: u32,
    pub overflow: i32,
    /// ROM offset of each of the 256 program/ROM banks (0x70-0x73 alias RAM).
    pub rom_bank_off: [usize; 256],
    pub mode: u32,
    pub prev_mode: u32,
    pub screen_base: usize,  // offset into ram
    pub screen_col: [usize; 32],  // offset of each screen column
    pub screen_x: [i32; 32],
    pub screen_height: u32,
    pub screen_real_height: u32,
    pub prev_screen_height: u32,
    pub scbr_dirty: bool,
    pub ram_bank_off: usize,  // current RAM bank offset into ram
    pub cache_flags: u32,
    pub cache_active: bool,
    /// Per-scanline instruction budget.
    pub speed_per_line: u32,
    /// Set when the GSU already ran this scanline.
    pub one_line_done: bool,
    /// GSU IRQ output; OR-ed into the SNES CPU IRQ line by the bus.
    pub irq_line: bool,
    /// Total GSU instructions executed (verification aid).
    pub instruction_count: u64,
}

/// `s` after the reset that ends most instructions: ALT1, ALT2 and B
/// cleared, source and destination registers back to R0.
pub open spec fn fx_cleared(s: SuperFx) -> SuperFx {
    SuperFx { status_reg: s.status_reg & !(FLG_ALT1 | FLG_ALT2 | FLG_B), dreg: 0, sreg: 0, ..s }
}

/// `regs` with R15 (the program counter) advanced by one.
pub open spec fn fx_r15_next(regs: Seq<u32>) -> Seq<u32> {
    regs.update(15, vstd::wrapping::u32_specs::wrapping_add(regs[15], 1))
}

/// `new` equals `base` except for the register file, which is `regs`.
pub open spec fn fx_with_regs(new: SuperFx, base: SuperFx, regs: Seq<u32>) -> bool {
    new == (SuperFx { av_reg: new.av_reg, ..base }) && new.av_reg@ == regs
}

/// GSU opcodes whose whole effect `fx_effect` states: NOP, the ALT1/ALT2/
/// ALT3 prefixes, WITH, TO and FROM as prefixes (B clear), and INC/DEC of
/// R0-R13.
pub open spec fn fx_specified(op: u8, status: u32) -> bool {
    ||| op == 0x01 || op == 0x3D || op == 0x3E || op == 0x3F
    ||| 0x20 <= op <= 0x2F
    ||| (0x10 <= op <= 0x1F || 0xB0 <= op <= 0xBF) && status & FLG_B == 0
    ||| 0xD0 <= op <= 0xDD
    ||| 0xE0 <= op <= 0xED
}

/// `new` is the state after `op` from `s` (the next opcode already in the
/// pipe), for the opcodes of `fx_specified`.
pub open spec fn fx_effect(s: SuperFx, new: SuperFx, op: u8) -> bool {
    let reg = (op & 0xF) as int;
    if op == 0x01 {
        fx_with_regs(new, fx_cleared(s), fx_r15_next(s.av_reg@))
    } else if op == 0x3D || op == 0x3E || op == 0x3F {
        let alt = if op == 0x3D { FLG_ALT1 } else if op == 0x3E { FLG_ALT2 } else { FLG_ALT1 | FLG_ALT2 };
        fx_with_regs(new, SuperFx { status_reg: (s.status_reg | alt) & !FLG_B, ..s }, fx_r15_next(s.av_reg@))
    } else if 0x20 <= op <= 0x2F {
        fx_with_regs(
            new,
            SuperFx { status_reg: s.status_reg | FLG_B, sreg: reg as usize, dreg: reg as usize, ..s },
            fx_r15_next(s.av_reg@),
        )
    } else if 0x10 <= op <= 0x1F {
        fx_with_regs(new, SuperFx { dreg: reg as usize, ..s }, fx_r15_next(s.av_reg@))
    } else if 0xB0 <= op <= 0xBF {
        fx_with_regs(new, SuperFx { sreg: reg as usize, ..s }, fx_r15_next(s.av_reg@))
    } else {
        let v = if op >= 0xE0 {
            vstd::wrapping::u32_specs::wrapping_sub(s.av_reg[reg], 1)
        } else {
            vstd::wrapping::u32_specs::wrapping_add(s.av_reg[reg], 1)
        };
        fx_with_regs(new, SuperFx { sign: v, zero: v, ..fx_cleared(s) }, fx_r15_next(s.av_reg@.update(reg, v)))
    }
}

/// SUB: Sreg - Rn on their low 16 bits, held as the 32-bit pattern the
/// GSU stores (negative differences sign-extended).
pub open spec fn fx_sub_value(a: u16, b: u16) -> u32 {
    ((a as i32) - (b as i32)) as u32
}

/// ADD: Sreg + Rn on their low 16 bits, the carry kept in bit 16.
pub open spec fn fx_add_value(a: u16, b: u16) -> u32 {
    ((a as i32) + (b as i32)) as u32
}

/// The 16 bits a register read returns of SUB's and ADD's results.
proof fn lemma_fx_add_sub_bits(a: u16, b: u16)
    by (bit_vector)
    ensures
        (fx_sub_value(a, b) as u16) as u32 + (b as u32) == (a as u32) || (fx_sub_value(a, b) as u16) as u32
            + (b as u32) == (a as u32) + 0x10000,
        (fx_add_value(a, b) as u16) as u32 == (a as u32) + (b as u32) || (fx_add_value(a, b) as u16) as u32 + 0x10000
            == (a as u32) + (b as u32),
{
}

/// SUB gives Sreg - Rn modulo 2^16, and SUB and ADD of the same register
/// undo each other on the 16-bit value a register read returns.
pub proof fn lemma_fx_sub_add(a: u16, b: u16)
    ensures
        (fx_sub_value(a, b) as u16 as int + b as int) % 0x10000 == a as int,
        a >= b ==> fx_sub_value(a, b) as u16 == a - b,
        fx_add_value(fx_sub_value(a, b) as u16, b) as u16 == a,
        fx_sub_value(fx_add_value(a, b) as u16, b) as u16 == a,
{
    lemma_fx_add_sub_bits(a, b);
    let d = fx_sub_value(a, b) as u16;
    let e = fx_add_value(a, b) as u16;
    lemma_fx_add_sub_bits(d, b);
    lemma_fx_add_sub_bits(e, b);
}

pub open spec fn is_screen_height(h: u32) -> bool {
    h == 128 || h == 160 || h == 192 || h == 256
}

/// Where a ROM-or-RAM bank read lands: `Ok(rom offset)` or `Err(ram offset)`.
pub open spec fn spec_bank_target(rom_bank_off: [usize; 256], bank: u32, addr: u32) -> Result<int, int> {
    let b = (bank & 0xFF) as int;
    if 0x70 <= b < 0x74 {
        Err(((b - 0x70) % 2) * 0x10000 + (addr & 0xFFFF))
    } else {
        let off = rom_bank_off[b];
        if off & LOW_BANK_FLAG != 0 {
            Ok((off & !LOW_BANK_FLAG) + (addr & 0x7FFF))
        } else {
            Ok(off + (addr & 0xFFFF))
        }
    }
}

/// The byte a GSU bank read returns from ROM `rom` and RAM `ram`.
pub open spec fn spec_bank_read(rom_bank_off: [usize; 256], ram: Seq<u8>, rom: Seq<u8>, bank: u32, addr: u32) -> u8 {
    match spec_bank_target(rom_bank_off, bank, addr) {
        Err(a) => ram[a],
        Ok(a) => if rom.len() == 0 {
            0
        } else {
            rom[a % (rom.len() as int)]
        },
    }
}

/// Screen height selected by SCMR bits 2 and 5.
pub open spec fn spec_av_height(n: usize) -> u32 {
    if n == 0 {
        128
    } else if n == 1 {
        160
    } else if n == 2 {
        192
    } else {
        256
    }
}

/// Setting or clearing an ALU flag (Z, CY, S, OV) leaves the GO and IRQ bits alone.
proof fn lemma_alu_flag_keeps_run_bits(x: u32)
    ensures
        (x | FLG_Z) & (FLG_G | FLG_IRQ) == x & (FLG_G | FLG_IRQ),
        (x & !FLG_Z) & (FLG_G | FLG_IRQ) == x & (FLG_G | FLG_IRQ),
        (x | FLG_S) & (FLG_G | FLG_IRQ) == x & (FLG_G | FLG_IRQ),
        (x & !FLG_S) & (FLG_G | FLG_IRQ) == x & (FLG_G | FLG_IRQ),
        (x | FLG_OV) & (FLG_G | FLG_IRQ) == x & (FLG_G | FLG_IRQ),
        (x & !FLG_OV) & (FLG_G | FLG_IRQ) == x & (FLG_G | FLG_IRQ),
        (x | FLG_CY) & (FLG_G | FLG_IRQ) == x & (FLG_G | FLG_IRQ),
        (x & !FLG_CY) & (FLG_G | FLG_IRQ) == x & (FLG_G | FLG_IRQ),
{
    assert(
        (x | 2u32) & (0x20u32 | 0x8000u32) == x & (0x20u32 | 0x8000u32)
        && (x & !2u32) & (0x20u32 | 0x8000u32) == x & (0x20u32 | 0x8000u32)
        && (x | 8u32) & (0x20u32 | 0x8000u32) == x & (0x20u32 | 0x8000u32)
        && (x & !8u32) & (0x20u32 | 0x8000u32) == x & (0x20u32 | 0x8000u32)
        && (x | 0x10u32) & (0x20u32 | 0x8000u32) == x & (0x20u32 | 0x8000u32)
        && (x & !0x10u32) & (0x20u32 | 0x8000u32) == x & (0x20u32 | 0x8000u32)
        && (x | 4u32) & (0x20u32 | 0x8000u32) == x & (0x20u32 | 0x8000u32)
        && (x & !4u32) & (0x20u32 | 0x8000u32) == x & (0x20u32 | 0x8000u32)
    ) by (bit_vector);
}

/// Tagging a ROM block offset with the low-bank flag, and removing it.
proof fn lemma_low_bank_flag(x: usize)
    by (bit_vector)
    ensures
        x < 0x200000 ==> (x | 0x8000_0000usize) == x + 0x8000_0000usize,
        x & !0x8000_0000usize <= x,
{
}

fn av_height(n: usize) -> (h: u32)
    ensures
        h == spec_av_height(n),
        is_screen_height(h),
{
    if n == 0 {
        128
    } else if n == 1 {
        160
    } else if n == 2 {
        192
    } else {
        256
    }
}

/// Bytes per 8-pixel screen column unit for each colour mode.
fn av_mult(mode: u32) -> (m: u32)
    ensures
        m <= 64,
{
    if mode == 0 {
        16
    } else if mode == 1 {
        32
    } else if mode == 2 {
        32
    } else {
        64
    }
}

/// Mask of pixel column `x` within its bitplane byte (leftmost pixel in bit 7).
fn pixel_bit(x: u32) -> (v: u8)
    ensures
        v == (128u8 >> ((x & 7) as u8)),
{
    proof {
        lemma_and_le_u32(x, 7);
    }
    128u8 >> (x & 7) as u8
}

impl SuperFx {
    pub open spec fn wf(&self) -> bool {
        &&& self.ram@.len() == 0x20000
        &&& self.dreg < 16
        &&& self.sreg < 16
        &&& (self.ram_bank_off == 0 || self.ram_bank_off == 0x10000)
        &&& is_screen_height(self.screen_height)
        &&& is_screen_height(self.screen_real_height)
        &&& self.mode <= 3
        &&& self.screen_base <= 0x20000
        &&& forall|i: int| 0 <= i < 256 ==> #[trigger] self.rom_bank_off[i] < 0x1_0000_0000
    }

    /// `rom_len` is at least one 32 KiB block (the cartridge loader
    /// guarantees it).
    pub fn new(rom_len: usize) -> (fx: Self)
        requires
            rom_len >= 0x8000,
        ensures
            fx.wf(),
            fx.pipe == 0x01,
            !fx.irq_line,
            !fx.one_line_done,
            fx.instruction_count == 0,
            fx.speed_per_line == SPEED_PER_LINE,
            forall|i: int| 0 <= i < 0x20000 ==> fx.ram@[i] == 0,
    {
        let mut n_rom_banks = rom_len / 0x8000;
        // The GSU can't access more than 2 MB (16 Mbits).
        if n_rom_banks > 0x20 {
            n_rom_banks = 0x20;
        }
        // ROM bank offset table.
        let mut rom_bank_off = [0usize;256];
        let mut i: usize = 0;
        while i < 256
            invariant
                1 <= n_rom_banks <= 0x20,
                i <= 256,
                forall|j: int| 0 <= j < i ==> #[trigger] rom_bank_off[j] < 0x1_0000_0000,
            decreases 256 - i,
        {
            let mut b = i % 0x80;
            if b >= 0x40 {
                if n_rom_banks > 1 {
                    b = b % n_rom_banks;
                } else {
                    b = b % 2;
                }
                rom_bank_off[i] = b * 0x10000;
            } else {
                b = b % (n_rom_banks * 2);
                // Each 64 KB chunk b holds the 32 KB ROM block b twice, i.e.
                // file offset (b << 15) + (addr & 0x7FFF); the & 0x7FFF is
                // applied on read.
                let blk: usize = b * 0x8000;
                proof {
                    lemma_low_bank_flag(blk);
                }
                rom_bank_off[i] = blk | LOW_BANK_FLAG;
            }
            i += 1;
        }
        let mut fx = SuperFx {
            regs: [0;0x300],
            ram: vec![0; RAM_BANKS * 0x10000],
            av_reg: [0;16],
            color_reg: 0,
            plot_option_reg: 0,
            status_reg: 0,
            prg_bank_reg: 0,
            rom_bank_reg: 0,
            ram_bank_reg: 0,
            cache_base_reg: 0,
            cache_flags: 0,
            last_ram_adr: 0,
            dreg: 0,
            sreg: 0,
            rom_buffer: 0,
            pipe: 0x01,  // start with a nop in the pipe
            sign: 0,
            zero: 0,
            carry: 0,
            overflow: 0,
            rom_bank_off,
            mode: 0,
            prev_mode: 0xFFFF_FFFF,
            screen_base: 0,
            screen_col: [0;32],
            screen_x: [0;32],
            screen_height: 128,
            screen_real_height: 128,
            prev_screen_height: 0xFFFF_FFFF,
            scbr_dirty: false,
            ram_bank_off: 0,
            cache_active: false,
            speed_per_line: SPEED_PER_LINE,
            one_line_done: false,
            irq_line: false,
            instruction_count: 0,
        };
        fx.regs[0x3B] = 0;  // VCR version number
        fx.read_register_space();
        fx
    }

    // ----- helpers -----
    fn tf(&self, f: u32) -> (b: bool)
        ensures
            b == (self.status_reg & f != 0),
    {
        self.status_reg & f != 0
    }

    fn clrflags(&mut self)
        requires
            old(self).wf(),
        ensures
            final(self).wf(),
            *final(self) == (SuperFx {
                status_reg: old(self).status_reg & !(FLG_ALT1 | FLG_ALT2 | FLG_B),
                dreg: 0,
                sreg: 0,
                ..*old(self)
            }),
    {
        self.status_reg = self.status_reg & !(FLG_ALT1 | FLG_ALT2 | FLG_B);
        self.dreg = 0;
        self.sreg = 0;
    }

    fn r(&self, i: usize) -> (v: u32)
        requires
            i < 16,
        ensures
            v == self.av_reg[i as int],
    {
        self.av_reg[i]
    }

    fn r15(&self) -> (v: u32)
        ensures
            v == self.av_reg[15],
    {
        self.av_reg[15]
    }

    fn inc_r15(&mut self)
        requires
            old(self).wf(),
        ensures
            final(self).wf(),
            final(self).av_reg@ == old(self).av_reg@.update(15, vstd::wrapping::u32_specs::wrapping_add(old(self).av_reg[15], 1)),
            *final(self) == (SuperFx { av_reg: final(self).av_reg, ..*old(self) }),
    {
        self.av_reg[15] = self.av_reg[15].wrapping_add(1);
    }

    fn sreg(&self) -> (v: u32)
        requires
            self.wf(),
        ensures
            v == self.av_reg[self.sreg as int],
    {
        self.av_reg[self.sreg]
    }

    fn set_dreg(&mut self, v: u32)
        requires
            old(self).wf(),
        ensures
            final(self).wf(),
            final(self).av_reg@ == old(self).av_reg@.update(old(self).dreg as int, v),
            *final(self) == (SuperFx { av_reg: final(self).av_reg, ..*old(self) }),
    {
        self.av_reg[self.dreg] = v;
    }

    fn sex8(v: u32) -> (r: i32)
        ensures
            r == v as u8 as i8 as i32,
            -128 <= r <= 127,
    {
        v as u8 as i8 as i32
    }

    fn sex16(v: u32) -> (r: i32)
        ensures
            r == v as u16 as i16 as i32,
            -32768 <= r <= 32767,
    {
        v as u16 as i16 as i32
    }

    fn usex8(v: u32) -> (r: u32)
        ensures
            r == v & 0xFF,
            r <= 0xFF,
    {
        proof {
            lemma_and_le_u32(v, 0xFF);
        }
        v & 0xFF
    }

    fn usex16(v: u32) -> (r: u32)
        ensures
            r == v & 0xFFFF,
            r <= 0xFFFF,
    {
        proof {
            lemma_and_le_u32(v, 0xFFFF);
        }
        v & 0xFFFF
    }

    /// Signed 8x8 product.
    fn mul_s8(a: i32, b: i32) -> (r: i32)
        requires
            -128 <= a <= 127,
            -128 <= b <= 127,
        ensures
            r == a * b,
    {
        proof {
            assert(-128 * 128 <= a * b <= 128 * 128) by (nonlinear_arith)
                requires -128 <= a <= 127, -128 <= b <= 127;
        }
        a * b
    }

    /// Unsigned 8x8 product.
    fn mul_u8(a: u32, b: u32) -> (r: u32)
        requires
            a <= 0xFF,
            b <= 0xFF,
        ensures
            r == a * b,
    {
        proof {
            assert(a * b <= 255 * 255) by (nonlinear_arith)
                requires a <= 0xFF, b <= 0xFF;
        }
        a * b
    }

    /// Signed 16x16 product.
    fn mul_s16(a: i32, b: i32) -> (r: i32)
        requires
            -32768 <= a <= 32767,
            -32768 <= b <= 32767,
        ensures
            r == a * b,
    {
        proof {
            assert(-32768 * 32768 <= a * b <= 32768 * 32768) by (nonlinear_arith)
                requires -32768 <= a <= 32767, -32768 <= b <= 32767;
        }
        a * b
    }

    // ----- memory access -----
    /// Read a byte from a ROM bank (or RAM bank for 0x70-0x73).
    fn bank_read(&self, rom: &[u8], bank: u32, addr: u32) -> (v: u8)
        requires
            self.wf(),
        ensures
            v == spec_bank_read(self.rom_bank_off, self.ram@, rom@, bank, addr),
    {
        proof {
            lemma_and_le_u32(bank, 0xFF);
            lemma_and_le_u32(addr, 0xFFFF);
            lemma_and_le_u32(addr, 0x7FFF);
        }
        let bank = (bank & 0xFF) as usize;
        if bank >= 0x70 && bank < 0x74 {
            let off = ((bank - 0x70) % RAM_BANKS) * 0x10000;
            return self.ram[off + (addr & 0xFFFF) as usize];
        }
        let off = self.rom_bank_off[bank];
        proof {
            lemma_low_bank_flag(off);
        }
        let a = if off & LOW_BANK_FLAG != 0 {
            // Low-bank region: 32 KB blocks replicated twice per 64 KB block.
            (off & !LOW_BANK_FLAG) as u64 + (addr & 0x7FFF) as u64
        } else {
            off as u64 + (addr & 0xFFFF) as u64
        };
        if rom.len() == 0 {
            0
        } else {
            rom[(a % rom.len() as u64) as usize]
        }
    }

    /// ROM(idx): current ROM bank.
    fn rom_read(&self, rom: &[u8], idx: u32) -> (v: u8)
        requires
            self.wf(),
        ensures
            v == spec_bank_read(self.rom_bank_off, self.ram@, rom@, self.rom_bank_reg, idx & 0xFFFF),
    {
        self.bank_read(rom, self.rom_bank_reg, Self::usex16(idx))
    }

    /// PRGBANK(idx): current program bank.
    fn prg_read(&self, rom: &[u8], idx: u32) -> (v: u8)
        requires
            self.wf(),
        ensures
            v == spec_bank_read(self.rom_bank_off, self.ram@, rom@, self.prg_bank_reg, idx & 0xFFFF),
    {
        self.bank_read(rom, self.prg_bank_reg, Self::usex16(idx))
    }

    /// RAM(adr): current RAM bank.
    fn ram_read(&self, adr: u32) -> (v: u8)
        requires
            self.wf(),
        ensures
            v == self.ram@[self.ram_bank_off + (adr & 0xFFFF)],
    {
        proof {
            lemma_and_le_u32(adr, 0xFFFF);
        }
        self.ram[self.ram_bank_off + (adr & 0xFFFF) as usize]
    }

    fn ram_write(&mut self, adr: u32, v: u8)
        requires
            old(self).wf(),
        ensures
            final(self).wf(),
            final(self).ram@ == old(self).ram@.update(old(self).ram_bank_off + (adr & 0xFFFF), v),
            *final(self) == (SuperFx { ram: final(self).ram, ..*old(self) }),
    {
        proof {
            lemma_and_le_u32(adr, 0xFFFF);
        }
        self.ram.set(self.ram_bank_off + (adr & 0xFFFF) as usize, v);
    }

    /// Byte of GSU RAM at a plot address; addresses past the end read as 0.
    fn ram_get(&self, a: usize) -> (v: u8)
        requires
            self.wf(),
        ensures
            v == if a < 0x20000 { self.ram@[a as int] } else { 0 },
    {
        if a < self.ram.len() {
            self.ram[a]
        } else {
            0
        }
    }

    /// Set (`on`) or clear the pixel bits `v` of the bitplane byte at `a`;
    /// addresses past the end of GSU RAM are left alone.
    fn ram_plot_bit(&mut self, a: usize, v: u8, on: bool)
        requires
            old(self).wf(),
        ensures
            final(self).wf(),
            a < 0x20000 ==> final(self).ram@ == old(self).ram@.update(a as int, if on { old(self).ram@[a as int] | v } else { old(self).ram@[a as int] & !v }),
            a >= 0x20000 ==> final(self).ram@ == old(self).ram@,
            *final(self) == (SuperFx { ram: final(self).ram, ..*old(self) }),
    {
        if a < self.ram.len() {
            let b = self.ram[a];
            if on {
                self.ram.set(a, b | v);
            } else {
                self.ram.set(a, b & !v);
            }
        }
    }

    /// Address of the bitplane byte holding pixel (x, y).
    fn pixel_address(&self, x: u32, y: u32) -> (a: usize)
        requires
            x <= 0xFF,
            y <= 0xFF,
        ensures
            a == vstd::wrapping::usize_specs::wrapping_add(
                vstd::wrapping::usize_specs::wrapping_add(self.screen_col[(y >> 3u32) as int], self.screen_x[(x >> 3u32) as int] as usize),
                ((y & 7) << 1u32) as usize,
            ),
    {
        proof {
            vstd::arithmetic::power2::lemma2_to64();
            vstd::bits::lemma_u32_shr_is_div(y, 3);
            vstd::bits::lemma_u32_shr_is_div(x, 3);
            lemma_and_le_u32(y, 7);
            vstd::bits::lemma_u32_shl_is_mul(y & 7, 1);
        }
        let base = self.screen_col[(y >> 3u32) as usize].wrapping_add(self.screen_x[(x >> 3u32) as usize] as usize);
        // The sum stays inside the address space: base + 14 can only wrap
        // when base is within 14 of usize::MAX, which a column offset never is.
        base.wrapping_add(((y & 7) << 1u32) as usize)
    }

    fn fetch_pipe(&mut self, rom: &[u8])
        requires
            old(self).wf(),
        ensures
            final(self).wf(),
            *final(self) == (SuperFx { pipe: final(self).pipe, ..*old(self) }),
            final(self).pipe == spec_bank_read(old(self).rom_bank_off, old(self).ram@, rom@, old(self).prg_bank_reg, old(self).av_reg[15] & 0xFFFF),
    {
        self.pipe = self.prg_read(rom, self.r15());
    }

    fn read_r14(&mut self, rom: &[u8])
        requires
            old(self).wf(),
        ensures
            final(self).wf(),
            *final(self) == (SuperFx { rom_buffer: final(self).rom_buffer, ..*old(self) }),
            final(self).rom_buffer == spec_bank_read(old(self).rom_bank_off, old(self).ram@, rom@, old(self).rom_bank_reg, old(self).av_reg[14] & 0xFFFF),
    {
        self.rom_buffer = self.rom_read(rom, self.r(14));
    }

    fn test_r14(&mut self, rom: &[u8])
        requires
            old(self).wf(),
        ensures
            final(self).wf(),
            *final(self) == (SuperFx { rom_buffer: final(self).rom_buffer, ..*old(self) }),
            old(self).dreg != 14 ==> final(self).rom_buffer == old(self).rom_buffer,
    {
        if self.dreg == 14 {
            self.read_r14(rom);
        }
    }

    // ----- register space <-> internal state -----
    fn read_register_space(&mut self)
        requires
            old(self).ram@.len() == 0x20000,
            old(self).dreg < 16,
            old(self).sreg < 16,
            forall|i: int| 0 <= i < 256 ==> #[trigger] old(self).rom_bank_off[i] < 0x1_0000_0000,
        ensures
            final(self).wf(),
            final(self).regs == old(self).regs,
            final(self).ram == old(self).ram,
            final(self).pipe == old(self).pipe,
            final(self).irq_line == old(self).irq_line,
            final(self).one_line_done == old(self).one_line_done,
            final(self).instruction_count == old(self).instruction_count,
            final(self).speed_per_line == old(self).speed_per_line,
            final(self).dreg == old(self).dreg,
            final(self).sreg == old(self).sreg,
            final(self).rom_bank_off == old(self).rom_bank_off,
            final(self).status_reg == (old(self).regs[GSU_SFR as int] as u32) | ((old(self).regs[GSU_SFR + 1] as u32) << 8u32),
            forall|i: int| 0 <= i < 16 ==> final(self).av_reg[i] == (old(self).regs[i * 2] as u32) | ((old(self).regs[i * 2 + 1] as u32) << 8u32),
    {
        let mut i: usize = 0;
        while i < 16
            invariant
                i <= 16,
                self.regs == old(self).regs,
                self.ram == old(self).ram,
                self.dreg == old(self).dreg,
                self.sreg == old(self).sreg,
                forall|j: int| 0 <= j < i ==> self.av_reg[j] == (self.regs[j * 2] as u32) | ((self.regs[j * 2 + 1] as u32) << 8u32),
                *self == (SuperFx { av_reg: self.av_reg, ..*old(self) }),
            decreases 16 - i,
        {
            self.av_reg[i] = (self.regs[i * 2] as u32) | ((self.regs[i * 2 + 1] as u32) << 8u32);
            i += 1;
        }
        self.status_reg = (self.regs[GSU_SFR] as u32) | ((self.regs[GSU_SFR + 1] as u32) << 8u32);
        self.prg_bank_reg = self.regs[GSU_PBR] as u32;
        self.rom_bank_reg = self.regs[GSU_ROMBR] as u32;
        self.ram_bank_reg = (self.regs[GSU_RAMBR] as u32) & (FX_RAM_BANKS - 1);
        self.cache_base_reg = (self.regs[GSU_CBR] as u32) | ((self.regs[GSU_CBR + 1] as u32) << 8u32);
        self.zero = if self.status_reg & FLG_Z == 0 {
            1
        } else {
            0
        };
        self.sign = (self.status_reg & FLG_S) << 12u32;
        self.overflow = ((self.status_reg & FLG_OV) << 16u32) as i32;
        self.carry = (self.status_reg & FLG_CY) >> 2u32;
        proof {
            lemma_and_le_u32(self.ram_bank_reg, 0x3);
        }
        self.ram_bank_off = (((self.ram_bank_reg & 0x3) as usize) % RAM_BANKS) * 0x10000;
        // Screen pointers
        let scbr = self.regs[GSU_SCBR] as usize;
        let scmr = self.regs[GSU_SCMR];
        self.screen_base = scbr * 0x400;
        let mut n: usize = if scmr & 0x04 != 0 {
            1
        } else {
            0
        };
        n = n | if scmr & 0x20 != 0 {
            2
        } else {
            0
        };
        self.screen_height = av_height(n);
        self.screen_real_height = av_height(n);
        self.mode = (scmr & 0x03) as u32;
        proof {
            lemma_and_le_u8(scmr, 0x03);
        }
        let screen_size: usize = if self.screen_height == 256 {
            32 * 32 * 32
        } else {
            let rows: usize = self.screen_height as usize / 8;
            let mult: usize = av_mult(self.mode) as usize;
            assert(rows * 32 * mult <= 24 * 32 * 64) by (nonlinear_arith)
                requires
                    rows <= 24,
                    mult <= 64,
            ;
            rows * 32 * mult
        };
        if self.plot_option_reg & 0x10 != 0 {
            self.screen_height = 256;  // OBJ mode
        }
        if self.screen_base + screen_size > RAM_BANKS * 65536 {
            self.screen_base = RAM_BANKS * 65536 - screen_size;
        }
        self.compute_screen_pointers();
    }

    fn write_register_space(&mut self)
        requires
            old(self).wf(),
        ensures
            final(self).wf(),
            final(self).ram == old(self).ram,
            final(self).av_reg == old(self).av_reg,
            final(self).pipe == old(self).pipe,
            final(self).irq_line == old(self).irq_line,
            final(self).one_line_done == old(self).one_line_done,
            final(self).instruction_count == old(self).instruction_count,
            final(self).regs[GSU_SFR as int] == final(self).status_reg as u8,
            final(self).regs[GSU_SFR + 1] == (final(self).status_reg >> 8u32) as u8,
            final(self).status_reg & (FLG_G | FLG_IRQ) == old(self).status_reg & (FLG_G | FLG_IRQ),
    {
        let mut i: usize = 0;
        while i < 16
            invariant
                i <= 16,
                *self == (SuperFx { regs: self.regs, ..*old(self) }),
            decreases 16 - i,
        {
            self.regs[i * 2] = self.av_reg[i] as u8;
            self.regs[i * 2 + 1] = (self.av_reg[i] >> 8u32) as u8;
            i += 1;
        }
        let s0 = self.status_reg;
        proof {
            lemma_alu_flag_keeps_run_bits(s0);
        }
        // Z
        if Self::usex16(self.zero) == 0 {
            self.status_reg = self.status_reg | FLG_Z;
        } else {
            self.status_reg = self.status_reg & !FLG_Z;
        }
        proof {
            lemma_alu_flag_keeps_run_bits(self.status_reg);
        }
        // S
        if self.sign & 0x8000 != 0 {
            self.status_reg = self.status_reg | FLG_S;
        } else {
            self.status_reg = self.status_reg & !FLG_S;
        }
        proof {
            lemma_alu_flag_keeps_run_bits(self.status_reg);
        }
        // OV
        if self.overflow >= 0x8000 || self.overflow < -0x8000 {
            self.status_reg = self.status_reg | FLG_OV;
        } else {
            self.status_reg = self.status_reg & !FLG_OV;
        }
        proof {
            lemma_alu_flag_keeps_run_bits(self.status_reg);
        }
        // CY
        if self.carry != 0 {
            self.status_reg = self.status_reg | FLG_CY;
        } else {
            self.status_reg = self.status_reg & !FLG_CY;
        }
        self.regs[GSU_SFR] = self.status_reg as u8;
        self.regs[GSU_SFR + 1] = (self.status_reg >> 8u32) as u8;
        self.regs[GSU_PBR] = self.prg_bank_reg as u8;
        self.regs[GSU_ROMBR] = self.rom_bank_reg as u8;
        self.regs[GSU_RAMBR] = self.ram_bank_reg as u8;
        self.regs[GSU_CBR] = self.cache_base_reg as u8;
        self.regs[GSU_CBR + 1] = (self.cache_base_reg >> 8u32) as u8;
    }

    /// Offsets of the 32 screen columns, recomputed on mode/height/SCBR changes.
    fn compute_screen_pointers(&mut self)
        requires
            old(self).ram@.len() == 0x20000,
            old(self).dreg < 16,
            old(self).sreg < 16,
            old(self).ram_bank_off == 0 || old(self).ram_bank_off == 0x10000,
            is_screen_height(old(self).screen_height),
            is_screen_height(old(self).screen_real_height),
            old(self).mode <= 3,
            old(self).screen_base <= 0x20000,
            forall|i: int| 0 <= i < 256 ==> #[trigger] old(self).rom_bank_off[i] < 0x1_0000_0000,
        ensures
            final(self).wf(),
            *final(self) == (SuperFx {
                screen_col: final(self).screen_col,
                screen_x: final(self).screen_x,
                scbr_dirty: final(self).scbr_dirty,
                prev_mode: final(self).prev_mode,
                prev_screen_height: final(self).prev_screen_height,
                ..*old(self)
            }),
    {
        if self.mode == self.prev_mode && self.prev_screen_height == self.screen_height && !self.scbr_dirty {
            return ;
        }
        self.scbr_dirty = false;
        let base = self.screen_base;
        let h = self.screen_height;
        let m = self.mode;
        let mut i: usize = 0;
        while i < 32
            invariant
                i <= 32,
                base <= 0x20000,
                base == self.screen_base,
                h == self.screen_height,
                m == self.mode,
                *self == (SuperFx { screen_col: self.screen_col, screen_x: self.screen_x, scbr_dirty: false, ..*old(self) }),
            decreases 32 - i,
        {
            let (col, x): (usize, i32) = if h == 128 {
                if m == 0 {
                    (i * 16, (i * 256) as i32)
                } else if m == 1 {
                    (i * 32, (i * 512) as i32)
                } else {
                    (i * 64, (i * 1024) as i32)
                }
            } else if h == 160 {
                if m == 0 {
                    (i * 16, (i * 256 + i * 64) as i32)
                } else if m == 1 {
                    (i * 32, (i * 512 + i * 128) as i32)
                } else {
                    (i * 64, (i * 1024 + i * 256) as i32)
                }
            } else if h == 192 {
                if m == 0 {
                    (i * 16, (i * 256 + i * 128) as i32)
                } else if m == 1 {
                    (i * 32, (i * 512 + i * 256) as i32)
                } else {
                    (i * 64, (i * 1024 + i * 512) as i32)
                }
            } else {
                let hi = i / 16;
                let lo = i % 16;
                if m == 0 {
                    (hi * 0x2000 + lo * 0x100, (hi * 0x1000 + lo * 0x10) as i32)
                } else if m == 1 {
                    (hi * 0x4000 + lo * 0x200, (hi * 0x2000 + lo * 0x20) as i32)
                } else {
                    (hi * 0x8000 + lo * 0x400, (hi * 0x4000 + lo * 0x40) as i32)
                }
            };
            self.screen_col[i] = base + col;
            self.screen_x[i] = x;
            i += 1;
        }
        self.prev_mode = self.mode;
        self.prev_screen_height = self.screen_height;
    }

    fn check_start_address(&self) -> (ok: bool)
        ensures
            ok == ((self.cache_active && self.av_reg[15] >= self.cache_base_reg && self.av_reg[15] < self.cache_base_reg + 512)
                || (self.regs[GSU_SCMR as int] & 0x10 != 0 && (self.prg_bank_reg <= 0x5F || self.prg_bank_reg >= 0x80))
                || (self.prg_bank_reg <= 0x7F && self.regs[GSU_SCMR as int] & 0x08 != 0)),
    {
        if self.cache_active && self.r15() >= self.cache_base_reg && (self.r15() as u64) < self.cache_base_reg as u64 + 512 {
            return true;
        }
        let scmr = self.regs[GSU_SCMR];
        if scmr & 0x10 != 0 && (self.prg_bank_reg <= 0x5F || self.prg_bank_reg >= 0x80) {
            return true;
        }
        if self.prg_bank_reg <= 0x7F && scmr & 0x08 != 0 {
            return true;
        }
        false
    }

    fn flush_cache(&mut self)
        requires
            old(self).wf(),
        ensures
            final(self).wf(),
            *final(self) == (SuperFx { cache_flags: 0, cache_base_reg: 0, cache_active: false, ..*old(self) }),
    {
        self.cache_flags = 0;
        self.cache_base_reg = 0;
        self.cache_active = false;
    }

    // ----- SNES-side register interface -----
    /// Register read from the SNES CPU; reading SFR high ($3031) clears the
    /// IRQ flag and deasserts the GSU IRQ line.
    pub fn read_register(&mut self, addr: u16) -> (v: u8)
        requires
            old(self).wf(),
            0x3000 <= addr < 0x3300,
        ensures
            final(self).wf(),
            v == old(self).regs[addr - 0x3000],
            addr == 0x3031 ==> !final(self).irq_line && final(self).regs@ == old(self).regs@.update(GSU_SFR + 1, v & 0x7F),
            addr != 0x3031 ==> *final(self) == *old(self),
            final(self).ram == old(self).ram,
    {
        let a = (addr - 0x3000) as usize;
        let byte = self.regs[a];
        if addr == 0x3031 {
            self.irq_line = false;
            self.regs[GSU_SFR + 1] = byte & 0x7F;
        }
        byte
    }

    /// Write from the SNES CPU. Setting the GO flag (or writing R15 high)
    /// starts the GSU unless it already ran this scanline.
    pub fn write_register(&mut self, addr: u16, byte: u8, rom: &[u8])
        requires
            old(self).wf(),
            0x3000 <= addr < 0x3300,
        ensures
            final(self).wf(),
            addr == 0x303C ==> final(self).ram_bank_reg == ((byte as u32) & 3u32),
            addr >= 0x3100 ==> final(self).regs@ == old(self).regs@.update(addr - 0x3000, byte),
            (addr == 0x3031 || addr == 0x3033 || addr == 0x3037 || addr == 0x3039 || addr == 0x303A || (addr
                < 0x3100 && addr != 0x301F && addr != 0x3030 && addr != 0x3034 && addr != 0x3036 && addr
                != 0x3038 && addr != 0x303B && addr != 0x303C)) ==> *final(self) == (SuperFx {
                regs: final(self).regs,
                ..*old(self)
            }) && final(self).regs@ == old(self).regs@.update(addr - 0x3000, byte),
            (addr == 0x3034 || addr == 0x3036) ==> *final(self) == (SuperFx { regs: final(self).regs, ..*old(self) })
                && final(self).regs@ == old(self).regs@.update(addr - 0x3000, byte & 0x7F),
            addr == 0x3038 ==> *final(self) == (SuperFx {
                regs: final(self).regs,
                scbr_dirty: true,
                ..*old(self)
            }) && final(self).regs@ == old(self).regs@.update(addr - 0x3000, byte),
            addr == 0x303B ==> *final(self) == *old(self),
            addr == 0x303C ==> *final(self) == (SuperFx {
                regs: final(self).regs,
                ram_bank_reg: (byte as u32) & 3u32,
                ram_bank_off: ((((byte & 3) as usize) % RAM_BANKS) * 0x10000) as usize,
                ..*old(self)
            }) && final(self).regs@ == old(self).regs@.update(addr - 0x3000, byte),
            addr == 0x3030 && (old(self).regs[GSU_SFR as int] ^ byte) & (FLG_G as u8) == 0 ==> *final(self) == (
            SuperFx { regs: final(self).regs, ..*old(self) }) && final(self).regs@ == old(self).regs@.update(
                GSU_SFR as int,
                byte,
            ),
            addr == 0x3030 && (old(self).regs[GSU_SFR as int] ^ byte) & (FLG_G as u8) != 0 && byte & (FLG_G as u8)
                == 0 ==> *final(self) == (SuperFx {
                regs: final(self).regs,
                cache_flags: 0,
                cache_base_reg: 0,
                cache_active: false,
                ..*old(self)
            }) && final(self).regs@ == old(self).regs@.update(GSU_SFR as int, byte),
            addr == 0x3030 && (old(self).regs[GSU_SFR as int] ^ byte) & (FLG_G as u8) != 0 && byte & (FLG_G as u8)
                != 0 ==> final(self).one_line_done,
            addr == 0x3030 && (old(self).regs[GSU_SFR as int] ^ byte) & (FLG_G as u8) != 0 && byte & (FLG_G as u8)
                != 0 && (old(self).one_line_done || old(self).regs[GSU_SCMR as int] & 0x18 == 0) ==> *final(self) == (
            SuperFx { regs: final(self).regs, one_line_done: true, ..*old(self) }) && final(self).regs@
                == old(self).regs@.update(GSU_SFR as int, byte),
            addr == 0x301F ==> final(self).one_line_done,
            addr == 0x301F && (old(self).one_line_done || old(self).regs[GSU_SCMR as int] & 0x18 == 0) ==> *final(self)
                == (SuperFx { regs: final(self).regs, one_line_done: true, ..*old(self) }) && final(self).regs@
                == old(self).regs@.update(0x1F, byte).update(GSU_SFR as int, old(self).regs[GSU_SFR as int] | (FLG_G as u8)),
    {
        let a = (addr - 0x3000) as usize;
        if addr == 0x3030 {
            if (self.regs[GSU_SFR] ^ byte) & (FLG_G as u8) != 0 {
                self.regs[GSU_SFR] = byte;
                if byte & (FLG_G as u8) != 0 {
                    if !self.one_line_done {
                        self.exec(rom);
                        self.one_line_done = true;
                    }
                } else {
                    self.flush_cache();
                }
            } else {
                self.regs[GSU_SFR] = byte;
            }
        } else if addr == 0x3031 || addr == 0x3033 || addr == 0x3037 || addr == 0x3039 || addr == 0x303A {
            self.regs[a] = byte;
        } else if addr == 0x3034 || addr == 0x3036 {
            self.regs[a] = byte & 0x7F;
        } else if addr == 0x3038 {
            self.regs[a] = byte;
            self.scbr_dirty = true;
        } else if addr == 0x303B {
        } else if addr == 0x303C {
            self.regs[a] = byte;
            self.ram_bank_reg = (byte as u32) & (FX_RAM_BANKS - 1);
            proof {
                lemma_and_le_u8(byte, 0x3);
            }
            self.ram_bank_off = (((byte & 0x3) as usize) % RAM_BANKS) * 0x10000;
        } else if addr == 0x301F {
            self.regs[a] = byte;
            self.regs[GSU_SFR] = self.regs[GSU_SFR] | (FLG_G as u8);
            if !self.one_line_done {
                self.exec(rom);
                self.one_line_done = true;
            }
        } else {
            self.regs[a] = byte;
            if addr >= 0x3100 {
                // Cache write access: per-16-byte dirty flag.
                if addr & 0x00F == 0x00F {
                    let bit = ((addr & 0x1F0) >> 4u16) as u32;
                    proof {
                        lemma_and_le_u16(addr, 0x1F0);
                        vstd::arithmetic::power2::lemma2_to64();
                        vstd::bits::lemma_u16_shr_is_div(addr & 0x1F0, 4);
                    }
                    self.cache_flags = self.cache_flags | (1u32 << bit);
                }
            }
        }
    }

    // ----- execution entry points -----
    /// Run one scanline's instruction budget if the GSU is active (GO set
    /// and the GSU owns ROM or RAM); raise the IRQ line when it stopped with
    /// the IRQ flag set.
    pub fn exec(&mut self, rom: &[u8])
        requires
            old(self).wf(),
        ensures
            final(self).wf(),
            old(self).regs[GSU_SFR as int] & (FLG_G as u8) == 0 || old(self).regs[GSU_SCMR as int] & 0x18 == 0 ==> *final(self) == *old(self),
    {
        if self.regs[GSU_SFR] & (FLG_G as u8) != 0 && self.regs[GSU_SCMR] & 0x18 != 0 {
            let budget = if self.regs[GSU_CLSR] & 1 != 0 {
                (self.speed_per_line as u64 * 5 / 2) as u32
            } else {
                self.speed_per_line
            };
            self.emulate(budget, rom);
            let sfr = (self.regs[GSU_SFR] as u32) | ((self.regs[GSU_SFR + 1] as u32) << 8u32);
            if sfr & (FLG_G | FLG_IRQ) == FLG_IRQ {
                self.irq_line = true;
            }
        }
    }

    /// Per-scanline hook: run the GSU unless a register write already ran it
    /// this line, then re-arm the trigger.
    pub fn exec_line(&mut self, rom: &[u8])
        requires
            old(self).wf(),
        ensures
            final(self).wf(),
            !final(self).one_line_done,
            old(self).one_line_done ==> *final(self) == (SuperFx { one_line_done: false, ..*old(self) }),
            old(self).regs[GSU_SFR as int] & (FLG_G as u8) == 0 || old(self).regs[GSU_SCMR as int] & 0x18 == 0
                ==> *final(self) == (SuperFx { one_line_done: false, ..*old(self) }),
    {
        if !self.one_line_done {
            self.exec(rom);
        }
        self.one_line_done = false;
    }

    /// One GSU session of at most `n_instructions` steps.
    fn emulate(&mut self, n_instructions: u32, rom: &[u8])
        requires
            old(self).wf(),
        ensures
            final(self).wf(),
    {
        self.read_register_space();
        if !self.check_start_address() {
            self.status_reg = self.status_reg & !FLG_G;
            self.write_register_space();
            return ;
        }
        self.status_reg = self.status_reg & !FLG_IRQ;
        let mut counter = n_instructions;
        while self.tf(FLG_G) && counter > 0
            invariant
                self.wf(),
            decreases counter,
        {
            counter = counter - 1;
            self.step(rom);
            self.instruction_count = self.instruction_count.wrapping_add(1);
        }
        self.write_register_space();
    }

    // ----- the interpreter -----
    /// Execute the byte in the pipe, then fetch the next one.
    fn step(&mut self, rom: &[u8])
        requires
            old(self).wf(),
        ensures
            final(self).wf(),
    {
        let op = self.pipe;
        self.fetch_pipe(rom);
        let alt = ((self.status_reg & 0x300) >> 8u32) as u8;
        self.dispatch(op, alt, rom);
    }

    #[verifier::rlimit(60)]
    #[verifier::spinoff_prover]
    fn dispatch(&mut self, op: u8, alt: u8, rom: &[u8])
        requires
            old(self).wf(),
        ensures
            final(self).wf(),
            fx_specified(op, old(self).status_reg) ==> fx_effect(*old(self), *final(self), op),
            0x60 <= op <= 0x6F && alt == 0 ==> ({
                let a = old(self).av_reg[old(self).sreg as int] as u16;
                let b = old(self).av_reg[(op & 0xF) as int] as u16;
                &&& final(self).av_reg[old(self).dreg as int] == fx_sub_value(a, b)
                &&& final(self).carry == (if a >= b { 1u32 } else { 0u32 })
            }),
            0x50 <= op <= 0x5F && alt == 0 ==> ({
                let a = old(self).av_reg[old(self).sreg as int] as u16;
                let b = old(self).av_reg[(op & 0xF) as int] as u16;
                &&& final(self).av_reg[old(self).dreg as int] == fx_add_value(a, b)
                &&& final(self).carry == (if a as int + b as int >= 0x10000 { 1u32 } else { 0u32 })
            }),
    {
        let low = (op & 0xF) as usize;
        proof {
            lemma_and_le_u8(op, 0xF);
            assert((0xD0 <= op <= 0xDD || 0xE0 <= op <= 0xED) ==> op & 0xF != 14) by (bit_vector);
        }
        if op == 0x00 {
            self.fx_stop()
        } else if op == 0x01 {
            self.fx_nop()
        } else if op == 0x02 {
            self.fx_cache()
        } else if op == 0x03 {
            self.fx_lsr(rom)
        } else if op == 0x04 {
            self.fx_rol(rom)
        } else if op == 0x05 {
            self.fx_bra(rom)
        } else if op == 0x06 {
            // 0x06 is BGE and 0x07 BLT.
            let c = self.test_s() == self.test_ov();
            self.bra_cond(rom, c)
        } else if op == 0x07 {
            let c = self.test_s() != self.test_ov();
            self.bra_cond(rom, c)
        } else if op == 0x08 {
            let c = !self.test_z();
            self.bra_cond(rom, c)
        } else if op == 0x09 {
            let c = self.test_z();
            self.bra_cond(rom, c)
        } else if op == 0x0A {
            let c = !self.test_s();
            self.bra_cond(rom, c)
        } else if op == 0x0B {
            let c = self.test_s();
            self.bra_cond(rom, c)
        } else if op == 0x0C {
            let c = !self.test_cy();
            self.bra_cond(rom, c)
        } else if op == 0x0D {
            let c = self.test_cy();
            self.bra_cond(rom, c)
        } else if op == 0x0E {
            let c = !self.test_ov();
            self.bra_cond(rom, c)
        } else if op == 0x0F {
            let c = self.test_ov();
            self.bra_cond(rom, c)
        } else if op <= 0x1F {
            self.fx_to(rom, low)
        } else if op <= 0x2F {
            self.fx_with(low)
        } else if op <= 0x3B {
            if alt == 1 || alt == 3 {
                self.fx_stb(low)
            } else {
                self.fx_stw(low)
            }
        } else if op == 0x3C {
            self.fx_loop()
        } else if op == 0x3D {
            self.status_reg = self.status_reg | FLG_ALT1;
            self.status_reg = self.status_reg & !FLG_B;
            self.inc_r15();
        } else if op == 0x3E {
            self.status_reg = self.status_reg | FLG_ALT2;
            self.status_reg = self.status_reg & !FLG_B;
            self.inc_r15();
        } else if op == 0x3F {
            self.status_reg = self.status_reg | (FLG_ALT1 | FLG_ALT2);
            self.status_reg = self.status_reg & !FLG_B;
            self.inc_r15();
        } else if op <= 0x4B {
            if alt == 1 || alt == 3 {
                self.fx_ldb(rom, low)
            } else {
                self.fx_ldw(rom, low)
            }
        } else if op == 0x4C {
            if alt == 1 || alt == 3 {
                self.fx_rpix(rom)
            } else {
                self.fx_plot()
            }
        } else if op == 0x4D {
            self.fx_swap(rom)
        } else if op == 0x4E {
            if alt == 1 || alt == 3 {
                self.fx_cmode()
            } else {
                self.fx_color()
            }
        } else if op == 0x4F {
            self.fx_not(rom)
        } else if op <= 0x5F {
            if alt == 0 {
                self.fx_add(rom, low)
            } else if alt == 1 {
                self.fx_adc(rom, low)
            } else if alt == 2 {
                self.fx_add_i(rom, low as i32)
            } else {
                self.fx_adc_i(rom, low as i32)
            }
        } else if op <= 0x6F {
            if alt == 0 {
                self.fx_sub(rom, low)
            } else if alt == 1 {
                self.fx_sbc(rom, low)
            } else if alt == 2 {
                self.fx_sub_i(rom, low as i32)
            } else {
                self.fx_compare(low)
            }
        } else if op == 0x70 {
            self.fx_merge(rom)
        } else if op <= 0x7F {
            if alt == 0 {
                self.fx_and(rom, low)
            } else if alt == 1 {
                self.fx_bic(rom, low)
            } else if alt == 2 {
                self.fx_and_i(rom, low as u32)
            } else {
                self.fx_bic_i(rom, low as u32)
            }
        } else if op <= 0x8F {
            if alt == 0 {
                self.fx_mult(rom, low)
            } else if alt == 1 {
                self.fx_umult(rom, low)
            } else if alt == 2 {
                self.fx_mult_i(rom, low as i32)
            } else {
                self.fx_umult_i(rom, low as u32)
            }
        } else if op == 0x90 {
            self.fx_sbk()
        } else if op <= 0x94 {
            self.fx_link(low as u32)
        } else if op == 0x95 {
            self.fx_sex(rom)
        } else if op == 0x96 {
            if alt == 1 || alt == 3 {
                self.fx_div2(rom)
            } else {
                self.fx_asr(rom)
            }
        } else if op == 0x97 {
            self.fx_ror(rom)
        } else if op <= 0x9D {
            if alt == 1 || alt == 3 {
                self.fx_ljmp(rom, low)
            } else {
                self.fx_jmp(low)
            }
        } else if op == 0x9E {
            self.fx_lob(rom)
        } else if op == 0x9F {
            if alt == 1 || alt == 3 {
                self.fx_lmult(rom)
            } else {
                self.fx_fmult(rom)
            }
        } else if op <= 0xAF {
            if alt == 0 {
                self.fx_ibt(rom, low)
            } else if alt == 2 {
                self.fx_sms(rom, low)
            } else {
                self.fx_lms(rom, low)
            }
        } else if op <= 0xBF {
            self.fx_from(rom, low)
        } else if op == 0xC0 {
            self.fx_hib(rom)
        } else if op <= 0xCF {
            if alt == 0 {
                self.fx_or(rom, low)
            } else if alt == 1 {
                self.fx_xor(rom, low)
            } else if alt == 2 {
                self.fx_or_i(rom, low as u32)
            } else {
                self.fx_xor_i(rom, low as u32)
            }
        } else if op <= 0xDE {
            self.fx_inc(rom, low)
        } else if op == 0xDF {
            if alt == 2 {
                self.fx_ramb()
            } else if alt == 3 {
                self.fx_romb()
            } else {
                self.fx_getc()
            }
        } else if op <= 0xEE {
            self.fx_dec(rom, low)
        } else if op == 0xEF {
            if alt == 0 {
                self.fx_getb(rom)
            } else if alt == 1 {
                self.fx_getbh(rom)
            } else if alt == 2 {
                self.fx_getbl(rom)
            } else {
                self.fx_getbs(rom)
            }
        } else {
            if alt == 0 {
                self.fx_iwt(rom, low)
            } else if alt == 2 {
                self.fx_sm(rom, low)
            } else {
                self.fx_lm(rom, low)
            }
        }
    }

    // ----- branch helpers -----
    fn test_s(&self) -> (b: bool)
        ensures
            b == (self.sign & 0x8000 != 0),
    {
        self.sign & 0x8000 != 0
    }

    fn test_z(&self) -> (b: bool)
        ensures
            b == (self.zero & 0xFFFF == 0),
    {
        Self::usex16(self.zero) == 0
    }

    fn test_ov(&self) -> (b: bool)
        ensures
            b == (self.overflow >= 0x8000 || self.overflow < -0x8000),
    {
        self.overflow >= 0x8000 || self.overflow < -0x8000
    }

    fn test_cy(&self) -> (b: bool)
        ensures
            b == (self.carry & 1 != 0),
    {
        self.carry & 1 != 0
    }

    /// BRA_COND: pipe holds the displacement; one delay-slot fetch happens
    /// before the branch target applies (BRANCH_DELAY_RELATIVE).
    fn bra_cond(&mut self, rom: &[u8], cond: bool)
        requires
            old(self).wf(),
        ensures
            final(self).wf(),
    {
        let v = self.pipe;
        self.inc_r15();
        self.fetch_pipe(rom);
        if cond {
            self.av_reg[15] = self.r15().wrapping_add(Self::sex8(v as u32) as u32);
        } else {
            self.inc_r15();
        }
    }

    // ----- opcode implementations -----

    // 00 - stop
    fn fx_stop(&mut self)
        requires
            old(self).wf(),
        ensures
            final(self).wf(),
    {
        self.status_reg &= !FLG_G;
        if self.regs[GSU_CFGR] & 0x80 == 0 {
            self.status_reg |= FLG_IRQ;
        }
        self.plot_option_reg = 0;
        self.pipe = 1;
        self.clrflags();
        self.inc_r15();
    }

    // 01 - nop
    fn fx_nop(&mut self)
        requires
            old(self).wf(),
        ensures
            final(self).wf(),
            fx_effect(*old(self), *final(self), 0x01),
    {
        self.clrflags();
        self.inc_r15();
    }

    // 02 - cache
    fn fx_cache(&mut self)
        requires
            old(self).wf(),
        ensures
            final(self).wf(),
    {
        let c = self.r15() & 0xFFF0;
        if self.cache_base_reg != c || !self.cache_active {
            self.cache_flags = 0;
            self.cache_active = false;
            self.cache_base_reg = c;
            self.cache_active = true;
        }
        self.clrflags();
        self.inc_r15();
    }

    // 03 - lsr
    fn fx_lsr(&mut self, rom: &[u8])
        requires
            old(self).wf(),
        ensures
            final(self).wf(),
    {
        self.carry = self.sreg() & 1;
        let v = Self::usex16(self.sreg()) >> 1;
        self.inc_r15();
        self.set_dreg(v);
        self.sign = v;
        self.zero = v;
        self.test_r14(rom);
        self.clrflags();
    }

    // 04 - rol
    fn fx_rol(&mut self, rom: &[u8])
        requires
            old(self).wf(),
        ensures
            final(self).wf(),
    {
        let v = Self::usex16(self.sreg().wrapping_shl(1).wrapping_add(self.carry));
        self.carry = (self.sreg() >> 15) & 1;
        self.inc_r15();
        self.set_dreg(v);
        self.sign = v;
        self.zero = v;
        self.test_r14(rom);
        self.clrflags();
    }

    // 05 - bra
    fn fx_bra(&mut self, rom: &[u8])
        requires
            old(self).wf(),
        ensures
            final(self).wf(),
    {
        self.bra_cond(rom, true);
    }

    // 10-1f - to rn / (B) move rn
    // (R15 variant: the C FX_TO_R15 macro skips the R15++ when B is set.)
    fn fx_to(&mut self, rom: &[u8], reg: usize)
        requires
            old(self).wf(),
            reg < 16,
        ensures
            final(self).wf(),
            old(self).status_reg & FLG_B == 0 ==> fx_with_regs(*final(self), SuperFx { dreg: reg, ..*old(self) }, fx_r15_next(old(self).av_reg@)),
    {
        if self.tf(FLG_B) {
            self.av_reg[reg] = self.sreg();
            self.clrflags();
            if reg == 14 {
                self.read_r14(rom);
            }
            if reg != 15 {
                self.inc_r15();
            }
        } else {
            self.dreg = reg;
            // C FX_TO_R15: the R15++ is skipped only in the B-set (jump) case.
            self.inc_r15();
        }
    }

    // 20-2f - with rn
    fn fx_with(&mut self, reg: usize)
        requires
            old(self).wf(),
            reg < 16,
        ensures
            final(self).wf(),
            fx_with_regs(
                *final(self),
                SuperFx { status_reg: old(self).status_reg | FLG_B, sreg: reg, dreg: reg, ..*old(self) },
                fx_r15_next(old(self).av_reg@),
            ),
    {
        self.status_reg |= FLG_B;
        self.sreg = reg;
        self.dreg = reg;
        self.inc_r15();
    }

    // 30-3b - stw (rn)
    fn fx_stw(&mut self, reg: usize)
        requires
            old(self).wf(),
            reg < 16,
        ensures
            final(self).wf(),
    {
        self.last_ram_adr = self.r(reg);
        let s = self.sreg();
        self.ram_write(self.r(reg), s as u8);
        self.ram_write(self.r(reg) ^ 1, (s >> 8) as u8);
        self.clrflags();
        self.inc_r15();
    }

    // 30-3b (ALT1/3) - stb (rn)
    fn fx_stb(&mut self, reg: usize)
        requires
            old(self).wf(),
            reg < 16,
        ensures
            final(self).wf(),
    {
        self.last_ram_adr = self.r(reg);
        let s = self.sreg();
        self.ram_write(self.r(reg), s as u8);
        self.clrflags();
        self.inc_r15();
    }

    // 3c - loop
    fn fx_loop(&mut self)
        requires
            old(self).wf(),
        ensures
            final(self).wf(),
    {
        self.av_reg[12] = self.av_reg[12].wrapping_sub(1);
        self.sign = self.r(12);
        self.zero = self.r(12);
        if self.r(12) as u16 != 0 {
            self.av_reg[15] = self.r(13);
        } else {
            self.inc_r15();
        }
        self.clrflags();
    }

    // 40-4b - ldw (rn)
    fn fx_ldw(&mut self, rom: &[u8], reg: usize)
        requires
            old(self).wf(),
            reg < 16,
        ensures
            final(self).wf(),
    {
        self.last_ram_adr = self.r(reg);
        let v = (self.ram_read(self.r(reg)) as u32) | ((self.ram_read(self.r(reg) ^ 1) as u32) << 8);
        self.inc_r15();
        self.set_dreg(v);
        self.test_r14(rom);
        self.clrflags();
    }

    // 40-4b (ALT1/3) - ldb (rn)
    fn fx_ldb(&mut self, rom: &[u8], reg: usize)
        requires
            old(self).wf(),
            reg < 16,
        ensures
            final(self).wf(),
    {
        self.last_ram_adr = self.r(reg);
        let v = self.ram_read(self.r(reg)) as u32;
        self.inc_r15();
        self.set_dreg(v);
        self.test_r14(rom);
        self.clrflags();
    }

    // 4c - plot (mode: 0/1=2bpp handled by plot_2bit, etc.)
    fn fx_plot(&mut self)
        requires
            old(self).wf(),
        ensures
            final(self).wf(),
    {
        match self.mode {
            0 => self.plot_2bit(),
            3 => self.plot_8bit(),
            _ => self.plot_4bit(),
        }
    }

    // 4c (ALT1/3) - rpix
    fn fx_rpix(&mut self, rom: &[u8])
        requires
            old(self).wf(),
        ensures
            final(self).wf(),
    {
        match self.mode {
            0 => self.rpix_2bit(rom),
            3 => self.rpix_8bit(rom),
            _ => self.rpix_4bit(rom),
        }
    }

    fn plot_2bit(&mut self)
        requires
            old(self).wf(),
        ensures
            final(self).wf(),
    {
        let x = Self::usex8(self.r(1));
        let y = Self::usex8(self.r(2));
        self.inc_r15();
        self.clrflags();
        self.av_reg[1] = self.av_reg[1].wrapping_add(1);
        if y >= self.screen_height {
            return;
        }
        if self.plot_option_reg & 0x01 == 0 && self.color_reg & 0xF == 0 {
            return;
        }
        let c = if self.plot_option_reg & 0x02 != 0 {
            if (x ^ y) & 1 != 0 {
                (self.color_reg >> 4) as u8
            } else {
                self.color_reg as u8
            }
        } else {
            self.color_reg as u8
        };
        let a = self.pixel_address(x, y);
        let v = pixel_bit(x);
        self.ram_plot_bit(a, v, c & 0x01 != 0);
        self.ram_plot_bit(a.wrapping_add(1), v, c & 0x02 != 0);
    }

    fn rpix_2bit(&mut self, rom: &[u8])
        requires
            old(self).wf(),
        ensures
            final(self).wf(),
    {
        let x = Self::usex8(self.r(1));
        let y = Self::usex8(self.r(2));
        self.inc_r15();
        if y >= self.screen_height {
            return;
        }
        let a = self.pixel_address(x, y);
        let v = pixel_bit(x);
        let mut d = 0u32;
        if self.ram_get(a) & v != 0 {
            d = d | 1u32;
        }
        if self.ram_get(a.wrapping_add(1)) & v != 0 {
            d = d | 2u32;
        }
        self.set_dreg(d);
        self.test_r14(rom);
        self.clrflags();
    }

    fn plot_4bit(&mut self)
        requires
            old(self).wf(),
        ensures
            final(self).wf(),
    {
        let x = Self::usex8(self.r(1));
        let y = Self::usex8(self.r(2));
        self.inc_r15();
        self.clrflags();
        self.av_reg[1] = self.av_reg[1].wrapping_add(1);
        if y >= self.screen_height {
            return;
        }
        if self.plot_option_reg & 0x01 == 0 && self.color_reg & 0xF == 0 {
            return;
        }
        let c = if self.plot_option_reg & 0x02 != 0 {
            if (x ^ y) & 1 != 0 {
                (self.color_reg >> 4) as u8
            } else {
                self.color_reg as u8
            }
        } else {
            self.color_reg as u8
        };
        let a = self.pixel_address(x, y);
        let v = pixel_bit(x);
        self.ram_plot_bit(a, v, c & 0x01 != 0);
        self.ram_plot_bit(a.wrapping_add(0x01), v, c & 0x02 != 0);
        self.ram_plot_bit(a.wrapping_add(0x10), v, c & 0x04 != 0);
        self.ram_plot_bit(a.wrapping_add(0x11), v, c & 0x08 != 0);
    }

    fn rpix_4bit(&mut self, rom: &[u8])
        requires
            old(self).wf(),
        ensures
            final(self).wf(),
    {
        let x = Self::usex8(self.r(1));
        let y = Self::usex8(self.r(2));
        self.inc_r15();
        if y >= self.screen_height {
            return;
        }
        let a = self.pixel_address(x, y);
        let v = pixel_bit(x);
        let mut d = 0u32;
        if self.ram_get(a) & v != 0 {
            d = d | 1u32;
        }
        if self.ram_get(a.wrapping_add(1)) & v != 0 {
            d = d | 2u32;
        }
        if self.ram_get(a.wrapping_add(0x10)) & v != 0 {
            d = d | 4u32;
        }
        if self.ram_get(a.wrapping_add(0x11)) & v != 0 {
            d = d | 8u32;
        }
        self.set_dreg(d);
        self.test_r14(rom);
        self.clrflags();
    }

    fn plot_8bit(&mut self)
        requires
            old(self).wf(),
        ensures
            final(self).wf(),
    {
        let x = Self::usex8(self.r(1));
        let y = Self::usex8(self.r(2));
        self.inc_r15();
        self.clrflags();
        self.av_reg[1] = self.av_reg[1].wrapping_add(1);
        if y >= self.screen_height {
            return;
        }
        let c = self.color_reg as u8;
        if self.plot_option_reg & 0x10 == 0 {
            if self.plot_option_reg & 0x01 == 0
                && (c == 0 || (self.plot_option_reg & 0x08 != 0 && c & 0xF == 0))
            {
                return;
            }
        } else if self.plot_option_reg & 0x01 == 0 && c == 0 {
            return;
        }
        let a = self.pixel_address(x, y);
        let v = pixel_bit(x);
        self.ram_plot_bit(a, v, c & 0x01 != 0);
        self.ram_plot_bit(a.wrapping_add(0x01), v, c & 0x02 != 0);
        self.ram_plot_bit(a.wrapping_add(0x10), v, c & 0x04 != 0);
        self.ram_plot_bit(a.wrapping_add(0x11), v, c & 0x08 != 0);
        self.ram_plot_bit(a.wrapping_add(0x20), v, c & 0x10 != 0);
        self.ram_plot_bit(a.wrapping_add(0x21), v, c & 0x20 != 0);
        self.ram_plot_bit(a.wrapping_add(0x30), v, c & 0x40 != 0);
        self.ram_plot_bit(a.wrapping_add(0x31), v, c & 0x80 != 0);
    }

    fn rpix_8bit(&mut self, rom: &[u8])
        requires
            old(self).wf(),
        ensures
            final(self).wf(),
    {
        let x = Self::usex8(self.r(1));
        let y = Self::usex8(self.r(2));
        self.inc_r15();
        if y >= self.screen_height {
            return;
        }
        let a = self.pixel_address(x, y);
        let v = pixel_bit(x);
        let mut d = 0u32;
        if self.ram_get(a) & v != 0 {
            d = d | 1u32;
        }
        if self.ram_get(a.wrapping_add(1)) & v != 0 {
            d = d | 2u32;
        }
        if self.ram_get(a.wrapping_add(0x10)) & v != 0 {
            d = d | 4u32;
        }
        if self.ram_get(a.wrapping_add(0x11)) & v != 0 {
            d = d | 8u32;
        }
        if self.ram_get(a.wrapping_add(0x20)) & v != 0 {
            d = d | 16u32;
        }
        if self.ram_get(a.wrapping_add(0x21)) & v != 0 {
            d = d | 32u32;
        }
        if self.ram_get(a.wrapping_add(0x30)) & v != 0 {
            d = d | 64u32;
        }
        if self.ram_get(a.wrapping_add(0x31)) & v != 0 {
            d = d | 128u32;
        }
        self.set_dreg(d);
        self.zero = d;
        self.test_r14(rom);
        self.clrflags();
    }

    // 4d - swap
    fn fx_swap(&mut self, rom: &[u8])
        requires
            old(self).wf(),
        ensures
            final(self).wf(),
    {
        let c = self.sreg() as u8;
        let d = (self.sreg() >> 8) as u8;
        let v = ((c as u32) << 8) | (d as u32);
        self.inc_r15();
        self.set_dreg(v);
        self.sign = v;
        self.zero = v;
        self.test_r14(rom);
        self.clrflags();
    }

    // 4e - color
    fn fx_color(&mut self)
        requires
            old(self).wf(),
        ensures
            final(self).wf(),
    {
        let mut c = self.sreg() as u8;
        if self.plot_option_reg & 0x04 != 0 {
            c = (c & 0xF0) | (c >> 4);
        }
        if self.plot_option_reg & 0x08 != 0 {
            self.color_reg = (self.color_reg & 0xF0) | (c as u32 & 0x0F);
        } else {
            self.color_reg = c as u32;
        }
        self.clrflags();
        self.inc_r15();
    }

    // 4e (ALT1/3) - cmode
    fn fx_cmode(&mut self)
        requires
            old(self).wf(),
        ensures
            final(self).wf(),
    {
        self.plot_option_reg = self.sreg();
        if self.plot_option_reg & 0x10 != 0 {
            self.screen_height = 256; // OBJ mode
        } else {
            self.screen_height = self.screen_real_height;
        }
        self.compute_screen_pointers();
        self.clrflags();
        self.inc_r15();
    }

    // 4f - not
    fn fx_not(&mut self, rom: &[u8])
        requires
            old(self).wf(),
        ensures
            final(self).wf(),
    {
        let v = !self.sreg();
        self.inc_r15();
        self.set_dreg(v);
        self.sign = v;
        self.zero = v;
        self.test_r14(rom);
        self.clrflags();
    }

    // 50-5f - add rn
    fn fx_add(&mut self, rom: &[u8], reg: usize)
        requires
            old(self).wf(),
            reg < 16,
        ensures
            final(self).wf(),
            ({
                let a = old(self).av_reg[old(self).sreg as int] as u16;
                let b = old(self).av_reg[reg as int] as u16;
                &&& final(self).av_reg[old(self).dreg as int] == fx_add_value(a, b)
                &&& final(self).carry == (if a as int + b as int >= 0x10000 { 1u32 } else { 0u32 })
            }),
    {
        let s = (self.sreg() as u16 as i32) + (self.r(reg) as u16 as i32);
        self.carry = (s >= 0x10000) as u32;
        self.overflow = ((!self.sreg() ^ self.r(reg)) & (self.r(reg) ^ s as u32) & 0x8000) as i32;
        self.sign = s as u32;
        self.zero = s as u32;
        self.inc_r15();
        self.set_dreg(s as u32);
        self.test_r14(rom);
        self.clrflags();
    }

    // 50-5f (ALT1) - adc rn
    fn fx_adc(&mut self, rom: &[u8], reg: usize)
        requires
            old(self).wf(),
            reg < 16,
        ensures
            final(self).wf(),
    {
        let s = (self.sreg() as u16 as i32) + (self.r(reg) as u16 as i32) + Self::sex16(self.carry);
        self.carry = (s >= 0x10000) as u32;
        self.overflow = ((!self.sreg() ^ self.r(reg)) & (self.r(reg) ^ s as u32) & 0x8000) as i32;
        self.sign = s as u32;
        self.zero = s as u32;
        self.inc_r15();
        self.set_dreg(s as u32);
        self.test_r14(rom);
        self.clrflags();
    }

    // 50-5f (ALT2) - add #n
    fn fx_add_i(&mut self, rom: &[u8], imm: i32)
        requires
            old(self).wf(),
            0 <= imm <= 15,
        ensures
            final(self).wf(),
    {
        let s = (self.sreg() as u16 as i32) + imm;
        self.carry = (s >= 0x10000) as u32;
        self.overflow = ((!self.sreg() ^ imm as u32) & (imm as u32 ^ s as u32) & 0x8000) as i32;
        self.sign = s as u32;
        self.zero = s as u32;
        self.inc_r15();
        self.set_dreg(s as u32);
        self.test_r14(rom);
        self.clrflags();
    }

    // 50-5f (ALT3) - adc #n
    fn fx_adc_i(&mut self, rom: &[u8], imm: i32)
        requires
            old(self).wf(),
            0 <= imm <= 15,
        ensures
            final(self).wf(),
    {
        let s = (self.sreg() as u16 as i32) + imm + (self.carry as u16 as i32);
        self.carry = (s >= 0x10000) as u32;
        self.overflow = ((!self.sreg() ^ imm as u32) & (imm as u32 ^ s as u32) & 0x8000) as i32;
        self.sign = s as u32;
        self.zero = s as u32;
        self.inc_r15();
        self.set_dreg(s as u32);
        self.test_r14(rom);
        self.clrflags();
    }

    // 60-6f - sub rn
    fn fx_sub(&mut self, rom: &[u8], reg: usize)
        requires
            old(self).wf(),
            reg < 16,
        ensures
            final(self).wf(),
            ({
                let a = old(self).av_reg[old(self).sreg as int] as u16;
                let b = old(self).av_reg[reg as int] as u16;
                &&& final(self).av_reg[old(self).dreg as int] == fx_sub_value(a, b)
                &&& final(self).carry == (if a >= b { 1u32 } else { 0u32 })
            }),
    {
        let s = (self.sreg() as u16 as i32) - (self.r(reg) as u16 as i32);
        self.carry = (s >= 0) as u32;
        self.overflow = ((self.sreg() ^ self.r(reg)) & (self.sreg() ^ s as u32) & 0x8000) as i32;
        self.sign = s as u32;
        self.zero = s as u32;
        self.inc_r15();
        self.set_dreg(s as u32);
        self.test_r14(rom);
        self.clrflags();
    }

    // 60-6f (ALT1) - sbc rn
    fn fx_sbc(&mut self, rom: &[u8], reg: usize)
        requires
            old(self).wf(),
            reg < 16,
        ensures
            final(self).wf(),
    {
        let s = (self.sreg() as u16 as i32)
            - (self.r(reg) as u16 as i32)
            - ((self.carry ^ 1) as u16 as i32);
        self.carry = (s >= 0) as u32;
        self.overflow = ((self.sreg() ^ self.r(reg)) & (self.sreg() ^ s as u32) & 0x8000) as i32;
        self.sign = s as u32;
        self.zero = s as u32;
        self.inc_r15();
        self.set_dreg(s as u32);
        self.test_r14(rom);
        self.clrflags();
    }

    // 60-6f (ALT2) - sub #n
    fn fx_sub_i(&mut self, rom: &[u8], imm: i32)
        requires
            old(self).wf(),
            0 <= imm <= 15,
        ensures
            final(self).wf(),
    {
        let s = (self.sreg() as u16 as i32) - imm;
        self.carry = (s >= 0) as u32;
        self.overflow = ((self.sreg() ^ imm as u32) & (self.sreg() ^ s as u32) & 0x8000) as i32;
        self.sign = s as u32;
        self.zero = s as u32;
        self.inc_r15();
        self.set_dreg(s as u32);
        self.test_r14(rom);
        self.clrflags();
    }

    // 60-6f (ALT3) - cmp rn
    fn fx_compare(&mut self, reg: usize)
        requires
            old(self).wf(),
            reg < 16,
        ensures
            final(self).wf(),
    {
        let s = (self.sreg() as u16 as i32) - (self.r(reg) as u16 as i32);
        self.carry = (s >= 0) as u32;
        self.overflow = ((self.sreg() ^ self.r(reg)) & (self.sreg() ^ s as u32) & 0x8000) as i32;
        self.sign = s as u32;
        self.zero = s as u32;
        self.inc_r15();
        self.clrflags();
    }

    // 70 - merge
    fn fx_merge(&mut self, rom: &[u8])
        requires
            old(self).wf(),
        ensures
            final(self).wf(),
    {
        let v = (self.r(7) & 0xFF00) | ((self.r(8) & 0xFF00) >> 8);
        self.inc_r15();
        self.set_dreg(v);
        self.overflow = ((v & 0xC0C0) << 16) as i32;
        self.zero = ((v & 0xF0F0) == 0) as u32;
        self.sign = (v | (v << 8)) & 0x8000;
        self.carry = (v & 0xE0E0 != 0) as u32;
        self.test_r14(rom);
        self.clrflags();
    }

    // 71-7f - and rn
    fn fx_and(&mut self, rom: &[u8], reg: usize)
        requires
            old(self).wf(),
            reg < 16,
        ensures
            final(self).wf(),
    {
        let v = self.sreg() & self.r(reg);
        self.inc_r15();
        self.set_dreg(v);
        self.sign = v;
        self.zero = v;
        self.test_r14(rom);
        self.clrflags();
    }

    // 71-7f (ALT1) - bic rn
    fn fx_bic(&mut self, rom: &[u8], reg: usize)
        requires
            old(self).wf(),
            reg < 16,
        ensures
            final(self).wf(),
    {
        let v = self.sreg() & !self.r(reg);
        self.inc_r15();
        self.set_dreg(v);
        self.sign = v;
        self.zero = v;
        self.test_r14(rom);
        self.clrflags();
    }

    // 71-7f (ALT2) - and #n
    fn fx_and_i(&mut self, rom: &[u8], imm: u32)
        requires
            old(self).wf(),
            imm <= 15,
        ensures
            final(self).wf(),
    {
        let v = self.sreg() & imm;
        self.inc_r15();
        self.set_dreg(v);
        self.sign = v;
        self.zero = v;
        self.test_r14(rom);
        self.clrflags();
    }

    // 71-7f (ALT3) - bic #n
    fn fx_bic_i(&mut self, rom: &[u8], imm: u32)
        requires
            old(self).wf(),
            imm <= 15,
        ensures
            final(self).wf(),
    {
        let v = self.sreg() & !imm;
        self.inc_r15();
        self.set_dreg(v);
        self.sign = v;
        self.zero = v;
        self.test_r14(rom);
        self.clrflags();
    }

    // 80-8f - mult rn
    fn fx_mult(&mut self, rom: &[u8], reg: usize)
        requires
            old(self).wf(),
            reg < 16,
        ensures
            final(self).wf(),
    {
        let v = Self::mul_s8(Self::sex8(self.sreg()), Self::sex8(self.r(reg))) as u32;
        self.inc_r15();
        self.set_dreg(v);
        self.sign = v;
        self.zero = v;
        self.test_r14(rom);
        self.clrflags();
    }

    // 80-8f (ALT1) - umult rn
    fn fx_umult(&mut self, rom: &[u8], reg: usize)
        requires
            old(self).wf(),
            reg < 16,
        ensures
            final(self).wf(),
    {
        let v = Self::mul_u8(Self::usex8(self.sreg()), Self::usex8(self.r(reg)));
        self.inc_r15();
        self.set_dreg(v);
        self.sign = v;
        self.zero = v;
        self.test_r14(rom);
        self.clrflags();
    }

    // 80-8f (ALT2) - mult #n
    fn fx_mult_i(&mut self, rom: &[u8], imm: i32)
        requires
            old(self).wf(),
            0 <= imm <= 15,
        ensures
            final(self).wf(),
    {
        let v = Self::mul_s8(Self::sex8(self.sreg()), imm) as u32;
        self.inc_r15();
        self.set_dreg(v);
        self.sign = v;
        self.zero = v;
        self.test_r14(rom);
        self.clrflags();
    }

    // 80-8f (ALT3) - umult #n
    fn fx_umult_i(&mut self, rom: &[u8], imm: u32)
        requires
            old(self).wf(),
            imm <= 15,
        ensures
            final(self).wf(),
    {
        let v = Self::mul_u8(Self::usex8(self.sreg()), imm);
        self.inc_r15();
        self.set_dreg(v);
        self.sign = v;
        self.zero = v;
        self.test_r14(rom);
        self.clrflags();
    }

    // 90 - sbk
    fn fx_sbk(&mut self)
        requires
            old(self).wf(),
        ensures
            final(self).wf(),
    {
        let s = self.sreg();
        let adr = self.last_ram_adr;
        self.ram_write(adr, s as u8);
        self.ram_write(adr ^ 1, (s >> 8) as u8);
        self.clrflags();
        self.inc_r15();
    }

    // 91-94 - link #n
    fn fx_link(&mut self, lkn: u32)
        requires
            old(self).wf(),
            lkn <= 15,
        ensures
            final(self).wf(),
    {
        self.av_reg[11] = self.r15().wrapping_add(lkn);
        self.clrflags();
        self.inc_r15();
    }

    // 95 - sex
    fn fx_sex(&mut self, rom: &[u8])
        requires
            old(self).wf(),
        ensures
            final(self).wf(),
    {
        let v = Self::sex8(self.sreg()) as u32;
        self.inc_r15();
        self.set_dreg(v);
        self.sign = v;
        self.zero = v;
        self.test_r14(rom);
        self.clrflags();
    }

    // 96 - asr
    fn fx_asr(&mut self, rom: &[u8])
        requires
            old(self).wf(),
        ensures
            final(self).wf(),
    {
        self.carry = self.sreg() & 1;
        let v = (Self::sex16(self.sreg()) >> 1) as u32;
        self.inc_r15();
        self.set_dreg(v);
        self.sign = v;
        self.zero = v;
        self.test_r14(rom);
        self.clrflags();
    }

    // 96 (ALT1/3) - div2
    fn fx_div2(&mut self, rom: &[u8])
        requires
            old(self).wf(),
        ensures
            final(self).wf(),
    {
        let s = Self::sex16(self.sreg());
        self.carry = (s & 1) as u32;
        let v = if s == -1 { 0 } else { (s >> 1) as u32 };
        self.inc_r15();
        self.set_dreg(v);
        self.sign = v;
        self.zero = v;
        self.test_r14(rom);
        self.clrflags();
    }

    // 97 - ror
    fn fx_ror(&mut self, rom: &[u8])
        requires
            old(self).wf(),
        ensures
            final(self).wf(),
    {
        let v = (Self::usex16(self.sreg()) >> 1) | (self.carry << 15);
        self.carry = self.sreg() & 1;
        self.inc_r15();
        self.set_dreg(v);
        self.sign = v;
        self.zero = v;
        self.test_r14(rom);
        self.clrflags();
    }

    // 98-9d - jmp rn
    fn fx_jmp(&mut self, reg: usize)
        requires
            old(self).wf(),
            reg < 16,
        ensures
            final(self).wf(),
    {
        self.av_reg[15] = self.r(reg);
        self.clrflags();
    }

    // 98-9d (ALT1/3) - ljmp rn
    fn fx_ljmp(&mut self, rom: &[u8], reg: usize)
        requires
            old(self).wf(),
            reg < 16,
        ensures
            final(self).wf(),
    {
        self.prg_bank_reg = self.r(reg) & 0x7F;
        self.av_reg[15] = self.sreg();
        self.cache_active = false;
        self.fx_cache();
        self.av_reg[15] = self.av_reg[15].wrapping_sub(1);
        let _ = rom;
    }

    // 9e - lob
    fn fx_lob(&mut self, rom: &[u8])
        requires
            old(self).wf(),
        ensures
            final(self).wf(),
    {
        let v = Self::usex8(self.sreg());
        self.inc_r15();
        self.set_dreg(v);
        self.sign = v << 8;
        self.zero = v << 8;
        self.test_r14(rom);
        self.clrflags();
    }

    // 9f - fmult
    fn fx_fmult(&mut self, rom: &[u8])
        requires
            old(self).wf(),
        ensures
            final(self).wf(),
    {
        let c = Self::mul_s16(Self::sex16(self.sreg()), Self::sex16(self.r(6))) as u32;
        let v = c >> 16;
        self.inc_r15();
        self.set_dreg(v);
        self.sign = v;
        self.zero = v;
        self.carry = (c >> 15) & 1;
        self.test_r14(rom);
        self.clrflags();
    }

    // 9f (ALT1/3) - lmult
    fn fx_lmult(&mut self, rom: &[u8])
        requires
            old(self).wf(),
        ensures
            final(self).wf(),
    {
        let c = Self::mul_s16(Self::sex16(self.sreg()), Self::sex16(self.r(6))) as u32;
        self.av_reg[4] = c;
        let v = c >> 16;
        self.inc_r15();
        self.set_dreg(v);
        self.sign = v;
        self.zero = v;
        self.carry = (self.r(4) >> 15) & 1;
        self.test_r14(rom);
        self.clrflags();
    }

    // a0-af - ibt rn, #pp
    fn fx_ibt(&mut self, rom: &[u8], reg: usize)
        requires
            old(self).wf(),
            reg < 16,
        ensures
            final(self).wf(),
    {
        let v = self.pipe;
        self.inc_r15();
        self.fetch_pipe(rom);
        self.inc_r15();
        self.av_reg[reg] = Self::sex8(v as u32) as u32;
        self.clrflags();
        if reg == 14 {
            self.read_r14(rom);
        }
    }

    // a0-af (ALT1/3) - lms rn, (yy)
    fn fx_lms(&mut self, rom: &[u8], reg: usize)
        requires
            old(self).wf(),
            reg < 16,
        ensures
            final(self).wf(),
    {
        let p = self.pipe;
        let adr: u32 = (p as u32) << 1;
        proof {
            vstd::arithmetic::power2::lemma2_to64();
            vstd::bits::lemma_u32_shl_is_mul(p as u32, 1);
        }
        self.last_ram_adr = adr;
        self.inc_r15();
        self.fetch_pipe(rom);
        self.inc_r15();
        let v = (self.ram_read(adr) as u32)
            | ((self.ram_read(adr + 1) as u32) << 8);
        self.av_reg[reg] = v;
        self.clrflags();
        if reg == 14 {
            self.read_r14(rom);
        }
    }

    // a0-af (ALT2) - sms (yy), rn
    fn fx_sms(&mut self, rom: &[u8], reg: usize)
        requires
            old(self).wf(),
            reg < 16,
        ensures
            final(self).wf(),
    {
        let v = self.r(reg);
        let p = self.pipe;
        let adr: u32 = (p as u32) << 1;
        proof {
            vstd::arithmetic::power2::lemma2_to64();
            vstd::bits::lemma_u32_shl_is_mul(p as u32, 1);
        }
        self.last_ram_adr = adr;
        self.inc_r15();
        self.fetch_pipe(rom);
        self.ram_write(adr, v as u8);
        self.ram_write(adr + 1, (v >> 8) as u8);
        self.clrflags();
        self.inc_r15();
    }

    // b0-bf - from rn / (B) moves rn
    fn fx_from(&mut self, rom: &[u8], reg: usize)
        requires
            old(self).wf(),
            reg < 16,
        ensures
            final(self).wf(),
            old(self).status_reg & FLG_B == 0 ==> fx_with_regs(*final(self), SuperFx { sreg: reg, ..*old(self) }, fx_r15_next(old(self).av_reg@)),
    {
        if self.tf(FLG_B) {
            let v = self.r(reg);
            self.inc_r15();
            self.set_dreg(v);
            self.overflow = ((v & 0x80) << 16) as i32;
            self.sign = v;
            self.zero = v;
            self.test_r14(rom);
            self.clrflags();
        } else {
            self.sreg = reg;
            self.inc_r15();
        }
    }

    // c0 - hib
    fn fx_hib(&mut self, rom: &[u8])
        requires
            old(self).wf(),
        ensures
            final(self).wf(),
    {
        let v = Self::usex8(self.sreg() >> 8);
        self.inc_r15();
        self.set_dreg(v);
        self.sign = v << 8;
        self.zero = v << 8;
        self.test_r14(rom);
        self.clrflags();
    }

    // c1-cf - or rn
    fn fx_or(&mut self, rom: &[u8], reg: usize)
        requires
            old(self).wf(),
            reg < 16,
        ensures
            final(self).wf(),
    {
        let v = self.sreg() | self.r(reg);
        self.inc_r15();
        self.set_dreg(v);
        self.sign = v;
        self.zero = v;
        self.test_r14(rom);
        self.clrflags();
    }

    // c1-cf (ALT1) - xor rn
    fn fx_xor(&mut self, rom: &[u8], reg: usize)
        requires
            old(self).wf(),
            reg < 16,
        ensures
            final(self).wf(),
    {
        let v = self.sreg() ^ self.r(reg);
        self.inc_r15();
        self.set_dreg(v);
        self.sign = v;
        self.zero = v;
        self.test_r14(rom);
        self.clrflags();
    }

    // c1-cf (ALT2) - or #n
    fn fx_or_i(&mut self, rom: &[u8], imm: u32)
        requires
            old(self).wf(),
            imm <= 15,
        ensures
            final(self).wf(),
    {
        let v = self.sreg() | imm;
        self.inc_r15();
        self.set_dreg(v);
        self.sign = v;
        self.zero = v;
        self.test_r14(rom);
        self.clrflags();
    }

    // c1-cf (ALT3) - xor #n
    fn fx_xor_i(&mut self, rom: &[u8], imm: u32)
        requires
            old(self).wf(),
            imm <= 15,
        ensures
            final(self).wf(),
    {
        let v = self.sreg() ^ imm;
        self.inc_r15();
        self.set_dreg(v);
        self.sign = v;
        self.zero = v;
        self.test_r14(rom);
        self.clrflags();
    }

    // d0-de - inc rn
    fn fx_inc(&mut self, rom: &[u8], reg: usize)
        requires
            old(self).wf(),
            reg < 16,
        ensures
            final(self).wf(),
            reg != 14 ==> ({
                let v = vstd::wrapping::u32_specs::wrapping_add(old(self).av_reg[reg as int], 1);
                fx_with_regs(
                    *final(self),
                    SuperFx { sign: v, zero: v, ..fx_cleared(*old(self)) },
                    fx_r15_next(old(self).av_reg@.update(reg as int, v)),
                )
            }),
    {
        self.av_reg[reg] = self.av_reg[reg].wrapping_add(1);
        self.sign = self.r(reg);
        self.zero = self.r(reg);
        self.clrflags();
        self.inc_r15();
        if reg == 14 {
            self.read_r14(rom);
        }
    }

    // df - getc
    fn fx_getc(&mut self)
        requires
            old(self).wf(),
        ensures
            final(self).wf(),
    {
        let mut c = self.rom_buffer;
        if self.plot_option_reg & 0x04 != 0 {
            c = (c & 0xF0) | (c >> 4);
        }
        if self.plot_option_reg & 0x08 != 0 {
            self.color_reg = (self.color_reg & 0xF0) | (c as u32 & 0x0F);
        } else {
            self.color_reg = c as u32;
        }
        self.clrflags();
        self.inc_r15();
    }

    // df (ALT2) - ramb
    fn fx_ramb(&mut self)
        requires
            old(self).wf(),
        ensures
            final(self).wf(),
    {
        self.ram_bank_reg = self.sreg() & (FX_RAM_BANKS - 1);
        let t: usize = (self.ram_bank_reg as usize & 0x3) % RAM_BANKS;
        proof {
            vstd::arithmetic::power2::lemma2_to64();
            vstd::bits::lemma_usize_shl_is_mul(t, 16);
        }
        self.ram_bank_off = t << 16;
        self.clrflags();
        self.inc_r15();
    }

    // df (ALT3) - romb
    fn fx_romb(&mut self)
        requires
            old(self).wf(),
        ensures
            final(self).wf(),
    {
        self.rom_bank_reg = Self::usex8(self.sreg()) & 0x7F;
        self.clrflags();
        self.inc_r15();
    }

    // e0-ee - dec rn
    fn fx_dec(&mut self, rom: &[u8], reg: usize)
        requires
            old(self).wf(),
            reg < 16,
        ensures
            final(self).wf(),
            reg != 14 ==> ({
                let v = vstd::wrapping::u32_specs::wrapping_sub(old(self).av_reg[reg as int], 1);
                fx_with_regs(
                    *final(self),
                    SuperFx { sign: v, zero: v, ..fx_cleared(*old(self)) },
                    fx_r15_next(old(self).av_reg@.update(reg as int, v)),
                )
            }),
    {
        self.av_reg[reg] = self.av_reg[reg].wrapping_sub(1);
        self.sign = self.r(reg);
        self.zero = self.r(reg);
        self.clrflags();
        self.inc_r15();
        if reg == 14 {
            self.read_r14(rom);
        }
    }

    // ef - getb
    fn fx_getb(&mut self, rom: &[u8])
        requires
            old(self).wf(),
        ensures
            final(self).wf(),
    {
        let v = self.rom_buffer as u32;
        self.inc_r15();
        self.set_dreg(v);
        self.test_r14(rom);
        self.clrflags();
    }

    // ef (ALT1) - getbh
    fn fx_getbh(&mut self, rom: &[u8])
        requires
            old(self).wf(),
        ensures
            final(self).wf(),
    {
        let c = Self::usex8(self.rom_buffer as u32);
        let v = Self::usex8(self.sreg()) | (c << 8);
        self.inc_r15();
        self.set_dreg(v);
        self.test_r14(rom);
        self.clrflags();
    }

    // ef (ALT2) - getbl
    fn fx_getbl(&mut self, rom: &[u8])
        requires
            old(self).wf(),
        ensures
            final(self).wf(),
    {
        let c = Self::usex8(self.rom_buffer as u32);
        let v = (self.sreg() & 0xFF00) | c;
        self.inc_r15();
        self.set_dreg(v);
        self.test_r14(rom);
        self.clrflags();
    }

    // ef (ALT3) - getbs
    fn fx_getbs(&mut self, rom: &[u8])
        requires
            old(self).wf(),
        ensures
            final(self).wf(),
    {
        let v = Self::sex8(self.rom_buffer as u32) as u32;
        self.inc_r15();
        self.set_dreg(v);
        self.test_r14(rom);
        self.clrflags();
    }

    // f0-ff - iwt rn, #xx
    fn fx_iwt(&mut self, rom: &[u8], reg: usize)
        requires
            old(self).wf(),
            reg < 16,
        ensures
            final(self).wf(),
    {
        let mut v = self.pipe as u32;
        self.inc_r15();
        self.fetch_pipe(rom);
        self.inc_r15();
        v |= Self::usex8(self.pipe as u32) << 8;
        self.fetch_pipe(rom);
        self.inc_r15();
        self.av_reg[reg] = v;
        self.clrflags();
        if reg == 14 {
            self.read_r14(rom);
        }
    }

    // f0-ff (ALT1/3) - lm rn, (xx)
    fn fx_lm(&mut self, rom: &[u8], reg: usize)
        requires
            old(self).wf(),
            reg < 16,
        ensures
            final(self).wf(),
    {
        self.last_ram_adr = self.pipe as u32;
        self.inc_r15();
        self.fetch_pipe(rom);
        self.inc_r15();
        self.last_ram_adr |= Self::usex8(self.pipe as u32) << 8;
        self.fetch_pipe(rom);
        self.inc_r15();
        let v = (self.ram_read(self.last_ram_adr) as u32)
            | (Self::usex8(self.ram_read(self.last_ram_adr ^ 1) as u32) << 8);
        self.av_reg[reg] = v;
        self.clrflags();
        if reg == 14 {
            self.read_r14(rom);
        }
    }

    // f0-ff (ALT2) - sm (xx), rn
    fn fx_sm(&mut self, rom: &[u8], reg: usize)
        requires
            old(self).wf(),
            reg < 16,
        ensures
            final(self).wf(),
    {
        let v = self.r(reg);
        self.last_ram_adr = self.pipe as u32;
        self.inc_r15();
        self.fetch_pipe(rom);
        self.inc_r15();
        self.last_ram_adr |= Self::usex8(self.pipe as u32) << 8;
        self.fetch_pipe(rom);
        let adr = self.last_ram_adr;
        self.ram_write(adr, v as u8);
        self.ram_write(adr ^ 1, (v >> 8) as u8);
        self.clrflags();
        self.inc_r15();
    }
}

} // verus!
