//! Ricoh 5A22 (WDC 65C816 core) CPU.
//!
//! Instruction-granular stepping with per-instruction cycle counts.
//! Native/emulation modes, the full opcode matrix, interrupts.

use vstd::prelude::*;
use crate::bits::{lemma_and_le_u8, lemma_and_le_u16, lemma_and_le_u32, lemma_bank0_u32, lemma_complement_byte_u16};
use crate::bus::{Bus, wram_index};

verus! {

pub const FLAG_C: u8 = 0x01;
pub const FLAG_Z: u8 = 0x02;
pub const FLAG_I: u8 = 0x04;
pub const FLAG_D: u8 = 0x08;
pub const FLAG_X: u8 = 0x10;
pub const FLAG_M: u8 = 0x20;
pub const FLAG_V: u8 = 0x40;
pub const FLAG_N: u8 = 0x80;

pub const VEC_NMI: u16 = 0xFFEA;
pub const VEC_RESET: u16 = 0xFFFC;
pub const VEC_IRQ: u16 = 0xFFEE;
pub const VEC_BRK: u16 = 0xFFE6;
pub const VEC_COP: u16 = 0xFFE4;

/// Address of the vector an interrupt reads: native-mode vectors as given,
/// emulation mode uses the $FFFx table (BRK shares the IRQ vector).
pub open spec fn vector_address(e: bool, vector: u16) -> u16 {
    if e {
        if vector == VEC_NMI {
            0xFFFA
        } else if vector == VEC_RESET {
            0xFFFC
        } else if vector == VEC_IRQ || vector == VEC_BRK {
            0xFFFE
        } else if vector == VEC_COP {
            0xFFF4
        } else {
            vector
        }
    } else {
        vector
    }
}

pub struct Cpu {
    /// Accumulator; when M=1 the low byte is A and the high byte is "B".
    pub a: u16,
    pub x: u16,
    pub y: u16,
    pub sp: u16,
    pub dp: u16,
    pub pc: u16,
    /// Program bank register.
    pub pb: u8,
    /// Data bank register.
    pub db: u8,
    pub p: u8,
    pub e: bool,
    pub stopped: bool,
    pub waiting: bool,
    pub nmi_pending: bool,
    pub irq_pending: bool,
    pub cycles: u64,
}

/// `p` with flag bits `f` set (`b`) or cleared.
pub open spec fn with_flag(p: u8, f: u8, b: bool) -> u8 {
    if b {
        p | f
    } else {
        p & !f
    }
}

/// `p` with N and Z set from `v`, 16-bit (`wide`) or 8-bit.
pub open spec fn with_nz(p: u8, v: u16, wide: bool) -> u8 {
    let z = if wide { v == 0 } else { v & 0xFF == 0 };
    let n = if wide { v & 0x8000 != 0 } else { v & 0x80 != 0 };
    with_flag(with_flag(p, FLAG_Z, z), FLAG_N, n)
}

/// Keep the high byte of `a` and replace the low byte by that of `r`.
pub open spec fn low_byte_into(a: u16, r: u16) -> u16 {
    (a & 0xFF00) | (r & 0xFF)
}

/// Stack pointer after a push: wraps within page 1 in emulation mode.
pub open spec fn sp_after_push(sp: u16, e: bool) -> u16 {
    if e {
        (0x0100u16 | (vstd::wrapping::u16_specs::wrapping_sub(sp, 1) & 0x00FF)) as u16
    } else {
        vstd::wrapping::u16_specs::wrapping_sub(sp, 1)
    }
}

/// Stack pointer after a pull.
pub open spec fn sp_after_pull(sp: u16, e: bool) -> u16 {
    if e {
        (0x0100u16 | (vstd::wrapping::u16_specs::wrapping_add(sp, 1) & 0x00FF)) as u16
    } else {
        vstd::wrapping::u16_specs::wrapping_add(sp, 1)
    }
}

/// Binary add with carry at 8 (`wide` false) or 16 bits: (result, C, V).
pub open spec fn spec_adc(a: u16, v: u16, c: bool, wide: bool) -> (u16, bool, bool) {
    let ci: int = if c { 1 } else { 0 };
    if wide {
        let r = a + v + ci;
        let r16 = r as u16;
        (r16, r > 0xFFFF, (!(a ^ v) & (a ^ r16) & 0x8000) != 0)
    } else {
        let a8 = a & 0xFF;
        let v8 = v & 0xFF;
        let r = a8 + v8 + ci;
        let r16 = r as u16;
        (low_byte_into(a, r16), r > 0xFF, (!(a8 ^ v8) & (a8 ^ r16) & 0x80) != 0)
    }
}

/// Binary subtract as add of the complement `nv` with carry: (result, C, V).
pub open spec fn spec_sbc(a: u16, nv: u16, c: bool, wide: bool) -> (u16, bool, bool) {
    let ci: int = if c { 1 } else { 0 };
    if wide {
        let r = a + nv + ci;
        let r16 = r as u16;
        (r16, r > 0xFFFF, ((a ^ nv) & (a ^ r16) & 0x8000) != 0)
    } else {
        let a8 = a & 0xFF;
        let r = a8 + nv + ci;
        let r16 = r as u16;
        (low_byte_into(a, r16), r > 0xFF, ((a8 ^ nv) & (a8 ^ r16) & 0x80) != 0)
    }
}

/// Decimal addition of the low `n` nibbles of `a` and `v` with carry-in
/// `c`, from the lowest nibble up: (digits, carry out). A nibble sum above
/// 9 drops 10 and carries into the next nibble.
pub open spec fn bcd_sum(a: u16, v: u16, c: u16, n: nat) -> (u16, u16)
    decreases n,
{
    if n == 0 {
        (0u16, c)
    } else {
        let (r, cy) = bcd_sum(a, v, c, (n - 1) as nat);
        let sh = ((n - 1) * 4) as u16;
        let d = ((a >> sh) & 0xF) + ((v >> sh) & 0xF) + cy;
        if d > 9 {
            (r | (((d - 10) as u16) << sh), 1u16)
        } else {
            (r | ((d as u16) << sh), 0u16)
        }
    }
}

/// ADC in decimal mode: the nibble-wise decimal sum at the accumulator's
/// width, C its decimal carry, V from the binary sum, N and Z from the
/// result.
pub open spec fn spec_adc_bcd(c: Cpu, v: u16) -> Cpu {
    let m = c.spec_m16();
    let mask: u16 = if m { 0xFFFF } else { 0xFF };
    let a = c.a & mask;
    let vv = v & mask;
    let ci = (c.p & FLAG_C) as u16;
    let (res, cy) = bcd_sum(a, vv, ci, if m { 4nat } else { 2nat });
    let bin = vstd::wrapping::u16_specs::wrapping_add(vstd::wrapping::u16_specs::wrapping_add(a, vv), ci);
    let sign: u16 = if m { 0x8000 } else { 0x80 };
    let ov = !(a ^ vv) & (a ^ bin) & sign != 0;
    let na = acc_value(c, res);
    Cpu { a: na, p: with_nz(with_flag(with_flag(c.p, FLAG_V, ov), FLAG_C, cy != 0), na, m), ..c }
}

/// Decimal subtraction of the low `n` nibbles of `v` from those of `a`
/// with borrow-in `b`, from the lowest nibble up: (digits, borrow out). A
/// negative nibble difference gains 10 and borrows from the next nibble.
pub open spec fn bcd_diff(a: u16, v: u16, b: int, n: nat) -> (u16, int)
    decreases n,
{
    if n == 0 {
        (0u16, b)
    } else {
        let (r, bo) = bcd_diff(a, v, b, (n - 1) as nat);
        let sh = ((n - 1) * 4) as u16;
        let d = ((a >> sh) & 0xF) - ((v >> sh) & 0xF) - bo;
        if d < 0 {
            (r | (((d + 10) as u16) << sh), 1int)
        } else {
            (r | ((d as u16) << sh), 0int)
        }
    }
}

/// SBC in decimal mode: the nibble-wise decimal difference at the
/// accumulator's width, C set when nothing was borrowed, V from the binary
/// difference, N and Z from the result.
pub open spec fn spec_sbc_bcd(c: Cpu, v: u16) -> Cpu {
    let m = c.spec_m16();
    let mask: u16 = if m { 0xFFFF } else { 0xFF };
    let a = c.a & mask;
    let vv = v & mask;
    let bi = 1 - (c.p & FLAG_C) as int;
    let (res, bo) = bcd_diff(a, vv, bi, if m { 4nat } else { 2nat });
    let bin = vstd::wrapping::u16_specs::wrapping_sub(vstd::wrapping::u16_specs::wrapping_sub(a, vv), bi as u16);
    let sign: u16 = if m { 0x8000 } else { 0x80 };
    let ov = (a ^ vv) & (a ^ bin) & sign != 0;
    let na = acc_value(c, res);
    Cpu { a: na, p: with_nz(with_flag(with_flag(c.p, FLAG_V, ov), FLAG_C, bo == 0), na, m), ..c }
}

/// 2 to the operand width: 0x100 for 8-bit, 0x10000 for 16-bit operands.
pub open spec fn shift_width(wide: bool) -> int {
    if wide {
        0x10000
    } else {
        0x100
    }
}

/// ASL of `v`: (twice `v` within the width, the bit shifted out).
pub open spec fn spec_asl(v: u16, wide: bool) -> (u16, bool) {
    (((2 * v) % shift_width(wide)) as u16, v >= shift_width(wide) / 2)
}

/// LSR of `v`: (half of `v`, the bit shifted out).
pub open spec fn spec_lsr(v: u16) -> (u16, bool) {
    ((v / 2) as u16, v % 2 == 1)
}

/// ROL of `v` with carry-in `c`: (twice `v` plus the carry, within the
/// width; the bit shifted out becomes the carry).
pub open spec fn spec_rol(v: u16, c: bool, wide: bool) -> (u16, bool) {
    (((2 * v + if c { 1int } else { 0int }) % shift_width(wide)) as u16, v >= shift_width(wide) / 2)
}

/// ROR of `v` with carry-in `c`: (half of `v` with the carry entering the
/// top bit of the width; the bit shifted out becomes the carry).
pub open spec fn spec_ror(v: u16, c: bool, wide: bool) -> (u16, bool) {
    ((v / 2 + if c { shift_width(wide) / 2 } else { 0int }) as u16, v % 2 == 1)
}

/// The shifts' bit-level forms in arithmetic terms.
proof fn lemma_shift_bits(v: u16, c: u16)
    by (bit_vector)
    requires
        c <= 1,
    ensures
        v < 0x100 ==> (((v << 1u16) | c) & 0xFF) as u32 == (2 * (v as u32) + (c as u32)) % 0x100,
        (((v << 1u16) | c) & 0xFFFF) as u32 == (2 * (v as u32) + (c as u32)) % 0x10000,
        (v << 1u16) | 0u16 == v << 1u16,
        v < 0x100 ==> ((v & 0x80 != 0) == (v >= 0x80)),
        (v & 0x8000 != 0) == (v >= 0x8000),
        v < 0x100 ==> ((v >> 1u16) | 0x80) as u32 == ((v >> 1u16) as u32) + 0x80,
        ((v >> 1u16) | 0x8000) as u32 == ((v >> 1u16) as u32) + 0x8000,
        (v >> 1u16) | 0u16 == v >> 1u16,
        v < 0x100 ==> v & 0xFF == v,
        v & 0xFFFF == v,
{
}

/// Shifting right by one halves; the low bit is the remainder.
proof fn lemma_half(v: u16)
    ensures
        v >> 1u16 == v / 2,
        (v & 1 != 0) == (v % 2 == 1),
{
    vstd::bits::lemma_u16_shr_is_div(v, 1);
    vstd::arithmetic::power2::lemma2_to64();
    vstd::bits::lemma_low_bits_mask_values();
    vstd::bits::lemma_u16_low_bits_mask_is_mod(v, 1);
}

/// ROL and ROR undo each other: rotating left and then right through the
/// carry (or right and then left) restores both the value and the carry.
pub proof fn lemma_rol_ror_round_trip(v: u16, c: bool, wide: bool)
    requires
        v < shift_width(wide),
    ensures
        spec_ror(spec_rol(v, c, wide).0, spec_rol(v, c, wide).1, wide) == (v, c),
        spec_rol(spec_ror(v, c, wide).0, spec_ror(v, c, wide).1, wide) == (v, c),
{
}

/// ASL doubles its operand, the bit shifted out taking the weight of the
/// width, and LSR halves it, the bit shifted out being the remainder.
pub proof fn lemma_asl_lsr_arithmetic(v: u16, wide: bool)
    requires
        v < shift_width(wide),
    ensures
        spec_asl(v, wide).0 + (if spec_asl(v, wide).1 { shift_width(wide) } else { 0 }) == 2 * v,
        2 * spec_lsr(v).0 + (if spec_lsr(v).1 { 1int } else { 0 }) == v,
{
}

/// ROL doubles its operand and adds the carry-in, the bit shifted out
/// taking the weight of the width; ROR halves it with the carry-in taking
/// the weight of the top bit, the bit shifted out being the remainder.
pub proof fn lemma_rol_ror_arithmetic(v: u16, c: bool, wide: bool)
    requires
        v < shift_width(wide),
    ensures
        spec_rol(v, c, wide).0 + (if spec_rol(v, c, wide).1 { shift_width(wide) } else { 0 })
            == 2 * v + (if c { 1int } else { 0 }),
        2 * spec_ror(v, c, wide).0 + (if spec_ror(v, c, wide).1 { 1int } else { 0 })
            == v + (if c { shift_width(wide) } else { 0 }),
{
}

/// Read-modify-write operations on memory.
#[derive(Clone, Copy, PartialEq, Eq, Structural)]
pub enum RmwOp {
    Asl,
    Lsr,
    Rol,
    Ror,
    Inc,
    Dec,
}

/// A read-modify-write operation on `v` with carry-in `c`: (value stored,
/// carry out; INC and DEC keep the carry).
pub open spec fn spec_rmw(op: RmwOp, v: u16, c: bool, wide: bool) -> (u16, bool) {
    match op {
        RmwOp::Asl => spec_asl(v, wide),
        RmwOp::Lsr => spec_lsr(v),
        RmwOp::Rol => spec_rol(v, c, wide),
        RmwOp::Ror => spec_ror(v, c, wide),
        RmwOp::Inc => (vstd::wrapping::u16_specs::wrapping_add(v, 1), c),
        RmwOp::Dec => (vstd::wrapping::u16_specs::wrapping_sub(v, 1), c),
    }
}

/// P after a read-modify-write of `v`: N and Z from the value stored, C
/// from the bit shifted out (INC and DEC leave C).
pub open spec fn rmw_flags(op: RmwOp, p: u8, v: u16, wide: bool) -> u8 {
    let (r, cy) = spec_rmw(op, v, p & FLAG_C != 0, wide);
    if op is Inc || op is Dec {
        with_nz(p, r, wide)
    } else {
        with_nz(with_flag(p, FLAG_C, cy), r, wide)
    }
}

impl Cpu {
    pub open spec fn spec_flag(&self, f: u8) -> bool {
        self.p & f != 0
    }

    /// Accumulator and memory are 16-bit.
    pub open spec fn spec_m16(&self) -> bool {
        !self.e && self.p & FLAG_M == 0
    }

    /// Index registers are 16-bit.
    pub open spec fn spec_x16(&self) -> bool {
        !self.e && self.p & FLAG_X == 0
    }

    /// The power-on register state.
    pub open spec fn new_state() -> Cpu {
        Cpu {
            a: 0,
            x: 0,
            y: 0,
            sp: 0x01FF,
            dp: 0,
            pc: 0,
            pb: 0,
            db: 0,
            p: FLAG_M | FLAG_X | FLAG_I,
            e: true,
            stopped: false,
            waiting: false,
            nmi_pending: false,
            irq_pending: false,
            cycles: 0,
        }
    }

    /// Power-on state: emulation mode, 8-bit registers, IRQs masked.
    pub fn new() -> (c: Self)
        ensures
            c == Self::new_state(),
            c == (Cpu {
                a: 0,
                x: 0,
                y: 0,
                sp: 0x01FF,
                dp: 0,
                pc: 0,
                pb: 0,
                db: 0,
                p: FLAG_M | FLAG_X | FLAG_I,
                e: true,
                stopped: false,
                waiting: false,
                nmi_pending: false,
                irq_pending: false,
                cycles: 0,
            }),
    {
        Cpu {
            a: 0,
            x: 0,
            y: 0,
            sp: 0x01FF,
            dp: 0,
            pc: 0,
            pb: 0,
            db: 0,
            p: FLAG_M | FLAG_X | FLAG_I,
            e: true,
            stopped: false,
            waiting: false,
            nmi_pending: false,
            irq_pending: false,
            cycles: 0,
        }
    }

    /// Reset: emulation mode, registers to their reset values, PC from the
    /// reset vector at $00:FFFC.
    pub fn reset(&mut self, bus: &mut Bus)
        requires
            old(bus).wf(),
        ensures
            Bus::progress(*old(bus), *final(bus)),
            final(self).e,
            final(self).p == FLAG_M | FLAG_X | FLAG_I,
            final(self).pb == 0 && final(self).db == 0 && final(self).dp == 0,
            final(self).sp == 0x01FF,
            !final(self).stopped && !final(self).waiting,
            final(self).a == old(self).a && final(self).x == old(self).x && final(self).y == old(self).y,
            Bus::plain_read_target(old(bus).target(0, 0xFFFC)) && Bus::plain_read_target(old(bus).target(0, 0xFFFD))
                ==> final(self).pc == (old(bus).peek(0, 0xFFFC) as u16 | ((old(bus).peek(0, 0xFFFD) as u16) << 8u16)),
    {
        self.e = true;
        self.p = FLAG_M | FLAG_X | FLAG_I;
        self.pb = 0;
        self.db = 0;
        self.dp = 0;
        self.sp = 0x01FF;
        self.stopped = false;
        self.waiting = false;
        let lo = bus.read(0, 0xFFFC) as u16;
        let hi = bus.read(0, 0xFFFD) as u16;
        self.pc = lo | (hi << 8u16);
    }

    // ----- flag helpers -----
    pub fn flag(&self, f: u8) -> (b: bool)
        ensures
            b == self.spec_flag(f),
    {
        self.p & f != 0
    }

    fn set_flag(&mut self, f: u8, v: bool)
        ensures
            *final(self) == (Cpu { p: with_flag(old(self).p, f, v), ..*old(self) }),
    {
        if v {
            self.p = self.p | f;
        } else {
            self.p = self.p & !f;
        }
    }

    /// Accumulator/memory is 16-bit.
    fn m16(&self) -> (b: bool)
        ensures
            b == self.spec_m16(),
    {
        !self.e && !self.flag(FLAG_M)
    }

    /// Index registers are 16-bit.
    fn x16(&self) -> (b: bool)
        ensures
            b == self.spec_x16(),
    {
        !self.e && !self.flag(FLAG_X)
    }

    // ----- bus helpers -----
    fn read(&mut self, bus: &mut Bus, addr: u32) -> (v: u8)
        requires
            old(bus).wf(),
        ensures
            Bus::progress(*old(bus), *final(bus)),
            *final(self) == *old(self),
            final(bus).wram == old(bus).wram,
            Bus::plain_read_target(old(bus).target((addr >> 16u32) as u8, addr as u16)) ==> v == old(bus).peek(
                (addr >> 16u32) as u8,
                addr as u16,
            ),
    {
        bus.read((addr >> 16u32) as u8, addr as u16)
    }

    fn write(&mut self, bus: &mut Bus, addr: u32, v: u8)
        requires
            old(bus).wf(),
        ensures
            Bus::progress(*old(bus), *final(bus)),
            Bus::wrote(*old(bus), *final(bus), (addr >> 16u32) as u8, addr as u16, v),
            *final(self) == *old(self),
    {
        bus.write((addr >> 16u32) as u8, addr as u16, v);
    }

    /// 16-bit read; the high byte wraps within the bank.
    fn read16(&mut self, bus: &mut Bus, addr: u32) -> (v: u16)
        requires
            old(bus).wf(),
        ensures
            Bus::progress(*old(bus), *final(bus)),
            *final(self) == *old(self),
            final(bus).wram == old(bus).wram,
            store_in_wram(*old(bus), (addr >> 16u32) as u8, addr as u16, true) ==> v == wram_load(
                old(bus).wram@,
                (addr >> 16u32) as u8,
                addr as u16,
                true,
            ),
    {
        let lo8 = self.read(bus, addr);
        let hi_addr = (addr & 0xFF0000) | ((addr as u16).wrapping_add(1) as u32);
        proof {
            lemma_next_in_bank(addr, hi_addr);
        }
        let hi8 = self.read(bus, hi_addr);
        lo8 as u16 | ((hi8 as u16) << 8u16)
    }

    fn fetch8(&mut self, bus: &mut Bus) -> (v: u8)
        requires
            old(bus).wf(),
        ensures
            Bus::progress(*old(bus), *final(bus)),
            *final(self) == (Cpu { pc: vstd::wrapping::u16_specs::wrapping_add(old(self).pc, 1), ..*old(self) }),
            final(bus).wram == old(bus).wram,
            Bus::plain_read_target(old(bus).target(old(self).pb, old(self).pc)) ==> v == old(bus).peek(
                old(self).pb,
                old(self).pc,
            ),
    {
        let v = bus.read(self.pb, self.pc);
        self.pc = self.pc.wrapping_add(1);
        v
    }

    fn fetch16(&mut self, bus: &mut Bus) -> (v: u16)
        requires
            old(bus).wf(),
        ensures
            Bus::progress(*old(bus), *final(bus)),
            *final(self) == (Cpu { pc: vstd::wrapping::u16_specs::wrapping_add(old(self).pc, 2), ..*old(self) }),
            final(bus).wram == old(bus).wram,
            operands_in_rom(*old(bus), *old(self)) ==> v == word(
                operand(*old(bus), *old(self), 0),
                operand(*old(bus), *old(self), 1),
            ),
    {
        let ghost b0 = *bus;
        let lo8 = self.fetch8(bus);
        proof {
            if operands_in_rom(b0, *old(self)) {
                lemma_rom_stable(b0, *bus, self.pb, self.pc);
            }
        }
        let hi8 = self.fetch8(bus);
        lo8 as u16 | ((hi8 as u16) << 8u16)
    }

    fn push8(&mut self, bus: &mut Bus, v: u8)
        requires
            old(bus).wf(),
        ensures
            Bus::progress(*old(bus), *final(bus)),
            Bus::wrote(*old(bus), *final(bus), 0, old(self).sp, v),
            *final(self) == (Cpu { sp: sp_after_push(old(self).sp, old(self).e), ..*old(self) }),
            old(bus).target(0, old(self).sp) is LowWram ==> final(bus).wram@ == old(bus).wram@.update(old(self).sp as int, v),
    {
        proof {
            reveal(Bus::wrote);
        }
        bus.write(0, self.sp, v);
        self.sp = if self.e {
            0x0100 | (self.sp.wrapping_sub(1) & 0x00FF)
        } else {
            self.sp.wrapping_sub(1)
        };
    }

    fn push16(&mut self, bus: &mut Bus, v: u16)
        requires
            old(bus).wf(),
        ensures
            Bus::progress(*old(bus), *final(bus)),
            *final(self) == (Cpu { sp: sp_after_push(sp_after_push(old(self).sp, old(self).e), old(self).e), ..*old(self) }),
            old(bus).target(0, old(self).sp) is LowWram && old(bus).target(0, sp_after_push(old(self).sp, old(self).e))
                is LowWram ==> final(bus).wram@ == old(bus).wram@.update(old(self).sp as int, (v >> 8u16) as u8).update(
                sp_after_push(old(self).sp, old(self).e) as int,
                v as u8,
            ),
    {
        self.push8(bus, (v >> 8u16) as u8);
        self.push8(bus, v as u8);
    }

    fn pull8(&mut self, bus: &mut Bus) -> (v: u8)
        requires
            old(bus).wf(),
        ensures
            Bus::progress(*old(bus), *final(bus)),
            *final(self) == (Cpu { sp: sp_after_pull(old(self).sp, old(self).e), ..*old(self) }),
            final(bus).wram == old(bus).wram,
            Bus::plain_read_target(old(bus).target(0, final(self).sp)) ==> v == old(bus).peek(0, final(self).sp),
    {
        self.sp = if self.e {
            0x0100 | (self.sp.wrapping_add(1) & 0x00FF)
        } else {
            self.sp.wrapping_add(1)
        };
        bus.read(0, self.sp)
    }

    fn pull16(&mut self, bus: &mut Bus) -> (v: u16)
        requires
            old(bus).wf(),
        ensures
            Bus::progress(*old(bus), *final(bus)),
            *final(self) == (Cpu { sp: sp_after_pull(sp_after_pull(old(self).sp, old(self).e), old(self).e), ..*old(self) }),
            final(bus).wram == old(bus).wram,
            stack_pull_in_wram(*old(bus), *old(self)) ==> v == word(
                old(bus).wram@[sp_after_pull(old(self).sp, old(self).e) as int],
                old(bus).wram@[sp_after_pull(sp_after_pull(old(self).sp, old(self).e), old(self).e) as int],
            ),
    {
        let lo8 = self.pull8(bus);
        let hi8 = self.pull8(bus);
        lo8 as u16 | ((hi8 as u16) << 8u16)
    }

    // ----- addressing modes: the effective 24-bit address -----
    /// One extra cycle when the direct page is not page-aligned.
    fn dl_extra(&self) -> (r: u64)
        ensures
            r == if self.dp & 0xFF != 0 { 1u64 } else { 0u64 },
    {
        if self.dp & 0xFF != 0 {
            1
        } else {
            0
        }
    }

    /// Direct-page address; in emulation mode with DL=0 it stays in the page.
    fn dp_addr(&self, offset: u16) -> (r: u32)
        ensures
            r <= 0xFFFF,
            r == dp_target(*self, offset) as u32,
    {
        if self.e && self.dp & 0xFF == 0 {
            (self.dp & 0xFF00).wrapping_add(offset & 0xFF) as u32
        } else {
            self.dp.wrapping_add(offset) as u32
        }
    }

    fn index_mask(&self) -> (r: u16)
        ensures
            r == if self.spec_x16() { 0xFFFFu16 } else { 0x00FFu16 },
    {
        if self.x16() {
            0xFFFF
        } else {
            0x00FF
        }
    }

    fn mode_dp(&mut self, bus: &mut Bus) -> (r: u32)
        requires
            old(bus).wf(),
        ensures
            Bus::progress(*old(bus), *final(bus)),
            *final(self) == (Cpu { pc: vstd::wrapping::u16_specs::wrapping_add(old(self).pc, 1), ..*old(self) }),
            r <= 0xFFFF,
            final(bus).wram == old(bus).wram,
            Bus::plain_read_target(old(bus).target(old(self).pb, old(self).pc)) ==> r == dp_target(
                *old(self),
                old(bus).peek(old(self).pb, old(self).pc) as u16,
            ) as u32,
    {
        let d = self.fetch8(bus) as u16;
        self.dp_addr(d)
    }

    fn mode_dp_x(&mut self, bus: &mut Bus) -> (r: u32)
        requires
            old(bus).wf(),
        ensures
            Bus::progress(*old(bus), *final(bus)),
            *final(self) == (Cpu { pc: vstd::wrapping::u16_specs::wrapping_add(old(self).pc, 1), ..*old(self) }),
            r <= 0xFFFF,
            final(bus).wram == old(bus).wram,
            Bus::plain_read_target(old(bus).target(old(self).pb, old(self).pc)) ==> r == dp_target(
                *old(self),
                vstd::wrapping::u16_specs::wrapping_add(
                    old(bus).peek(old(self).pb, old(self).pc) as u16,
                    old(self).x & index_mask_of(*old(self)),
                ),
            ) as u32,
    {
        let d = self.fetch8(bus) as u16;
        self.dp_addr(d.wrapping_add(self.x & self.index_mask()))
    }

    fn mode_dp_y(&mut self, bus: &mut Bus) -> (r: u32)
        requires
            old(bus).wf(),
        ensures
            Bus::progress(*old(bus), *final(bus)),
            *final(self) == (Cpu { pc: vstd::wrapping::u16_specs::wrapping_add(old(self).pc, 1), ..*old(self) }),
            r <= 0xFFFF,
    {
        let d = self.fetch8(bus) as u16;
        self.dp_addr(d.wrapping_add(self.y & self.index_mask()))
    }

    fn mode_abs(&mut self, bus: &mut Bus) -> (r: u32)
        requires
            old(bus).wf(),
        ensures
            Bus::progress(*old(bus), *final(bus)),
            *final(self) == (Cpu { pc: vstd::wrapping::u16_specs::wrapping_add(old(self).pc, 2), ..*old(self) }),
            final(bus).wram == old(bus).wram,
            (r >> 16u32) as u8 == old(self).db,
            operands_in_rom(*old(bus), *old(self)) ==> r as u16 == word(
                operand(*old(bus), *old(self), 0),
                operand(*old(bus), *old(self), 1),
            ),
    {
        let a16 = self.fetch16(bus);
        let a = a16 as u32;
        let db = self.db;
        let r = ((db as u32) << 16u32) | a;
        proof {
            lemma_bank_word(db, a16);
        }
        r
    }

    /// Absolute,X: (address, page crossed).
    fn mode_abs_x(&mut self, bus: &mut Bus) -> (r: (u32, bool))
        requires
            old(bus).wf(),
        ensures
            Bus::progress(*old(bus), *final(bus)),
            *final(self) == (Cpu { pc: vstd::wrapping::u16_specs::wrapping_add(old(self).pc, 2), ..*old(self) }),
            final(bus).wram == old(bus).wram,
            (r.0 >> 16u32) as u8 == old(self).db,
            operands_in_rom(*old(bus), *old(self)) ==> r.0 as u16 == vstd::wrapping::u16_specs::wrapping_add(
                word(operand(*old(bus), *old(self), 0), operand(*old(bus), *old(self), 1)),
                old(self).x & index_mask_of(*old(self)),
            ),
    {
        let a = self.fetch16(bus);
        let r = a.wrapping_add(self.x & self.index_mask());
        proof {
            lemma_bank_word(self.db, r);
        }
        (((self.db as u32) << 16u32) | r as u32, a & 0xFF00 != r & 0xFF00)
    }

    /// Absolute,Y: (address, page crossed).
    fn mode_abs_y(&mut self, bus: &mut Bus) -> (r: (u32, bool))
        requires
            old(bus).wf(),
        ensures
            Bus::progress(*old(bus), *final(bus)),
            *final(self) == (Cpu { pc: vstd::wrapping::u16_specs::wrapping_add(old(self).pc, 2), ..*old(self) }),
    {
        let a = self.fetch16(bus);
        let r = a.wrapping_add(self.y & self.index_mask());
        (((self.db as u32) << 16u32) | r as u32, a & 0xFF00 != r & 0xFF00)
    }

    fn mode_long(&mut self, bus: &mut Bus) -> (r: u32)
        requires
            old(bus).wf(),
        ensures
            Bus::progress(*old(bus), *final(bus)),
            *final(self) == (Cpu { pc: vstd::wrapping::u16_specs::wrapping_add(old(self).pc, 3), ..*old(self) }),
    {
        let a = self.fetch16(bus) as u32;
        let b = self.fetch8(bus) as u32;
        (b << 16u32) | a
    }

    fn mode_long_x(&mut self, bus: &mut Bus) -> (r: u32)
        requires
            old(bus).wf(),
        ensures
            Bus::progress(*old(bus), *final(bus)),
            *final(self) == (Cpu { pc: vstd::wrapping::u16_specs::wrapping_add(old(self).pc, 3), ..*old(self) }),
    {
        let base = self.mode_long(bus);
        base.wrapping_add((self.x & self.index_mask()) as u32) & 0xFFFFFF
    }

    /// (dp): indirect through the direct page, target in DB.
    fn mode_dp_ind(&mut self, bus: &mut Bus) -> (r: u32)
        requires
            old(bus).wf(),
        ensures
            Bus::progress(*old(bus), *final(bus)),
            *final(self) == (Cpu { pc: vstd::wrapping::u16_specs::wrapping_add(old(self).pc, 1), ..*old(self) }),
    {
        let d = self.fetch8(bus) as u16;
        let pa = self.dp_addr(d);
        let ptr = self.read16(bus, pa) as u32;
        ((self.db as u32) << 16u32) | ptr
    }

    /// (dp),Y: (address, page crossed).
    fn mode_dp_ind_y(&mut self, bus: &mut Bus) -> (r: (u32, bool))
        requires
            old(bus).wf(),
        ensures
            Bus::progress(*old(bus), *final(bus)),
            *final(self) == (Cpu { pc: vstd::wrapping::u16_specs::wrapping_add(old(self).pc, 1), ..*old(self) }),
    {
        let d = self.fetch8(bus) as u16;
        let pa = self.dp_addr(d);
        let ptr = self.read16(bus, pa);
        let r = ptr.wrapping_add(self.y & self.index_mask());
        (((self.db as u32) << 16u32) | r as u32, ptr & 0xFF00 != r & 0xFF00)
    }

    /// (dp,X)
    fn mode_dp_ind_x(&mut self, bus: &mut Bus) -> (r: u32)
        requires
            old(bus).wf(),
        ensures
            Bus::progress(*old(bus), *final(bus)),
            *final(self) == (Cpu { pc: vstd::wrapping::u16_specs::wrapping_add(old(self).pc, 1), ..*old(self) }),
    {
        let d = self.fetch8(bus) as u16;
        let pa = self.dp_addr(d.wrapping_add(self.x & self.index_mask()));
        let ptr = self.read16(bus, pa) as u32;
        ((self.db as u32) << 16u32) | ptr
    }

    /// [dp]: long indirect, the target carries its own bank byte.
    fn mode_dp_long(&mut self, bus: &mut Bus) -> (r: u32)
        requires
            old(bus).wf(),
        ensures
            Bus::progress(*old(bus), *final(bus)),
            *final(self) == (Cpu { pc: vstd::wrapping::u16_specs::wrapping_add(old(self).pc, 1), ..*old(self) }),
    {
        let d = self.fetch8(bus) as u16;
        let a = self.dp_addr(d);
        let lo = self.read(bus, a) as u32;
        let a1 = self.dp_addr(d.wrapping_add(1));
        let mid = self.read(bus, a1) as u32;
        let a2 = self.dp_addr(d.wrapping_add(2));
        let hi = self.read(bus, a2) as u32;
        (hi << 16u32) | (mid << 8u32) | lo
    }

    /// [dp],Y
    fn mode_dp_long_y(&mut self, bus: &mut Bus) -> (r: u32)
        requires
            old(bus).wf(),
        ensures
            Bus::progress(*old(bus), *final(bus)),
            *final(self) == (Cpu { pc: vstd::wrapping::u16_specs::wrapping_add(old(self).pc, 1), ..*old(self) }),
    {
        let base = self.mode_dp_long(bus);
        base.wrapping_add((self.y & self.index_mask()) as u32) & 0xFFFFFF
    }

    /// sr,S: stack relative.
    fn mode_sr(&mut self, bus: &mut Bus) -> (r: u32)
        requires
            old(bus).wf(),
        ensures
            Bus::progress(*old(bus), *final(bus)),
            *final(self) == (Cpu { pc: vstd::wrapping::u16_specs::wrapping_add(old(self).pc, 1), ..*old(self) }),
    {
        let d = self.fetch8(bus) as u16;
        self.sp.wrapping_add(d) as u32
    }

    /// (sr,S),Y
    fn mode_sr_ind_y(&mut self, bus: &mut Bus) -> (r: u32)
        requires
            old(bus).wf(),
        ensures
            Bus::progress(*old(bus), *final(bus)),
            *final(self) == (Cpu { pc: vstd::wrapping::u16_specs::wrapping_add(old(self).pc, 1), ..*old(self) }),
    {
        let d = self.fetch8(bus) as u16;
        let pa = self.sp.wrapping_add(d) as u32;
        let ptr = self.read16(bus, pa);
        let r = ptr.wrapping_add(self.y & self.index_mask());
        ((self.db as u32) << 16u32) | r as u32
    }

    // ----- operands at the M/X width -----
    fn read_a(&mut self, bus: &mut Bus, addr: u32) -> (v: u16)
        requires
            old(bus).wf(),
        ensures
            Bus::progress(*old(bus), *final(bus)),
            *final(self) == *old(self),
            !old(self).spec_m16() ==> v <= 0xFF,
            final(bus).wram == old(bus).wram,
            store_in_wram(*old(bus), (addr >> 16u32) as u8, addr as u16, old(self).spec_m16()) ==> v == wram_load(
                old(bus).wram@,
                (addr >> 16u32) as u8,
                addr as u16,
                old(self).spec_m16(),
            ),
    {
        if self.m16() {
            self.read16(bus, addr)
        } else {
            self.read(bus, addr) as u16
        }
    }

    fn write_a(&mut self, bus: &mut Bus, addr: u32, v: u16)
        requires
            old(bus).wf(),
        ensures
            Bus::progress(*old(bus), *final(bus)),
            *final(self) == *old(self),
            store_in_wram(*old(bus), (addr >> 16u32) as u8, addr as u16, old(self).spec_m16()) ==> final(bus).wram@
                == wram_after_store(old(bus).wram@, (addr >> 16u32) as u8, addr as u16, v, old(self).spec_m16()),
    {
        proof {
            reveal(Bus::wrote);
        }
        if self.m16() {
            self.write(bus, addr, v as u8);
            let hi = (addr & 0xFF0000) | ((addr as u16).wrapping_add(1) as u32);
            proof {
                lemma_next_in_bank(addr, hi);
            }
            self.write(bus, hi, (v >> 8u16) as u8);
        } else {
            self.write(bus, addr, v as u8);
        }
    }

    fn read_idx(&mut self, bus: &mut Bus, addr: u32) -> (v: u16)
        requires
            old(bus).wf(),
        ensures
            Bus::progress(*old(bus), *final(bus)),
            *final(self) == *old(self),
            !old(self).spec_x16() ==> v <= 0xFF,
    {
        if self.x16() {
            self.read16(bus, addr)
        } else {
            self.read(bus, addr) as u16
        }
    }

    fn write_idx(&mut self, bus: &mut Bus, addr: u32, v: u16)
        requires
            old(bus).wf(),
        ensures
            Bus::progress(*old(bus), *final(bus)),
            *final(self) == *old(self),
    {
        if self.x16() {
            self.write(bus, addr, v as u8);
            let hi = (addr & 0xFF0000) | ((addr as u16).wrapping_add(1) as u32);
            self.write(bus, hi, (v >> 8u16) as u8);
        } else {
            self.write(bus, addr, v as u8);
        }
    }

    fn imm_a(&mut self, bus: &mut Bus) -> (v: u16)
        requires
            old(bus).wf(),
        ensures
            Bus::progress(*old(bus), *final(bus)),
            *final(self) == (Cpu {
                pc: vstd::wrapping::u16_specs::wrapping_add(old(self).pc, if old(self).spec_m16() { 2 } else { 1 }),
                ..*old(self)
            }),
            !old(self).spec_m16() ==> v <= 0xFF,
            operands_in_rom(*old(bus), *old(self)) ==> v == imm_value(
                old(self).spec_m16(),
                operand(*old(bus), *old(self), 0),
                operand(*old(bus), *old(self), 1),
            ),
    {
        if self.m16() {
            self.fetch16(bus)
        } else {
            self.fetch8(bus) as u16
        }
    }

    fn imm_idx(&mut self, bus: &mut Bus) -> (v: u16)
        requires
            old(bus).wf(),
        ensures
            Bus::progress(*old(bus), *final(bus)),
            *final(self) == (Cpu {
                pc: vstd::wrapping::u16_specs::wrapping_add(old(self).pc, if old(self).spec_x16() { 2 } else { 1 }),
                ..*old(self)
            }),
            !old(self).spec_x16() ==> v <= 0xFF,
            operands_in_rom(*old(bus), *old(self)) ==> v == imm_value(
                old(self).spec_x16(),
                operand(*old(bus), *old(self), 0),
                operand(*old(bus), *old(self), 1),
            ),
    {
        if self.x16() {
            self.fetch16(bus)
        } else {
            self.fetch8(bus) as u16
        }
    }

    /// N/Z for an accumulator-width value.
    fn set_nz_a(&mut self, v: u16)
        ensures
            *final(self) == (Cpu { p: with_nz(old(self).p, v, old(self).spec_m16()), ..*old(self) }),
    {
        if self.m16() {
            self.set_flag(FLAG_Z, v == 0);
            self.set_flag(FLAG_N, v & 0x8000 != 0);
        } else {
            self.set_flag(FLAG_Z, v & 0xFF == 0);
            self.set_flag(FLAG_N, v & 0x80 != 0);
        }
    }

    /// N/Z for an index-width value.
    fn set_nz_idx(&mut self, v: u16)
        ensures
            *final(self) == (Cpu { p: with_nz(old(self).p, v, old(self).spec_x16()), ..*old(self) }),
    {
        if self.x16() {
            self.set_flag(FLAG_Z, v == 0);
            self.set_flag(FLAG_N, v & 0x8000 != 0);
        } else {
            self.set_flag(FLAG_Z, v & 0xFF == 0);
            self.set_flag(FLAG_N, v & 0x80 != 0);
        }
    }

    // ----- interrupts -----
    /// Push PB (native mode), PC and P, mask IRQs, clear D, jump through
    /// `vector` (its emulation-mode counterpart in emulation mode). In
    /// emulation mode the pushed P has M set and bit 4 = B (set for BRK);
    /// in native mode P is pushed unchanged. Takes 8 cycles native, 7 else.
    /// Both bytes of the interrupt vector lie in cartridge ROM.
    pub open spec fn vector_is_rom(bus: Bus, e: bool, vector: u16) -> bool {
        let va = vector_address(e, vector);
        bus.target(0, va) is Rom && bus.target(0, vstd::wrapping::u16_specs::wrapping_add(va, 1)) is Rom
    }

    /// The little-endian word stored at the interrupt vector.
    pub open spec fn vector_value(bus: Bus, e: bool, vector: u16) -> u16 {
        let va = vector_address(e, vector);
        (bus.peek(0, va) as u16 | ((bus.peek(0, vstd::wrapping::u16_specs::wrapping_add(va, 1)) as u16) << 8u16)) as u16
    }

    fn interrupt(&mut self, bus: &mut Bus, vector: u16, is_brk: bool) -> (k: u64)
        requires
            old(bus).wf(),
        ensures
            Bus::progress(*old(bus), *final(bus)),
            k == if old(self).e { 7u64 } else { 8u64 },
            final(self).cycles == old(self).cycles,
            final(self).pb == 0,
            final(self).p == with_flag(with_flag(old(self).p, FLAG_I, true), FLAG_D, false),
            *final(self) == (Cpu { pc: final(self).pc, sp: final(self).sp, p: final(self).p, pb: 0, ..*old(self) }),
            final(self).sp == if old(self).e {
                sp_after_push(sp_after_push(sp_after_push(old(self).sp, true), true), true)
            } else {
                sp_after_push(sp_after_push(sp_after_push(sp_after_push(old(self).sp, false), false), false), false)
            },
            ({
                let sp_p = if old(self).e {
                    sp_after_push(sp_after_push(old(self).sp, true), true)
                } else {
                    sp_after_push(sp_after_push(sp_after_push(old(self).sp, false), false), false)
                };
                let pushed = if old(self).e {
                    if is_brk { old(self).p | FLAG_M | FLAG_X } else { (old(self).p | FLAG_M) & !FLAG_X }
                } else {
                    old(self).p
                };
                old(bus).target(0, sp_p) is LowWram ==> final(bus).wram@[sp_p as int] == pushed
            }),
            Self::vector_is_rom(*old(bus), old(self).e, vector) ==> final(self).pc == Self::vector_value(
                *old(bus),
                old(self).e,
                vector,
            ),
    {
        let native = !self.e;
        if native {
            self.push8(bus, self.pb);
        }
        self.push16(bus, self.pc);
        let mut p = self.p;
        if self.e {
            // Emulation mode: bit 4 of the pushed image is B (1 for BRK,
            // 0 for IRQ/NMI); M reads as 1.
            p = p | FLAG_M;
            if is_brk {
                p = p | FLAG_X;
            } else {
                p = p & !FLAG_X;
            }
        }
        // Native mode: bit 4 is the real X flag; P is pushed unchanged.
        let ghost before = *bus;
        let ghost sp_p = self.sp;
        self.push8(bus, p);
        proof {
            reveal(Bus::wrote);
            assert(before.target(0, sp_p) == old(bus).target(0, sp_p));
        }
        self.set_flag(FLAG_I, true);
        self.set_flag(FLAG_D, false);
        self.pb = 0;
        let vec: u16 = if self.e {
            if vector == VEC_NMI {
                0xFFFA
            } else if vector == VEC_RESET {
                0xFFFC
            } else if vector == VEC_IRQ {
                0xFFFE
            } else if vector == VEC_BRK {
                0xFFFE
            } else if vector == VEC_COP {
                0xFFF4
            } else {
                vector
            }
        } else {
            vector
        };
        assert(vec == vector_address(old(self).e, vector));
        let ghost b0 = *bus;
        let lo = bus.read(0, vec) as u16;
        let ghost b1 = *bus;
        let hi = bus.read(0, vec.wrapping_add(1)) as u16;
        proof {
            if Self::vector_is_rom(*old(bus), old(self).e, vector) {
                assert(b0.target(0, vec) == old(bus).target(0, vec));
                assert(b1.target(0, vec.wrapping_add(1)) == old(bus).target(0, vec.wrapping_add(1)));
                assert(lo == old(bus).peek(0, vec));
                assert(hi == old(bus).peek(0, vec.wrapping_add(1)));
            }
        }
        self.pc = lo | (hi << 8u16);
        if native {
            8
        } else {
            7
        }
    }

    /// Take an NMI.
    pub fn nmi(&mut self, bus: &mut Bus)
        requires
            old(bus).wf(),
        ensures
            Self::vector_is_rom(*old(bus), old(self).e, VEC_NMI) ==> final(self).pc == Self::vector_value(
                *old(bus),
                old(self).e,
                VEC_NMI,
            ),
            Bus::progress(*old(bus), *final(bus)),
            !final(self).waiting,
            final(self).pb == 0,
            final(self).p == with_flag(with_flag(old(self).p, FLAG_I, true), FLAG_D, false),
            ({
                let sp_p = if old(self).e {
                    sp_after_push(sp_after_push(old(self).sp, true), true)
                } else {
                    sp_after_push(sp_after_push(sp_after_push(old(self).sp, false), false), false)
                };
                let pushed = if old(self).e { (old(self).p | FLAG_M) & !FLAG_X } else { old(self).p };
                old(bus).target(0, sp_p) is LowWram ==> final(bus).wram@[sp_p as int] == pushed
            }),
            final(self).sp == if old(self).e {
                sp_after_push(sp_after_push(sp_after_push(old(self).sp, true), true), true)
            } else {
                sp_after_push(sp_after_push(sp_after_push(sp_after_push(old(self).sp, false), false), false), false)
            },
    {
        self.waiting = false;
        let k = self.interrupt(bus, VEC_NMI, false);
        self.cycles = self.cycles.wrapping_add(k);
    }

    /// Take an IRQ.
    pub fn irq(&mut self, bus: &mut Bus)
        requires
            old(bus).wf(),
        ensures
            Self::vector_is_rom(*old(bus), old(self).e, VEC_IRQ) ==> final(self).pc == Self::vector_value(
                *old(bus),
                old(self).e,
                VEC_IRQ,
            ),
            Bus::progress(*old(bus), *final(bus)),
            !final(self).waiting,
            final(self).pb == 0,
            final(self).p == with_flag(with_flag(old(self).p, FLAG_I, true), FLAG_D, false),
            ({
                let sp_p = if old(self).e {
                    sp_after_push(sp_after_push(old(self).sp, true), true)
                } else {
                    sp_after_push(sp_after_push(sp_after_push(old(self).sp, false), false), false)
                };
                let pushed = if old(self).e { (old(self).p | FLAG_M) & !FLAG_X } else { old(self).p };
                old(bus).target(0, sp_p) is LowWram ==> final(bus).wram@[sp_p as int] == pushed
            }),
            final(self).sp == if old(self).e {
                sp_after_push(sp_after_push(sp_after_push(old(self).sp, true), true), true)
            } else {
                sp_after_push(sp_after_push(sp_after_push(sp_after_push(old(self).sp, false), false), false), false)
            },
            final(self).cycles == vstd::wrapping::u64_specs::wrapping_add(
                old(self).cycles,
                if old(self).e { 7u64 } else { 8u64 },
            ),
    {
        self.waiting = false;
        let k = self.interrupt(bus, VEC_IRQ, false);
        self.cycles = self.cycles.wrapping_add(k);
    }

    // ----- ALU -----
    fn ora(&mut self, v: u16)
        ensures
            final(self).a == if old(self).spec_m16() { old(self).a | v } else { low_byte_into(old(self).a, old(self).a | v) },
            final(self).p == with_nz(old(self).p, final(self).a, old(self).spec_m16()),
            *final(self) == (Cpu { a: final(self).a, p: final(self).p, ..*old(self) }),
    {
        if self.m16() {
            self.a = self.a | v;
        } else {
            self.a = (self.a & 0xFF00) | ((self.a | v) & 0xFF);
        }
        self.set_nz_a(self.a);
    }

    fn and(&mut self, v: u16)
        ensures
            final(self).a == if old(self).spec_m16() { old(self).a & v } else { low_byte_into(old(self).a, old(self).a & v) },
            final(self).p == with_nz(old(self).p, final(self).a, old(self).spec_m16()),
            *final(self) == (Cpu { a: final(self).a, p: final(self).p, ..*old(self) }),
    {
        if self.m16() {
            self.a = self.a & v;
        } else {
            self.a = (self.a & 0xFF00) | (self.a & v & 0xFF);
        }
        self.set_nz_a(self.a);
    }

    fn eor(&mut self, v: u16)
        ensures
            final(self).a == if old(self).spec_m16() { old(self).a ^ v } else { low_byte_into(old(self).a, old(self).a ^ v) },
            final(self).p == with_nz(old(self).p, final(self).a, old(self).spec_m16()),
            *final(self) == (Cpu { a: final(self).a, p: final(self).p, ..*old(self) }),
    {
        if self.m16() {
            self.a = self.a ^ v;
        } else {
            self.a = (self.a & 0xFF00) | ((self.a ^ v) & 0xFF);
        }
        self.set_nz_a(self.a);
    }

    fn lda(&mut self, v: u16)
        ensures
            final(self).a == if old(self).spec_m16() { v } else { low_byte_into(old(self).a, v) },
            final(self).p == with_nz(old(self).p, final(self).a, old(self).spec_m16()),
            *final(self) == (Cpu { a: final(self).a, p: final(self).p, ..*old(self) }),
    {
        if self.m16() {
            self.a = v;
        } else {
            self.a = (self.a & 0xFF00) | (v & 0xFF);
        }
        self.set_nz_a(self.a);
    }

    /// Compare `reg` with `v` at the given width: C = reg >= v, Z, N of the
    /// difference.
    fn compare_reg(&mut self, reg: u16, v: u16, wide: bool)
        ensures
            *final(self) == (Cpu { p: compare_flags(old(self).p, reg, v, wide), ..*old(self) }),
    {
        let mask: u16 = if wide {
            0xFFFF
        } else {
            0xFF
        };
        let sign: u16 = if wide {
            0x8000
        } else {
            0x80
        };
        let r = reg & mask;
        let d = r.wrapping_sub(v & mask);
        self.set_flag(FLAG_C, r >= v & mask);
        self.set_flag(FLAG_Z, d & mask == 0);
        self.set_flag(FLAG_N, d & sign != 0);
    }

    fn adc(&mut self, v: u16)
        ensures
            !old(self).spec_flag(FLAG_D) ==> ({
                let (r, c, ov) = spec_adc(old(self).a, v, old(self).spec_flag(FLAG_C), old(self).spec_m16());
                &&& final(self).a == r
                &&& final(self).p == with_nz(with_flag(with_flag(old(self).p, FLAG_V, ov), FLAG_C, c), r, old(self).spec_m16())
            }),
            old(self).spec_flag(FLAG_D) ==> *final(self) == spec_adc_bcd(*old(self), v),
            *final(self) == (Cpu { a: final(self).a, p: final(self).p, ..*old(self) }),
    {
        if self.flag(FLAG_D) {
            self.adc_bcd(v);
            return ;
        }
        proof {
            lemma_vc_keep_widths(self.p);
        }
        let c = (self.p & FLAG_C) as u16;
        proof {
            lemma_and_le_u8(self.p, 1);
        }
        if self.m16() {
            let r = self.a as u32 + v as u32 + c as u32;
            let r16 = r as u16;
            self.set_flag(FLAG_V, !(self.a ^ v) & (self.a ^ r16) & 0x8000 != 0);
            self.set_flag(FLAG_C, r > 0xFFFF);
            self.a = r16;
        } else {
            proof {
                lemma_and_le_u16(self.a, 0xFF);
                lemma_and_le_u16(v, 0xFF);
            }
            let a = self.a & 0xFF;
            let v = v & 0xFF;
            let r = a + v + c;
            self.set_flag(FLAG_V, !(a ^ v) & (a ^ r) & 0x80 != 0);
            self.set_flag(FLAG_C, r > 0xFF);
            self.a = (self.a & 0xFF00) | (r & 0xFF);
        }
        self.set_nz_a(self.a);
    }

    /// Decimal add: per nibble, carrying at 10.
    fn adc_bcd(&mut self, v: u16)
        ensures
            *final(self) == spec_adc_bcd(*old(self), v),
    {
        proof {
            lemma_vc_keep_widths(self.p);
        }
        let nibbles: u16 = if self.m16() {
            4
        } else {
            2
        };
        let mask: u16 = if self.m16() {
            0xFFFF
        } else {
            0xFF
        };
        let a = self.a & mask;
        let v = v & mask;
        let c = (self.p & FLAG_C) as u16;
        proof {
            lemma_and_le_u8(self.p, 1);
        }
        let bin = a.wrapping_add(v).wrapping_add(c);
        let sign: u16 = if self.m16() {
            0x8000
        } else {
            0x80
        };
        self.set_flag(FLAG_V, !(a ^ v) & (a ^ bin) & sign != 0);
        let mut result: u16 = 0;
        let mut carry: u16 = c;
        let mut n: u16 = 0;
        while n < nibbles
            invariant
                n <= nibbles <= 4,
                carry <= 1,
                (result, carry) == bcd_sum(a, v, c, n as nat),
            decreases nibbles - n,
        {
            let an = (a >> (n * 4)) & 0xF;
            let vn = (v >> (n * 4)) & 0xF;
            proof {
                lemma_and_le_u16(a >> (n * 4), 0xF);
                lemma_and_le_u16(v >> (n * 4), 0xF);
            }
            let mut d = an + vn + carry;
            if d > 9 {
                d = d - 10;
                carry = 1;
            } else {
                carry = 0;
            }
            result = result | (d << (n * 4));
            n += 1;
        }
        self.set_flag(FLAG_C, carry != 0);
        if self.m16() {
            self.a = result;
        } else {
            self.a = (self.a & 0xFF00) | (result & 0xFF);
        }
        self.set_nz_a(self.a);
    }

    fn sbc(&mut self, v: u16)
        ensures
            !old(self).spec_flag(FLAG_D) ==> ({
                let nv: u16 = if old(self).spec_m16() { v ^ 0xFFFF } else { (v & 0xFF) ^ 0xFF };
                let (r, c, ov) = spec_sbc(old(self).a, nv, old(self).spec_flag(FLAG_C), old(self).spec_m16());
                &&& final(self).a == r
                &&& final(self).p == with_nz(with_flag(with_flag(old(self).p, FLAG_V, ov), FLAG_C, c), r, old(self).spec_m16())
            }),
            old(self).spec_flag(FLAG_D) ==> *final(self) == spec_sbc_bcd(*old(self), v),
            *final(self) == (Cpu { a: final(self).a, p: final(self).p, ..*old(self) }),
    {
        if self.flag(FLAG_D) {
            self.sbc_bcd(v);
            return ;
        }
        proof {
            lemma_vc_keep_widths(self.p);
        }
        let c = (self.p & FLAG_C) as u16;
        proof {
            lemma_and_le_u8(self.p, 1);
        }
        if self.m16() {
            let v = v ^ 0xFFFF;
            let r = self.a as u32 + v as u32 + c as u32;
            let r16 = r as u16;
            self.set_flag(FLAG_V, (self.a ^ v) & (self.a ^ r16) & 0x8000 != 0);
            self.set_flag(FLAG_C, r > 0xFFFF);
            self.a = r16;
        } else {
            proof {
                lemma_and_le_u16(self.a, 0xFF);
                lemma_and_le_u16(v, 0xFF);
                lemma_complement_byte_u16(v & 0xFF);
            }
            let a = self.a & 0xFF;
            let v = (v & 0xFF) ^ 0xFF;
            let r = a + v + c;
            self.set_flag(FLAG_V, (a ^ v) & (a ^ r) & 0x80 != 0);
            self.set_flag(FLAG_C, r > 0xFF);
            self.a = (self.a & 0xFF00) | (r & 0xFF);
        }
        self.set_nz_a(self.a);
    }

    /// Decimal subtract: per nibble, borrowing at 10.
    fn sbc_bcd(&mut self, v: u16)
        ensures
            *final(self) == spec_sbc_bcd(*old(self), v),
    {
        proof {
            lemma_vc_keep_widths(self.p);
        }
        let nibbles: u16 = if self.m16() {
            4
        } else {
            2
        };
        let mask: u16 = if self.m16() {
            0xFFFF
        } else {
            0xFF
        };
        let a = self.a & mask;
        let v = v & mask;
        proof {
            lemma_and_le_u8(self.p, 1);
        }
        let borrow_in: i32 = 1 - (self.p & FLAG_C) as i32;
        let bin = a.wrapping_sub(v).wrapping_sub(borrow_in as u16);
        let sign: u16 = if self.m16() {
            0x8000
        } else {
            0x80
        };
        self.set_flag(FLAG_V, (a ^ v) & (a ^ bin) & sign != 0);
        let mut result: u16 = 0;
        let mut borrow: i32 = borrow_in;
        let mut n: u16 = 0;
        while n < nibbles
            invariant
                n <= nibbles <= 4,
                0 <= borrow <= 1,
                (result, borrow as int) == bcd_diff(a, v, borrow_in as int, n as nat),
            decreases nibbles - n,
        {
            let an = ((a >> (n * 4)) & 0xF) as i32;
            let vn = ((v >> (n * 4)) & 0xF) as i32;
            proof {
                lemma_and_le_u16(a >> (n * 4), 0xF);
                lemma_and_le_u16(v >> (n * 4), 0xF);
            }
            let mut d = an - vn - borrow;
            if d < 0 {
                d = d + 10;
                borrow = 1;
            } else {
                borrow = 0;
            }
            result = result | ((d as u16) << (n * 4));
            n += 1;
        }
        self.set_flag(FLAG_C, borrow == 0);
        if self.m16() {
            self.a = result;
        } else {
            self.a = (self.a & 0xFF00) | (result & 0xFF);
        }
        self.set_nz_a(self.a);
    }

    fn asl_val(&mut self, v: u16) -> (r: u16)
        ensures
            *final(self) == (Cpu { p: final(self).p, ..*old(self) }),
            final(self).spec_m16() == old(self).spec_m16(),
            v < shift_width(old(self).spec_m16()) ==> r == spec_asl(v, old(self).spec_m16()).0 && final(self).p == with_nz(
                with_flag(old(self).p, FLAG_C, spec_asl(v, old(self).spec_m16()).1),
                r,
                old(self).spec_m16(),
            ),
    {
        proof {
            lemma_shift_bits(v, 0);
            lemma_half(v);
        }
        let mask: u16 = if self.m16() {
            0xFFFF
        } else {
            0xFF
        };
        let sign: u16 = if self.m16() {
            0x8000
        } else {
            0x80
        };
        self.set_flag(FLAG_C, v & sign != 0);
        let r = (v << 1u16) & mask;
        self.set_nz_a(r);
        proof {
            lemma_flags_keep_width(old(self).p, r, old(self).spec_m16());
        }
        r
    }

    fn lsr_val(&mut self, v: u16) -> (r: u16)
        ensures
            *final(self) == (Cpu { p: final(self).p, ..*old(self) }),
            r == v >> 1u16,
            final(self).spec_m16() == old(self).spec_m16(),
            r == spec_lsr(v).0 && final(self).p == with_nz(
                with_flag(old(self).p, FLAG_C, spec_lsr(v).1),
                r,
                old(self).spec_m16(),
            ),
    {
        proof {
            lemma_shift_bits(v, 0);
            lemma_half(v);
        }
        self.set_flag(FLAG_C, v & 1 != 0);
        let r = v >> 1u16;
        self.set_nz_a(r);
        proof {
            lemma_flags_keep_width(old(self).p, r, old(self).spec_m16());
        }
        r
    }

    fn rol_val(&mut self, v: u16) -> (r: u16)
        ensures
            *final(self) == (Cpu { p: final(self).p, ..*old(self) }),
            final(self).spec_m16() == old(self).spec_m16(),
            v < shift_width(old(self).spec_m16()) ==> r == spec_rol(v, old(self).spec_flag(FLAG_C), old(self).spec_m16()).0 && final(self).p == with_nz(
                with_flag(old(self).p, FLAG_C, spec_rol(v, old(self).spec_flag(FLAG_C), old(self).spec_m16()).1),
                r,
                old(self).spec_m16(),
            ),
    {
        proof {
            lemma_and_le_u8(self.p, 1);
            lemma_shift_bits(v, (self.p & FLAG_C) as u16);
            lemma_half(v);
        }
        let mask: u16 = if self.m16() {
            0xFFFF
        } else {
            0xFF
        };
        let sign: u16 = if self.m16() {
            0x8000
        } else {
            0x80
        };
        let c = (self.p & FLAG_C) as u16;
        self.set_flag(FLAG_C, v & sign != 0);
        let r = ((v << 1u16) | c) & mask;
        self.set_nz_a(r);
        proof {
            lemma_flags_keep_width(old(self).p, r, old(self).spec_m16());
        }
        r
    }

    fn ror_val(&mut self, v: u16) -> (r: u16)
        ensures
            *final(self) == (Cpu { p: final(self).p, ..*old(self) }),
            final(self).spec_m16() == old(self).spec_m16(),
            v < shift_width(old(self).spec_m16()) ==> r == spec_ror(v, old(self).spec_flag(FLAG_C), old(self).spec_m16()).0 && final(self).p == with_nz(
                with_flag(old(self).p, FLAG_C, spec_ror(v, old(self).spec_flag(FLAG_C), old(self).spec_m16()).1),
                r,
                old(self).spec_m16(),
            ),
    {
        proof {
            lemma_shift_bits(v, 0);
            lemma_half(v);
        }
        let sign: u16 = if self.m16() {
            0x8000
        } else {
            0x80
        };
        let c: u16 = if self.flag(FLAG_C) {
            sign
        } else {
            0
        };
        self.set_flag(FLAG_C, v & 1 != 0);
        let r = (v >> 1u16) | c;
        self.set_nz_a(r);
        proof {
            lemma_flags_keep_width(old(self).p, r, old(self).spec_m16());
        }
        r
    }

    /// The value a read-modify-write instruction stores.
    fn rmw_apply(&mut self, op: RmwOp, v: u16) -> (r: u16)
        ensures
            *final(self) == (Cpu { p: final(self).p, ..*old(self) }),
            final(self).spec_m16() == old(self).spec_m16(),
            v < shift_width(old(self).spec_m16()) ==> r == spec_rmw(op, v, old(self).spec_flag(FLAG_C), old(self).spec_m16()).0
                && final(self).p == rmw_flags(op, old(self).p, v, old(self).spec_m16()),
    {
        proof {
            lemma_nz_keeps_width(self.p, vstd::wrapping::u16_specs::wrapping_add(v, 1), self.spec_m16());
            lemma_nz_keeps_width(self.p, vstd::wrapping::u16_specs::wrapping_sub(v, 1), self.spec_m16());
        }
        match op {
            RmwOp::Asl => self.asl_val(v),
            RmwOp::Lsr => self.lsr_val(v),
            RmwOp::Rol => self.rol_val(v),
            RmwOp::Ror => self.ror_val(v),
            RmwOp::Inc => {
                let r = v.wrapping_add(1);
                self.set_nz_a(r);
                r
            },
            RmwOp::Dec => {
                let r = v.wrapping_sub(1);
                self.set_nz_a(r);
                r
            },
        }
    }

    fn bit(&mut self, v: u16)
        ensures
            *final(self) == (Cpu { p: final(self).p, ..*old(self) }),
    {
        let mask: u16 = if self.m16() {
            0xFFFF
        } else {
            0xFF
        };
        let sign: u16 = if self.m16() {
            0x8000
        } else {
            0x80
        };
        let vmask: u16 = if self.m16() {
            0x4000
        } else {
            0x40
        };
        self.set_flag(FLAG_Z, self.a & v & mask == 0);
        self.set_flag(FLAG_N, v & sign != 0);
        self.set_flag(FLAG_V, v & vmask != 0);
    }

    /// Relative branch; returns its cycles (2, +1 taken, +1 page crossed in
    /// emulation mode).
    fn branch(&mut self, bus: &mut Bus, cond: bool) -> (k: u64)
        requires
            old(bus).wf(),
        ensures
            Bus::progress(*old(bus), *final(bus)),
            2 <= k <= 4,
            !cond ==> k == 2 && *final(self) == (Cpu { pc: vstd::wrapping::u16_specs::wrapping_add(old(self).pc, 1), ..*old(self) }),
            cond ==> *final(self) == (Cpu { pc: final(self).pc, ..*old(self) }),
            cond && old(bus).target(old(self).pb, old(self).pc) is Rom ==> final(self).pc
                == vstd::wrapping::u16_specs::wrapping_add(
                vstd::wrapping::u16_specs::wrapping_add(old(self).pc, 1),
                rel8(old(bus).peek(old(self).pb, old(self).pc)),
            ),
    {
        let off = self.fetch8(bus) as i8 as i16 as u16;
        let mut k: u64 = 2;
        if cond {
            k = k + 1;
            let old_pc = self.pc;
            self.pc = self.pc.wrapping_add(off);
            if self.e && old_pc & 0xFF00 != self.pc & 0xFF00 {
                k = k + 1;
            }
        }
        k
    }

    /// Read-modify-write of memory at `addr`; returns the extra cycles of
    /// a 16-bit access (2).
    fn rmw(&mut self, bus: &mut Bus, addr: u32, op: RmwOp) -> (k: u64)
        requires
            old(bus).wf(),
        ensures
            Bus::progress(*old(bus), *final(bus)),
            k <= 2,
            *final(self) == (Cpu { p: final(self).p, ..*old(self) }),
            store_in_wram(*old(bus), (addr >> 16u32) as u8, addr as u16, old(self).spec_m16()) ==> ({
                let v = wram_load(old(bus).wram@, (addr >> 16u32) as u8, addr as u16, old(self).spec_m16());
                &&& final(bus).wram@ == wram_after_store(
                    old(bus).wram@,
                    (addr >> 16u32) as u8,
                    addr as u16,
                    spec_rmw(op, v, old(self).spec_flag(FLAG_C), old(self).spec_m16()).0,
                    old(self).spec_m16(),
                )
                &&& final(self).p == rmw_flags(op, old(self).p, v, old(self).spec_m16())
            }),
    {
        let v = self.read_a(bus, addr);
        let r = self.rmw_apply(op, v);
        self.write_a(bus, addr, r);
        if self.m16() {
            2
        } else {
            0
        }
    }

    /// TAX/TAY: the width follows the index registers.
    fn transfer_a_to(&mut self, dst_is_x: bool)
        ensures
            *final(self) == transfer_effect(*old(self), if dst_is_x { 0xAAu8 } else { 0xA8u8 }),
    {
        let v = if self.x16() {
            self.a
        } else {
            self.a & 0xFF
        };
        if dst_is_x {
            self.x = v;
        } else {
            self.y = v;
        }
        self.set_nz_idx(v);
    }

    /// TXA/TYA: the width follows the accumulator.
    fn transfer_to_a(&mut self, src_is_x: bool)
        ensures
            *final(self) == transfer_effect(*old(self), if src_is_x { 0x8Au8 } else { 0x98u8 }),
    {
        let src = if src_is_x {
            self.x
        } else {
            self.y
        };
        if self.m16() {
            self.a = src;
        } else {
            self.a = (self.a & 0xFF00) | (src & 0xFF);
        }
        self.set_nz_a(self.a);
    }
}

/// Effective address for the addressing mode in the low five bits of an
/// accumulator-group opcode: (address, index crossed a page).
fn ea(cpu: &mut Cpu, bus: &mut Bus, low5: u8) -> (r: (u32, bool))
    requires
        old(bus).wf(),
    ensures
        Bus::progress(*old(bus), *final(bus)),
        *final(cpu) == (Cpu { pc: final(cpu).pc, ..*old(cpu) }),
        low5 == 0x0D ==> final(bus).wram == old(bus).wram && (r.0 >> 16u32) as u8 == old(cpu).db && final(cpu).pc
            == vstd::wrapping::u16_specs::wrapping_add(old(cpu).pc, 2),
        low5 == 0x0D && operands_in_rom(*old(bus), *old(cpu)) ==> r.0 as u16 == word(operand(*old(bus), *old(cpu), 0), operand(*old(bus), *old(cpu), 1)),
{
    if low5 == 0x01 {
        (cpu.mode_dp_ind_x(bus), false)
    } else if low5 == 0x03 {
        (cpu.mode_sr(bus), false)
    } else if low5 == 0x05 {
        (cpu.mode_dp(bus), false)
    } else if low5 == 0x07 {
        (cpu.mode_dp_long(bus), false)
    } else if low5 == 0x0D {
        (cpu.mode_abs(bus), false)
    } else if low5 == 0x0F {
        (cpu.mode_long(bus), false)
    } else if low5 == 0x11 {
        cpu.mode_dp_ind_y(bus)
    } else if low5 == 0x12 {
        (cpu.mode_dp_ind(bus), false)
    } else if low5 == 0x13 {
        (cpu.mode_sr_ind_y(bus), false)
    } else if low5 == 0x15 {
        (cpu.mode_dp_x(bus), false)
    } else if low5 == 0x17 {
        (cpu.mode_dp_long_y(bus), false)
    } else if low5 == 0x19 {
        cpu.mode_abs_y(bus)
    } else if low5 == 0x1D {
        cpu.mode_abs_x(bus)
    } else {
        (cpu.mode_long_x(bus), false)
    }
}

/// ORA/AND/EOR/ADC/LDA/CMP/SBC: opcodes xxx0_0001 ... xxx1_1111 with the
/// operation in the top three bits.
fn exec_alu(cpu: &mut Cpu, bus: &mut Bus, op: u8) -> (k: u64)
    requires
        old(bus).wf(),
    ensures
        Bus::progress(*old(bus), *final(bus)),
        final(cpu).cycles == old(cpu).cycles,
        2 <= k <= 10,
        is_alu_imm(op) && operands_in_rom(*old(bus), *old(cpu))
            ==> *final(cpu) == alu_imm_effect(*old(cpu), op, operand(*old(bus), *old(cpu), 0), operand(*old(bus), *old(cpu), 1)),
        op == 0xAD && operands_in_rom(*old(bus), *old(cpu)) && store_in_wram(*old(bus), old(cpu).db, word(operand(*old(bus), *old(cpu), 0), operand(*old(bus), *old(cpu), 1)), old(cpu).spec_m16())
            ==> *final(cpu) == lda_abs_effect(*old(bus), *old(cpu), operand(*old(bus), *old(cpu), 0), operand(*old(bus), *old(cpu), 1)),
{
    proof {
        lemma_dispatch(op);
    }
    let low5 = op & 0x1F;
    let m: u64 = if cpu.m16() {
        1
    } else {
        0
    };
    let (v, cross) = if low5 == 0x09 {
        (cpu.imm_a(bus), false)
    } else {
        let (a, c) = ea(cpu, bus, low5);
        (cpu.read_a(bus, a), c)
    };
    let group = op >> 5u8;
    if group == 0 {
        cpu.ora(v);
    } else if group == 1 {
        cpu.and(v);
    } else if group == 2 {
        cpu.eor(v);
    } else if group == 3 {
        cpu.adc(v);
    } else if group == 5 {
        cpu.lda(v);
    } else if group == 6 {
        let wide = cpu.m16();
        cpu.compare_reg(cpu.a, v, wide);
    } else {
        cpu.sbc(v);
    }
    let cross_extra: u64 = if cross && !cpu.x16() {
        1
    } else {
        0
    };
    let dl = cpu.dl_extra();
    let base: u64 = if low5 == 0x01 || low5 == 0x07 || low5 == 0x17 {
        6 + dl
    } else if low5 == 0x03 || low5 == 0x0D {
        4
    } else if low5 == 0x05 {
        3 + dl
    } else if low5 == 0x09 {
        2
    } else if low5 == 0x0F || low5 == 0x1F {
        5
    } else if low5 == 0x11 {
        5 + dl + cross_extra
    } else if low5 == 0x12 {
        5 + dl
    } else if low5 == 0x13 {
        7
    } else if low5 == 0x15 {
        4 + dl
    } else {
        4 + cross_extra
    };
    base + m
}

/// STA in the accumulator-group addressing modes.
fn exec_sta(cpu: &mut Cpu, bus: &mut Bus, op: u8) -> (k: u64)
    requires
        old(bus).wf(),
    ensures
        Bus::progress(*old(bus), *final(bus)),
        final(cpu).cycles == old(cpu).cycles,
        3 <= k <= 8,
        op == 0x8D && operands_in_rom(*old(bus), *old(cpu)) ==> *final(cpu) == (Cpu {
            pc: vstd::wrapping::u16_specs::wrapping_add(old(cpu).pc, 2),
            ..*old(cpu)
        }),
        op == 0x8D && operands_in_rom(*old(bus), *old(cpu)) && store_in_wram(
            *old(bus),
            old(cpu).db,
            word(operand(*old(bus), *old(cpu), 0), operand(*old(bus), *old(cpu), 1)),
            old(cpu).spec_m16(),
        ) ==> final(bus).wram@ == wram_after_store(
            old(bus).wram@,
            old(cpu).db,
            word(operand(*old(bus), *old(cpu), 0), operand(*old(bus), *old(cpu), 1)),
            old(cpu).a,
            old(cpu).spec_m16(),
        ),
{
    proof {
        lemma_dispatch(op);
    }
    let low5 = op & 0x1F;
    let m: u64 = if cpu.m16() {
        1
    } else {
        0
    };
    let (addr, _c) = ea(cpu, bus, low5);
    cpu.write_a(bus, addr, cpu.a);
    let dl = cpu.dl_extra();
    let base: u64 = if low5 == 0x01 || low5 == 0x07 || low5 == 0x11 || low5 == 0x17 {
        6 + dl
    } else if low5 == 0x03 || low5 == 0x0D {
        4
    } else if low5 == 0x05 {
        3 + dl
    } else if low5 == 0x12 {
        5 + dl
    } else if low5 == 0x13 {
        7
    } else if low5 == 0x15 {
        4 + dl
    } else {
        5
    };
    base + m
}

/// LDX/LDY/STX/STY/STZ and CPX/CPY.
#[verifier::rlimit(40)]
fn exec_index(cpu: &mut Cpu, bus: &mut Bus, op: u8) -> (k: u64)
    requires
        old(bus).wf(),
    ensures
        Bus::progress(*old(bus), *final(bus)),
        final(cpu).cycles == old(cpu).cycles,
        2 <= k <= 6,
        is_index_imm(op) && operands_in_rom(*old(bus), *old(cpu)) ==> *final(cpu) == index_imm_effect(*old(cpu), op, operand(*old(bus), *old(cpu), 0), operand(*old(bus), *old(cpu), 1)),
{
    let m: u64 = if cpu.m16() {
        1
    } else {
        0
    };
    let xi: u64 = if cpu.x16() {
        1
    } else {
        0
    };
    if op == 0xA2 || op == 0xA0 {
        let v = cpu.imm_idx(bus);
        if op == 0xA2 {
            cpu.x = v;
        } else {
            cpu.y = v;
        }
        cpu.set_nz_idx(v);
        2 + xi
    } else if op == 0xA6 || op == 0xA4 || op == 0xB6 || op == 0xB4 {
        let a = if op == 0xA6 || op == 0xA4 {
            cpu.mode_dp(bus)
        } else if op == 0xB6 {
            cpu.mode_dp_y(bus)
        } else {
            cpu.mode_dp_x(bus)
        };
        let v = cpu.read_idx(bus, a);
        if op == 0xA6 || op == 0xB6 {
            cpu.x = v;
        } else {
            cpu.y = v;
        }
        cpu.set_nz_idx(v);
        let base: u64 = if op == 0xA6 || op == 0xA4 {
            3
        } else {
            4
        };
        base + cpu.dl_extra() + xi
    } else if op == 0xAE || op == 0xAC {
        let a = cpu.mode_abs(bus);
        let v = cpu.read_idx(bus, a);
        if op == 0xAE {
            cpu.x = v;
        } else {
            cpu.y = v;
        }
        cpu.set_nz_idx(v);
        4 + xi
    } else if op == 0xBE || op == 0xBC {
        let (a, c) = if op == 0xBE {
            cpu.mode_abs_y(bus)
        } else {
            cpu.mode_abs_x(bus)
        };
        let v = cpu.read_idx(bus, a);
        if op == 0xBE {
            cpu.x = v;
        } else {
            cpu.y = v;
        }
        cpu.set_nz_idx(v);
        let cross_extra: u64 = if c && !cpu.x16() {
            1
        } else {
            0
        };
        4 + xi + cross_extra
    } else if op == 0x86 || op == 0x84 || op == 0x96 || op == 0x94 {
        let a = if op == 0x86 || op == 0x84 {
            cpu.mode_dp(bus)
        } else if op == 0x96 {
            cpu.mode_dp_y(bus)
        } else {
            cpu.mode_dp_x(bus)
        };
        let v = if op == 0x86 || op == 0x96 {
            cpu.x
        } else {
            cpu.y
        };
        cpu.write_idx(bus, a, v);
        let base: u64 = if op == 0x86 || op == 0x84 {
            3
        } else {
            4
        };
        base + cpu.dl_extra() + xi
    } else if op == 0x8E || op == 0x8C {
        let a = cpu.mode_abs(bus);
        let v = if op == 0x8E {
            cpu.x
        } else {
            cpu.y
        };
        cpu.write_idx(bus, a, v);
        4 + xi
    } else if op == 0x64 || op == 0x74 {
        let a = if op == 0x64 {
            cpu.mode_dp(bus)
        } else {
            cpu.mode_dp_x(bus)
        };
        cpu.write_a(bus, a, 0);
        let base: u64 = if op == 0x64 {
            3
        } else {
            4
        };
        base + cpu.dl_extra() + m
    } else if op == 0x9C {
        let a = cpu.mode_abs(bus);
        cpu.write_a(bus, a, 0);
        4 + m
    } else if op == 0x9E {
        let (a, _c) = cpu.mode_abs_x(bus);
        cpu.write_a(bus, a, 0);
        5 + m
    } else if op == 0xE0 || op == 0xC0 {
        let v = cpu.imm_idx(bus);
        let wide = cpu.x16();
        let r = if op == 0xE0 {
            cpu.x
        } else {
            cpu.y
        };
        cpu.compare_reg(r, v, wide);
        2 + xi
    } else if op == 0xE4 || op == 0xC4 {
        let a = cpu.mode_dp(bus);
        let v = cpu.read_idx(bus, a);
        let wide = cpu.x16();
        let r = if op == 0xE4 {
            cpu.x
        } else {
            cpu.y
        };
        cpu.compare_reg(r, v, wide);
        3 + cpu.dl_extra() + xi
    } else {
        // $EC CPX abs, $CC CPY abs
        let a = cpu.mode_abs(bus);
        let v = cpu.read_idx(bus, a);
        let wide = cpu.x16();
        let r = if op == 0xEC {
            cpu.x
        } else {
            cpu.y
        };
        cpu.compare_reg(r, v, wide);
        4 + xi
    }
}

/// Shifts, rotates, increments and decrements.
#[verifier::rlimit(40)]
fn exec_shift(cpu: &mut Cpu, bus: &mut Bus, op: u8) -> (k: u64)
    requires
        old(bus).wf(),
    ensures
        Bus::progress(*old(bus), *final(bus)),
        final(cpu).cycles == old(cpu).cycles,
        2 <= k <= 9,
        is_reg_incdec(op) ==> *final(cpu) == incdec_effect(*old(cpu), op),
        is_acc_shift(op) ==> *final(cpu) == acc_shift_effect(*old(cpu), op),
        is_rmw_mem(op) && operands_in_rom(*old(bus), *old(cpu)) && store_in_wram(*old(bus), rmw_bank(*old(cpu), op), rmw_addr(*old(bus), *old(cpu), op), old(cpu).spec_m16())
            ==> ({
            let bank = rmw_bank(*old(cpu), op);
            let addr = rmw_addr(*old(bus), *old(cpu), op);
            let v = wram_load(old(bus).wram@, bank, addr, old(cpu).spec_m16());
            &&& final(bus).wram@ == wram_after_store(
                old(bus).wram@,
                bank,
                addr,
                spec_rmw(rmw_op_of(op), v, old(cpu).spec_flag(FLAG_C), old(cpu).spec_m16()).0,
                old(cpu).spec_m16(),
            )
            &&& *final(cpu) == (Cpu {
                p: rmw_flags(rmw_op_of(op), old(cpu).p, v, old(cpu).spec_m16()),
                pc: vstd::wrapping::u16_specs::wrapping_add(old(cpu).pc, rmw_len(op)),
                ..*old(cpu)
            })
        }),
{
    proof {
        lemma_dispatch(op);
        lemma_and_le_u16(cpu.a, 0xFF);
    }
    if op == 0x0A || op == 0x4A || op == 0x2A || op == 0x6A {
        // Accumulator forms
        let mask: u16 = if cpu.m16() {
            0xFFFF
        } else {
            0xFF
        };
        let v = cpu.a & mask;
        let r = if op == 0x0A {
            cpu.asl_val(v)
        } else if op == 0x4A {
            cpu.lsr_val(v)
        } else if op == 0x2A {
            cpu.rol_val(v)
        } else {
            cpu.ror_val(v)
        };
        proof {
            lemma_shift_bits(r, 0);
        }
        if cpu.m16() {
            cpu.a = r;
        } else {
            cpu.a = (cpu.a & 0xFF00) | r;
        }
        2
    } else if op == 0x1A || op == 0x3A {
        // INC A / DEC A
        let r = if op == 0x1A {
            cpu.a.wrapping_add(1)
        } else {
            cpu.a.wrapping_sub(1)
        };
        if cpu.m16() {
            cpu.a = r;
        } else {
            cpu.a = (cpu.a & 0xFF00) | (r & 0xFF);
        }
        cpu.set_nz_a(cpu.a);
        2
    } else if op == 0xE8 || op == 0xC8 || op == 0xCA || op == 0x88 {
        // INX/INY/DEX/DEY
        let mask = cpu.index_mask();
        if op == 0xE8 {
            cpu.x = cpu.x.wrapping_add(1) & mask;
            cpu.set_nz_idx(cpu.x);
        } else if op == 0xC8 {
            cpu.y = cpu.y.wrapping_add(1) & mask;
            cpu.set_nz_idx(cpu.y);
        } else if op == 0xCA {
            cpu.x = cpu.x.wrapping_sub(1) & mask;
            cpu.set_nz_idx(cpu.x);
        } else {
            cpu.y = cpu.y.wrapping_sub(1) & mask;
            cpu.set_nz_idx(cpu.y);
        }
        2
    } else {
        // Memory forms: the operation from the opcode's top bits, the mode
        // from its low nibble.
        let rop = if op == 0x06 || op == 0x0E || op == 0x16 || op == 0x1E {
            RmwOp::Asl
        } else if op == 0x46 || op == 0x4E || op == 0x56 || op == 0x5E {
            RmwOp::Lsr
        } else if op == 0x26 || op == 0x2E || op == 0x36 || op == 0x3E {
            RmwOp::Rol
        } else if op == 0x66 || op == 0x6E || op == 0x76 || op == 0x7E {
            RmwOp::Ror
        } else if op == 0xE6 || op == 0xEE || op == 0xF6 || op == 0xFE {
            RmwOp::Inc
        } else {
            RmwOp::Dec
        };
        let low = op & 0x1F;
        let a = if low == 0x06 {
            cpu.mode_dp(bus)
        } else if low == 0x0E {
            cpu.mode_abs(bus)
        } else if low == 0x16 {
            cpu.mode_dp_x(bus)
        } else {
            let (a, _c) = cpu.mode_abs_x(bus);
            a
        };
        proof {
            if a <= 0xFFFF {
                lemma_bank0_u32(a);
            }
        }
        let extra = cpu.rmw(bus, a, rop);
        let base: u64 = if low == 0x06 {
            5 + cpu.dl_extra()
        } else if low == 0x0E {
            6
        } else if low == 0x16 {
            6 + cpu.dl_extra()
        } else {
            7
        };
        base + extra
    }
}

/// BIT, TSB, TRB.
#[verifier::rlimit(40)]
fn exec_bit(cpu: &mut Cpu, bus: &mut Bus, op: u8) -> (k: u64)
    requires
        old(bus).wf(),
    ensures
        Bus::progress(*old(bus), *final(bus)),
        final(cpu).cycles == old(cpu).cycles,
        2 <= k <= 9,
{
    let m: u64 = if cpu.m16() {
        1
    } else {
        0
    };
    let mask: u16 = if cpu.m16() {
        0xFFFF
    } else {
        0xFF
    };
    if op == 0x89 {
        // BIT #imm only sets Z
        let v = cpu.imm_a(bus);
        cpu.set_flag(FLAG_Z, cpu.a & v & mask == 0);
        2 + m
    } else if op == 0x24 || op == 0x2C || op == 0x34 || op == 0x3C {
        let (a, c) = if op == 0x24 {
            (cpu.mode_dp(bus), false)
        } else if op == 0x2C {
            (cpu.mode_abs(bus), false)
        } else if op == 0x34 {
            (cpu.mode_dp_x(bus), false)
        } else {
            cpu.mode_abs_x(bus)
        };
        let v = cpu.read_a(bus, a);
        cpu.bit(v);
        let cross_extra: u64 = if c && !cpu.x16() {
            1
        } else {
            0
        };
        let base: u64 = if op == 0x24 {
            3 + cpu.dl_extra()
        } else if op == 0x2C {
            4
        } else if op == 0x34 {
            4 + cpu.dl_extra()
        } else {
            4 + cross_extra
        };
        base + m
    } else {
        // $04/$0C TSB, $14/$1C TRB
        let a = if op == 0x04 || op == 0x14 {
            cpu.mode_dp(bus)
        } else {
            cpu.mode_abs(bus)
        };
        let v = cpu.read_a(bus, a);
        cpu.set_flag(FLAG_Z, v & cpu.a & mask == 0);
        let r = if op == 0x04 || op == 0x0C {
            v | (cpu.a & mask)
        } else {
            v & (!cpu.a & mask)
        };
        cpu.write_a(bus, a, r);
        let base: u64 = if op == 0x04 || op == 0x14 {
            5 + cpu.dl_extra()
        } else {
            6
        };
        base + 2 * m
    }
}

/// Register transfers and XBA.
fn exec_transfer(cpu: &mut Cpu, op: u8) -> (k: u64)
    ensures
        final(cpu).cycles == old(cpu).cycles,
        2 <= k <= 3,
        is_transfer_op(op) ==> *final(cpu) == transfer_effect(*old(cpu), op),
{
    let xi: u64 = if cpu.x16() {
        1
    } else {
        0
    };
    if op == 0xAA {
        cpu.transfer_a_to(true);
        2 + xi
    } else if op == 0xA8 {
        cpu.transfer_a_to(false);
        2 + xi
    } else if op == 0x8A {
        cpu.transfer_to_a(true);
        2 + xi
    } else if op == 0x98 {
        cpu.transfer_to_a(false);
        2 + xi
    } else if op == 0xBA {
        // TSX
        let v = if cpu.x16() {
            cpu.sp
        } else {
            cpu.sp & 0xFF
        };
        cpu.x = v;
        cpu.set_nz_idx(v);
        2 + xi
    } else if op == 0x9A {
        // TXS
        let v = cpu.x;
        cpu.sp = if cpu.e {
            0x100 | (v & 0xFF)
        } else {
            v
        };
        2 + xi
    } else if op == 0x9B {
        // TXY
        cpu.y = cpu.x & cpu.index_mask();
        cpu.set_nz_idx(cpu.y);
        2
    } else if op == 0xBB {
        // TYX
        cpu.x = cpu.y & cpu.index_mask();
        cpu.set_nz_idx(cpu.x);
        2
    } else if op == 0x1B {
        // TCS
        cpu.sp = if cpu.e {
            0x100 | (cpu.a & 0xFF)
        } else {
            cpu.a
        };
        2
    } else if op == 0x3B {
        // TSC
        cpu.a = cpu.sp;
        cpu.set_nz_a(cpu.a);
        2
    } else if op == 0x5B {
        // TCD
        cpu.dp = cpu.a;
        cpu.set_nz_a(cpu.a);
        2
    } else if op == 0x7B {
        // TDC
        cpu.a = cpu.dp;
        cpu.set_nz_a(cpu.a);
        2
    } else {
        // $EB XBA: swap the accumulator bytes; N/Z from the new low byte
        let lo = cpu.a & 0xFF;
        let hi = cpu.a >> 8u16;
        proof {
            lemma_and_le_u16(cpu.a, 0xFF);
        }
        cpu.a = (lo << 8u16) | hi;
        cpu.set_flag(FLAG_Z, lo == 0);
        cpu.set_flag(FLAG_N, lo & 0x80 != 0);
        3
    }
}

/// Pushes and pulls.
#[verifier::rlimit(40)]
fn exec_stack(cpu: &mut Cpu, bus: &mut Bus, op: u8) -> (k: u64)
    requires
        old(bus).wf(),
    ensures
        Bus::progress(*old(bus), *final(bus)),
        final(cpu).cycles == old(cpu).cycles,
        3 <= k <= 7,
{
    if op == 0x48 || op == 0xDA || op == 0x5A {
        // PHA/PHX/PHY at the register's width
        let wide = if op == 0x48 {
            cpu.m16()
        } else {
            cpu.x16()
        };
        let v = if op == 0x48 {
            cpu.a
        } else if op == 0xDA {
            cpu.x
        } else {
            cpu.y
        };
        if wide {
            cpu.push16(bus, v);
            4
        } else {
            cpu.push8(bus, v as u8);
            3
        }
    } else if op == 0x08 {
        // PHP: M and X read as 1 in emulation mode
        let p = if cpu.e {
            cpu.p | FLAG_M | FLAG_X
        } else {
            cpu.p
        };
        cpu.push8(bus, p);
        3
    } else if op == 0x0B {
        cpu.push16(bus, cpu.dp);
        4
    } else if op == 0x4B {
        cpu.push8(bus, cpu.pb);
        3
    } else if op == 0x8B {
        cpu.push8(bus, cpu.db);
        3
    } else if op == 0x68 {
        // PLA
        let k: u64 = if cpu.m16() {
            cpu.a = cpu.pull16(bus);
            5
        } else {
            let v = cpu.pull8(bus) as u16;
            cpu.a = (cpu.a & 0xFF00) | v;
            4
        };
        cpu.set_nz_a(cpu.a);
        k
    } else if op == 0xFA || op == 0x7A {
        // PLX/PLY
        let wide = cpu.x16();
        let v = if wide {
            cpu.pull16(bus)
        } else {
            cpu.pull8(bus) as u16
        };
        if op == 0xFA {
            cpu.x = v;
        } else {
            cpu.y = v;
        }
        cpu.set_nz_idx(v);
        if wide {
            5
        } else {
            4
        }
    } else if op == 0x28 {
        // PLP
        cpu.p = cpu.pull8(bus);
        if cpu.e {
            cpu.p = cpu.p | FLAG_M | FLAG_X;
        }
        4
    } else if op == 0x2B {
        // PLD
        cpu.dp = cpu.pull16(bus);
        5
    } else if op == 0xAB {
        // PLB
        cpu.db = cpu.pull8(bus);
        cpu.set_flag(FLAG_Z, cpu.db == 0);
        cpu.set_flag(FLAG_N, cpu.db & 0x80 != 0);
        4
    } else if op == 0xF4 {
        // PEA
        let v = cpu.fetch16(bus);
        cpu.push16(bus, v);
        5
    } else if op == 0xD4 {
        // PEI
        let a = cpu.mode_dp(bus);
        let v = cpu.read16(bus, a);
        cpu.push16(bus, v);
        6 + cpu.dl_extra()
    } else {
        // $62 PER
        let off = cpu.fetch16(bus);
        cpu.push16(bus, cpu.pc.wrapping_add(off));
        6
    }
}

/// Flag operations, REP/SEP and XCE.
fn exec_flags(cpu: &mut Cpu, bus: &mut Bus, op: u8) -> (k: u64)
    requires
        old(bus).wf(),
    ensures
        Bus::progress(*old(bus), *final(bus)),
        final(cpu).cycles == old(cpu).cycles,
        2 <= k <= 3,
        is_flag_op(op) && operands_in_rom(*old(bus), *old(cpu)) ==> *final(cpu) == flag_effect(*old(cpu), op, operand(*old(bus), *old(cpu), 0)),
{
    if op == 0x18 {
        cpu.set_flag(FLAG_C, false);
        2
    } else if op == 0x38 {
        cpu.set_flag(FLAG_C, true);
        2
    } else if op == 0x58 {
        cpu.set_flag(FLAG_I, false);
        2
    } else if op == 0x78 {
        cpu.set_flag(FLAG_I, true);
        2
    } else if op == 0xB8 {
        cpu.set_flag(FLAG_V, false);
        2
    } else if op == 0xD8 {
        cpu.set_flag(FLAG_D, false);
        2
    } else if op == 0xF8 {
        cpu.set_flag(FLAG_D, true);
        2
    } else if op == 0xC2 || op == 0xE2 {
        // REP/SEP; M and X stay set in emulation mode, and 8-bit index
        // registers lose their high byte.
        let v = cpu.fetch8(bus);
        if op == 0xC2 {
            cpu.p = cpu.p & !v;
        } else {
            cpu.p = cpu.p | v;
        }
        if cpu.e {
            cpu.p = cpu.p | FLAG_M | FLAG_X;
        }
        if !cpu.x16() {
            cpu.x = cpu.x & 0xFF;
            cpu.y = cpu.y & 0xFF;
        }
        3
    } else {
        // $FB XCE: swap carry and emulation flag
        let old_c = cpu.flag(FLAG_C);
        let old_e = cpu.e;
        cpu.e = old_c;
        cpu.set_flag(FLAG_C, old_e);
        if cpu.e {
            cpu.p = cpu.p | FLAG_M | FLAG_X;
            cpu.x = cpu.x & 0xFF;
            cpu.y = cpu.y & 0xFF;
            cpu.sp = 0x100 | (cpu.sp & 0xFF);
        }
        2
    }
}

/// Conditional branches, BRA and BRL.
fn exec_branch(cpu: &mut Cpu, bus: &mut Bus, op: u8) -> (k: u64)
    requires
        old(bus).wf(),
    ensures
        Bus::progress(*old(bus), *final(bus)),
        final(cpu).cycles == old(cpu).cycles,
        2 <= k <= 4,
        is_branch_op(op) && operands_in_rom(*old(bus), *old(cpu)) ==> *final(cpu) == branch_effect(*old(cpu), op, operand(*old(bus), *old(cpu), 0), operand(*old(bus), *old(cpu), 1)),
{
    if op == 0x82 {
        // BRL
        let off = cpu.fetch16(bus);
        cpu.pc = cpu.pc.wrapping_add(off);
        return 4;
    }
    let cond = if op == 0x10 {
        !cpu.flag(FLAG_N)
    } else if op == 0x30 {
        cpu.flag(FLAG_N)
    } else if op == 0x50 {
        !cpu.flag(FLAG_V)
    } else if op == 0x70 {
        cpu.flag(FLAG_V)
    } else if op == 0x90 {
        !cpu.flag(FLAG_C)
    } else if op == 0xB0 {
        cpu.flag(FLAG_C)
    } else if op == 0xD0 {
        !cpu.flag(FLAG_Z)
    } else if op == 0xF0 {
        cpu.flag(FLAG_Z)
    } else {
        // $80 BRA
        true
    };
    cpu.branch(bus, cond)
}

/// Jumps, calls and returns.
#[verifier::rlimit(40)]
fn exec_jump(cpu: &mut Cpu, bus: &mut Bus, op: u8) -> (k: u64)
    requires
        old(bus).wf(),
    ensures
        Bus::progress(*old(bus), *final(bus)),
        final(cpu).cycles == old(cpu).cycles,
        3 <= k <= 8,
        op == 0x4C && operands_in_rom(*old(bus), *old(cpu)) ==> *final(cpu) == (Cpu { pc: word(operand(*old(bus), *old(cpu), 0), operand(*old(bus), *old(cpu), 1)), ..*old(cpu) }),
        op == 0x20 && operands_in_rom(*old(bus), *old(cpu)) ==> *final(cpu) == (Cpu {
            pc: word(operand(*old(bus), *old(cpu), 0), operand(*old(bus), *old(cpu), 1)),
            sp: sp_after_push(sp_after_push(old(cpu).sp, old(cpu).e), old(cpu).e),
            ..*old(cpu)
        }),
        op == 0x20 && stack_push_in_wram(*old(bus), *old(cpu)) ==> final(bus).wram@ == jsr_pushed(old(bus).wram@, *old(cpu)),
        op == 0x60 && stack_pull_in_wram(*old(bus), *old(cpu)) ==> *final(cpu) == rts_effect(*old(bus), *old(cpu)),
{
    if op == 0x4C {
        // JMP abs
        let a = cpu.fetch16(bus);
        cpu.pc = a;
        3
    } else if op == 0x5C {
        // JML long
        let a = cpu.fetch16(bus);
        let b = cpu.fetch8(bus);
        cpu.pb = b;
        cpu.pc = a;
        4
    } else if op == 0x6C {
        // JMP (abs)
        let a = cpu.fetch16(bus);
        cpu.pc = cpu.read16(bus, a as u32);
        5
    } else if op == 0x7C {
        // JMP (abs,X)
        let a = cpu.fetch16(bus).wrapping_add(cpu.x);
        let ptr = ((cpu.pb as u32) << 16u32) | a as u32;
        cpu.pc = cpu.read16(bus, ptr);
        6
    } else if op == 0xDC {
        // JML [abs]: the 24-bit target is read from bank 0 at the operand
        let a = cpu.fetch16(bus) as u32;
        let lo = cpu.read(bus, a) as u32;
        let mid = cpu.read(bus, (a + 1) & 0xFFFF) as u32;
        let hi = cpu.read(bus, (a + 2) & 0xFFFF) as u32;
        cpu.pb = hi as u8;
        cpu.pc = ((mid << 8u32) | lo) as u16;
        6
    } else if op == 0x20 {
        // JSR abs
        let a = cpu.fetch16(bus);
        cpu.push16(bus, cpu.pc.wrapping_sub(1));
        cpu.pc = a;
        6
    } else if op == 0xFC {
        // JSR (abs,X)
        let a = cpu.fetch16(bus);
        cpu.push16(bus, cpu.pc.wrapping_sub(1));
        let ptr = ((cpu.pb as u32) << 16u32) | a.wrapping_add(cpu.x) as u32;
        cpu.pc = cpu.read16(bus, ptr);
        8
    } else if op == 0x22 {
        // JSL long
        let a = cpu.fetch16(bus);
        let b = cpu.fetch8(bus);
        cpu.push8(bus, cpu.pb);
        cpu.push16(bus, cpu.pc.wrapping_sub(1));
        cpu.pb = b;
        cpu.pc = a;
        8
    } else if op == 0x60 {
        // RTS
        cpu.pc = cpu.pull16(bus).wrapping_add(1);
        6
    } else if op == 0x6B {
        // RTL
        cpu.pc = cpu.pull16(bus).wrapping_add(1);
        cpu.pb = cpu.pull8(bus);
        6
    } else {
        // $40 RTI
        cpu.p = cpu.pull8(bus);
        if cpu.e {
            cpu.p = cpu.p | FLAG_M | FLAG_X;
        }
        if !cpu.x16() {
            cpu.x = cpu.x & 0xFF;
            cpu.y = cpu.y & 0xFF;
        }
        cpu.pc = cpu.pull16(bus);
        if !cpu.e {
            cpu.pb = cpu.pull8(bus);
            7
        } else {
            6
        }
    }
}

/// BRK, COP, NOP, WDM, WAI, STP and the block moves.
fn exec_system(cpu: &mut Cpu, bus: &mut Bus, op: u8) -> (k: u64)
    requires
        old(bus).wf(),
    ensures
        Bus::progress(*old(bus), *final(bus)),
        final(cpu).cycles == old(cpu).cycles,
        2 <= k <= 7 * 0x10000,
        op == 0xEA ==> *final(cpu) == *old(cpu),
        op == 0x42 ==> *final(cpu) == (Cpu { pc: vstd::wrapping::u16_specs::wrapping_add(old(cpu).pc, 1), ..*old(cpu) }),
{
    if op == 0x00 || op == 0x02 {
        // BRK/COP: signature byte, then the software interrupt
        cpu.fetch8(bus);
        let vector = if op == 0x00 {
            VEC_BRK
        } else {
            VEC_COP
        };
        cpu.interrupt(bus, vector, true)
    } else if op == 0xEA {
        // NOP
        2
    } else if op == 0x42 {
        // WDM: skips its operand byte
        cpu.fetch8(bus);
        2
    } else if op == 0xCB {
        // WAI
        cpu.waiting = true;
        3
    } else if op == 0xDB {
        // STP
        cpu.stopped = true;
        3
    } else {
        // $54 MVN / $44 MVP: move A+1 bytes, 7 cycles each
        let dst_bank = cpu.fetch8(bus);
        let src_bank = cpu.fetch8(bus);
        cpu.db = dst_bank;
        let down = op == 0x44;
        let mut k: u64 = 0;
        let ghost a0 = cpu.a as int;
        loop
            invariant_except_break
                bus.wf(),
                Bus::progress(*old(bus), *bus),
                cpu.a <= a0 <= 0xFFFF,
                k == 7 * (a0 - cpu.a),
                cpu.cycles == old(cpu).cycles,
            ensures
                Bus::progress(*old(bus), *bus),
                cpu.cycles == old(cpu).cycles,
                7 <= k <= 7 * 0x10000,
            decreases cpu.a,
        {
            let v = bus.read(src_bank, cpu.x);
            bus.write(dst_bank, cpu.y, v);
            if down {
                cpu.x = cpu.x.wrapping_sub(1);
                cpu.y = cpu.y.wrapping_sub(1);
            } else {
                cpu.x = cpu.x.wrapping_add(1);
                cpu.y = cpu.y.wrapping_add(1);
            }
            cpu.a = cpu.a.wrapping_sub(1);
            k = k + 7;
            if cpu.a == 0xFFFF {
                break;
            }
        }
        k
    }
}

/// No interrupt is taken and the CPU is neither stopped nor waiting: the
/// next step executes the instruction at PB:PC.
pub open spec fn runs_instruction(c: Cpu) -> bool {
    !c.stopped && !c.nmi_pending && !(c.irq_pending && !c.spec_flag(FLAG_I)) && !c.waiting
}

/// The instruction at PB:PC and its two following bytes lie in ROM, and
/// its effect is one that `instr_effect` states.
pub open spec fn next_instr_specified(b: Bus, c: Cpu) -> bool {
    &&& b.target(c.pb, c.pc) is Rom
    &&& operands_in_rom(b, fetched(c))
    &&& instr_specified(fetched(c), b.peek(c.pb, c.pc))
}

/// The CPU state after the instruction at PB:PC (cycle counter aside).
pub open spec fn next_instr_state(b: Bus, c: Cpu) -> Cpu {
    instr_effect(fetched(c), b.peek(c.pb, c.pc), operand(b, fetched(c), 0), operand(b, fetched(c), 1))
}

/// Execute one instruction (or take a pending interrupt). Returns the
/// cycles elapsed: 1 while stopped, 2 while waiting, the interrupt's 7 or 8,
/// else the instruction's count.
#[verifier::rlimit(40)]
pub fn step(cpu: &mut Cpu, bus: &mut Bus) -> (r: u64)
    requires
        old(bus).wf(),
    ensures
        Bus::progress(*old(bus), *final(bus)),
        1 <= r <= 7 * 0x10000,
        old(cpu).stopped ==> r == 1 && *final(cpu) == *old(cpu) && *final(bus) == *old(bus),
        !old(cpu).stopped ==> final(cpu).cycles == vstd::wrapping::u64_specs::wrapping_add(old(cpu).cycles, r),
        !old(cpu).stopped && old(cpu).nmi_pending ==> {
            &&& !final(cpu).nmi_pending
            &&& !final(cpu).waiting
            &&& final(cpu).pb == 0
            &&& final(cpu).p == with_flag(with_flag(old(cpu).p, FLAG_I, true), FLAG_D, false)
            &&& r == if old(cpu).e { 7u64 } else { 8u64 }
        },
        !old(cpu).stopped && !old(cpu).nmi_pending && old(cpu).irq_pending && !old(cpu).spec_flag(FLAG_I) ==> {
            &&& !final(cpu).waiting
            &&& final(cpu).pb == 0
            &&& final(cpu).p == with_flag(with_flag(old(cpu).p, FLAG_I, true), FLAG_D, false)
        },
        !old(cpu).stopped && !old(cpu).nmi_pending && !(old(cpu).irq_pending && !old(cpu).spec_flag(FLAG_I))
            && old(cpu).waiting ==> r == 2 && *final(bus) == *old(bus) && *final(cpu) == (Cpu {
            cycles: vstd::wrapping::u64_specs::wrapping_add(old(cpu).cycles, 2),
            ..*old(cpu)
        }),
        runs_instruction(*old(cpu)) && next_instr_specified(*old(bus), *old(cpu)) ==> *final(cpu) == (Cpu {
            cycles: final(cpu).cycles,
            ..next_instr_state(*old(bus), *old(cpu))
        }),
        runs_instruction(*old(cpu)) && old(bus).target(old(cpu).pb, old(cpu).pc) is Rom && old(bus).peek(
            old(cpu).pb,
            old(cpu).pc,
        ) == 0x60 && stack_pull_in_wram(*old(bus), *old(cpu)) ==> *final(cpu) == (Cpu {
            cycles: final(cpu).cycles,
            ..rts_effect(*old(bus), fetched(*old(cpu)))
        }),
        runs_instruction(*old(cpu)) && old(bus).target(old(cpu).pb, old(cpu).pc) is Rom && old(bus).peek(
            old(cpu).pb,
            old(cpu).pc,
        ) == 0x8D && operands_in_rom(*old(bus), fetched(*old(cpu))) && store_in_wram(*old(bus), old(cpu).db, word(operand(*old(bus), fetched(*old(cpu)), 0), operand(*old(bus), fetched(*old(cpu)), 1)), old(cpu).spec_m16())
            ==> final(bus).wram@ == wram_after_store(old(bus).wram@, old(cpu).db, word(operand(*old(bus), fetched(*old(cpu)), 0), operand(*old(bus), fetched(*old(cpu)), 1)), old(cpu).a, old(cpu).spec_m16()),
        runs_instruction(*old(cpu)) && old(bus).target(old(cpu).pb, old(cpu).pc) is Rom && old(bus).peek(
            old(cpu).pb,
            old(cpu).pc,
        ) == 0x20 && stack_push_in_wram(*old(bus), *old(cpu)) ==> final(bus).wram@ == jsr_pushed(old(bus).wram@, fetched(*old(cpu))),
        runs_instruction(*old(cpu)) && old(bus).target(old(cpu).pb, old(cpu).pc) is Rom && old(bus).peek(
            old(cpu).pb,
            old(cpu).pc,
        ) == 0xAD && operands_in_rom(*old(bus), fetched(*old(cpu))) && store_in_wram(*old(bus), old(cpu).db, word(operand(*old(bus), fetched(*old(cpu)), 0), operand(*old(bus), fetched(*old(cpu)), 1)), old(cpu).spec_m16())
            ==> *final(cpu) == (Cpu { cycles: final(cpu).cycles, ..lda_abs_effect(*old(bus), fetched(*old(cpu)), operand(*old(bus), fetched(*old(cpu)), 0), operand(*old(bus), fetched(*old(cpu)), 1)) }),
        runs_instruction(*old(cpu)) && old(bus).target(old(cpu).pb, old(cpu).pc) is Rom && is_rmw_mem(old(bus).peek(
            old(cpu).pb,
            old(cpu).pc,
        )) && operands_in_rom(*old(bus), fetched(*old(cpu))) && store_in_wram(
            *old(bus),
            rmw_bank(*old(cpu), old(bus).peek(old(cpu).pb, old(cpu).pc)),
            rmw_addr(*old(bus), fetched(*old(cpu)), old(bus).peek(old(cpu).pb, old(cpu).pc)),
            old(cpu).spec_m16(),
        ) ==> ({
            let op = old(bus).peek(old(cpu).pb, old(cpu).pc);
            let bank = rmw_bank(*old(cpu), op);
            let addr = rmw_addr(*old(bus), fetched(*old(cpu)), op);
            let v = wram_load(old(bus).wram@, bank, addr, old(cpu).spec_m16());
            &&& final(bus).wram@ == wram_after_store(
                old(bus).wram@,
                bank,
                addr,
                spec_rmw(rmw_op_of(op), v, old(cpu).spec_flag(FLAG_C), old(cpu).spec_m16()).0,
                old(cpu).spec_m16(),
            )
            &&& *final(cpu) == (Cpu {
                p: rmw_flags(rmw_op_of(op), old(cpu).p, v, old(cpu).spec_m16()),
                pc: vstd::wrapping::u16_specs::wrapping_add(fetched(*old(cpu)).pc, rmw_len(op)),
                cycles: final(cpu).cycles,
                ..*old(cpu)
            })
        }),
{
    if cpu.stopped {
        return 1;
    }
    if cpu.nmi_pending {
        cpu.nmi_pending = false;
        cpu.waiting = false;
        let k = cpu.interrupt(bus, VEC_NMI, false);
        cpu.cycles = cpu.cycles.wrapping_add(k);
        return k;
    }
    if cpu.irq_pending && !cpu.flag(FLAG_I) {
        cpu.waiting = false;
        let k = cpu.interrupt(bus, VEC_IRQ, false);
        cpu.cycles = cpu.cycles.wrapping_add(k);
        return k;
    }
    if cpu.waiting {
        cpu.cycles = cpu.cycles.wrapping_add(2);
        return 2;
    }
    // Every access of this instruction is timed at the speed of the bank
    // the opcode is fetched from.
    let speed = bus.memory_speed(cpu.pb, cpu.pc);
    bus.code_speed = speed;
    let ghost b1 = *bus;
    let op = cpu.fetch8(bus);
    proof {
        if old(bus).target(old(cpu).pb, old(cpu).pc) is Rom && operands_in_rom(*old(bus), fetched(*old(cpu))) {
            let c1 = fetched(*old(cpu));
            lemma_rom_stable(b1, *bus, c1.pb, vstd::wrapping::u16_specs::wrapping_add(c1.pc, 0));
            lemma_rom_stable(b1, *bus, c1.pb, vstd::wrapping::u16_specs::wrapping_add(c1.pc, 1));
            assert(rmw_addr(*bus, c1, op) == rmw_addr(*old(bus), c1, op));
        }
    }
    let k = execute(cpu, bus, op);
    cpu.cycles = cpu.cycles.wrapping_add(k);
    k
}

/// The low five opcode bits of the accumulator-group addressing modes.
pub open spec fn alu_low5(low5: u8) -> bool {
    low5 == 0x01 || low5 == 0x03 || low5 == 0x05 || low5 == 0x07 || low5 == 0x09 || low5 == 0x0D
        || low5 == 0x0F || low5 == 0x11 || low5 == 0x12 || low5 == 0x13 || low5 == 0x15 || low5 == 0x17
        || low5 == 0x19 || low5 == 0x1D || low5 == 0x1F
}

/// A 16-bit value from its low and high bytes.
pub open spec fn word(lo: u8, hi: u8) -> u16 {
    lo as u16 | ((hi as u16) << 8u16)
}

/// An immediate operand: its first byte, or both at 16-bit width.
pub open spec fn imm_value(wide: bool, lo: u8, hi: u8) -> u16 {
    if wide {
        word(lo, hi)
    } else {
        lo as u16
    }
}

/// The program counter past an immediate operand of the given width.
pub open spec fn pc_past_imm(pc: u16, wide: bool) -> u16 {
    vstd::wrapping::u16_specs::wrapping_add(pc, if wide { 2u16 } else { 1u16 })
}

/// A branch displacement byte, sign-extended.
pub open spec fn rel8(b: u8) -> u16 {
    b as i8 as i16 as u16
}

/// P after comparing `reg` with `v` at the given width: C = reg >= v, and
/// N and Z of the difference.
pub open spec fn compare_flags(p: u8, reg: u16, v: u16, wide: bool) -> u8 {
    let mask: u16 = if wide { 0xFFFF } else { 0xFF };
    let sign: u16 = if wide { 0x8000 } else { 0x80 };
    let r = reg & mask;
    let d = vstd::wrapping::u16_specs::wrapping_sub(r, v & mask);
    with_flag(with_flag(with_flag(p, FLAG_C, r >= v & mask), FLAG_Z, d & mask == 0), FLAG_N, d & sign != 0)
}

/// The accumulator after a result `r` at the accumulator's width: an 8-bit
/// result keeps the high byte (B).
pub open spec fn acc_value(c: Cpu, r: u16) -> u16 {
    if c.spec_m16() {
        r
    } else {
        low_byte_into(c.a, r)
    }
}

/// The state with the program counter past the opcode byte.
pub open spec fn fetched(c: Cpu) -> Cpu {
    Cpu { pc: vstd::wrapping::u16_specs::wrapping_add(c.pc, 1), ..c }
}

/// Byte `i` after the program counter, in the program bank.
pub open spec fn operand(b: Bus, c: Cpu, i: u16) -> u8 {
    b.peek(c.pb, vstd::wrapping::u16_specs::wrapping_add(c.pc, i))
}

/// The two bytes after the program counter lie in ROM.
pub open spec fn operands_in_rom(b: Bus, c: Cpu) -> bool {
    &&& b.target(c.pb, vstd::wrapping::u16_specs::wrapping_add(c.pc, 0)) is Rom
    &&& b.target(c.pb, vstd::wrapping::u16_specs::wrapping_add(c.pc, 1)) is Rom
}

/// WRAM after a store of `v` at `bank:addr`: the low byte there and, at
/// 16-bit width, the high byte at the next address in the bank.
pub open spec fn wram_after_store(w: Seq<u8>, bank: u8, addr: u16, v: u16, wide: bool) -> Seq<u8> {
    let w1 = w.update(wram_index(bank, addr), v as u8);
    if wide {
        w1.update(wram_index(bank, vstd::wrapping::u16_specs::wrapping_add(addr, 1)), (v >> 8u16) as u8)
    } else {
        w1
    }
}

/// The value a load of the given width reads from WRAM at `bank:addr`:
/// the byte there and, at 16-bit width, the next byte in the bank above it.
pub open spec fn wram_load(w: Seq<u8>, bank: u8, addr: u16, wide: bool) -> u16 {
    if wide {
        word(w[wram_index(bank, addr)], w[wram_index(bank, vstd::wrapping::u16_specs::wrapping_add(addr, 1))])
    } else {
        w[wram_index(bank, addr)] as u16
    }
}

/// LDA absolute from WRAM: the accumulator (at its width) loaded from
/// DB:operand, N and Z from it, PC past the operand.
pub open spec fn lda_abs_effect(b: Bus, c: Cpu, lo: u8, hi: u8) -> Cpu {
    let a = acc_value(c, wram_load(b.wram@, c.db, word(lo, hi), c.spec_m16()));
    Cpu { a: a, p: with_nz(c.p, a, c.spec_m16()), pc: vstd::wrapping::u16_specs::wrapping_add(c.pc, 2), ..c }
}

/// The bytes a store of the given width touches at `bank:addr` are WRAM.
pub open spec fn store_in_wram(b: Bus, bank: u8, addr: u16, wide: bool) -> bool {
    let t0 = b.target(bank, addr);
    let t1 = b.target(bank, vstd::wrapping::u16_specs::wrapping_add(addr, 1));
    &&& (t0 is LowWram || t0 is Wram)
    &&& wide ==> (t1 is LowWram || t1 is Wram)
}

/// The two stack bytes a 16-bit pull reads lie in low WRAM.
pub open spec fn stack_pull_in_wram(b: Bus, c: Cpu) -> bool {
    &&& b.target(0, sp_after_pull(c.sp, c.e)) is LowWram
    &&& b.target(0, sp_after_pull(sp_after_pull(c.sp, c.e), c.e)) is LowWram
}

/// The two stack bytes a 16-bit push writes lie in low WRAM.
pub open spec fn stack_push_in_wram(b: Bus, c: Cpu) -> bool {
    &&& b.target(0, c.sp) is LowWram
    &&& b.target(0, sp_after_push(c.sp, c.e)) is LowWram
}

/// RTS: the return address is pulled from the stack, plus one.
pub open spec fn rts_effect(b: Bus, c: Cpu) -> Cpu {
    let s1 = sp_after_pull(c.sp, c.e);
    let s2 = sp_after_pull(s1, c.e);
    Cpu { pc: vstd::wrapping::u16_specs::wrapping_add(word(b.wram@[s1 as int], b.wram@[s2 as int]), 1), sp: s2, ..c }
}

/// JSR abs: WRAM with the address of the operand's last byte pushed, high
/// byte first.
pub open spec fn jsr_pushed(w: Seq<u8>, c: Cpu) -> Seq<u8> {
    let ret = vstd::wrapping::u16_specs::wrapping_add(c.pc, 1);
    w.update(c.sp as int, (ret >> 8u16) as u8).update(sp_after_push(c.sp, c.e) as int, ret as u8)
}

/// ASL/LSR/ROL/ROR A.
pub open spec fn is_acc_shift(op: u8) -> bool {
    op == 0x0A || op == 0x4A || op == 0x2A || op == 0x6A
}

/// ASL/LSR/ROL/ROR/INC/DEC absolute.
pub open spec fn is_rmw_abs(op: u8) -> bool {
    op == 0x0E || op == 0x4E || op == 0x2E || op == 0x6E || op == 0xEE || op == 0xCE
}

/// ASL/LSR/ROL/ROR/INC/DEC direct page.
pub open spec fn is_rmw_dp(op: u8) -> bool {
    op == 0x06 || op == 0x46 || op == 0x26 || op == 0x66 || op == 0xE6 || op == 0xC6
}

/// ASL/LSR/ROL/ROR/INC/DEC direct page indexed by X.
pub open spec fn is_rmw_dp_x(op: u8) -> bool {
    op == 0x16 || op == 0x56 || op == 0x36 || op == 0x76 || op == 0xF6 || op == 0xD6
}

/// ASL/LSR/ROL/ROR/INC/DEC absolute indexed by X.
pub open spec fn is_rmw_abs_x(op: u8) -> bool {
    op == 0x1E || op == 0x5E || op == 0x3E || op == 0x7E || op == 0xFE || op == 0xDE
}

/// The memory read-modify-write opcodes: absolute, direct page, direct page
/// indexed by X and absolute indexed by X.
pub open spec fn is_rmw_mem(op: u8) -> bool {
    is_rmw_abs(op) || is_rmw_dp(op) || is_rmw_dp_x(op) || is_rmw_abs_x(op)
}

/// The mask of the index registers' width.
pub open spec fn index_mask_of(c: Cpu) -> u16 {
    if c.spec_x16() {
        0xFFFF
    } else {
        0x00FF
    }
}

/// The direct-page address at offset `off`: D plus the offset, kept within
/// the page in emulation mode when the low byte of D is 0.
pub open spec fn dp_target(c: Cpu, off: u16) -> u16 {
    if c.e && c.dp & 0xFF == 0 {
        vstd::wrapping::u16_specs::wrapping_add(c.dp & 0xFF00, off & 0xFF)
    } else {
        vstd::wrapping::u16_specs::wrapping_add(c.dp, off)
    }
}

/// The bank of a memory read-modify-write's operand: DB for the absolute
/// modes, 0 for the direct page.
pub open spec fn rmw_bank(c: Cpu, op: u8) -> u8 {
    if is_rmw_abs(op) || is_rmw_abs_x(op) {
        c.db
    } else {
        0
    }
}

/// The address within its bank of a memory read-modify-write's operand,
/// from the operand bytes after the opcode (PC at the first of them).
pub open spec fn rmw_addr(b: Bus, c: Cpu, op: u8) -> u16 {
    if is_rmw_abs(op) {
        word(operand(b, c, 0), operand(b, c, 1))
    } else if is_rmw_abs_x(op) {
        vstd::wrapping::u16_specs::wrapping_add(word(operand(b, c, 0), operand(b, c, 1)), c.x & index_mask_of(c))
    } else if is_rmw_dp(op) {
        dp_target(c, operand(b, c, 0) as u16)
    } else {
        dp_target(c, vstd::wrapping::u16_specs::wrapping_add(operand(b, c, 0) as u16, c.x & index_mask_of(c)))
    }
}

/// The operand length of a memory read-modify-write: two bytes for the
/// absolute modes, one for the direct page.
pub open spec fn rmw_len(op: u8) -> u16 {
    if is_rmw_abs(op) || is_rmw_abs_x(op) {
        2
    } else {
        1
    }
}

/// The read-modify-write operation of a memory-form shift, rotate,
/// increment or decrement opcode.
pub open spec fn rmw_op_of(op: u8) -> RmwOp {
    if op == 0x06 || op == 0x0E || op == 0x16 || op == 0x1E {
        RmwOp::Asl
    } else if op == 0x46 || op == 0x4E || op == 0x56 || op == 0x5E {
        RmwOp::Lsr
    } else if op == 0x26 || op == 0x2E || op == 0x36 || op == 0x3E {
        RmwOp::Rol
    } else if op == 0x66 || op == 0x6E || op == 0x76 || op == 0x7E {
        RmwOp::Ror
    } else if op == 0xE6 || op == 0xEE || op == 0xF6 || op == 0xFE {
        RmwOp::Inc
    } else {
        RmwOp::Dec
    }
}

/// ASL/LSR/ROL/ROR A: the accumulator (at its width) shifted, C the bit
/// shifted out, N and Z from the result.
pub open spec fn acc_shift_effect(c: Cpu, op: u8) -> Cpu {
    let m = c.spec_m16();
    let v = c.a & (if m { 0xFFFFu16 } else { 0xFFu16 });
    let (r, cy) = if op == 0x0A {
        spec_asl(v, m)
    } else if op == 0x4A {
        spec_lsr(v)
    } else if op == 0x2A {
        spec_rol(v, c.spec_flag(FLAG_C), m)
    } else {
        spec_ror(v, c.spec_flag(FLAG_C), m)
    };
    Cpu { a: acc_value(c, r), p: with_nz(with_flag(c.p, FLAG_C, cy), r, m), ..c }
}

/// ORA/AND/EOR/ADC/LDA/CMP/SBC with an immediate operand.
pub open spec fn is_alu_imm(op: u8) -> bool {
    op == 0x09 || op == 0x29 || op == 0x49 || op == 0x69 || op == 0xA9 || op == 0xC9 || op == 0xE9
}

/// LDX/LDY/CPX/CPY with an immediate operand.
pub open spec fn is_index_imm(op: u8) -> bool {
    op == 0xA2 || op == 0xA0 || op == 0xE0 || op == 0xC0
}

/// INC A, DEC A, INX, INY, DEX, DEY.
pub open spec fn is_reg_incdec(op: u8) -> bool {
    op == 0x1A || op == 0x3A || op == 0xE8 || op == 0xC8 || op == 0xCA || op == 0x88
}

/// CLC/SEC/CLI/SEI/CLV/CLD/SED, REP, SEP and XCE.
pub open spec fn is_flag_op(op: u8) -> bool {
    op == 0x18 || op == 0x38 || op == 0x58 || op == 0x78 || op == 0xB8 || op == 0xD8 || op == 0xF8
        || op == 0xC2 || op == 0xE2 || op == 0xFB
}

/// Register transfers and XBA.
pub open spec fn is_transfer_op(op: u8) -> bool {
    op == 0xAA || op == 0xA8 || op == 0x8A || op == 0x98 || op == 0xBA || op == 0x9A || op == 0x9B
        || op == 0xBB || op == 0x1B || op == 0x3B || op == 0x5B || op == 0x7B || op == 0xEB
}

/// Conditional branches, BRA and BRL.
pub open spec fn is_branch_op(op: u8) -> bool {
    op == 0x10 || op == 0x30 || op == 0x50 || op == 0x70 || op == 0x90 || op == 0xB0 || op == 0xD0
        || op == 0xF0 || op == 0x80 || op == 0x82
}

/// Immediate-operand accumulator operations; `c` is the state after the
/// opcode fetch, `lo` and `hi` the bytes that follow it.
pub open spec fn alu_imm_effect(c: Cpu, op: u8, lo: u8, hi: u8) -> Cpu {
    let m = c.spec_m16();
    let v = imm_value(m, lo, hi);
    let c1 = Cpu { pc: pc_past_imm(c.pc, m), ..c };
    if op == 0x09 {
        let a = acc_value(c, c.a | v);
        Cpu { a: a, p: with_nz(c.p, a, m), ..c1 }
    } else if op == 0x29 {
        let a = acc_value(c, c.a & v);
        Cpu { a: a, p: with_nz(c.p, a, m), ..c1 }
    } else if op == 0x49 {
        let a = acc_value(c, c.a ^ v);
        Cpu { a: a, p: with_nz(c.p, a, m), ..c1 }
    } else if op == 0xA9 {
        let a = acc_value(c, v);
        Cpu { a: a, p: with_nz(c.p, a, m), ..c1 }
    } else if op == 0xC9 {
        Cpu { p: compare_flags(c.p, c.a, v, m), ..c1 }
    } else if op == 0x69 && c.spec_flag(FLAG_D) {
        spec_adc_bcd(c1, v)
    } else if op == 0x69 {
        let (r, cy, ov) = spec_adc(c.a, v, c.spec_flag(FLAG_C), m);
        Cpu { a: r, p: with_nz(with_flag(with_flag(c.p, FLAG_V, ov), FLAG_C, cy), r, m), ..c1 }
    } else if c.spec_flag(FLAG_D) {
        spec_sbc_bcd(c1, v)
    } else {
        let nv: u16 = if m { v ^ 0xFFFF } else { (v & 0xFF) ^ 0xFF };
        let (r, cy, ov) = spec_sbc(c.a, nv, c.spec_flag(FLAG_C), m);
        Cpu { a: r, p: with_nz(with_flag(with_flag(c.p, FLAG_V, ov), FLAG_C, cy), r, m), ..c1 }
    }
}

/// LDX/LDY/CPX/CPY immediate.
pub open spec fn index_imm_effect(c: Cpu, op: u8, lo: u8, hi: u8) -> Cpu {
    let w = c.spec_x16();
    let v = imm_value(w, lo, hi);
    let c1 = Cpu { pc: pc_past_imm(c.pc, w), ..c };
    if op == 0xA2 {
        Cpu { x: v, p: with_nz(c.p, v, w), ..c1 }
    } else if op == 0xA0 {
        Cpu { y: v, p: with_nz(c.p, v, w), ..c1 }
    } else if op == 0xE0 {
        Cpu { p: compare_flags(c.p, c.x, v, w), ..c1 }
    } else {
        Cpu { p: compare_flags(c.p, c.y, v, w), ..c1 }
    }
}

/// INC A/DEC A at the accumulator's width, INX/INY/DEX/DEY at the index
/// registers' width; N and Z from the result.
pub open spec fn incdec_effect(c: Cpu, op: u8) -> Cpu {
    let w = c.spec_x16();
    let mask: u16 = if w { 0xFFFF } else { 0xFF };
    if op == 0x1A || op == 0x3A {
        let r = if op == 0x1A {
            vstd::wrapping::u16_specs::wrapping_add(c.a, 1)
        } else {
            vstd::wrapping::u16_specs::wrapping_sub(c.a, 1)
        };
        let a = acc_value(c, r);
        Cpu { a: a, p: with_nz(c.p, a, c.spec_m16()), ..c }
    } else if op == 0xE8 {
        let x = vstd::wrapping::u16_specs::wrapping_add(c.x, 1) & mask;
        Cpu { x: x, p: with_nz(c.p, x, w), ..c }
    } else if op == 0xC8 {
        let y = vstd::wrapping::u16_specs::wrapping_add(c.y, 1) & mask;
        Cpu { y: y, p: with_nz(c.p, y, w), ..c }
    } else if op == 0xCA {
        let x = vstd::wrapping::u16_specs::wrapping_sub(c.x, 1) & mask;
        Cpu { x: x, p: with_nz(c.p, x, w), ..c }
    } else {
        let y = vstd::wrapping::u16_specs::wrapping_sub(c.y, 1) & mask;
        Cpu { y: y, p: with_nz(c.p, y, w), ..c }
    }
}

/// Flag operations; REP/SEP take the mask byte `lo`. M and X stay set in
/// emulation mode, and 8-bit index registers lose their high byte. XCE
/// swaps C and E; entering emulation mode also puts the stack in page 1.
pub open spec fn flag_effect(c: Cpu, op: u8, lo: u8) -> Cpu {
    if op == 0x18 {
        Cpu { p: with_flag(c.p, FLAG_C, false), ..c }
    } else if op == 0x38 {
        Cpu { p: with_flag(c.p, FLAG_C, true), ..c }
    } else if op == 0x58 {
        Cpu { p: with_flag(c.p, FLAG_I, false), ..c }
    } else if op == 0x78 {
        Cpu { p: with_flag(c.p, FLAG_I, true), ..c }
    } else if op == 0xB8 {
        Cpu { p: with_flag(c.p, FLAG_V, false), ..c }
    } else if op == 0xD8 {
        Cpu { p: with_flag(c.p, FLAG_D, false), ..c }
    } else if op == 0xF8 {
        Cpu { p: with_flag(c.p, FLAG_D, true), ..c }
    } else if op == 0xC2 || op == 0xE2 {
        let p1 = if op == 0xC2 { c.p & !lo } else { c.p | lo };
        let p2 = if c.e { p1 | FLAG_M | FLAG_X } else { p1 };
        let narrow = c.e || p2 & FLAG_X != 0;
        Cpu {
            p: p2,
            pc: vstd::wrapping::u16_specs::wrapping_add(c.pc, 1),
            x: if narrow { c.x & 0xFF } else { c.x },
            y: if narrow { c.y & 0xFF } else { c.y },
            ..c
        }
    } else {
        let p1 = with_flag(c.p, FLAG_C, c.e);
        if c.p & FLAG_C != 0 {
            Cpu { e: true, p: p1 | FLAG_M | FLAG_X, x: c.x & 0xFF, y: c.y & 0xFF, sp: 0x100 | (c.sp & 0xFF), ..c }
        } else {
            Cpu { e: false, p: p1, ..c }
        }
    }
}

/// Register transfers: to an index register at the index width, to the
/// accumulator at its width (TSC/TDC at 16 bits), TXS/TCS into page 1 in
/// emulation mode; XBA swaps the accumulator bytes.
pub open spec fn transfer_effect(c: Cpu, op: u8) -> Cpu {
    let w = c.spec_x16();
    let m = c.spec_m16();
    let imask: u16 = if w { 0xFFFF } else { 0xFF };
    if op == 0xAA {
        let v = if w { c.a } else { c.a & 0xFF };
        Cpu { x: v, p: with_nz(c.p, v, w), ..c }
    } else if op == 0xA8 {
        let v = if w { c.a } else { c.a & 0xFF };
        Cpu { y: v, p: with_nz(c.p, v, w), ..c }
    } else if op == 0x8A {
        let a = acc_value(c, c.x);
        Cpu { a: a, p: with_nz(c.p, a, m), ..c }
    } else if op == 0x98 {
        let a = acc_value(c, c.y);
        Cpu { a: a, p: with_nz(c.p, a, m), ..c }
    } else if op == 0xBA {
        let v = if w { c.sp } else { c.sp & 0xFF };
        Cpu { x: v, p: with_nz(c.p, v, w), ..c }
    } else if op == 0x9A {
        Cpu { sp: if c.e { 0x100 | (c.x & 0xFF) } else { c.x }, ..c }
    } else if op == 0x9B {
        let v = c.x & imask;
        Cpu { y: v, p: with_nz(c.p, v, w), ..c }
    } else if op == 0xBB {
        let v = c.y & imask;
        Cpu { x: v, p: with_nz(c.p, v, w), ..c }
    } else if op == 0x1B {
        Cpu { sp: if c.e { 0x100 | (c.a & 0xFF) } else { c.a }, ..c }
    } else if op == 0x3B {
        Cpu { a: c.sp, p: with_nz(c.p, c.sp, m), ..c }
    } else if op == 0x5B {
        Cpu { dp: c.a, p: with_nz(c.p, c.a, m), ..c }
    } else if op == 0x7B {
        Cpu { a: c.dp, p: with_nz(c.p, c.dp, m), ..c }
    } else {
        let lo = c.a & 0xFF;
        Cpu { a: (lo << 8u16) | (c.a >> 8u16), p: with_flag(with_flag(c.p, FLAG_Z, lo == 0), FLAG_N, lo & 0x80 != 0), ..c }
    }
}

/// Is the branch `op` taken in state `c`?
pub open spec fn branch_taken(c: Cpu, op: u8) -> bool {
    if op == 0x10 {
        !c.spec_flag(FLAG_N)
    } else if op == 0x30 {
        c.spec_flag(FLAG_N)
    } else if op == 0x50 {
        !c.spec_flag(FLAG_V)
    } else if op == 0x70 {
        c.spec_flag(FLAG_V)
    } else if op == 0x90 {
        !c.spec_flag(FLAG_C)
    } else if op == 0xB0 {
        c.spec_flag(FLAG_C)
    } else if op == 0xD0 {
        !c.spec_flag(FLAG_Z)
    } else if op == 0xF0 {
        c.spec_flag(FLAG_Z)
    } else {
        true
    }
}

/// Branches: a taken branch adds the sign-extended displacement to the
/// address of the next instruction; BRL adds a 16-bit one.
pub open spec fn branch_effect(c: Cpu, op: u8, lo: u8, hi: u8) -> Cpu {
    if op == 0x82 {
        Cpu { pc: vstd::wrapping::u16_specs::wrapping_add(vstd::wrapping::u16_specs::wrapping_add(c.pc, 2), word(lo, hi)), ..c }
    } else {
        let next = vstd::wrapping::u16_specs::wrapping_add(c.pc, 1);
        Cpu { pc: if branch_taken(c, op) { vstd::wrapping::u16_specs::wrapping_add(next, rel8(lo)) } else { next }, ..c }
    }
}

/// The instructions whose whole effect on the CPU is stated by
/// `instr_effect`.
pub open spec fn instr_specified(c: Cpu, op: u8) -> bool {
    ||| is_alu_imm(op)
    ||| is_index_imm(op)
    ||| is_reg_incdec(op)
    ||| is_acc_shift(op)
    ||| is_flag_op(op)
    ||| is_transfer_op(op)
    ||| is_branch_op(op)
    ||| op == 0x4C
    ||| op == 0x42
    ||| op == 0xEA
    ||| op == 0x8D
    ||| op == 0x20
}

/// The CPU state after executing `op` from state `c` (the opcode already
/// fetched), where `lo` and `hi` are the two bytes that follow the opcode.
/// The cycle counter is left as it was.
pub open spec fn instr_effect(c: Cpu, op: u8, lo: u8, hi: u8) -> Cpu {
    if is_alu_imm(op) {
        alu_imm_effect(c, op, lo, hi)
    } else if is_index_imm(op) {
        index_imm_effect(c, op, lo, hi)
    } else if is_reg_incdec(op) {
        incdec_effect(c, op)
    } else if is_acc_shift(op) {
        acc_shift_effect(c, op)
    } else if is_flag_op(op) {
        flag_effect(c, op, lo)
    } else if is_transfer_op(op) {
        transfer_effect(c, op)
    } else if is_branch_op(op) {
        branch_effect(c, op, lo, hi)
    } else if op == 0x4C {
        Cpu { pc: word(lo, hi), ..c }
    } else if op == 0x8D {
        Cpu { pc: vstd::wrapping::u16_specs::wrapping_add(c.pc, 2), ..c }
    } else if op == 0x20 {
        Cpu { pc: word(lo, hi), sp: sp_after_push(sp_after_push(c.sp, c.e), c.e), ..c }
    } else if op == 0x42 {
        Cpu { pc: vstd::wrapping::u16_specs::wrapping_add(c.pc, 1), ..c }
    } else {
        c
    }
}

/// A bank byte above a 16-bit address forms a 24-bit address that gives
/// both back.
proof fn lemma_bank_word(bank: u8, a: u16)
    by (bit_vector)
    ensures
        ((((bank as u32) << 16u32) | (a as u32)) >> 16u32) as u8 == bank,
        (((bank as u32) << 16u32) | (a as u32)) as u16 == a,
{
}

/// Where `execute` sends each specified opcode.
proof fn lemma_dispatch(op: u8)
    by (bit_vector)
    ensures
        is_alu_imm(op) ==> op & 0x1F == 0x09 && op >> 5u8 != 4,
        op == 0x09 ==> op >> 5u8 == 0,
        op == 0x29 ==> op >> 5u8 == 1,
        op == 0x49 ==> op >> 5u8 == 2,
        op == 0x69 ==> op >> 5u8 == 3,
        op == 0xA9 ==> op >> 5u8 == 5,
        op == 0xC9 ==> op >> 5u8 == 6,
        op == 0xE9 ==> op >> 5u8 == 7,
        is_index_imm(op) || is_reg_incdec(op) || is_flag_op(op) || is_transfer_op(op) || is_branch_op(op)
            || op == 0x4C || op == 0x42 || op == 0xEA || op == 0x20 || op == 0x60 || is_acc_shift(op)
            || is_rmw_mem(op) ==> !alu_low5(op & 0x1F),
        is_rmw_abs(op) ==> op & 0x1F == 0x0E,
        is_rmw_dp(op) ==> op & 0x1F == 0x06,
        is_rmw_dp_x(op) ==> op & 0x1F == 0x16,
        is_rmw_abs_x(op) ==> op & 0x1F == 0x1E,
        op == 0x8D ==> alu_low5(op & 0x1F) && op >> 5u8 == 4 && op & 0x1F == 0x0D,
        op == 0xAD ==> alu_low5(op & 0x1F) && op >> 5u8 == 5 && op & 0x1F == 0x0D,
{
}

/// The address after `addr` within its bank: same bank byte, low 16 bits
/// one on (wrapping).
proof fn lemma_next_in_bank(addr: u32, hi: u32)
    by (bit_vector)
    requires
        hi == (addr & 0xFF0000) | (vstd::wrapping::u16_specs::wrapping_add(addr as u16, 1) as u32),
    ensures
        (hi >> 16u32) as u8 == (addr >> 16u32) as u8,
        hi as u16 == vstd::wrapping::u16_specs::wrapping_add(addr as u16, 1),
{
}

/// Setting N and Z leaves the accumulator width alone.
proof fn lemma_nz_keeps_width(p: u8, v: u16, wide: bool)
    ensures
        (with_nz(p, v, wide) & FLAG_M == 0) == (p & FLAG_M == 0),
{
    let z = if wide { v == 0 } else { v & 0xFF == 0 };
    let n = if wide { v & 0x8000 != 0 } else { v & 0x80 != 0 };
    lemma_set_flag_reads_back(p, FLAG_Z, z, FLAG_M);
    lemma_set_flag_reads_back(with_flag(p, FLAG_Z, z), FLAG_N, n, FLAG_M);
}

/// Setting C and then N and Z leaves the accumulator width alone.
proof fn lemma_flags_keep_width(p: u8, v: u16, wide: bool)
    ensures
        (with_nz(with_flag(p, FLAG_C, true), v, wide) & FLAG_M == 0) == (p & FLAG_M == 0),
        (with_nz(with_flag(p, FLAG_C, false), v, wide) & FLAG_M == 0) == (p & FLAG_M == 0),
        (with_nz(p, v, wide) & FLAG_M == 0) == (p & FLAG_M == 0),
        (with_flag(p, FLAG_C, true) & FLAG_M == 0) == (p & FLAG_M == 0),
        (with_flag(p, FLAG_C, false) & FLAG_M == 0) == (p & FLAG_M == 0),
{
    lemma_set_flag_reads_back(p, FLAG_C, true, FLAG_M);
    lemma_set_flag_reads_back(p, FLAG_C, false, FLAG_M);
    lemma_nz_keeps_width(with_flag(p, FLAG_C, true), v, wide);
    lemma_nz_keeps_width(with_flag(p, FLAG_C, false), v, wide);
    lemma_nz_keeps_width(p, v, wide);
}

/// A pull undoes a push: in emulation mode for a stack pointer in page 1,
/// in native mode always.
proof fn lemma_pull_after_push(sp: u16, e: bool)
    by (bit_vector)
    requires
        e ==> 0x100 <= sp <= 0x1FF,
    ensures
        sp_after_pull(sp_after_push(sp, e), e) == sp,
        sp_after_push(sp, e) != sp,
        e ==> 0x100 <= sp_after_push(sp, e) <= 0x1FF,
{
}

/// A 16-bit value split into bytes and joined again.
pub(crate) proof fn lemma_word_of_bytes(v: u16)
    by (bit_vector)
    ensures
        word(v as u8, (v >> 8u16) as u8) == v,
{
}

/// A subroutine call returns: after JSR from state `f` (PC at its operand)
/// with the return address pushed into WRAM, RTS resumes at the
/// instruction after the JSR with the stack pointer restored.
pub proof fn lemma_jsr_then_rts(b: Bus, f: Cpu, after: Bus, target: u16)
    requires
        b.wram@.len() == 0x20000,
        f.e ==> 0x100 <= f.sp <= 0x1FF,
        after.wram@ == jsr_pushed(b.wram@, f),
    ensures
        ({
            let called = Cpu { pc: target, sp: sp_after_push(sp_after_push(f.sp, f.e), f.e), ..f };
            &&& rts_effect(after, called).pc == vstd::wrapping::u16_specs::wrapping_add(f.pc, 2)
            &&& rts_effect(after, called).sp == f.sp
        }),
{
    let s1 = sp_after_push(f.sp, f.e);
    lemma_pull_after_push(f.sp, f.e);
    lemma_pull_after_push(s1, f.e);
    let ret = vstd::wrapping::u16_specs::wrapping_add(f.pc, 1);
    lemma_word_of_bytes(ret);
    assert(after.wram@[s1 as int] == ret as u8);
    assert(after.wram@[f.sp as int] == (ret >> 8u16) as u8);
}

/// Bus activity changes neither what ROM holds nor where it is mapped.
pub proof fn lemma_rom_stable(old: Bus, new: Bus, bank: u8, addr: u16)
    requires
        Bus::progress(old, new),
        old.target(bank, addr) is Rom,
    ensures
        new.target(bank, addr) is Rom,
        new.peek(bank, addr) == old.peek(bank, addr),
{
}

/// Execute the instruction with opcode `op` (already fetched); returns its
/// cycle count.
#[verifier::rlimit(60)]
fn execute(cpu: &mut Cpu, bus: &mut Bus, op: u8) -> (k: u64)
    requires
        old(bus).wf(),
    ensures
        Bus::progress(*old(bus), *final(bus)),
        final(cpu).cycles == old(cpu).cycles,
        2 <= k <= 7 * 0x10000,
        instr_specified(*old(cpu), op) && operands_in_rom(*old(bus), *old(cpu)) ==> *final(cpu) == instr_effect(*old(cpu), op, operand(*old(bus), *old(cpu), 0), operand(*old(bus), *old(cpu), 1)),
        op == 0x8D && operands_in_rom(*old(bus), *old(cpu)) && store_in_wram(*old(bus), old(cpu).db, word(operand(*old(bus), *old(cpu), 0), operand(*old(bus), *old(cpu), 1)), old(cpu).spec_m16())
            ==> final(bus).wram@ == wram_after_store(old(bus).wram@, old(cpu).db, word(operand(*old(bus), *old(cpu), 0), operand(*old(bus), *old(cpu), 1)), old(cpu).a, old(cpu).spec_m16()),
        op == 0x20 && stack_push_in_wram(*old(bus), *old(cpu)) ==> final(bus).wram@ == jsr_pushed(old(bus).wram@, *old(cpu)),
        op == 0x60 && stack_pull_in_wram(*old(bus), *old(cpu)) ==> *final(cpu) == rts_effect(*old(bus), *old(cpu)),
        is_rmw_mem(op) && operands_in_rom(*old(bus), *old(cpu)) && store_in_wram(*old(bus), rmw_bank(*old(cpu), op), rmw_addr(*old(bus), *old(cpu), op), old(cpu).spec_m16())
            ==> ({
            let bank = rmw_bank(*old(cpu), op);
            let addr = rmw_addr(*old(bus), *old(cpu), op);
            let v = wram_load(old(bus).wram@, bank, addr, old(cpu).spec_m16());
            &&& final(bus).wram@ == wram_after_store(
                old(bus).wram@,
                bank,
                addr,
                spec_rmw(rmw_op_of(op), v, old(cpu).spec_flag(FLAG_C), old(cpu).spec_m16()).0,
                old(cpu).spec_m16(),
            )
            &&& *final(cpu) == (Cpu {
                p: rmw_flags(rmw_op_of(op), old(cpu).p, v, old(cpu).spec_m16()),
                pc: vstd::wrapping::u16_specs::wrapping_add(old(cpu).pc, rmw_len(op)),
                ..*old(cpu)
            })
        }),
        op == 0xAD && operands_in_rom(*old(bus), *old(cpu)) && store_in_wram(*old(bus), old(cpu).db, word(operand(*old(bus), *old(cpu), 0), operand(*old(bus), *old(cpu), 1)), old(cpu).spec_m16())
            ==> *final(cpu) == lda_abs_effect(*old(bus), *old(cpu), operand(*old(bus), *old(cpu), 0), operand(*old(bus), *old(cpu), 1)),
{
    proof {
        lemma_dispatch(op);
    }
    let low5 = op & 0x1F;
    let group = op >> 5u8;
    let alu_mode = low5 == 0x01 || low5 == 0x03 || low5 == 0x05 || low5 == 0x07 || low5 == 0x09 || low5
        == 0x0D || low5 == 0x0F || low5 == 0x11 || low5 == 0x12 || low5 == 0x13 || low5 == 0x15 || low5
        == 0x17 || low5 == 0x19 || low5 == 0x1D || low5 == 0x1F;
    assert(alu_mode == alu_low5(low5));
    if alu_mode && group != 4 {
        exec_alu(cpu, bus, op)
    } else if alu_mode && op != 0x89 {
        exec_sta(cpu, bus, op)
    } else if op == 0xA2 || op == 0xA0 || op == 0xA6 || op == 0xA4 || op == 0xAE || op == 0xAC || op
        == 0xB6 || op == 0xB4 || op == 0xBE || op == 0xBC || op == 0x86 || op == 0x84 || op == 0x8E
        || op == 0x8C || op == 0x96 || op == 0x94 || op == 0x64 || op == 0x74 || op == 0x9C || op
        == 0x9E || op == 0xE0 || op == 0xE4 || op == 0xEC || op == 0xC0 || op == 0xC4 || op == 0xCC {
        exec_index(cpu, bus, op)
    } else if op == 0x0A || op == 0x4A || op == 0x2A || op == 0x6A || op == 0x06 || op == 0x0E || op
        == 0x16 || op == 0x1E || op == 0x46 || op == 0x4E || op == 0x56 || op == 0x5E || op == 0x26
        || op == 0x2E || op == 0x36 || op == 0x3E || op == 0x66 || op == 0x6E || op == 0x76 || op
        == 0x7E || op == 0x1A || op == 0x3A || op == 0xE6 || op == 0xEE || op == 0xF6 || op == 0xFE
        || op == 0xC6 || op == 0xCE || op == 0xD6 || op == 0xDE || op == 0xE8 || op == 0xC8 || op
        == 0xCA || op == 0x88 {
        exec_shift(cpu, bus, op)
    } else if op == 0x89 || op == 0x24 || op == 0x2C || op == 0x34 || op == 0x3C || op == 0x04 || op
        == 0x0C || op == 0x14 || op == 0x1C {
        exec_bit(cpu, bus, op)
    } else if op == 0xAA || op == 0xA8 || op == 0x8A || op == 0x98 || op == 0xBA || op == 0x9A || op
        == 0x9B || op == 0xBB || op == 0x1B || op == 0x3B || op == 0x5B || op == 0x7B || op == 0xEB {
        exec_transfer(cpu, op)
    } else if op == 0x48 || op == 0xDA || op == 0x5A || op == 0x08 || op == 0x0B || op == 0x4B || op
        == 0x8B || op == 0x68 || op == 0xFA || op == 0x7A || op == 0x28 || op == 0x2B || op == 0xAB
        || op == 0xF4 || op == 0xD4 || op == 0x62 {
        exec_stack(cpu, bus, op)
    } else if op == 0x18 || op == 0x38 || op == 0x58 || op == 0x78 || op == 0xB8 || op == 0xD8 || op
        == 0xF8 || op == 0xC2 || op == 0xE2 || op == 0xFB {
        exec_flags(cpu, bus, op)
    } else if op == 0x10 || op == 0x30 || op == 0x50 || op == 0x70 || op == 0x90 || op == 0xB0 || op
        == 0xD0 || op == 0xF0 || op == 0x80 || op == 0x82 {
        exec_branch(cpu, bus, op)
    } else if op == 0x4C || op == 0x5C || op == 0x6C || op == 0x7C || op == 0xDC || op == 0x20 || op
        == 0xFC || op == 0x22 || op == 0x60 || op == 0x6B || op == 0x40 {
        exec_jump(cpu, bus, op)
    } else {
        // $00 BRK, $02 COP, $EA NOP, $42 WDM, $CB WAI, $DB STP, $54/$44 block moves
        exec_system(cpu, bus, op)
    }
}

/// Setting V and C leaves the M (and X) width bits alone.
proof fn lemma_vc_keep_widths(p: u8)
    ensures
        forall|ov: bool, c: bool| #![auto] with_flag(with_flag(p, FLAG_V, ov), FLAG_C, c) & FLAG_M == p & FLAG_M,
{
    assert({
        &&& with_flag(with_flag(p, FLAG_V, true), FLAG_C, true) & FLAG_M == p & FLAG_M
        &&& with_flag(with_flag(p, FLAG_V, true), FLAG_C, false) & FLAG_M == p & FLAG_M
        &&& with_flag(with_flag(p, FLAG_V, false), FLAG_C, true) & FLAG_M == p & FLAG_M
        &&& with_flag(with_flag(p, FLAG_V, false), FLAG_C, false) & FLAG_M == p & FLAG_M
    }) by (bit_vector);
}

/// Setting a status flag and reading it back gives the value set; the
/// other flags are untouched.
pub proof fn lemma_set_flag_reads_back(p: u8, f: u8, v: bool, g: u8)
    requires
        f == FLAG_C || f == FLAG_Z || f == FLAG_I || f == FLAG_D || f == FLAG_X || f == FLAG_M || f
            == FLAG_V || f == FLAG_N,
        g == FLAG_C || g == FLAG_Z || g == FLAG_I || g == FLAG_D || g == FLAG_X || g == FLAG_M || g
            == FLAG_V || g == FLAG_N,
        g != f,
    ensures
        (with_flag(p, f, v) & f != 0) == v,
        (with_flag(p, f, v) & g != 0) == (p & g != 0),
{
    assert((with_flag(p, f, v) & f != 0) == v && (with_flag(p, f, v) & g != 0) == (p & g != 0)) by (bit_vector)
        requires
            f == 1 || f == 2 || f == 4 || f == 8 || f == 16 || f == 32 || f == 64 || f == 128,
            g == 1 || g == 2 || g == 4 || g == 8 || g == 16 || g == 32 || g == 64 || g == 128,
            g != f,
    ;
}

} // verus!
