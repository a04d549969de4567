//! Sony SPC700 audio CPU: 64 KiB RAM, IPL ROM, timers, CPU ports, DSP regs.
//!
//! Runs at ~1.024 MHz (one SPC cycle per ~21 master clocks).

pub mod dsp;

use vstd::prelude::*;
use crate::bits::{lemma_and_le_u8, lemma_and_le_u16, lemma_page_or};
use dsp::Dsp;

verus! {

pub const PSW_N: u8 = 0x80;
pub const PSW_V: u8 = 0x40;
pub const PSW_P: u8 = 0x20;
pub const PSW_B: u8 = 0x10;
pub const PSW_H: u8 = 0x08;
pub const PSW_I: u8 = 0x04;
pub const PSW_Z: u8 = 0x02;
pub const PSW_C: u8 = 0x01;

/// Sony IPL boot ROM (executed from $FFC0 on reset when enabled).
pub const IPL_ROM: [u8; 64] = [
    0xCD, 0xEF, 0xBD, 0xE8, 0x00, 0xC6, 0x1D, 0xD0, 0xFC, 0x8F, 0xAA, 0xF4, 0x8F, 0xBB, 0xF5,
    0x78, 0xCC, 0xF4, 0xD0, 0xFB, 0x2F, 0x19, 0xEB, 0xF4, 0xD0, 0xFC, 0x7E, 0xF4, 0xD0, 0x0B,
    0xE4, 0xF5, 0xCB, 0xF4, 0xD7, 0x00, 0xFC, 0xD0, 0xF3, 0xAB, 0x01, 0x10, 0xEF, 0x7E, 0xF4,
    0x10, 0xEB, 0xBA, 0xF6, 0xDA, 0x00, 0xBA, 0xF4, 0xC4, 0xF4, 0xDD, 0x5D, 0xD0, 0xDB, 0x1F,
    0x00, 0x00, 0xC0, 0xFF,
];

pub struct Spc700 {
    pub ram: Box<[u8; 0x10000]>,
    pub dsp: Dsp,
    pub a: u8,
    pub x: u8,
    pub y: u8,
    pub sp: u8,
    pub pc: u16,
    pub psw: u8,
    /// Written by the S-CPU ($2140-43 writes land here).
    pub cpu_in: [u8; 4],
    /// Written by the SPC; the S-CPU reads these on $2140-43.
    pub cpu_out: [u8; 4],
    pub control: u8,
    pub dsp_addr: u8,
    pub timers: [Timer; 3],
    pub stage1: u16,  // 128-cycle / 16-cycle prescaler counter
    pub stopped: bool,
    /// Fractional master-clock accumulator for cycle conversion.
    pub master_acc: u64,
    /// SPC cycles remaining for the instruction currently executing.
    pub cyc: u64,
}

#[derive(Clone, Copy)]
pub struct Timer {
    pub target: u8,
    pub counter: u8,  // stage 2
    pub output: u8,  // stage 3, 4-bit
    pub enabled: bool,
}

/// PSW with flag bit(s) `f` set to `v`.
pub open spec fn psw_with(psw: u8, f: u8, v: bool) -> u8 {
    if v {
        psw | f
    } else {
        psw & !f
    }
}

/// PSW with N and Z describing the 8-bit result `v`.
pub open spec fn psw_nz(psw: u8, v: u8) -> u8 {
    ((psw & !(PSW_N | PSW_Z)) | (v & PSW_N) | if v == 0 {
        PSW_Z
    } else {
        0u8
    }) as u8
}

/// PSW with N and Z describing the 16-bit result `v` (N from bit 15).
pub open spec fn psw_nz16(psw: u8, v: u16) -> u8 {
    ((psw & !(PSW_N | PSW_Z)) | (((v >> 8u16) as u8) & PSW_N) | if v == 0 {
        PSW_Z
    } else {
        0u8
    }) as u8
}

/// Binary addition with carry-in `c`: (result, carry, overflow, half-carry).
pub open spec fn spec_adc8(a: u8, b: u8, c: u8) -> (u8, bool, bool, bool) {
    let r = a + b + c;
    (r as u8, r > 0xFF, (!(a ^ b) & (a ^ (r as u8)) & 0x80) != 0, (a & 0xF) + (b & 0xF) + c > 0xF)
}

/// Binary subtraction with borrow `1 - c`: (result, carry, overflow, half-carry).
pub open spec fn spec_sbc8(a: u8, b: u8, c: u8) -> (u8, bool, bool, bool) {
    let r = a - b - (1 - c);
    (r as u8, r >= 0, ((a ^ b) & (a ^ (r as u8)) & 0x80) != 0, (a & 0xF) - (b & 0xF) - (1 - c) >= 0)
}

/// One step of the 9-step DIV YA,X shift-subtract loop (Anomie's
/// algorithm): rotate the 17-bit accumulator left, set the quotient bit
/// when it is at least the shifted divisor, and subtract when it is set.
pub open spec fn div_step(yva: u32, x: u32) -> u32 {
    let s = ((yva << 1u32) | (yva >> 16u32)) & 0x1FFFF;
    let t = if s >= x {
        s ^ 1
    } else {
        s
    };
    if t & 1 != 0 {
        (vstd::wrapping::u32_specs::wrapping_sub(t, x) & 0x1FFFF) as u32
    } else {
        t
    }
}

pub open spec fn div_steps(yva: u32, x: u32, n: nat) -> u32
    decreases n,
{
    if n == 0 {
        yva
    } else {
        div_steps(div_step(yva, x), x, (n - 1) as nat)
    }
}

/// Flags that survive the later flag updates of DIV and SUBW: V after
/// setting H and N/Z, and C after setting V, H and N/Z.
proof fn lemma_psw_bits(p: u8, c: bool, v: bool, h: bool, a: u8, r: u16)
    by (bit_vector)
    ensures
        psw_nz(psw_with(psw_with(p, PSW_V, v), PSW_H, h), a) & PSW_V != 0 == v,
        psw_nz16(psw_with(psw_with(psw_with(p, PSW_C, c), PSW_V, v), PSW_H, h), r) & PSW_C != 0 == c,
{
}

/// YA: Y above A as one 16-bit value.
pub open spec fn spc_ya(s: Spc700) -> u16 {
    (s.a as u16) | ((s.y as u16) << 8u16)
}

/// Both bytes of the word at `addr` are plain reads.
pub open spec fn spc_word_readable(s: Spc700, addr: u16) -> bool {
    &&& spc_plain_read(s, addr) is Some
    &&& spc_plain_read(s, vstd::wrapping::u16_specs::wrapping_add(addr, 1)) is Some
}

/// The little-endian word at `addr`.
pub open spec fn spc_word_at(s: Spc700, addr: u16) -> u16 {
    (spc_plain_read(s, addr)->Some_0 as u16) | ((spc_plain_read(
        s,
        vstd::wrapping::u16_specs::wrapping_add(addr, 1),
    )->Some_0 as u16) << 8u16)
}

/// SUBW: YA minus the word, modulo 2^16.
pub open spec fn spc_subw(ya: u16, w: u16) -> u16 {
    vstd::wrapping::u16_specs::wrapping_sub(ya, w)
}

/// The instruction at PC is SUBW YA,dp with its operand byte and the word
/// it names all plain reads.
pub open spec fn spc_next_subw(s: Spc700) -> bool {
    &&& spc_plain_read(s, s.pc) == Some(0x9Au8)
    &&& spc_plain_read(s, vstd::wrapping::u16_specs::wrapping_add(s.pc, 1)) is Some
    &&& spc_word_readable(
        s,
        spc_dp_addr(s.psw, spc_plain_read(s, vstd::wrapping::u16_specs::wrapping_add(s.pc, 1))->Some_0),
    )
}

/// SUBW subtracts modulo 2^16: adding the word back gives YA again, and
/// without a borrow the result is the plain difference.
pub proof fn lemma_subw_arithmetic(ya: u16, w: u16)
    ensures
        (spc_subw(ya, w) as int + w as int) % 0x10000 == ya as int,
        ya >= w ==> spc_subw(ya, w) == ya - w,
        ya < w ==> spc_subw(ya, w) == ya + 0x10000 - w,
{
}

/// The direct-page address of offset `off`: page 1 when P is set, else page 0.
pub open spec fn spc_dp_addr(psw: u8, off: u8) -> u16 {
    ((if psw & PSW_P != 0 { 0x100int } else { 0int }) + off as int) as u16
}

/// Direct-page loads MOV A/X/Y,dp.
pub open spec fn spc_is_dp_load(op: u8) -> bool {
    op == 0xE4 || op == 0xF8 || op == 0xEB
}

/// Direct-page stores MOV dp,A/X/Y.
pub open spec fn spc_is_dp_store(op: u8) -> bool {
    op == 0xC4 || op == 0xD8 || op == 0xCB
}

/// PSW after comparing `a` with `b`: C = a >= b, N and Z of a - b.
pub open spec fn psw_compare(psw: u8, a: u8, b: u8) -> u8 {
    psw_nz(psw_with(psw, PSW_C, a >= b), vstd::wrapping::u8_specs::wrapping_sub(a, b))
}

/// The state after DIV YA,X: A the 9-step quotient, Y the remainder, V
/// from quotient bit 8, H from comparing the low nibbles of X and Y.
pub open spec fn spc_div_state(s: Spc700) -> Spc700 {
    let yva = div_steps(((s.a as u16) | ((s.y as u16) << 8u16)) as u32, (s.x as u32) << 9u32, 9);
    let y = (yva >> 9u32) as u8;
    let a = yva as u8;
    Spc700 { a: a, y: y, psw: psw_nz(psw_with(psw_with(s.psw, PSW_V, yva & 0x100 != 0), PSW_H, (s.x & 0x0F) <= (y & 0x0F)), a), ..s }
}

/// Is the conditional branch `op` taken with flags `psw`?
pub open spec fn spc_branch_taken(psw: u8, op: u8) -> bool {
    if op == 0x10 {
        psw & PSW_N == 0
    } else if op == 0x30 {
        psw & PSW_N != 0
    } else if op == 0x50 {
        psw & PSW_V == 0
    } else if op == 0x70 {
        psw & PSW_V != 0
    } else if op == 0x90 {
        psw & PSW_C == 0
    } else if op == 0xB0 {
        psw & PSW_C != 0
    } else if op == 0xD0 {
        psw & PSW_Z == 0
    } else if op == 0xF0 {
        psw & PSW_Z != 0
    } else {
        true
    }
}

/// SPC700 opcodes whose whole effect `spc_effect` states: NOP, immediate
/// and register moves, immediate ALU operations and compares, register
/// increments and decrements, flag operations, relative branches, XCN,
/// MUL YA and DIV YA,X.
pub open spec fn spc_specified(op: u8) -> bool {
    op == 0x00 || op == 0xE8 || op == 0xCD || op == 0x8D || op == 0x08 || op == 0x28 || op == 0x48
        || op == 0x68 || op == 0xC8 || op == 0xAD || op == 0x88 || op == 0xA8 || op == 0x7D || op == 0xDD
        || op == 0x5D || op == 0xFD || op == 0x9D || op == 0xBD || op == 0xBC || op == 0x3D || op == 0xFC
        || op == 0x9C || op == 0x1D || op == 0xDC || op == 0x60 || op == 0x80 || op == 0xED || op == 0xE0
        || op == 0x20 || op == 0x40 || op == 0xA0 || op == 0xC0 || op == 0x10 || op == 0x30 || op == 0x50
        || op == 0x70 || op == 0x90 || op == 0xB0 || op == 0xD0 || op == 0xF0 || op == 0x2F || op == 0x9F
        || op == 0xCF || op == 0x9E || spc_is_dp_load(op) || op == 0xEF || op == 0xFF
}

/// The state after `op`, from state `s` with PC past the opcode and `i` the
/// byte that follows it.
pub open spec fn spc_effect(s: Spc700, op: u8, i: u8) -> Spc700 {
    let s1 = Spc700 { pc: vstd::wrapping::u16_specs::wrapping_add(s.pc, 1), ..s };
    if op == 0xE8 {
        Spc700 { a: i, psw: psw_nz(s.psw, i), ..s1 }
    } else if op == 0xCD {
        Spc700 { x: i, psw: psw_nz(s.psw, i), ..s1 }
    } else if op == 0x8D {
        Spc700 { y: i, psw: psw_nz(s.psw, i), ..s1 }
    } else if op == 0x08 {
        Spc700 { a: s.a | i, psw: psw_nz(s.psw, s.a | i), ..s1 }
    } else if op == 0x28 {
        Spc700 { a: s.a & i, psw: psw_nz(s.psw, s.a & i), ..s1 }
    } else if op == 0x48 {
        Spc700 { a: s.a ^ i, psw: psw_nz(s.psw, s.a ^ i), ..s1 }
    } else if op == 0x68 {
        Spc700 { psw: psw_compare(s.psw, s.a, i), ..s1 }
    } else if op == 0xC8 {
        Spc700 { psw: psw_compare(s.psw, s.x, i), ..s1 }
    } else if op == 0xAD {
        Spc700 { psw: psw_compare(s.psw, s.y, i), ..s1 }
    } else if op == 0x88 {
        let (r, c, o, h) = spec_adc8(s.a, i, s.psw & PSW_C);
        Spc700 { a: r, psw: psw_nz(psw_with(psw_with(psw_with(s.psw, PSW_C, c), PSW_V, o), PSW_H, h), r), ..s1 }
    } else if op == 0xA8 {
        let (r, c, o, h) = spec_sbc8(s.a, i, s.psw & PSW_C);
        Spc700 { a: r, psw: psw_nz(psw_with(psw_with(psw_with(s.psw, PSW_C, c), PSW_V, o), PSW_H, h), r), ..s1 }
    } else if op == 0x7D {
        Spc700 { a: s.x, psw: psw_nz(s.psw, s.x), ..s }
    } else if op == 0xDD {
        Spc700 { a: s.y, psw: psw_nz(s.psw, s.y), ..s }
    } else if op == 0x5D {
        Spc700 { x: s.a, psw: psw_nz(s.psw, s.a), ..s }
    } else if op == 0xFD {
        Spc700 { y: s.a, psw: psw_nz(s.psw, s.a), ..s }
    } else if op == 0x9D {
        Spc700 { x: s.sp, psw: psw_nz(s.psw, s.sp), ..s }
    } else if op == 0xBD {
        Spc700 { sp: s.x, ..s }
    } else if op == 0xBC {
        let r = vstd::wrapping::u8_specs::wrapping_add(s.a, 1);
        Spc700 { a: r, psw: psw_nz(s.psw, r), ..s }
    } else if op == 0x3D {
        let r = vstd::wrapping::u8_specs::wrapping_add(s.x, 1);
        Spc700 { x: r, psw: psw_nz(s.psw, r), ..s }
    } else if op == 0xFC {
        let r = vstd::wrapping::u8_specs::wrapping_add(s.y, 1);
        Spc700 { y: r, psw: psw_nz(s.psw, r), ..s }
    } else if op == 0x9C {
        let r = vstd::wrapping::u8_specs::wrapping_sub(s.a, 1);
        Spc700 { a: r, psw: psw_nz(s.psw, r), ..s }
    } else if op == 0x1D {
        let r = vstd::wrapping::u8_specs::wrapping_sub(s.x, 1);
        Spc700 { x: r, psw: psw_nz(s.psw, r), ..s }
    } else if op == 0xDC {
        let r = vstd::wrapping::u8_specs::wrapping_sub(s.y, 1);
        Spc700 { y: r, psw: psw_nz(s.psw, r), ..s }
    } else if op == 0x60 {
        Spc700 { psw: psw_with(s.psw, PSW_C, false), ..s }
    } else if op == 0x80 {
        Spc700 { psw: psw_with(s.psw, PSW_C, true), ..s }
    } else if op == 0xED {
        Spc700 { psw: psw_with(s.psw, PSW_C, s.psw & PSW_C == 0), ..s }
    } else if op == 0xE0 {
        Spc700 { psw: psw_with(psw_with(s.psw, PSW_V, false), PSW_H, false), ..s }
    } else if op == 0x20 {
        Spc700 { psw: psw_with(s.psw, PSW_P, false), ..s }
    } else if op == 0x40 {
        Spc700 { psw: psw_with(s.psw, PSW_P, true), ..s }
    } else if op == 0xA0 {
        Spc700 { psw: psw_with(s.psw, PSW_I, true), ..s }
    } else if op == 0xC0 {
        Spc700 { psw: psw_with(s.psw, PSW_I, false), ..s }
    } else if op == 0x10 || op == 0x30 || op == 0x50 || op == 0x70 || op == 0x90 || op == 0xB0 || op
        == 0xD0 || op == 0xF0 || op == 0x2F {
        Spc700 {
            pc: if spc_branch_taken(s.psw, op) {
                vstd::wrapping::u16_specs::wrapping_add(s1.pc, (i as i8) as u16)
            } else {
                s1.pc
            },
            ..s
        }
    } else if op == 0x9F {
        let r = (s.a >> 4u8) | (s.a << 4u8);
        Spc700 { a: r, psw: psw_nz(s.psw, r), ..s }
    } else if op == 0xCF {
        let r = (s.y * s.a) as u16;
        Spc700 { a: r as u8, y: (r >> 8u16) as u8, psw: psw_nz(s.psw, (r >> 8u16) as u8), ..s }
    } else if op == 0x9E {
        spc_div_state(s)
    } else if spc_is_dp_load(op) {
        let v = spc_plain_read(s, spc_dp_addr(s.psw, i))->Some_0;
        if op == 0xE4 {
            Spc700 { a: v, psw: psw_nz(s.psw, v), ..s1 }
        } else if op == 0xF8 {
            Spc700 { x: v, psw: psw_nz(s.psw, v), ..s1 }
        } else {
            Spc700 { y: v, psw: psw_nz(s.psw, v), ..s1 }
        }
    } else if op == 0xEF || op == 0xFF {
        Spc700 { stopped: true, ..s }
    } else {
        s
    }
}

/// The instruction at PC, and the byte after it, are plain reads, and the
/// instruction is one that `spc_effect` states.
pub open spec fn spc_next_specified(s: Spc700) -> bool {
    &&& spc_plain_read(s, s.pc) is Some
    &&& spc_plain_read(s, vstd::wrapping::u16_specs::wrapping_add(s.pc, 1)) is Some
    &&& spc_specified(spc_plain_read(s, s.pc)->Some_0)
    &&& spc_is_dp_load(spc_plain_read(s, s.pc)->Some_0) ==> spc_plain_read(
        s,
        spc_dp_addr(s.psw, spc_plain_read(s, vstd::wrapping::u16_specs::wrapping_add(s.pc, 1))->Some_0),
    ) is Some
}

/// The instruction at PC is MOV dp,A/X/Y with both bytes plain reads, and
/// its direct-page address is plain RAM (not an I/O register).
pub open spec fn spc_next_store(s: Spc700) -> bool {
    &&& spc_plain_read(s, s.pc) is Some
    &&& spc_plain_read(s, vstd::wrapping::u16_specs::wrapping_add(s.pc, 1)) is Some
    &&& spc_is_dp_store(spc_plain_read(s, s.pc)->Some_0)
    &&& !(0xF0 <= spc_dp_addr(s.psw, spc_plain_read(s, vstd::wrapping::u16_specs::wrapping_add(s.pc, 1))->Some_0)
        <= 0xFF)
}

/// The state after the instruction at PC (when `spc_next_specified`).
pub open spec fn spc_next_state(s: Spc700) -> Spc700 {
    spc_effect(
        Spc700 { pc: vstd::wrapping::u16_specs::wrapping_add(s.pc, 1), ..s },
        spc_plain_read(s, s.pc)->Some_0,
        spc_plain_read(s, vstd::wrapping::u16_specs::wrapping_add(s.pc, 1))->Some_0,
    )
}

/// Value read by the SPC700 at `addr` for locations with no read side
/// effects (plain RAM, the IPL ROM overlay, port and DSP-address registers).
pub open spec fn spc_plain_read(s: Spc700, addr: u16) -> Option<u8> {
    if addr == 0xF1 || (0xFA <= addr <= 0xFC) {
        Some(0)
    } else if addr == 0xF2 {
        Some(s.dsp_addr)
    } else if 0xF4 <= addr <= 0xF7 {
        Some(s.cpu_in[addr - 0xF4])
    } else if addr >= 0xFFC0 && s.control & 0x80 != 0 {
        Some(IPL_ROM[addr - 0xFFC0])
    } else if addr == 0xF3 || (0xFD <= addr <= 0xFF) {
        None
    } else {
        Some(s.ram[addr as int])
    }
}

impl Spc700 {
    pub open spec fn wf(&self) -> bool {
        &&& self.master_acc < 21
        &&& self.cyc <= 12
        &&& self.dsp.wf()
        &&& forall|i: int| 0 <= i < 3 ==> self.timers[i].output <= 0x0F
    }

    #[verifier::spinoff_prover]
    pub fn new() -> (s: Self)
        ensures
            s.wf(),
            s.pc == 0xFFC0,
            s.sp == 0xEF,
            s.psw == PSW_Z,
            s.control == 0xB0,
            forall|i: int| 0 <= i < 4 ==> s.cpu_in[i] == 0 && s.cpu_out[i] == 0,
            !s.stopped,
            forall|i: int| 0 <= i < 0x10000 ==> s.ram[i] == 0,
    {
        let mut s = Spc700 {
            ram: Box::new([0;0x10000]),
            dsp: Dsp::new(),
            a: 0,
            x: 0,
            y: 0,
            sp: 0xEF,
            pc: 0,
            psw: PSW_Z,
            cpu_in: [0;4],
            cpu_out: [0;4],
            control: 0xB0,
            dsp_addr: 0,
            timers: [Timer { target: 0, counter: 0, output: 0, enabled: false };3],
            stage1: 0,
            stopped: false,
            master_acc: 0,
            cyc: 0,
        };
        s.reset();
        s
    }

    #[verifier::spinoff_prover]
    pub fn reset(&mut self)
        requires
            old(self).wf(),
        ensures
            final(self).wf(),
            *final(self) == (Spc700 {
                control: 0xB0,
                pc: 0xFFC0,
                sp: 0xEF,
                psw: PSW_Z,
                stopped: false,
                cyc: 0,
                ..*old(self)
            }),
    {
        self.control = 0xB0;  // IPL ROM enabled
        self.pc = 0xFFC0;
        self.sp = 0xEF;
        self.psw = PSW_Z;
        self.stopped = false;
        self.cyc = 0;
    }

    // ----- S-CPU side port interface ($2140-$2143) -----
    #[verifier::spinoff_prover]
    pub fn read_port(&mut self, port: u8) -> (v: u8)
        ensures
            v == old(self).cpu_out[(port & 3) as int],
            *final(self) == *old(self),
    {
        proof {
            lemma_and_le_u8(port, 3);
        }
        self.cpu_out[(port & 3) as usize]
    }

    #[verifier::spinoff_prover]
    pub fn write_port(&mut self, port: u8, value: u8)
        ensures
            final(self).cpu_in@ == old(self).cpu_in@.update((port & 3) as int, value),
            *final(self) == (Spc700 { cpu_in: final(self).cpu_in, ..*old(self) }),
    {
        proof {
            lemma_and_le_u8(port, 3);
        }
        self.cpu_in[(port & 3) as usize] = value;
    }

    // ----- timing -----
    /// Advance by master clocks; executes whole SPC cycles (21 master clocks each).
    #[verifier::spinoff_prover]
    pub fn tick(&mut self, master_cycles: u64)
        requires
            old(self).wf(),
        ensures
            final(self).wf(),
            final(self).master_acc == (old(self).master_acc + master_cycles) % 21,
            old(self).stopped ==> *final(self) == (Spc700 {
                stage1: final(self).stage1,
                timers: final(self).timers,
                dsp: final(self).dsp,
                ram: final(self).ram,
                master_acc: final(self).master_acc,
                ..*old(self)
            }),
            old(self).stopped ==> final(self).dsp.cycle_count as int == (old(self).dsp.cycle_count as int + (
            old(self).master_acc + master_cycles) / 21) % 0x1_0000_0000,
    {
        // 21.477272 MHz / 1.024 MHz ~= 21 master clocks per SPC cycle.
        let ghost total = old(self).master_acc + master_cycles;
        let mut acc: u64 = self.master_acc;
        let mut remaining: u64 = master_cycles;
        let ghost mut k: int = 0;
        while remaining >= 21 - acc
            invariant
                self.wf(),
                acc < 21,
                total == k * 21 + acc + remaining,
                k >= 0,
                old(self).stopped ==> *self == (Spc700 {
                    stage1: self.stage1,
                    timers: self.timers,
                    dsp: self.dsp,
                    ram: self.ram,
                    ..*old(self)
                }),
                old(self).stopped ==> self.dsp.cycle_count as int == (old(self).dsp.cycle_count as int + k)
                    % 0x1_0000_0000,
            decreases remaining,
        {
            // Consume enough of the remaining clocks to complete one SPC cycle.
            remaining = remaining - (21 - acc);
            acc = 0;
            proof {
                vstd::arithmetic::div_mod::lemma_add_mod_noop(old(self).dsp.cycle_count as int + k, 1, 0x1_0000_0000);
                vstd::arithmetic::div_mod::lemma_small_mod(1, 0x1_0000_0000);
                k = k + 1;
            }
            // One SPC cycle: the prescaler/DSP/timers advance every cycle, but a
            // new instruction is issued only once the previous one's cycle count
            // has elapsed (instructions take 2-12 cycles, not one).
            self.prescaler_tick();
            if !self.stopped {
                if self.cyc == 0 {
                    self.cyc = self.step() as u64;
                }
                self.cyc = self.cyc - 1;
            }
        }
        self.master_acc = acc + remaining;
        proof {
            vstd::arithmetic::div_mod::lemma_fundamental_div_mod_converse(
                total,
                21,
                k,
                self.master_acc as int,
            );
        }
    }

    #[verifier::spinoff_prover]
    fn prescaler_tick(&mut self)
        requires
            old(self).wf(),
        ensures
            final(self).wf(),
            final(self).cpu_in == old(self).cpu_in,
            final(self).pc == old(self).pc,
            final(self).stopped == old(self).stopped,
            final(self).cyc == old(self).cyc,
            *final(self) == (Spc700 {
                stage1: final(self).stage1,
                timers: final(self).timers,
                dsp: final(self).dsp,
                ram: final(self).ram,
                ..*old(self)
            }),
            final(self).dsp.cycle_count == vstd::wrapping::u32_specs::wrapping_add(old(self).dsp.cycle_count, 1),
    {
        self.stage1 = self.stage1.wrapping_add(1);
        if self.stage1 % 16 == 0 {
            self.timer_tick(2);
        }
        if self.stage1 % 128 == 0 {
            self.timer_tick(0);
            self.timer_tick(1);
        }
        self.dsp.cycle(&mut self.ram);
    }

    #[verifier::spinoff_prover]
    fn timer_tick(&mut self, i: usize)
        requires
            old(self).wf(),
            i < 3,
        ensures
            final(self).wf(),
            *final(self) == (Spc700 { timers: final(self).timers, ..*old(self) }),
    {
        let mut t = self.timers[i];
        if !t.enabled {
            return ;
        }
        assert(t.output <= 0x0F);
        t.counter = t.counter.wrapping_add(1);
        if t.counter == t.target {
            t.counter = 0;
            proof {
                lemma_and_le_u8((t.output + 1) as u8, 0x0F);
            }
            t.output = (t.output + 1) & 0x0F;
        }
        self.timers[i] = t;
        assert(forall|j: int| 0 <= j < 3 ==> self.timers[j].output <= 0x0F);
    }

    // ----- memory -----
    #[verifier::spinoff_prover]
    fn dp_base(&self) -> (b: u16)
        ensures
            b == if self.psw & PSW_P != 0 {
                0x100u16
            } else {
                0u16
            },
    {
        if self.psw & PSW_P != 0 {
            0x100
        } else {
            0
        }
    }

    #[verifier::spinoff_prover]
    pub fn read(&mut self, addr: u16) -> (v: u8)
        requires
            old(self).wf(),
        ensures
            final(self).wf(),
            final(self).ram == old(self).ram,
            final(self).cpu_in == old(self).cpu_in,
            final(self).cpu_out == old(self).cpu_out,
            final(self).pc == old(self).pc,
            final(self).psw == old(self).psw,
            final(self).sp == old(self).sp,
            final(self).a == old(self).a,
            final(self).x == old(self).x,
            final(self).y == old(self).y,
            final(self).stopped == old(self).stopped,
            final(self).cyc == old(self).cyc,
            final(self).control == old(self).control,
            spc_plain_read(*old(self), addr) matches Some(p) ==> v == p && *final(self) == *old(self),
            addr == 0xF3 ==> v == old(self).dsp.regs[(old(self).dsp_addr & 0x7F) as int],
            0xFD <= addr <= 0xFF ==> {
                &&& v == old(self).timers[addr - 0xFD].output
                &&& final(self).timers@ == old(self).timers@.update(
                    addr - 0xFD,
                    Timer { output: 0, ..old(self).timers[addr - 0xFD] },
                )
                &&& *final(self) == (Spc700 { timers: final(self).timers, ..*old(self) })
            },
    {
        if addr == 0x00F1 {
            0  // write-only
        } else if addr == 0x00F2 {
            self.dsp_addr
        } else if addr == 0x00F3 {
            self.dsp.read(self.dsp_addr)
        } else if addr >= 0x00F4 && addr <= 0x00F7 {
            self.cpu_in[(addr - 0xF4) as usize]
        } else if addr >= 0x00FA && addr <= 0x00FC {
            0
        } else if addr >= 0x00FD && addr <= 0x00FF {
            let i = (addr - 0xFD) as usize;
            let v = self.timers[i].output;
            self.timers[i].output = 0;
            v
        } else if addr >= 0xFFC0 && self.control & 0x80 != 0 {
            IPL_ROM[(addr - 0xFFC0) as usize]
        } else {
            self.ram[addr as usize]
        }
    }

    #[verifier::spinoff_prover]
    pub fn write(&mut self, addr: u16, v: u8)
        requires
            old(self).wf(),
        ensures
            final(self).wf(),
            final(self).pc == old(self).pc,
            final(self).psw == old(self).psw,
            final(self).sp == old(self).sp,
            final(self).a == old(self).a,
            final(self).x == old(self).x,
            final(self).y == old(self).y,
            final(self).stopped == old(self).stopped,
            final(self).cyc == old(self).cyc,
            (addr < 0xF0 || addr > 0xFF) ==> *final(self) == (Spc700 {
                ram: final(self).ram,
                ..*old(self)
            }) && final(self).ram@ == old(self).ram@.update(addr as int, v),
            0xF4 <= addr <= 0xF7 ==> final(self).cpu_out@ == old(self).cpu_out@.update(addr - 0xF4, v),
            addr == 0xF2 ==> final(self).dsp_addr == v,
            0xFA <= addr <= 0xFC ==> final(self).timers[addr - 0xFA].target == v,
            addr == 0xF3 && old(self).dsp_addr < 0x80 && old(self).dsp_addr != 0x7C ==> final(self).dsp.regs@
                == old(self).dsp.regs@.update(old(self).dsp_addr as int, v),
            addr == 0xF1 ==> {
                &&& final(self).control == v
                &&& (v & 0x20 != 0 ==> final(self).cpu_in[0] == 0 && final(self).cpu_in[1] == 0)
                &&& (v & 0x40 != 0 ==> final(self).cpu_in[2] == 0 && final(self).cpu_in[3] == 0)
                &&& forall|t: int|
                    0 <= t < 3 ==> {
                        &&& #[trigger] final(self).timers[t].enabled == ((v >> t as u8) & 1 != 0)
                        &&& ((v >> t as u8) & 1 != 0 && !old(self).timers[t].enabled) ==> final(self).timers[t].counter == 0
                            && final(self).timers[t].output == 0
                    }
            },
    {
        if addr == 0x00F1 {
            if v & 0x20 != 0 {
                self.cpu_in[0] = 0;
                self.cpu_in[1] = 0;
            }
            if v & 0x40 != 0 {
                self.cpu_in[2] = 0;
                self.cpu_in[3] = 0;
            }
            let mut i: usize = 0;
            while i < 3
                invariant
                    i <= 3,
                    self.wf(),
                    self.pc == old(self).pc,
                    self.psw == old(self).psw,
                    self.sp == old(self).sp,
                    self.a == old(self).a,
                    self.x == old(self).x,
                    self.y == old(self).y,
                    self.stopped == old(self).stopped,
                    self.cyc == old(self).cyc,
                    v & 0x20 != 0 ==> self.cpu_in[0] == 0 && self.cpu_in[1] == 0,
                    v & 0x40 != 0 ==> self.cpu_in[2] == 0 && self.cpu_in[3] == 0,
                    forall|t: int|
                        0 <= t < i ==> {
                            &&& #[trigger] self.timers[t].enabled == ((v >> t as u8) & 1 != 0)
                            &&& ((v >> t as u8) & 1 != 0 && !old(self).timers[t].enabled) ==> self.timers[t].counter == 0
                                && self.timers[t].output == 0
                        },
                    forall|t: int| i <= t < 3 ==> #[trigger] self.timers[t] == old(self).timers[t],
                decreases 3 - i,
            {
                let ghost before = self.timers;
                let en = (v >> i as u8) & 1 != 0;
                if en && !self.timers[i].enabled {
                    self.timers[i].counter = 0;
                    self.timers[i].output = 0;
                }
                self.timers[i].enabled = en;
                proof {
                    assert forall|t: int| 0 <= t < 3 && t != i implies #[trigger] self.timers[t] == before[t] by {}
                    assert(self.timers[i as int].enabled == ((v >> (i as int) as u8) & 1 != 0));
                }
                i += 1;
            }
            self.control = v;
        } else if addr == 0x00F2 {
            self.dsp_addr = v;
        } else if addr == 0x00F3 {
            self.dsp.write(self.dsp_addr, v);
        } else if addr >= 0x00F4 && addr <= 0x00F7 {
            self.cpu_out[(addr - 0xF4) as usize] = v;
        } else if addr >= 0x00FA && addr <= 0x00FC {
            self.timers[(addr - 0xFA) as usize].target = v;
        } else if addr >= 0x00FD && addr <= 0x00FF {
            // read-only
        } else {
            self.ram[addr as usize] = v;
        }
        // writes to $F0-$FF also hit underlying RAM except where registers overlay
        if !(addr >= 0x00F0 && addr <= 0x00FF) || addr == 0x00F8 || addr == 0x00F9 {
            self.ram[addr as usize] = v;
        }
    }

    #[verifier::spinoff_prover]
    fn read16(&mut self, addr: u16) -> (v: u16)
        requires
            old(self).wf(),
        ensures
            final(self).wf(),
            final(self).ram == old(self).ram,
            final(self).pc == old(self).pc,
            final(self).psw == old(self).psw,
            final(self).sp == old(self).sp,
            final(self).a == old(self).a,
            final(self).x == old(self).x,
            final(self).y == old(self).y,
            final(self).stopped == old(self).stopped,
            final(self).cyc == old(self).cyc,
            spc_word_readable(*old(self), addr) ==> v == spc_word_at(*old(self), addr) && *final(self) == *old(self),
    {
        let lo8 = self.read(addr);
        let hi8 = self.read(addr.wrapping_add(1));
        lo8 as u16 | ((hi8 as u16) << 8u16)
    }

    #[verifier::spinoff_prover]
    fn fetch8(&mut self) -> (v: u8)
        requires
            old(self).wf(),
        ensures
            final(self).wf(),
            final(self).pc == vstd::wrapping::u16_specs::wrapping_add(old(self).pc, 1),
            final(self).ram == old(self).ram,
            final(self).psw == old(self).psw,
            final(self).sp == old(self).sp,
            final(self).a == old(self).a,
            final(self).x == old(self).x,
            final(self).y == old(self).y,
            final(self).stopped == old(self).stopped,
            final(self).cyc == old(self).cyc,
            spc_plain_read(*old(self), old(self).pc) matches Some(p) ==> v == p && *final(self) == (Spc700 {
                pc: vstd::wrapping::u16_specs::wrapping_add(old(self).pc, 1),
                ..*old(self)
            }),
    {
        let v = self.read(self.pc);
        self.pc = self.pc.wrapping_add(1);
        v
    }

    #[verifier::spinoff_prover]
    fn fetch16(&mut self) -> (v: u16)
        requires
            old(self).wf(),
        ensures
            final(self).wf(),
            final(self).ram == old(self).ram,
            final(self).psw == old(self).psw,
            final(self).sp == old(self).sp,
            final(self).a == old(self).a,
            final(self).x == old(self).x,
            final(self).y == old(self).y,
            final(self).stopped == old(self).stopped,
            final(self).cyc == old(self).cyc,
    {
        let lo = self.fetch8() as u16;
        let hi = self.fetch8() as u16;
        lo | (hi << 8u16)
    }

    /// Push onto the stack page ($0100-$01FF), post-decrementing SP.
    #[verifier::spinoff_prover]
    fn push(&mut self, v: u8)
        requires
            old(self).wf(),
        ensures
            final(self).wf(),
            final(self).ram@ == old(self).ram@.update(0x100 + old(self).sp, v),
            final(self).sp == vstd::wrapping::u8_specs::wrapping_sub(old(self).sp, 1),
            *final(self) == (Spc700 { ram: final(self).ram, sp: final(self).sp, ..*old(self) }),
    {
        let addr = 0x100 | self.sp as u16;
        proof {
            lemma_page_or(0x100, old(self).sp as u16);
        }
        self.ram[addr as usize] = v;
        self.sp = self.sp.wrapping_sub(1);
    }

    /// Pre-increment SP and read the stack page.
    #[verifier::spinoff_prover]
    fn pop(&mut self) -> (v: u8)
        requires
            old(self).wf(),
        ensures
            final(self).wf(),
            final(self).sp == vstd::wrapping::u8_specs::wrapping_add(old(self).sp, 1),
            v == old(self).ram[0x100 + final(self).sp],
            *final(self) == (Spc700 { sp: final(self).sp, ..*old(self) }),
    {
        self.sp = self.sp.wrapping_add(1);
        let addr = 0x100 | self.sp as u16;
        proof {
            lemma_page_or(0x100, self.sp as u16);
        }
        self.read(addr)
    }

    // ----- flag helpers -----
    #[verifier::spinoff_prover]
    fn set_nz(&mut self, v: u8)
        ensures
            *final(self) == (Spc700 { psw: psw_nz(old(self).psw, v), ..*old(self) }),
    {
        self.psw = (self.psw & !(PSW_N | PSW_Z)) | (v & PSW_N) | if v == 0 {
            PSW_Z
        } else {
            0
        };
    }

    #[verifier::spinoff_prover]
    fn set_nz16(&mut self, v: u16)
        ensures
            *final(self) == (Spc700 { psw: psw_nz16(old(self).psw, v), ..*old(self) }),
    {
        self.psw = (self.psw & !(PSW_N | PSW_Z)) | ((v >> 8u16) as u8 & PSW_N) | if v == 0 {
            PSW_Z
        } else {
            0
        };
    }

    #[verifier::spinoff_prover]
    fn flag(&self, f: u8) -> (b: bool)
        ensures
            b == (self.psw & f != 0),
    {
        self.psw & f != 0
    }

    #[verifier::spinoff_prover]
    fn set_flag(&mut self, f: u8, v: bool)
        ensures
            *final(self) == (Spc700 { psw: psw_with(old(self).psw, f, v), ..*old(self) }),
    {
        if v {
            self.psw = self.psw | f;
        } else {
            self.psw = self.psw & !f;
        }
    }

    // ----- addressing modes -----
    #[verifier::spinoff_prover]
    fn dp(&mut self) -> (a: u16)
        requires
            old(self).wf(),
        ensures
            final(self).wf(),
            a <= 0x1FF,
            final(self).ram == old(self).ram,
            final(self).psw == old(self).psw,
            final(self).sp == old(self).sp,
            final(self).a == old(self).a,
            final(self).x == old(self).x,
            final(self).y == old(self).y,
            final(self).stopped == old(self).stopped,
            final(self).cyc == old(self).cyc,
            spc_plain_read(*old(self), old(self).pc) matches Some(p) ==> a == spc_dp_addr(old(self).psw, p)
                && *final(self) == (Spc700 { pc: vstd::wrapping::u16_specs::wrapping_add(old(self).pc, 1), ..*old(self) }),
    {
        let base = self.dp_base();
        let d = self.fetch8() as u16;
        proof {
            lemma_page_or(base, d);
        }
        base | d
    }

    #[verifier::spinoff_prover]
    fn dp_x(&mut self) -> (a: u16)
        requires
            old(self).wf(),
        ensures
            final(self).wf(),
            a <= 0x1FF,
            final(self).ram == old(self).ram,
            final(self).psw == old(self).psw,
            final(self).sp == old(self).sp,
            final(self).a == old(self).a,
            final(self).x == old(self).x,
            final(self).y == old(self).y,
            final(self).stopped == old(self).stopped,
            final(self).cyc == old(self).cyc,
    {
        let d = self.fetch8();
        let base = self.dp_base();
        let o = d.wrapping_add(self.x) as u16;
        proof {
            lemma_page_or(base, o);
        }
        base | o
    }

    #[verifier::spinoff_prover]
    fn dp_y(&mut self) -> (a: u16)
        requires
            old(self).wf(),
        ensures
            final(self).wf(),
            a <= 0x1FF,
            final(self).ram == old(self).ram,
            final(self).psw == old(self).psw,
            final(self).sp == old(self).sp,
            final(self).a == old(self).a,
            final(self).x == old(self).x,
            final(self).y == old(self).y,
            final(self).stopped == old(self).stopped,
            final(self).cyc == old(self).cyc,
    {
        let d = self.fetch8();
        let base = self.dp_base();
        let o = d.wrapping_add(self.y) as u16;
        proof {
            lemma_page_or(base, o);
        }
        base | o
    }

    #[verifier::spinoff_prover]
    fn abs(&mut self) -> (a: u16)
        requires
            old(self).wf(),
        ensures
            final(self).wf(),
            final(self).ram == old(self).ram,
            final(self).psw == old(self).psw,
            final(self).sp == old(self).sp,
            final(self).a == old(self).a,
            final(self).x == old(self).x,
            final(self).y == old(self).y,
            final(self).stopped == old(self).stopped,
            final(self).cyc == old(self).cyc,
    {
        self.fetch16()
    }

    #[verifier::spinoff_prover]
    fn abs_x(&mut self) -> (a: u16)
        requires
            old(self).wf(),
        ensures
            final(self).wf(),
            final(self).ram == old(self).ram,
            final(self).psw == old(self).psw,
            final(self).sp == old(self).sp,
            final(self).a == old(self).a,
            final(self).x == old(self).x,
            final(self).y == old(self).y,
            final(self).stopped == old(self).stopped,
            final(self).cyc == old(self).cyc,
    {
        self.fetch16().wrapping_add(self.x as u16)
    }

    #[verifier::spinoff_prover]
    fn abs_y(&mut self) -> (a: u16)
        requires
            old(self).wf(),
        ensures
            final(self).wf(),
            final(self).ram == old(self).ram,
            final(self).psw == old(self).psw,
            final(self).sp == old(self).sp,
            final(self).a == old(self).a,
            final(self).x == old(self).x,
            final(self).y == old(self).y,
            final(self).stopped == old(self).stopped,
            final(self).cyc == old(self).cyc,
    {
        self.fetch16().wrapping_add(self.y as u16)
    }

    /// [d+X] indirect
    #[verifier::spinoff_prover]
    fn dp_ind_x(&mut self) -> (a: u16)
        requires
            old(self).wf(),
        ensures
            final(self).wf(),
            final(self).ram == old(self).ram,
            final(self).psw == old(self).psw,
            final(self).sp == old(self).sp,
            final(self).a == old(self).a,
            final(self).x == old(self).x,
            final(self).y == old(self).y,
            final(self).stopped == old(self).stopped,
            final(self).cyc == old(self).cyc,
    {
        let d = self.fetch8().wrapping_add(self.x);
        let base = self.dp_base();
        self.read16(base | d as u16)
    }

    /// [d]+Y indirect
    #[verifier::spinoff_prover]
    fn dp_ind_y(&mut self) -> (a: u16)
        requires
            old(self).wf(),
        ensures
            final(self).wf(),
            final(self).ram == old(self).ram,
            final(self).psw == old(self).psw,
            final(self).sp == old(self).sp,
            final(self).a == old(self).a,
            final(self).x == old(self).x,
            final(self).y == old(self).y,
            final(self).stopped == old(self).stopped,
            final(self).cyc == old(self).cyc,
    {
        let d = self.fetch8();
        let base = self.dp_base();
        self.read16(base | d as u16).wrapping_add(self.y as u16)
    }

    // ----- ALU -----
    #[verifier::spinoff_prover]
    fn adc(&mut self, a: u8, b: u8) -> (v: u8)
        ensures
            ({
                let (r, c, o, h) = spec_adc8(a, b, old(self).psw & PSW_C);
                &&& v == r
                &&& *final(self) == (Spc700 {
                    psw: psw_nz(psw_with(psw_with(psw_with(old(self).psw, PSW_C, c), PSW_V, o), PSW_H, h), r),
                    ..*old(self)
                })
            }),
    {
        let c = (self.psw & PSW_C) as u16;
        proof {
            lemma_and_le_u8(self.psw, PSW_C);
            lemma_and_le_u8(a, 0xF);
            lemma_and_le_u8(b, 0xF);
        }
        let r = a as u16 + b as u16 + c;
        self.set_flag(PSW_C, r > 0xFF);
        self.set_flag(PSW_V, !(a ^ b) & (a ^ r as u8) & 0x80 != 0);
        self.set_flag(PSW_H, (a & 0xF) + (b & 0xF) + (c as u8) > 0xF);
        let v = r as u8;
        self.set_nz(v);
        v
    }

    #[verifier::spinoff_prover]
    fn sbc(&mut self, a: u8, b: u8) -> (v: u8)
        ensures
            ({
                let (r, c, o, h) = spec_sbc8(a, b, old(self).psw & PSW_C);
                &&& v == r
                &&& *final(self) == (Spc700 {
                    psw: psw_nz(psw_with(psw_with(psw_with(old(self).psw, PSW_C, c), PSW_V, o), PSW_H, h), r),
                    ..*old(self)
                })
            }),
    {
        let c = (self.psw & PSW_C) as i16;
        proof {
            lemma_and_le_u8(self.psw, PSW_C);
            lemma_and_le_u8(a, 0xF);
            lemma_and_le_u8(b, 0xF);
        }
        let r = a as i16 - b as i16 - (1 - c);
        self.set_flag(PSW_C, r >= 0);
        self.set_flag(PSW_V, (a ^ b) & (a ^ r as u8) & 0x80 != 0);
        self.set_flag(PSW_H, (a & 0xF) as i16 - (b & 0xF) as i16 - (1 - c) >= 0);
        let v = r as u8;
        self.set_nz(v);
        v
    }

    #[verifier::spinoff_prover]
    fn compare(&mut self, a: u8, b: u8)
        ensures
            *final(self) == (Spc700 {
                psw: psw_nz(psw_with(old(self).psw, PSW_C, a >= b), vstd::wrapping::u8_specs::wrapping_sub(a, b)),
                ..*old(self)
            }),
    {
        let r = a.wrapping_sub(b);
        self.set_flag(PSW_C, a >= b);
        self.set_nz(r);
    }

    #[verifier::spinoff_prover]
    fn compare16(&mut self, a: u16, b: u16)
        ensures
            *final(self) == (Spc700 {
                psw: psw_nz16(psw_with(old(self).psw, PSW_C, a >= b), vstd::wrapping::u16_specs::wrapping_sub(a, b)),
                ..*old(self)
            }),
    {
        let r = a.wrapping_sub(b);
        self.set_flag(PSW_C, a >= b);
        self.set_nz16(r);
    }

    /// Relative branch: the displacement byte is always fetched; it is
    /// applied (sign-extended) only when `cond` holds.
    #[verifier::spinoff_prover]
    fn branch(&mut self, cond: bool)
        requires
            old(self).wf(),
        ensures
            final(self).wf(),
            final(self).ram == old(self).ram,
            final(self).psw == old(self).psw,
            final(self).sp == old(self).sp,
            final(self).a == old(self).a,
            final(self).x == old(self).x,
            final(self).y == old(self).y,
            final(self).stopped == old(self).stopped,
            final(self).cyc == old(self).cyc,
            !cond ==> final(self).pc == vstd::wrapping::u16_specs::wrapping_add(old(self).pc, 1),
            spc_plain_read(*old(self), old(self).pc) matches Some(p) ==> *final(self) == (Spc700 {
                pc: if cond {
                    vstd::wrapping::u16_specs::wrapping_add(
                        vstd::wrapping::u16_specs::wrapping_add(old(self).pc, 1),
                        (p as i8) as u16,
                    )
                } else {
                    vstd::wrapping::u16_specs::wrapping_add(old(self).pc, 1)
                },
                ..*old(self)
            }),
    {
        let off = self.fetch8() as i8;
        if cond {
            self.pc = self.pc.wrapping_add(off as u16);
        }
    }

    /// The bit number carried in the top three bits of SET1/CLR1/BBS/BBC opcodes.
    #[verifier::spinoff_prover]
    fn op_bit(op: u8) -> (b: u8)
        ensures
            b == op >> 5u8,
            b < 8,
    {
        proof {
            vstd::bits::lemma_u8_shr_is_div(op, 5);
            vstd::arithmetic::power2::lemma2_to64();
        }
        op >> 5u8
    }

    /// MUL YA: the 16-bit product of two bytes.
    #[verifier::spinoff_prover]
    fn mul8(y: u8, a: u8) -> (r: u16)
        ensures
            r == y * a,
    {
        proof {
            assert(y * a <= 255 * 255) by (nonlinear_arith)
                requires y <= 255, a <= 255;
        }
        y as u16 * a as u16
    }
}

// ----- instruction dispatch -----
impl Spc700 {
    #[verifier::rlimit(100)]
    #[verifier::spinoff_prover]
    fn step(&mut self) -> (cycles: u8)
        requires
            old(self).wf(),
        ensures
            final(self).wf(),
            2 <= cycles <= 12,
            spc_next_specified(*old(self)) ==> *final(self) == spc_next_state(*old(self)),
            spc_next_subw(*old(self)) ==> ({
                let off = spc_plain_read(*old(self), vstd::wrapping::u16_specs::wrapping_add(old(self).pc, 1))->Some_0;
                let w = spc_word_at(*old(self), spc_dp_addr(old(self).psw, off));
                let ya = spc_ya(*old(self));
                &&& spc_ya(*final(self)) == spc_subw(ya, w)
                &&& (final(self).psw & PSW_C != 0) == (ya >= w)
                &&& *final(self) == (Spc700 {
                    a: final(self).a,
                    y: final(self).y,
                    psw: final(self).psw,
                    pc: vstd::wrapping::u16_specs::wrapping_add(old(self).pc, 2),
                    ..*old(self)
                })
            }),
            spc_next_store(*old(self)) ==> ({
                let op = spc_plain_read(*old(self), old(self).pc)->Some_0;
                let off = spc_plain_read(*old(self), vstd::wrapping::u16_specs::wrapping_add(old(self).pc, 1))->Some_0;
                let v = if op == 0xC4 { old(self).a } else if op == 0xD8 { old(self).x } else { old(self).y };
                &&& *final(self) == (Spc700 {
                    ram: final(self).ram,
                    pc: vstd::wrapping::u16_specs::wrapping_add(old(self).pc, 2),
                    ..*old(self)
                })
                &&& final(self).ram@ == old(self).ram@.update(spc_dp_addr(old(self).psw, off) as int, v)
            }),
    {
        let op = self.fetch8();
        match op {
            0x00 => 2, // NOP
            // ----- TCALL 0-15 -----
            0x01 | 0x11 | 0x21 | 0x31 | 0x41 | 0x51 | 0x61 | 0x71 | 0x81 | 0x91 | 0xA1 | 0xB1
            | 0xC1 | 0xD1 | 0xE1 | 0xF1 => {
                let n = (op >> 4u8) as u16;
                let vec = 0xFFDE - n * 2;
                let target = self.read16(vec);
                let pc = self.pc;
                self.push((pc >> 8u16) as u8);
                self.push(pc as u8);
                self.pc = target;
                8
            }
            // ----- SET1 / CLR1 -----
            0x02 | 0x22 | 0x42 | 0x62 | 0x82 | 0xA2 | 0xC2 | 0xE2 => {
                let bit = Self::op_bit(op);
                let a = self.dp();
                let v = self.read(a) | (1u8 << bit);
                self.write(a, v);
                4
            }
            0x12 | 0x32 | 0x52 | 0x72 | 0x92 | 0xB2 | 0xD2 | 0xF2 => {
                let bit = Self::op_bit(op);
                let a = self.dp();
                let v = self.read(a) & !(1u8 << bit);
                self.write(a, v);
                4
            }
            // ----- BBS / BBC -----
            0x03 | 0x23 | 0x43 | 0x63 | 0x83 | 0xA3 | 0xC3 | 0xE3 => {
                let bit = Self::op_bit(op);
                let a = self.dp();
                let v = self.read(a);
                let taken = (v >> bit) & 1 != 0;
                self.branch(taken);
                if taken { 7 } else { 5 }
            }
            0x13 | 0x33 | 0x53 | 0x73 | 0x93 | 0xB3 | 0xD3 | 0xF3 => {
                let bit = Self::op_bit(op);
                let a = self.dp();
                let v = self.read(a);
                let taken = (v >> bit) & 1 == 0;
                self.branch(taken);
                if taken { 7 } else { 5 }
            }
            // ----- OR -----
            0x04 => { let a = self.dp(); let v = self.read(a); self.a = self.a | v; self.set_nz(self.a); 3 }
            0x05 => { let a = self.abs(); let v = self.read(a); self.a = self.a | v; self.set_nz(self.a); 4 }
            0x06 => { let v = self.read(self.x as u16); self.a = self.a | v; self.set_nz(self.a); 3 }
            0x07 => { let a = self.dp_ind_x(); let v = self.read(a); self.a = self.a | v; self.set_nz(self.a); 6 }
            0x08 => { let v = self.fetch8(); self.a = self.a | v; self.set_nz(self.a); 2 }
            0x09 => { let s = self.dp(); let sv = self.read(s); let d = self.dp(); let dv = self.read(d); self.write(d, dv | sv); self.set_nz(dv | sv); 6 }
            0x14 => { let a = self.dp_x(); let v = self.read(a); self.a = self.a | v; self.set_nz(self.a); 4 }
            0x15 => { let a = self.abs_x(); let v = self.read(a); self.a = self.a | v; self.set_nz(self.a); 5 }
            0x16 => { let a = self.abs_y(); let v = self.read(a); self.a = self.a | v; self.set_nz(self.a); 5 }
            0x17 => { let a = self.dp_ind_y(); let v = self.read(a); self.a = self.a | v; self.set_nz(self.a); 6 }
            0x18 => { let i = self.fetch8(); let d = self.dp(); let v = self.read(d) | i; self.write(d, v); self.set_nz(v); 5 }
            0x19 => { let xv = self.read(self.x as u16); let yv = self.read(self.y as u16); let r = xv | yv; self.write(self.x as u16, r); self.set_nz(r); 5 }
            // ----- AND -----
            0x24 => { let a = self.dp(); let v = self.read(a); self.a = self.a & v; self.set_nz(self.a); 3 }
            0x25 => { let a = self.abs(); let v = self.read(a); self.a = self.a & v; self.set_nz(self.a); 4 }
            0x26 => { let v = self.read(self.x as u16); self.a = self.a & v; self.set_nz(self.a); 3 }
            0x27 => { let a = self.dp_ind_x(); let v = self.read(a); self.a = self.a & v; self.set_nz(self.a); 6 }
            0x28 => { let v = self.fetch8(); self.a = self.a & v; self.set_nz(self.a); 2 }
            0x29 => { let s = self.dp(); let sv = self.read(s); let d = self.dp(); let dv = self.read(d); self.write(d, dv & sv); self.set_nz(dv & sv); 6 }
            0x34 => { let a = self.dp_x(); let v = self.read(a); self.a = self.a & v; self.set_nz(self.a); 4 }
            0x35 => { let a = self.abs_x(); let v = self.read(a); self.a = self.a & v; self.set_nz(self.a); 5 }
            0x36 => { let a = self.abs_y(); let v = self.read(a); self.a = self.a & v; self.set_nz(self.a); 5 }
            0x37 => { let a = self.dp_ind_y(); let v = self.read(a); self.a = self.a & v; self.set_nz(self.a); 6 }
            0x38 => { let i = self.fetch8(); let d = self.dp(); let v = self.read(d) & i; self.write(d, v); self.set_nz(v); 5 }
            0x39 => { let xv = self.read(self.x as u16); let yv = self.read(self.y as u16); let r = xv & yv; self.write(self.x as u16, r); self.set_nz(r); 5 }
            // ----- EOR -----
            0x44 => { let a = self.dp(); let v = self.read(a); self.a = self.a ^ v; self.set_nz(self.a); 3 }
            0x45 => { let a = self.abs(); let v = self.read(a); self.a = self.a ^ v; self.set_nz(self.a); 4 }
            0x46 => { let v = self.read(self.x as u16); self.a = self.a ^ v; self.set_nz(self.a); 3 }
            0x47 => { let a = self.dp_ind_x(); let v = self.read(a); self.a = self.a ^ v; self.set_nz(self.a); 6 }
            0x48 => { let v = self.fetch8(); self.a = self.a ^ v; self.set_nz(self.a); 2 }
            0x49 => { let s = self.dp(); let sv = self.read(s); let d = self.dp(); let dv = self.read(d); self.write(d, dv ^ sv); self.set_nz(dv ^ sv); 6 }
            0x54 => { let a = self.dp_x(); let v = self.read(a); self.a = self.a ^ v; self.set_nz(self.a); 4 }
            0x55 => { let a = self.abs_x(); let v = self.read(a); self.a = self.a ^ v; self.set_nz(self.a); 5 }
            0x56 => { let a = self.abs_y(); let v = self.read(a); self.a = self.a ^ v; self.set_nz(self.a); 5 }
            0x57 => { let a = self.dp_ind_y(); let v = self.read(a); self.a = self.a ^ v; self.set_nz(self.a); 6 }
            0x58 => { let i = self.fetch8(); let d = self.dp(); let v = self.read(d) ^ i; self.write(d, v); self.set_nz(v); 5 }
            0x59 => { let xv = self.read(self.x as u16); let yv = self.read(self.y as u16); let r = xv ^ yv; self.write(self.x as u16, r); self.set_nz(r); 5 }
            // ----- CMP -----
            0x64 => { let a = self.dp(); let v = self.read(a); self.compare(self.a, v); 3 }
            0x65 => { let a = self.abs(); let v = self.read(a); self.compare(self.a, v); 4 }
            0x66 => { let v = self.read(self.x as u16); self.compare(self.a, v); 3 }
            0x67 => { let a = self.dp_ind_x(); let v = self.read(a); self.compare(self.a, v); 6 }
            0x68 => { let v = self.fetch8(); self.compare(self.a, v); 2 }
            0x69 => { let s = self.dp(); let sv = self.read(s); let d = self.dp(); let dv = self.read(d); self.compare(dv, sv); 6 }
            0x74 => { let a = self.dp_x(); let v = self.read(a); self.compare(self.a, v); 4 }
            0x75 => { let a = self.abs_x(); let v = self.read(a); self.compare(self.a, v); 5 }
            0x76 => { let a = self.abs_y(); let v = self.read(a); self.compare(self.a, v); 5 }
            0x77 => { let a = self.dp_ind_y(); let v = self.read(a); self.compare(self.a, v); 6 }
            0x78 => { let i = self.fetch8(); let d = self.dp(); let v = self.read(d); self.compare(v, i); 5 }
            0x79 => { let xv = self.read(self.x as u16); let yv = self.read(self.y as u16); self.compare(xv, yv); 5 }
            0x3E => { let a = self.dp(); let v = self.read(a); self.compare(self.x, v); 3 }
            0x1E => { let a = self.abs(); let v = self.read(a); self.compare(self.x, v); 4 }
            0xC8 => { let v = self.fetch8(); self.compare(self.x, v); 2 }
            0x7E => { let a = self.dp(); let v = self.read(a); self.compare(self.y, v); 3 }
            0x5E => { let a = self.abs(); let v = self.read(a); self.compare(self.y, v); 4 }
            0xAD => { let v = self.fetch8(); self.compare(self.y, v); 2 }
            // ----- ADC -----
            0x84 => { let a = self.dp(); let v = self.read(a); self.a = self.adc(self.a, v); 3 }
            0x85 => { let a = self.abs(); let v = self.read(a); self.a = self.adc(self.a, v); 4 }
            0x86 => { let v = self.read(self.x as u16); self.a = self.adc(self.a, v); 3 }
            0x87 => { let a = self.dp_ind_x(); let v = self.read(a); self.a = self.adc(self.a, v); 6 }
            0x88 => { let v = self.fetch8(); self.a = self.adc(self.a, v); 2 }
            0x89 => { let s = self.dp(); let sv = self.read(s); let d = self.dp(); let dv = self.read(d); let r = self.adc(dv, sv); self.write(d, r); 6 }
            0x94 => { let a = self.dp_x(); let v = self.read(a); self.a = self.adc(self.a, v); 4 }
            0x95 => { let a = self.abs_x(); let v = self.read(a); self.a = self.adc(self.a, v); 5 }
            0x96 => { let a = self.abs_y(); let v = self.read(a); self.a = self.adc(self.a, v); 5 }
            0x97 => { let a = self.dp_ind_y(); let v = self.read(a); self.a = self.adc(self.a, v); 6 }
            0x98 => { let i = self.fetch8(); let d = self.dp(); let dv = self.read(d); let r = self.adc(dv, i); self.write(d, r); 5 }
            0x99 => { let xv = self.read(self.x as u16); let yv = self.read(self.y as u16); let r = self.adc(xv, yv); self.write(self.x as u16, r); 5 }
            // ----- SBC -----
            0xA4 => { let a = self.dp(); let v = self.read(a); self.a = self.sbc(self.a, v); 3 }
            0xA5 => { let a = self.abs(); let v = self.read(a); self.a = self.sbc(self.a, v); 4 }
            0xA6 => { let v = self.read(self.x as u16); self.a = self.sbc(self.a, v); 3 }
            0xA7 => { let a = self.dp_ind_x(); let v = self.read(a); self.a = self.sbc(self.a, v); 6 }
            0xA8 => { let v = self.fetch8(); self.a = self.sbc(self.a, v); 2 }
            0xA9 => { let s = self.dp(); let sv = self.read(s); let d = self.dp(); let dv = self.read(d); let r = self.sbc(dv, sv); self.write(d, r); 6 }
            0xB4 => { let a = self.dp_x(); let v = self.read(a); self.a = self.sbc(self.a, v); 4 }
            0xB5 => { let a = self.abs_x(); let v = self.read(a); self.a = self.sbc(self.a, v); 5 }
            0xB6 => { let a = self.abs_y(); let v = self.read(a); self.a = self.sbc(self.a, v); 5 }
            0xB7 => { let a = self.dp_ind_y(); let v = self.read(a); self.a = self.sbc(self.a, v); 6 }
            0xB8 => { let i = self.fetch8(); let d = self.dp(); let dv = self.read(d); let r = self.sbc(dv, i); self.write(d, r); 5 }
            0xB9 => { let xv = self.read(self.x as u16); let yv = self.read(self.y as u16); let r = self.sbc(xv, yv); self.write(self.x as u16, r); 5 }
            // ----- MOV -----
            0xE8 => { self.a = self.fetch8(); self.set_nz(self.a); 2 }
            0xCD => { self.x = self.fetch8(); self.set_nz(self.x); 2 }
            0x8D => { self.y = self.fetch8(); self.set_nz(self.y); 2 }
            0xE6 => { self.a = self.read(self.x as u16); self.set_nz(self.a); 3 }
            0xBF => { self.a = self.read(self.x as u16); self.x = self.x.wrapping_add(1); self.set_nz(self.a); 4 }
            0xE4 => { let a = self.dp(); self.a = self.read(a); self.set_nz(self.a); 3 }
            0xF4 => { let a = self.dp_x(); self.a = self.read(a); self.set_nz(self.a); 4 }
            0xE5 => { let a = self.abs(); self.a = self.read(a); self.set_nz(self.a); 4 }
            0xF5 => { let a = self.abs_x(); self.a = self.read(a); self.set_nz(self.a); 5 }
            0xF6 => { let a = self.abs_y(); self.a = self.read(a); self.set_nz(self.a); 5 }
            0xE7 => { let a = self.dp_ind_x(); self.a = self.read(a); self.set_nz(self.a); 6 }
            0xF7 => { let a = self.dp_ind_y(); self.a = self.read(a); self.set_nz(self.a); 6 }
            0xF8 => { let a = self.dp(); self.x = self.read(a); self.set_nz(self.x); 3 }
            0xF9 => { let a = self.dp_y(); self.x = self.read(a); self.set_nz(self.x); 4 }
            0xE9 => { let a = self.abs(); self.x = self.read(a); self.set_nz(self.x); 4 }
            0xEB => { let a = self.dp(); self.y = self.read(a); self.set_nz(self.y); 3 }
            0xFB => { let a = self.dp_x(); self.y = self.read(a); self.set_nz(self.y); 4 }
            0xEC => { let a = self.abs(); self.y = self.read(a); self.set_nz(self.y); 4 }
            0x7D => { self.a = self.x; self.set_nz(self.a); 2 }
            0xDD => { self.a = self.y; self.set_nz(self.a); 2 }
            0x5D => { self.x = self.a; self.set_nz(self.x); 2 }
            0xFD => { self.y = self.a; self.set_nz(self.y); 2 }
            0x9D => { self.x = self.sp; self.set_nz(self.x); 2 }
            0xBD => { self.sp = self.x; 2 }
            0xC4 => { let a = self.dp(); self.write(a, self.a); 4 }
            0xD4 => { let a = self.dp_x(); self.write(a, self.a); 5 }
            0xC5 => { let a = self.abs(); self.write(a, self.a); 5 }
            0xD5 => { let a = self.abs_x(); self.write(a, self.a); 6 }
            0xD6 => { let a = self.abs_y(); self.write(a, self.a); 6 }
            0xC6 => { self.write(self.x as u16, self.a); 4 }
            0xAF => { self.write(self.x as u16, self.a); self.x = self.x.wrapping_add(1); 4 }
            0xC7 => { let a = self.dp_ind_x(); self.write(a, self.a); 7 }
            0xD7 => { let a = self.dp_ind_y(); self.write(a, self.a); 7 }
            0xD8 => { let a = self.dp(); self.write(a, self.x); 4 }
            0xD9 => { let a = self.dp_y(); self.write(a, self.x); 5 }
            0xC9 => { let a = self.abs(); self.write(a, self.x); 5 }
            0xCB => { let a = self.dp(); self.write(a, self.y); 4 }
            0xDB => { let a = self.dp_x(); self.write(a, self.y); 5 }
            0xCC => { let a = self.abs(); self.write(a, self.y); 5 }
            0x8F => { let i = self.fetch8(); let d = self.dp(); self.write(d, i); 5 }
            0xFA => { let s = self.dp(); let sv = self.read(s); let d = self.dp(); self.write(d, sv); 5 }
            // ----- MOVW / word ALU -----
            0xBA => {
                let a = self.dp();
                let lo = self.read(a);
                let hi = self.read((a.wrapping_add(1) & 0xFF) | self.dp_base());
                self.a = lo;
                self.y = hi;
                self.set_nz16(self.ya());
                5
            }
            0xDA => {
                let a = self.dp();
                let hi_addr = ((a + 1) & 0xFF) | self.dp_base();
                self.write(a, self.a);
                self.write(hi_addr, self.y);
                5
            }
            0x7A => {
                let a = self.dp();
                let v = self.read16(a);
                let ya = self.ya();
                let r = ya as u32 + v as u32;
                let r16 = r as u16;
                self.set_flag(PSW_C, r > 0xFFFF);
                self.set_flag(PSW_V, !(ya ^ v) & (ya ^ r16) & 0x8000 != 0);
                proof {
                    lemma_and_le_u16(ya, 0xFFF);
                    lemma_and_le_u16(v, 0xFFF);
                }
                self.set_flag(PSW_H, (ya & 0xFFF) + (v & 0xFFF) > 0xFFF);
                self.set_nz16(r16);
                self.set_ya(r16);
                5
            }
            0x9A => {
                let a = self.dp();
                let v = self.read16(a);
                let ya = self.ya();
                let r = ya.wrapping_sub(v);
                self.set_flag(PSW_C, ya >= v);
                self.set_flag(PSW_V, (ya ^ v) & (ya ^ r) & 0x8000 != 0);
                self.set_flag(PSW_H, (ya & 0xFFF) >= (v & 0xFFF));
                self.set_nz16(r);
                self.set_ya(r);
                proof {
                    crate::cpu::lemma_word_of_bytes(r);
                    lemma_psw_bits(
                        old(self).psw,
                        ya >= v,
                        (ya ^ v) & (ya ^ r) & 0x8000 != 0,
                        (ya & 0xFFF) >= (v & 0xFFF),
                        0,
                        r,
                    );
                }
                5
            }
            0x5A => {
                let a = self.dp();
                let v = self.read16(a);
                self.compare16(self.ya(), v);
                4
            }
            0x1A => {
                let a = self.dp();
                let v = self.read16(a).wrapping_sub(1);
                self.write(a, v as u8);
                self.write(((a + 1) & 0xFF) | self.dp_base(), (v >> 8u16) as u8);
                self.set_nz16(v);
                6
            }
            0x3A => {
                let a = self.dp();
                let v = self.read16(a).wrapping_add(1);
                self.write(a, v as u8);
                self.write(((a + 1) & 0xFF) | self.dp_base(), (v >> 8u16) as u8);
                self.set_nz16(v);
                6
            }
            // ----- INC / DEC -----
            0xBC => { self.a = self.a.wrapping_add(1); self.set_nz(self.a); 2 }
            0x3D => { self.x = self.x.wrapping_add(1); self.set_nz(self.x); 2 }
            0xFC => { self.y = self.y.wrapping_add(1); self.set_nz(self.y); 2 }
            0x9C => { self.a = self.a.wrapping_sub(1); self.set_nz(self.a); 2 }
            0x1D => { self.x = self.x.wrapping_sub(1); self.set_nz(self.x); 2 }
            0xDC => { self.y = self.y.wrapping_sub(1); self.set_nz(self.y); 2 }
            0xAB => { let a = self.dp(); let v = self.read(a).wrapping_add(1); self.write(a, v); self.set_nz(v); 4 }
            0xBB => { let a = self.dp_x(); let v = self.read(a).wrapping_add(1); self.write(a, v); self.set_nz(v); 5 }
            0xAC => { let a = self.abs(); let v = self.read(a).wrapping_add(1); self.write(a, v); self.set_nz(v); 5 }
            0x8B => { let a = self.dp(); let v = self.read(a).wrapping_sub(1); self.write(a, v); self.set_nz(v); 4 }
            0x9B => { let a = self.dp_x(); let v = self.read(a).wrapping_sub(1); self.write(a, v); self.set_nz(v); 5 }
            0x8C => { let a = self.abs(); let v = self.read(a).wrapping_sub(1); self.write(a, v); self.set_nz(v); 5 }
            // ----- shifts -----
            0x1C => { self.a = self.asl(self.a); 2 }
            0x0B => { let a = self.dp(); let r = self.read(a); let v = self.asl(r); self.write(a, v); 4 }
            0x1B => { let a = self.dp_x(); let r = self.read(a); let v = self.asl(r); self.write(a, v); 5 }
            0x0C => { let a = self.abs(); let r = self.read(a); let v = self.asl(r); self.write(a, v); 5 }
            0x5C => { self.a = self.lsr(self.a); 2 }
            0x4B => { let a = self.dp(); let r = self.read(a); let v = self.lsr(r); self.write(a, v); 4 }
            0x5B => { let a = self.dp_x(); let r = self.read(a); let v = self.lsr(r); self.write(a, v); 5 }
            0x4C => { let a = self.abs(); let r = self.read(a); let v = self.lsr(r); self.write(a, v); 5 }
            0x3C => { self.a = self.rol(self.a); 2 }
            0x2B => { let a = self.dp(); let r = self.read(a); let v = self.rol(r); self.write(a, v); 4 }
            0x3B => { let a = self.dp_x(); let r = self.read(a); let v = self.rol(r); self.write(a, v); 5 }
            0x2C => { let a = self.abs(); let r = self.read(a); let v = self.rol(r); self.write(a, v); 5 }
            0x7C => { self.a = self.ror(self.a); 2 }
            0x6B => { let a = self.dp(); let r = self.read(a); let v = self.ror(r); self.write(a, v); 4 }
            0x7B => { let a = self.dp_x(); let r = self.read(a); let v = self.ror(r); self.write(a, v); 5 }
            0x6C => { let a = self.abs(); let r = self.read(a); let v = self.ror(r); self.write(a, v); 5 }
            // ----- branches -----
            0x10 => { let c = !self.flag(PSW_N); self.branch(c); if c { 4 } else { 2 } }
            0x30 => { let c = self.flag(PSW_N); self.branch(c); if c { 4 } else { 2 } }
            0x50 => { let c = !self.flag(PSW_V); self.branch(c); if c { 4 } else { 2 } }
            0x70 => { let c = self.flag(PSW_V); self.branch(c); if c { 4 } else { 2 } }
            0x90 => { let c = !self.flag(PSW_C); self.branch(c); if c { 4 } else { 2 } }
            0xB0 => { let c = self.flag(PSW_C); self.branch(c); if c { 4 } else { 2 } }
            0xD0 => { let c = !self.flag(PSW_Z); self.branch(c); if c { 4 } else { 2 } }
            0xF0 => { let c = self.flag(PSW_Z); self.branch(c); if c { 4 } else { 2 } }
            0x2F => { self.branch(true); 4 }
            0x2E => {
                let a = self.dp();
                let v = self.read(a);
                let not_eq = self.a != v;
                self.branch(not_eq);
                if not_eq { 7 } else { 5 }
            }
            0xDE => {
                let a = self.dp_x();
                let v = self.read(a);
                let not_eq = self.a != v;
                self.branch(not_eq);
                if not_eq { 8 } else { 6 }
            }
            0x6E => {
                let a = self.dp();
                let v = self.read(a).wrapping_sub(1);
                self.write(a, v);
                let not_zero = v != 0;
                self.branch(not_zero);
                if not_zero { 7 } else { 5 }
            }
            0xFE => {
                self.y = self.y.wrapping_sub(1);
                let not_zero = self.y != 0;
                self.branch(not_zero);
                if not_zero { 6 } else { 4 }
            }
            // ----- jumps / calls -----
            0x5F => { let a = self.abs(); self.pc = a; 3 }
            0x1F => {
                let a = self.abs_x();
                self.pc = self.read16(a);
                6
            }
            0x3F => {
                let a = self.abs();
                let pc = self.pc;
                self.push((pc >> 8u16) as u8);
                self.push(pc as u8);
                self.pc = a;
                8
            }
            0x4F => {
                let u = self.fetch8();
                let pc = self.pc;
                self.push((pc >> 8u16) as u8);
                self.push(pc as u8);
                self.pc = 0xFF00 | u as u16;
                6
            }
            0x6F => {
                let lo = self.pop() as u16;
                let hi = self.pop() as u16;
                self.pc = (hi << 8u16) | lo;
                5
            }
            0x7F => {
                self.psw = self.pop();
                let lo = self.pop() as u16;
                let hi = self.pop() as u16;
                self.pc = (hi << 8u16) | lo;
                6
            }
            0x0F => {
                let pc = self.pc;
                self.push((pc >> 8u16) as u8);
                self.push(pc as u8);
                self.push(self.psw | PSW_B | PSW_I);
                self.set_flag(PSW_B, true);
                self.set_flag(PSW_I, false);
                self.pc = self.read16(0xFFDE);
                8
            }
            // ----- stack -----
            0x2D => { self.push(self.a); 4 }
            0x4D => { self.push(self.x); 4 }
            0x6D => { self.push(self.y); 4 }
            0x0D => { self.push(self.psw); 4 }
            0xAE => { self.a = self.pop(); 4 }
            0xCE => { self.x = self.pop(); 4 }
            0xEE => { self.y = self.pop(); 4 }
            0x8E => { self.psw = self.pop(); 4 }
            // ----- bit ops on C -----
            0x0A => { let (addr, bit) = self.bit_addr(); let v = (self.read(addr) >> bit) & 1 != 0; self.set_flag(PSW_C, self.flag(PSW_C) || v); 5 }
            0x2A => { let (addr, bit) = self.bit_addr(); let v = (self.read(addr) >> bit) & 1 == 0; self.set_flag(PSW_C, self.flag(PSW_C) || v); 5 }
            0x4A => { let (addr, bit) = self.bit_addr(); let v = (self.read(addr) >> bit) & 1 != 0; self.set_flag(PSW_C, self.flag(PSW_C) && v); 4 }
            0x6A => { let (addr, bit) = self.bit_addr(); let v = (self.read(addr) >> bit) & 1 == 0; self.set_flag(PSW_C, self.flag(PSW_C) && v); 4 }
            0x8A => { let (addr, bit) = self.bit_addr(); let v = (self.read(addr) >> bit) & 1 != 0; self.set_flag(PSW_C, self.flag(PSW_C) != v); 5 }
            0xAA => { let (addr, bit) = self.bit_addr(); let v = (self.read(addr) >> bit) & 1 != 0; self.set_flag(PSW_C, v); 4 }
            0xCA => {
                let (addr, bit) = self.bit_addr();
                let mut v = self.read(addr);
                if self.flag(PSW_C) { v = v | (1u8 << bit); } else { v = v & !(1u8 << bit); }
                self.write(addr, v);
                6
            }
            0xEA => { let (addr, bit) = self.bit_addr(); let v = self.read(addr) ^ (1u8 << bit); self.write(addr, v); 5 }
            // ----- flag ops -----
            0x60 => { self.set_flag(PSW_C, false); 2 }
            0x80 => { self.set_flag(PSW_C, true); 2 }
            0xED => { let c = self.flag(PSW_C); self.set_flag(PSW_C, !c); 3 }
            0xE0 => { self.set_flag(PSW_V, false); self.set_flag(PSW_H, false); 2 }
            0x20 => { self.set_flag(PSW_P, false); 2 }
            0x40 => { self.set_flag(PSW_P, true); 2 }
            0xA0 => { self.set_flag(PSW_I, true); 3 }
            0xC0 => { self.set_flag(PSW_I, false); 3 }
            // ----- misc -----
            0x9F => { self.a = (self.a >> 4u8) | (self.a << 4u8); self.set_nz(self.a); 5 }
            0xDF => { self.daa(); 3 }
            0xBE => { self.das(); 3 }
            0xCF => {
                let r = Self::mul8(self.y, self.a);
                self.set_ya(r);
                self.set_nz(self.y);
                9
            }
            0x9E => { self.div(); 12 }
            0x0E => {
                let a = self.abs();
                let v = self.read(a);
                self.compare(self.a, v);
                self.write(a, v | self.a);
                6
            }
            0x4E => {
                let a = self.abs();
                let v = self.read(a);
                self.compare(self.a, v);
                self.write(a, v & !self.a);
                6
            }
            0xEF | 0xFF => { self.stopped = true; 3 }
        }
    }


    #[verifier::spinoff_prover]
    fn ya(&self) -> (v: u16)
        ensures
            v == (self.a as u16) | ((self.y as u16) << 8u16),
    {
        self.a as u16 | ((self.y as u16) << 8u16)
    }

    #[verifier::spinoff_prover]
    fn set_ya(&mut self, v: u16)
        ensures
            *final(self) == (Spc700 { a: v as u8, y: (v >> 8u16) as u8, ..*old(self) }),
    {
        self.a = v as u8;
        self.y = (v >> 8u16) as u8;
    }

    /// Operand of the absolute bit instructions: 13-bit address and 3-bit index.
    #[verifier::spinoff_prover]
    fn bit_addr(&mut self) -> (r: (u16, u8))
        requires
            old(self).wf(),
        ensures
            final(self).wf(),
            r.1 < 8,
            final(self).ram == old(self).ram,
            final(self).psw == old(self).psw,
            final(self).sp == old(self).sp,
            final(self).a == old(self).a,
            final(self).x == old(self).x,
            final(self).y == old(self).y,
            final(self).stopped == old(self).stopped,
            final(self).cyc == old(self).cyc,
    {
        let m = self.fetch16();
        proof {
            vstd::bits::lemma_u16_shr_is_div(m, 13);
            vstd::arithmetic::power2::lemma2_to64();
        }
        (m & 0x1FFF, (m >> 13u16) as u8)
    }

    #[verifier::spinoff_prover]
    fn asl(&mut self, v: u8) -> (r: u8)
        ensures
            r == ((v << 1u8) as u8),
            *final(self) == (Spc700 { psw: psw_nz(psw_with(old(self).psw, PSW_C, v & 0x80 != 0), r), ..*old(self) }),
    {
        self.set_flag(PSW_C, v & 0x80 != 0);
        let r = v << 1u8;
        self.set_nz(r);
        r
    }

    #[verifier::spinoff_prover]
    fn lsr(&mut self, v: u8) -> (r: u8)
        ensures
            r == v >> 1u8,
            *final(self) == (Spc700 { psw: psw_nz(psw_with(old(self).psw, PSW_C, v & 1 != 0), r), ..*old(self) }),
    {
        self.set_flag(PSW_C, v & 1 != 0);
        let r = v >> 1u8;
        self.set_nz(r);
        r
    }

    #[verifier::spinoff_prover]
    fn rol(&mut self, v: u8) -> (r: u8)
        ensures
            r == ((v << 1u8) | (old(self).psw & PSW_C)) as u8,
            *final(self) == (Spc700 { psw: psw_nz(psw_with(old(self).psw, PSW_C, v & 0x80 != 0), r), ..*old(self) }),
    {
        let c = self.psw & PSW_C;
        self.set_flag(PSW_C, v & 0x80 != 0);
        let r = (v << 1u8) | c;
        self.set_nz(r);
        r
    }

    #[verifier::spinoff_prover]
    fn ror(&mut self, v: u8) -> (r: u8)
        ensures
            r == ((v >> 1u8) | if old(self).psw & PSW_C != 0 { 0x80u8 } else { 0u8 }) as u8,
            *final(self) == (Spc700 { psw: psw_nz(psw_with(old(self).psw, PSW_C, v & 1 != 0), r), ..*old(self) }),
    {
        let c: u8 = if self.flag(PSW_C) {
            0x80
        } else {
            0
        };
        self.set_flag(PSW_C, v & 1 != 0);
        let r = (v >> 1u8) | c;
        self.set_nz(r);
        r
    }

    /// DAA: decimal adjust A after a BCD addition.
    #[verifier::spinoff_prover]
    fn daa(&mut self)
        ensures
            ({
                let c1 = old(self).a > 0x99 || old(self).psw & PSW_C != 0;
                let a1 = if c1 { vstd::wrapping::u8_specs::wrapping_add(old(self).a, 0x60) } else { old(self).a };
                let p1 = if c1 { psw_with(old(self).psw, PSW_C, true) } else { old(self).psw };
                let a2 = if a1 & 0x0F > 0x09 || p1 & PSW_H != 0 { vstd::wrapping::u8_specs::wrapping_add(a1, 0x06) } else { a1 };
                *final(self) == (Spc700 { a: a2, psw: psw_nz(p1, a2), ..*old(self) })
            }),
    {
        if self.a > 0x99 || self.flag(PSW_C) {
            self.a = self.a.wrapping_add(0x60);
            self.set_flag(PSW_C, true);
        }
        if self.a & 0x0F > 0x09 || self.flag(PSW_H) {
            self.a = self.a.wrapping_add(0x06);
        }
        self.set_nz(self.a);
    }

    /// DAS: decimal adjust A after a BCD subtraction.
    #[verifier::spinoff_prover]
    fn das(&mut self)
        ensures
            ({
                let c1 = old(self).a > 0x99 || old(self).psw & PSW_C == 0;
                let a1 = if c1 { vstd::wrapping::u8_specs::wrapping_sub(old(self).a, 0x60) } else { old(self).a };
                let p1 = if c1 { psw_with(old(self).psw, PSW_C, false) } else { old(self).psw };
                let a2 = if a1 & 0x0F > 0x09 || p1 & PSW_H == 0 { vstd::wrapping::u8_specs::wrapping_sub(a1, 0x06) } else { a1 };
                *final(self) == (Spc700 { a: a2, psw: psw_nz(p1, a2), ..*old(self) })
            }),
    {
        if self.a > 0x99 || !self.flag(PSW_C) {
            self.a = self.a.wrapping_sub(0x60);
            self.set_flag(PSW_C, false);
        }
        if self.a & 0x0F > 0x09 || !self.flag(PSW_H) {
            self.a = self.a.wrapping_sub(0x06);
        }
        self.set_nz(self.a);
    }

    /// DIV YA,X: nine shift-subtract steps (Anomie's SPC700 description).
    #[verifier::spinoff_prover]
    fn div(&mut self)
        ensures
            *final(self) == spc_div_state(*old(self)),
            ({
                let yva = div_steps(((old(self).a as u16) | ((old(self).y as u16) << 8u16)) as u32, (old(self).x as u32) << 9u32, 9);
                &&& final(self).y == (yva >> 9u32) as u8
                &&& final(self).a == yva as u8
                &&& *final(self) == (Spc700 { a: final(self).a, y: final(self).y, psw: final(self).psw, ..*old(self) })
                &&& final(self).psw == psw_nz(psw_with(psw_with(old(self).psw, PSW_V, yva & 0x100 != 0), PSW_H, (old(self).x & 0x0F) <= (final(self).y & 0x0F)), final(self).a)
            }),
    {
        let mut yva: u32 = self.ya() as u32;
        let x: u32 = (self.x as u32) << 9u32;
        let ghost y0 = yva;
        let mut i: u32 = 0;
        while i < 9
            invariant
                i <= 9,
                div_steps(y0, x, 9) == div_steps(yva, x, (9 - i) as nat),
            decreases 9 - i,
        {
            let ghost before = yva;
            yva = ((yva << 1u32) | (yva >> 16u32)) & 0x1FFFF;
            if yva >= x {
                yva = yva ^ 1;
            }
            if yva & 1 != 0 {
                yva = yva.wrapping_sub(x) & 0x1FFFF;
            }
            assert(yva == div_step(before, x));
            i += 1;
            assert(div_steps(before, x, (9 - i + 1) as nat) == div_steps(div_step(before, x), x, (9 - i) as nat));
        }
        self.y = (yva >> 9u32) as u8;
        self.a = yva as u8;
        self.set_flag(PSW_V, yva & 0x100 != 0);
        self.set_flag(PSW_H, (self.x & 0x0F) <= (self.y & 0x0F));
        self.set_nz(self.a);
    }
}

/// 2 to the power `s`.
pub open spec fn two_to(s: nat) -> int
    decreases s,
{
    if s == 0 {
        1
    } else {
        2 * two_to((s - 1) as nat)
    }
}

/// The DIV register after some steps of dividing `n` by `x`: `k` is 2 to
/// the number of steps left and `m` 2 to the number done. The register is
/// `r * 512 + t`: `r` the partial remainder, `t` the dividend bits not yet
/// shifted in (`n % k`) above the quotient bits found so far (`t % m`).
pub open spec fn div_progress(n: int, x: int, k: int, m: int, r: int, t: int) -> bool {
    &&& 0 <= r < x
    &&& 0 <= t < 512
    &&& t == (n % k) * m + t % m
    &&& n / k == (t % m) * x + r
}

/// One DIV step on a register holding partial remainder `r` (below the
/// divisor) above nine low bits `t`: the top bit of `t` joins the
/// remainder, which drops the divisor when it reaches it, and that
/// quotient bit enters at the bottom.
proof fn lemma_div_step_digit(r: u32, t: u32, x: u32)
    by (bit_vector)
    requires
        r < x,
        x <= 255,
        t < 512,
    ensures
        div_step((r * 512 + t) as u32, x << 9u32) == (if 2 * r + t / 256 >= x {
            (2 * r + t / 256 - x) * 512 + (2 * t) % 512 + 1
        } else {
            (2 * r + t / 256) * 512 + (2 * t) % 512
        }),
{
}

/// 2^s * 2^(9 - s) == 512.
proof fn lemma_two_to_split(s: nat)
    requires
        s <= 9,
    ensures
        two_to(s) * two_to((9 - s) as nat) == 512,
        two_to(s) >= 1,
        two_to((9 - s) as nat) >= 1,
{
    reveal_with_fuel(two_to, 10);
    assert(two_to(0) == 1 && two_to(1) == 2 && two_to(2) == 4 && two_to(3) == 8 && two_to(4) == 16);
    assert(two_to(5) == 32 && two_to(6) == 64 && two_to(7) == 128 && two_to(8) == 256 && two_to(9) == 512);
    if s == 0 {
        assert(two_to(s) == 1 && two_to((9 - s) as nat) == 512);
    } else if s == 1 {
        assert(two_to(s) == 2 && two_to((9 - s) as nat) == 256);
    } else if s == 2 {
        assert(two_to(s) == 4 && two_to((9 - s) as nat) == 128);
    } else if s == 3 {
        assert(two_to(s) == 8 && two_to((9 - s) as nat) == 64);
    } else if s == 4 {
        assert(two_to(s) == 16 && two_to((9 - s) as nat) == 32);
    } else if s == 5 {
        assert(two_to(s) == 32 && two_to((9 - s) as nat) == 16);
    } else if s == 6 {
        assert(two_to(s) == 64 && two_to((9 - s) as nat) == 8);
    } else if s == 7 {
        assert(two_to(s) == 128 && two_to((9 - s) as nat) == 4);
    } else if s == 8 {
        assert(two_to(s) == 256 && two_to((9 - s) as nat) == 2);
    } else {
        assert(s == 9);
        assert(two_to(s) == 512 && two_to((9 - s) as nat) == 1);
    }
}

/// The step of `lemma_div_step_digit` keeps `div_progress`, one step on.
proof fn lemma_div_progress_step(n: int, x: int, h: int, m: int, r: int, t: int)
    requires
        0 <= n,
        h >= 1,
        m >= 1,
        h * (2 * m) == 512,
        div_progress(n, x, 2 * h, m, r, t),
    ensures
        ({
            let w = 2 * r + t / 256;
            let q: int = if w >= x { 1 } else { 0 };
            div_progress(n, x, h, 2 * m, w - q * x, (2 * t) % 512 + q)
        }),
{
    let k = 2 * h;
    let d = n % k;
    let qq = t % m;
    let nk = n / k;
    vstd::arithmetic::div_mod::lemma_fundamental_div_mod(n, k);
    vstd::arithmetic::div_mod::lemma_fundamental_div_mod(d, h);
    vstd::arithmetic::div_mod::lemma_fundamental_div_mod(t, m);
    let b = d / h;
    let d2 = d % h;
    assert(0 <= d < k && 0 <= d2 < h && 0 <= qq < m);
    assert(0 <= b <= 1) by (nonlinear_arith)
        requires
            d == h * b + d2,
            0 <= d < 2 * h,
            0 <= d2 < h,
    ;
    // n / h and n % h
    assert(n == h * (2 * nk + b) + d2) by (nonlinear_arith)
        requires
            n == k * nk + d,
            k == 2 * h,
            d == h * b + d2,
    ;
    vstd::arithmetic::div_mod::lemma_fundamental_div_mod_converse(n, h, 2 * nk + b, d2);
    // t / 256 and t % 256
    assert(t == 256 * b + (d2 * m + qq) && 0 <= d2 * m + qq < 256) by (nonlinear_arith)
        requires
            t == d * m + qq,
            d == h * b + d2,
            h * (2 * m) == 512,
            0 <= d2 < h,
            0 <= qq < m,
            m >= 1,
    ;
    vstd::arithmetic::div_mod::lemma_fundamental_div_mod_converse(t, 256, b, d2 * m + qq);
    // (2t) % 512
    vstd::arithmetic::div_mod::lemma_fundamental_div_mod_converse(2 * t, 512, b, 2 * (d2 * m + qq));
    let w = 2 * r + b;
    let q: int = if w >= x { 1 } else { 0 };
    let t2 = (2 * t) % 512 + q;
    assert(t2 == d2 * (2 * m) + (2 * qq + q) && 0 <= 2 * qq + q < 2 * m) by (nonlinear_arith)
        requires
            t2 == 2 * (d2 * m + qq) + q,
            0 <= qq < m,
            0 <= q <= 1,
    ;
    vstd::arithmetic::div_mod::lemma_fundamental_div_mod_converse(t2, 2 * m, d2, 2 * qq + q);
    assert(n / h == (2 * qq + q) * x + (w - q * x)) by (nonlinear_arith)
        requires
            n / h == 2 * nk + b,
            nk == qq * x + r,
            w == 2 * r + b,
    ;
    assert(w - q * x < x) by {
        assert(r < x && b <= 1);
    }
}

/// From dividend `n` with `s` steps left, the remaining DIV steps leave
/// the remainder above the quotient.
proof fn lemma_div_steps_finish(n: int, x: u32, s: nat, r: int, t: int)
    requires
        s <= 9,
        0 <= n,
        x <= 255,
        div_progress(n, x as int, two_to(s), two_to((9 - s) as nat), r, t),
    ensures
        div_steps((r * 512 + t) as u32, x << 9u32, s) == ((n % (x as int)) * 512 + n / (x as int)) as u32,
    decreases s,
{
    if s == 0 {
        reveal_with_fuel(two_to, 10);
        assert(t % 512 == t);
        vstd::arithmetic::div_mod::lemma_fundamental_div_mod_converse(n, x as int, t, r);
    } else {
        lemma_two_to_split((s - 1) as nat);
        assert(two_to(s) == 2 * two_to((s - 1) as nat));
        assert(two_to((10 - s) as nat) == 2 * two_to((9 - s) as nat));
        assert((9 - (s - 1)) as nat == (10 - s) as nat);
        lemma_div_progress_step(n, x as int, two_to((s - 1) as nat), two_to((9 - s) as nat), r, t);
        lemma_div_step_digit(r as u32, t as u32, x);
        let w = 2 * r + t / 256;
        let q: int = if w >= x { 1 } else { 0 };
        lemma_div_steps_finish(n, x, (s - 1) as nat, w - q * x, (2 * t) % 512 + q);
    }
}

/// DIV YA,X gives the quotient and remainder of YA by X whenever the
/// quotient fits in nine bits (Y < 2X): A is the quotient's low byte, V its
/// ninth bit, and Y the remainder.
pub proof fn lemma_div_quotient_remainder(s: Spc700)
    requires
        (s.y as int) < 2 * (s.x as int),
    ensures
        ({
            let n = s.a as int + 256 * (s.y as int);
            &&& spc_div_state(s).a == (n / (s.x as int)) % 256
            &&& spc_div_state(s).y == n % (s.x as int)
            &&& (spc_div_state(s).psw & PSW_V != 0) == (n / (s.x as int) >= 256)
        }),
{
    let n = s.a as int + 256 * (s.y as int);
    let x = s.x as u32;
    let a = s.a;
    let y = s.y;
    let y0 = ((a as u16) | ((y as u16) << 8u16)) as u32;
    assert(y0 == a as u32 + 256 * (y as u32)) by (bit_vector)
        requires
            y0 == ((a as u16) | ((y as u16) << 8u16)) as u32,
    ;
    assert(n / 512 < x && 0 <= n % 512 < 512);
    assert(n <= 512 * (x as int) - 1);
    assert(div_progress(n, x as int, two_to(9), two_to(0), n / 512, n % 512)) by {
        reveal_with_fuel(two_to, 10);
        assert(two_to(9) == 512 && two_to(0) == 1);
        assert(n / 512 < x);
        assert((n % 512) % 1 == 0);
        assert(n % 512 == (n % 512) * 1 + (n % 512) % 1);
        assert(n / 512 == ((n % 512) % 1) * (x as int) + n / 512);
    }
    lemma_div_steps_finish(n, x, 9, n / 512, n % 512);
    assert(y0 == ((n / 512) * 512 + n % 512) as u32);
    let yva = div_steps(y0, x << 9u32, 9);
    let rr = (n % (x as int)) as u32;
    let qq = (n / (x as int)) as u32;
    vstd::arithmetic::div_mod::lemma_fundamental_div_mod(n, x as int);
    assert(0 <= n % (x as int) < x);
    assert(n / (x as int) < 512) by (nonlinear_arith)
        requires
            n == (x as int) * (n / (x as int)) + n % (x as int),
            0 <= n % (x as int),
            n <= 512 * (x as int) - 1,
            x >= 1,
    ;
    assert(rr < 256 && qq < 512);
    assert(yva == rr * 512 + qq);
    assert((yva >> 9u32) as u8 == rr && yva as u8 == qq % 256 && (yva & 0x100 != 0) == (qq >= 256)) by (bit_vector)
        requires
            rr < 256,
            qq < 512,
            yva == rr * 512 + qq,
    ;
    let vflag = yva & 0x100 != 0;
    let ny = (yva >> 9u32) as u8;
    let hflag = (s.x & 0x0F) <= (ny & 0x0F);
    let p0 = s.psw;
    let av = yva as u8;
    lemma_psw_bits(p0, true, vflag, hflag, av, 0);
}

/// A byte written by the S-CPU to port `p` is what the SPC700 reads at $F4+p.
pub proof fn lemma_port_write_then_spc_read(s: Spc700, after: Spc700, p: u8, v: u8)
    requires
        p < 4,
        after.cpu_in@ == s.cpu_in@.update(p as int, v),
    ensures
        spc_plain_read(after, (0xF4 + p) as u16) == Some(v),
{
    assert(after.cpu_in@[p as int] == v);
}

/// SPC700 stack round trip: a pushed byte is popped back.
pub proof fn lemma_spc_push_pop(ram: Seq<u8>, sp: u8, v: u8)
    requires
        ram.len() == 0x10000,
    ensures
        ({
            let ram2 = ram.update(0x100 + sp, v);
            let sp2 = vstd::wrapping::u8_specs::wrapping_sub(sp, 1);
            let sp3 = vstd::wrapping::u8_specs::wrapping_add(sp2, 1);
            sp3 == sp && ram2[0x100 + sp3] == v
        }),
{
}

} // verus!
