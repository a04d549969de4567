//! DSP-1 math coprocessor, high-level emulation.
//!
//! Arithmetic keeps the chip's 16-bit fixed-point semantics: i16 operands
//! widen to i32, products shift arithmetically, results truncate back to
//! i16 on store. Only the HiROM register window is mapped (addresses at or
//! above `BOUNDARY` read back $80).
//!
//! The chip's mask ROM (a 1024-word constant table plus the sine and
//! multiplier tables used by the trigonometry) is data, held in
//! [`Dsp1Tables`]; a lookup outside a table reads 0.

use vstd::prelude::*;
use crate::bits::{lemma_and_mask_i32, lemma_asr_i32_bounds};

verus! {

/// HiROM mapping: registers at banks $00-$1F/$80-$9F, $6000-$7FFF; the
/// data port answers below this address.
pub const BOUNDARY: u16 = 0x7000;

/// Words of the DSP-1 mask ROM.
pub const ROM_WORDS: usize = 1024;

/// Entries of the sine and multiplier tables.
pub const TRIG_ENTRIES: usize = 256;

/// The DSP-1 mask ROM contents the math routines consult.
pub struct Dsp1Tables {
    /// Constant ROM (reciprocal seeds, normalisation factors, ...).
    pub rom: Vec<u16>,
    /// Coarse sine table: entry k is sin(k * 2pi / 256) in Q15.
    pub sin: Vec<i16>,
    /// Fine interpolation multipliers for the low angle byte.
    pub mul: Vec<i16>,
}

impl Dsp1Tables {
    pub open spec fn wf(&self) -> bool {
        &&& self.rom@.len() == ROM_WORDS
        &&& self.sin@.len() == TRIG_ENTRIES
        &&& self.mul@.len() == TRIG_ENTRIES
    }

    /// All-zero tables of the right sizes.
    pub fn blank() -> (t: Self)
        ensures
            t.wf(),
            forall|i: int| 0 <= i < ROM_WORDS ==> t.rom@[i] == 0,
            forall|i: int| 0 <= i < TRIG_ENTRIES ==> t.sin@[i] == 0 && t.mul@[i] == 0,
    {
        Dsp1Tables { rom: vec![0u16; ROM_WORDS], sin: vec![0i16; TRIG_ENTRIES], mul: vec![0i16; TRIG_ENTRIES] }
    }

    pub open spec fn spec_rom_at(&self, i: int) -> i32 {
        if 0 <= i < self.rom@.len() {
            self.rom@[i] as i32
        } else {
            0
        }
    }

    /// ROM word `i`, zero-extended; 0 outside the table.
    fn rom_at(&self, i: i32) -> (v: i32)
        ensures
            v == self.spec_rom_at(i as int),
            0 <= v <= 0xFFFF,
    {
        if i >= 0 && (i as usize) < self.rom.len() {
            self.rom[i as usize] as i32
        } else {
            0
        }
    }

    /// Sine table entry `i`; 0 outside the table.
    fn sin_at(&self, i: i32) -> (v: i32)
        ensures
            v == if 0 <= i < self.sin@.len() { self.sin@[i as int] as i32 } else { 0 },
            -32768 <= v <= 32767,
    {
        if i >= 0 && (i as usize) < self.sin.len() {
            self.sin[i as usize] as i32
        } else {
            0
        }
    }

    /// Multiplier table entry `i`; 0 outside the table.
    fn mul_at(&self, i: i32) -> (v: i32)
        ensures
            v == if 0 <= i < self.mul@.len() { self.mul@[i as int] as i32 } else { 0 },
            -32768 <= v <= 32767,
    {
        if i >= 0 && (i as usize) < self.mul.len() {
            self.mul[i as usize] as i32
        } else {
            0
        }
    }
}

/// `v` doubled `r` times.
pub open spec fn doubled(v: int, r: nat) -> int
    decreases r,
{
    if r == 0 {
        v
    } else {
        2 * doubled(v, (r - 1) as nat)
    }
}

/// Normalisation shift of a positive 15-bit value: the number of left
/// shifts that bring its top set bit to bit 14.
fn dsp_clz(v: i32) -> (r: i16)
    requires
        0 < v <= 0x7FFF,
    ensures
        0 <= r <= 14,
        0x4000 <= doubled(v as int, r as nat) <= 0x7FFF,
{
    let mut r: i16 = 0;
    let mut x: i32 = v;
    while x < 0x4000
        invariant
            0 < x <= 0x7FFF,
            0 <= r <= 14,
            x == doubled(v as int, r as nat),
            x >= doubled(1, r as nat),
        decreases 14 - r,
    {
        proof {
            lemma_doubled_one(r as nat);
        }
        x = x * 2;
        r = r + 1;
    }
    r
}

/// 1 doubled 14 times or more reaches bit 14.
proof fn lemma_doubled_one(r: nat)
    ensures
        r >= 14 ==> doubled(1, r) >= 0x4000,
        doubled(1, r) >= 1,
    decreases r,
{
    if r > 0 {
        lemma_doubled_one((r - 1) as nat);
    }
    if r == 14 {
        assert(doubled(1, 14) == 0x4000) by {
            reveal_with_fuel(doubled, 15);
        }
    }
}

/// The shifted range ends that the rescaling bounds rest on.
proof fn lemma_dsp1_shift_values()
    by (bit_vector)
    ensures
        -0x4000_0000i32 >> 15u32 == -32768i32,
        0x4000_0000i32 >> 15u32 == 32768i32,
        i32::MIN >> 15u32 == -65536i32,
        i32::MAX >> 15u32 == 65535i32,
        -0xC000i32 >> 7u32 == -0x180i32,
        0x3FFFi32 >> 7u32 == 0x7Fi32,
        -33_553_920i32 >> 9u32 == -65535i32,
        33_553_920i32 >> 9u32 == 65535i32,
{
}

/// The complement of a 15-bit value with bit 15 forced on is again a
/// 15-bit value.
proof fn lemma_negate_low15(ni: i32)
    by (bit_vector)
    requires
        0 <= ni <= 0x7fff,
    ensures
        0 <= (!(ni | 0x8000)) as i16 <= 0x7fff,
{
}

/// |m| for m >= 0, -m - 1 for m < 0: the value whose top bit the
/// normalisation looks for.
fn magnitude(m: i16) -> (n: i16)
    ensures
        0 <= n <= 0x7FFF,
        n == if m < 0 { !m } else { m },
{
    assert(m < 0 ==> 0 <= !m <= 0x7FFF) by (bit_vector);
    if m < 0 {
        !m
    } else {
        m
    }
}

/// Little-endian signed word at `off` of a parameter/output buffer.
pub open spec fn buf_word(buf: [u8; 512], off: int) -> i16 {
    (buf[off] as u16 | ((buf[off + 1] as u16) << 8u16)) as i16
}

fn read_word(buf: &[u8; 512], off: usize) -> (r: i16)
    requires
        off + 1 < 512,
    ensures
        r == buf_word(*buf, off as int),
{
    (buf[off] as u16 | ((buf[off + 1] as u16) << 8u16)) as i16
}

fn write_word(buf: &mut [u8; 512], off: usize, v: i16)
    requires
        off + 1 < 512,
    ensures
        final(buf)@ == old(buf)@.update(off as int, v as u8).update(off + 1, ((v as u16) >> 8u16) as u8),
        buf_word(*final(buf), off as int) == v,
{
    buf[off] = v as u8;
    buf[off + 1] = ((v as u16) >> 8u16) as u8;
    proof {
        let lo = v as u8;
        let hi = ((v as u16) >> 8u16) as u8;
        assert((lo as u16 | ((hi as u16) << 8u16)) as i16 == v) by (bit_vector)
            requires
                lo == v as u8,
                hi == ((v as u16) >> 8u16) as u8,
        ;
    }
}

/// Sine table entry `i`; 0 outside the table.
pub open spec fn spec_sin_at(t: Dsp1Tables, i: int) -> int {
    if 0 <= i < t.sin@.len() {
        t.sin@[i] as int
    } else {
        0
    }
}

/// Multiplier table entry `i`; 0 outside the table.
pub open spec fn spec_mul_at(t: Dsp1Tables, i: int) -> int {
    if 0 <= i < t.mul@.len() {
        t.mul@[i] as int
    } else {
        0
    }
}

/// The Q15 product `a * b >> 15`.
pub open spec fn spec_mul15(a: int, b: int) -> int {
    ((a * b) as i32 >> 15u32) as int
}

/// Sine of a non-negative angle: the coarse entry for the high byte plus
/// the low byte's multiplier times the cosine entry (a quarter turn on),
/// saturated at 32767.
pub open spec fn spec_sin_pos(t: Dsp1Tables, angle: i16) -> i16 {
    let hi = (angle >> 8u16) as int;
    let lo = (angle & 0xff) as int;
    let s = spec_sin_at(t, hi) + spec_mul15(spec_mul_at(t, lo), spec_sin_at(t, 0x40 + hi));
    (if s > 32767 { 32767 } else { s }) as i16
}

/// Cosine of a non-negative angle: the cosine entry for the high byte minus
/// the low byte's multiplier times the sine entry, clamped to -32767.
pub open spec fn spec_cos_pos(t: Dsp1Tables, angle: i16) -> i16 {
    let hi = (angle >> 8u16) as int;
    let lo = (angle & 0xff) as int;
    let s = spec_sin_at(t, 0x40 + hi) - spec_mul15(spec_mul_at(t, lo), spec_sin_at(t, hi));
    (if s < -32768 { -32767 } else { s }) as i16
}

/// DSP-1 sine: odd in the angle, 0 at -32768 (a half turn).
pub open spec fn spec_dsp1_sin(t: Dsp1Tables, angle: i16) -> i16 {
    if angle >= 0 {
        spec_sin_pos(t, angle)
    } else if angle == -32768 {
        0
    } else {
        vstd::wrapping::i16_specs::wrapping_sub(0, spec_sin_pos(t, (-angle) as i16))
    }
}

/// DSP-1 cosine: even in the angle, -32768 at a half turn.
pub open spec fn spec_dsp1_cos(t: Dsp1Tables, angle: i16) -> i16 {
    if angle >= 0 {
        spec_cos_pos(t, angle)
    } else if angle == -32768 {
        -32768i16
    } else {
        spec_cos_pos(t, (-angle) as i16)
    }
}

/// Sine of a 16-bit angle (full circle = 65536) in Q15.
fn dsp1_sin(t: &Dsp1Tables, angle: i16) -> (s: i16)
    ensures
        s == spec_dsp1_sin(*t, angle),
    decreases (if angle < 0 { 1int } else { 0int }),
{
    if angle < 0 {
        if angle == -32768 {
            return 0;
        }
        return 0i16.wrapping_sub(dsp1_sin(t, -angle));
    }
    let hi = (angle >> 8u16) as i32;
    let lo = (angle & 0xff) as i32;
    let m = t.mul_at(lo);
    let c = t.sin_at(0x40 + hi);
    assert(-0x4000_0000 <= m * c <= 0x4000_0000) by (nonlinear_arith)
        requires
            -32768 <= m <= 32767,
            -32768 <= c <= 32767,
    ;
    let s = t.sin_at(hi) + mul15(m, c);
    let s = if s > 32767 {
        32767
    } else {
        s
    };
    s as i16
}

/// Cosine of a 16-bit angle in Q15.
fn dsp1_cos(t: &Dsp1Tables, angle: i16) -> (c: i16)
    ensures
        c == spec_dsp1_cos(*t, angle),
{
    let mut angle = angle;
    if angle < 0 {
        if angle == -32768 {
            return -32768;
        }
        angle = -angle;
    }
    let hi = (angle >> 8u16) as i32;
    let lo = (angle & 0xff) as i32;
    let m = t.mul_at(lo);
    let sn = t.sin_at(hi);
    assert(-0x4000_0000 <= m * sn <= 0x4000_0000) by (nonlinear_arith)
        requires
            -32768 <= m <= 32767,
            -32768 <= sn <= 32767,
    ;
    let s = t.sin_at(0x40 + hi) - mul15(m, sn);
    // Clamped to -32767, not -32768, as the chip does.
    let s = if s < -32768 {
        -32767
    } else {
        s
    };
    s as i16
}

/// Q15 product of two i16 values, truncated to i16.
pub open spec fn q15(a: i16, b: i16) -> i16 {
    (((a as i32 * b as i32) as i32) >> 15u32) as i16
}

fn mul15(a: i32, b: i32) -> (r: i32)
    requires
        -32768 <= a <= 32768,
        -32768 <= b <= 32768,
    ensures
        r == ((a * b) as i32) >> 15u32,
        -32768 <= r <= 32768,
{
    assert(-0x4000_0000 <= a * b <= 0x4000_0000) by (nonlinear_arith)
        requires
            -32768 <= a <= 32768,
            -32768 <= b <= 32768,
    ;
    let p = a * b;
    proof {
        lemma_dsp1_shift_values();
        lemma_asr_i32_bounds(p, 15u32, -0x4000_0000i32, 0x4000_0000i32);
    }
    p >> 15u32
}

/// Arithmetic shift right by 15 (Q15 rescaling).
fn shr15(p: i32) -> (r: i32)
    ensures
        r == p >> 15u32,
        -65536 <= r <= 65535,
{
    proof {
        lemma_dsp1_shift_values();
        lemma_asr_i32_bounds(p, 15u32, i32::MIN, i32::MAX);
    }
    p >> 15u32
}

/// Product of an i16 and a zero-extended ROM word, as the chip forms it.
fn mul_rom(a: i32, w: i32) -> (r: i32)
    requires
        -32768 <= a <= 32767,
        0 <= w <= 0xFFFF,
    ensures
        r == a * w,
{
    assert(-32768 * 0xFFFF <= a * w <= 32767 * 0xFFFF) by (nonlinear_arith)
        requires
            -32768 <= a <= 32767,
            0 <= w <= 0xFFFF,
    ;
    a * w
}

/// Normalise `m` to a coefficient with its top bit at bit 14; the shift is
/// subtracted from `exponent`.
fn dsp1_normalize(t: &Dsp1Tables, m: i16, exponent: i16) -> (r: (i16, i16))
    ensures
        -32753 <= exponent ==> exponent - 15 <= r.1 <= exponent,
{
    let n: i16 = magnitude(m);
    let e: i16 = if n == 0 {
        15
    } else {
        dsp_clz(n as i32)
    };
    let coefficient: i16 = if e > 0 {
        mul_rom(m as i32, t.rom_at(0x21 + e as i32)).wrapping_shl(1) as i16
    } else {
        m
    };
    (coefficient, exponent.wrapping_sub(e))
}

/// Normalise a 32-bit product into (coefficient, exponent), exponent in 0..=30.
fn dsp1_normalize_double(t: &Dsp1Tables, product: i32) -> (r: (i16, i16))
    ensures
        0 <= r.1 <= 30,
{
    let n: i16 = (product & 0x7fff) as i16;
    let m: i16 = (product >> 15u32) as i16;
    let mut e: i16;
    let tm: i16 = magnitude(m);
    if tm == 0 {
        e = 15;
    } else {
        e = dsp_clz(tm as i32);
    }
    let mut coefficient: i16;
    if e > 0 {
        coefficient = mul_rom(m as i32, t.rom_at(0x21 + e as i32)).wrapping_shl(1) as i16;
        if e < 15 {
            proof {
                lemma_and_mask_i32(product, 0x7fff);
            }
            coefficient = coefficient.wrapping_add(shr15(mul_rom(n as i32, t.rom_at(0x40 - e as i32))) as i16);
        } else {
            let tn: i16 = if m < 0 {
                (!(n as i32 | 0x8000)) as i16
            } else {
                n
            };
            proof {
                lemma_and_mask_i32(product, 0x7fff);
                lemma_negate_low15(n as i32);
            }
            if tn == 0 {
                e = e + 15;
            } else {
                e = e + dsp_clz(tn as i32);
            }
            if e > 15 {
                coefficient = mul_rom(n as i32, t.rom_at(0x12 + e as i32)).wrapping_shl(1) as i16;
            } else {
                coefficient = coefficient.wrapping_add(n);
            }
        }
    } else {
        coefficient = m;
    }
    (coefficient, e)
}

/// Saturate a (coefficient, exponent) pair back to a plain i16.
fn dsp1_truncate(t: &Dsp1Tables, c: i16, e: i16) -> (r: i16) {
    if e > 0 {
        if c > 0 {
            return 32767;
        }
        if c < 0 {
            return -32767;
        }
    } else if e < 0 {
        return shr15(mul_rom(c as i32, t.rom_at(0x0031 + e as i32))) as i16;
    }
    c
}

fn dsp1_shift_r(t: &Dsp1Tables, c: i16, e: i16) -> (r: i16) {
    shr15(mul_rom(c as i32, t.rom_at(0x0031 + e as i32))) as i16
}

/// Reciprocal of coefficient * 2^exponent as (coefficient, exponent),
/// by a table seed refined with two Newton steps.
fn dsp1_inverse(t: &Dsp1Tables, coefficient: i16, exponent: i16) -> (r: (i16, i16))
    ensures
        coefficient == 0 ==> r == (0x7fffi16, 0x002fi16),
{
    let mut coefficient = coefficient;
    let mut exponent = exponent;
    // Division by zero
    if coefficient == 0x0000 {
        return (0x7fff, 0x002f);
    }
    let mut sign: i16 = 1;
    // Remove the sign
    if coefficient < 0 {
        if coefficient < -32767 {
            coefficient = -32767;
        }
        coefficient = -coefficient;
        sign = -1;
    }
    // Normalise
    let shift = dsp_clz(coefficient as i32);
    coefficient = coefficient.wrapping_shl(shift as u32);
    exponent = exponent.wrapping_sub(shift);
    let i_coefficient: i16;
    if coefficient == 0x4000 {
        if sign == 1 {
            i_coefficient = 0x7fff;
        } else {
            i_coefficient = -0x4000;
            exponent = exponent.wrapping_sub(1);
        }
    } else {
        // Initial guess
        let d: i32 = coefficient as i32 - 0x4000;
        proof {
            lemma_dsp1_shift_values();
            lemma_asr_i32_bounds(d, 7u32, -0xC000i32, 0x3FFFi32);
        }
        let seed = t.rom_at((d >> 7u32) + 0x0065);
        let mut i: i32 = seed as u16 as i16 as i32;
        // Two estimated Newton steps
        let q = mul15(coefficient as i32, i);
        i = (i + mul15(-i, q)).wrapping_shl(1) as i16 as i32;
        let q = mul15(coefficient as i32, i);
        i = (i + mul15(-i, q)).wrapping_shl(1) as i16 as i32;
        i_coefficient = (i as i16).wrapping_mul(sign);
    }
    (i_coefficient, 1i16.wrapping_sub(exponent))
}
/// DSP-1 state: the command/data port protocol and the math working set.
pub struct Dsp1 {
    /// Idle, expecting a command byte.
    pub waiting4command: bool,
    /// No parameter byte received yet for the current command.
    pub first_parameter: bool,
    /// Current command (after aliasing).
    pub command: u8,
    /// Parameter bytes still expected.
    pub in_count: u32,
    /// Next parameter byte position.
    pub in_index: u32,
    /// Result bytes still to be read.
    pub out_count: u32,
    /// Next result byte position.
    pub out_index: u32,
    /// Parameter bytes of the current command.
    pub parameters: [u8; 512],
    /// Result bytes of the last command.
    pub output: [u8; 512],
    /// Number of command bytes received.
    pub command_log_count: u32,
    /// Per-command-byte count of commands received.
    pub command_histogram: [u32; 256],
    pub centre_x: i16,
    pub centre_y: i16,
    pub v_offset: i16,
    pub vplane_c: i16,
    pub vplane_e: i16,
    pub sin_aas: i16,
    pub cos_aas: i16,
    pub sin_azs: i16,
    pub cos_azs: i16,
    pub sin_azs_clip: i16,
    pub cos_azs_clip: i16,
    pub sec_azs_c1: i16,
    pub sec_azs_e1: i16,
    pub sec_azs_c2: i16,
    pub sec_azs_e2: i16,
    pub nx: i16,
    pub ny: i16,
    pub nz: i16,
    pub gx: i16,
    pub gy: i16,
    pub gz: i16,
    pub c_les: i16,
    pub e_les: i16,
    pub g_les: i16,
    pub matrix_a: [[i16; 3]; 3],
    pub matrix_b: [[i16; 3]; 3],
    pub matrix_c: [[i16; 3]; 3],
    pub op00_multiplicand: i16,
    pub op00_multiplier: i16,
    pub op00_result: i16,
    pub op20_multiplicand: i16,
    pub op20_multiplier: i16,
    pub op20_result: i16,
    pub op10_coefficient: i16,
    pub op10_exponent: i16,
    pub op10_coefficient_r: i16,
    pub op10_exponent_r: i16,
    pub op04_angle: i16,
    pub op04_radius: i16,
    pub op04_sin: i16,
    pub op04_cos: i16,
    pub op0c_a: i16,
    pub op0c_x1: i16,
    pub op0c_y1: i16,
    pub op0c_x2: i16,
    pub op0c_y2: i16,
    pub op02_fx: i16,
    pub op02_fy: i16,
    pub op02_fz: i16,
    pub op02_lfe: i16,
    pub op02_les: i16,
    pub op02_aas: i16,
    pub op02_azs: i16,
    pub op02_vof: i16,
    pub op02_vva: i16,
    pub op02_cx: i16,
    pub op02_cy: i16,
    pub op0a_vs: i16,
    pub op0a_a: i16,
    pub op0a_b: i16,
    pub op0a_c: i16,
    pub op0a_d: i16,
    pub op06_x: i16,
    pub op06_y: i16,
    pub op06_z: i16,
    pub op06_h: i16,
    pub op06_v: i16,
    pub op06_m: i16,
    pub op01_m: i16,
    pub op01_zr: i16,
    pub op01_xr: i16,
    pub op01_yr: i16,
    pub op11_m: i16,
    pub op11_zr: i16,
    pub op11_xr: i16,
    pub op11_yr: i16,
    pub op21_m: i16,
    pub op21_zr: i16,
    pub op21_xr: i16,
    pub op21_yr: i16,
    pub op0d_x: i16,
    pub op0d_y: i16,
    pub op0d_z: i16,
    pub op0d_f: i16,
    pub op0d_l: i16,
    pub op0d_u: i16,
    pub op1d_x: i16,
    pub op1d_y: i16,
    pub op1d_z: i16,
    pub op1d_f: i16,
    pub op1d_l: i16,
    pub op1d_u: i16,
    pub op2d_x: i16,
    pub op2d_y: i16,
    pub op2d_z: i16,
    pub op2d_f: i16,
    pub op2d_l: i16,
    pub op2d_u: i16,
    pub op03_f: i16,
    pub op03_l: i16,
    pub op03_u: i16,
    pub op03_x: i16,
    pub op03_y: i16,
    pub op03_z: i16,
    pub op13_f: i16,
    pub op13_l: i16,
    pub op13_u: i16,
    pub op13_x: i16,
    pub op13_y: i16,
    pub op13_z: i16,
    pub op23_f: i16,
    pub op23_l: i16,
    pub op23_u: i16,
    pub op23_x: i16,
    pub op23_y: i16,
    pub op23_z: i16,
    pub op14_zr: i16,
    pub op14_xr: i16,
    pub op14_yr: i16,
    pub op14_u: i16,
    pub op14_f: i16,
    pub op14_l: i16,
    pub op14_zrr: i16,
    pub op14_xrr: i16,
    pub op14_yrr: i16,
    pub op0e_h: i16,
    pub op0e_v: i16,
    pub op0e_x: i16,
    pub op0e_y: i16,
    pub op0b_x: i16,
    pub op0b_y: i16,
    pub op0b_z: i16,
    pub op0b_s: i16,
    pub op1b_x: i16,
    pub op1b_y: i16,
    pub op1b_z: i16,
    pub op1b_s: i16,
    pub op2b_x: i16,
    pub op2b_y: i16,
    pub op2b_z: i16,
    pub op2b_s: i16,
    pub op28_x: i16,
    pub op28_y: i16,
    pub op28_z: i16,
    pub op28_r: i16,
    pub op1c_x: i16,
    pub op1c_y: i16,
    pub op1c_z: i16,
    pub op1c_xbr: i16,
    pub op1c_ybr: i16,
    pub op1c_zbr: i16,
    pub op1c_xar: i16,
    pub op1c_yar: i16,
    pub op1c_zar: i16,
    pub op1c_x1: i16,
    pub op1c_y1: i16,
    pub op1c_z1: i16,
    pub op0f_ramsize: i16,
    pub op0f_pass: i16,
    pub op2f_unknown: i16,
    pub op2f_size: i16,
    pub op08_x: i16,
    pub op08_y: i16,
    pub op08_z: i16,
    pub op08_ll: i16,
    pub op08_lh: i16,
    pub op18_x: i16,
    pub op18_y: i16,
    pub op18_z: i16,
    pub op18_r: i16,
    pub op18_d: i16,
    pub op38_x: i16,
    pub op38_y: i16,
    pub op38_z: i16,
    pub op38_r: i16,
    pub op38_d: i16,
    /// Mask ROM tables used by the math routines.
    pub tables: Dsp1Tables,
}

/// Clip limit of the zenith angle for each normalisation shift of the
/// centre height.
fn max_azs_exp(i: i16) -> (r: i16)
    requires
        0 <= i <= 15,
    ensures
        0x38b4 <= r <= 0x38e4,
{
    match i {
        0 => 0x38b4,
        1 => 0x38b7,
        2 => 0x38ba,
        3 => 0x38be,
        4 => 0x38c0,
        5 => 0x38c4,
        6 => 0x38c7,
        7 => 0x38ca,
        8 => 0x38ce,
        9 => 0x38d0,
        10 => 0x38d4,
        11 => 0x38d7,
        12 => 0x38da,
        13 => 0x38dd,
        14 => 0x38e0,
        _ => 0x38e4,
    }
}

/// Rotation matrix shared by the attitude commands (matrices A/B/C).
fn attitude_matrix(t: &Dsp1Tables, m: i16, zr: i16, yr: i16, xr: i16) -> (r: [[i16; 3]; 3]) {
    let sin_az = dsp1_sin(t, zr) as i32;
    let cos_az = dsp1_cos(t, zr) as i32;
    let sin_ay = dsp1_sin(t, yr) as i32;
    let cos_ay = dsp1_cos(t, yr) as i32;
    let sin_ax = dsp1_sin(t, xr) as i32;
    let cos_ax = dsp1_cos(t, xr) as i32;
    let m = m as i32;
    let mcz = mul15(m, cos_az);
    let msz = mul15(m, sin_az);
    let r00 = mul15(mcz, cos_ay) as i16;
    let r01 = (-mul15(msz, cos_ay)) as i16;
    let r02 = mul15(m, sin_ay) as i16;
    let r10 = (mul15(msz, cos_ax) + mul15(mul15(mcz, sin_ax), sin_ay)) as i16;
    let r11 = (mul15(mcz, cos_ax) - mul15(mul15(msz, sin_ax), sin_ay)) as i16;
    let r12 = (-mul15(mul15(m, sin_ax), cos_ay)) as i16;
    let r20 = (mul15(msz, sin_ax) - mul15(mul15(mcz, cos_ax), sin_ay)) as i16;
    let r21 = (mul15(mcz, sin_ax) + mul15(mul15(msz, cos_ax), sin_ay)) as i16;
    let r22 = mul15(mul15(m, cos_ax), cos_ay) as i16;
    [[r00, r01, r02], [r10, r11, r12], [r20, r21, r22]]
}

/// Objective transform: matrix * (x, y, z) -> (F, L, U).
/// Q15 product of two words as the chip forms it: (a * b) >> 15.
pub open spec fn q15_i32(a: i16, b: i16) -> int {
    (((a as i32 * b as i32) as i32) >> 15u32) as int
}

/// Matrix * (x, y, z): each row's Q15 dot product, truncated to 16 bits.
pub open spec fn spec_objective(m: [[i16; 3]; 3], x: i16, y: i16, z: i16) -> (i16, i16, i16) {
    (
        (q15_i32(x, m[0][0]) + q15_i32(y, m[0][1]) + q15_i32(z, m[0][2])) as i16,
        (q15_i32(x, m[1][0]) + q15_i32(y, m[1][1]) + q15_i32(z, m[1][2])) as i16,
        (q15_i32(x, m[2][0]) + q15_i32(y, m[2][1]) + q15_i32(z, m[2][2])) as i16,
    )
}

/// (F, L, U) * matrix: each column's Q15 dot product, truncated to 16 bits.
pub open spec fn spec_subjective(m: [[i16; 3]; 3], f: i16, l: i16, u: i16) -> (i16, i16, i16) {
    (
        (q15_i32(f, m[0][0]) + q15_i32(l, m[1][0]) + q15_i32(u, m[2][0])) as i16,
        (q15_i32(f, m[0][1]) + q15_i32(l, m[1][1]) + q15_i32(u, m[2][1])) as i16,
        (q15_i32(f, m[0][2]) + q15_i32(l, m[1][2]) + q15_i32(u, m[2][2])) as i16,
    )
}

/// Commands that transform into the objective frame with matrix A, B or C.
pub open spec fn objective_command(c: u8) -> bool {
    c == 0x09 || c == 0x39 || c == 0x3d || c == 0x0d || c == 0x19 || c == 0x1d || c == 0x29 || c == 0x2d
}

/// Commands that transform into the subjective frame with matrix A, B or C.
pub open spec fn subjective_command(c: u8) -> bool {
    c == 0x33 || c == 0x03 || c == 0x13 || c == 0x23
}

/// The first three result words.
pub open spec fn output_triple(buf: [u8; 512]) -> (i16, i16, i16) {
    (buf_word(buf, 0), buf_word(buf, 2), buf_word(buf, 4))
}

/// The first three parameter words.
pub open spec fn parameter_triple(buf: [u8; 512]) -> (i16, i16, i16) {
    (buf_word(buf, 0), buf_word(buf, 2), buf_word(buf, 4))
}

fn objective(m: [[i16; 3]; 3], x: i16, y: i16, z: i16) -> (r: (i16, i16, i16))
    ensures
        r == spec_objective(m, x, y, z),
{
    let (x, y, z) = (x as i32, y as i32, z as i32);
    let f = (mul15(x, m[0][0] as i32) + mul15(y, m[0][1] as i32) + mul15(z, m[0][2] as i32)) as i16;
    let l = (mul15(x, m[1][0] as i32) + mul15(y, m[1][1] as i32) + mul15(z, m[1][2] as i32)) as i16;
    let u = (mul15(x, m[2][0] as i32) + mul15(y, m[2][1] as i32) + mul15(z, m[2][2] as i32)) as i16;
    (f, l, u)
}

/// Subjective transform: (F, L, U) * matrix -> (X, Y, Z).
fn subjective(m: [[i16; 3]; 3], f: i16, l: i16, u: i16) -> (r: (i16, i16, i16))
    ensures
        r == spec_subjective(m, f, l, u),
{
    let (f, l, u) = (f as i32, l as i32, u as i32);
    let x = (mul15(f, m[0][0] as i32) + mul15(l, m[1][0] as i32) + mul15(u, m[2][0] as i32)) as i16;
    let y = (mul15(f, m[0][1] as i32) + mul15(l, m[1][1] as i32) + mul15(u, m[2][1] as i32)) as i16;
    let z = (mul15(f, m[0][2] as i32) + mul15(l, m[1][2] as i32) + mul15(u, m[2][2] as i32)) as i16;
    (x, y, z)
}

/// Scalar product of (x, y, z) with the first matrix row, in Q15.
pub open spec fn spec_inner_row0(m: [[i16; 3]; 3], x: i16, y: i16, z: i16) -> i16 {
    (vstd::wrapping::i32_specs::wrapping_add(
        vstd::wrapping::i32_specs::wrapping_add((x as i32 * m[0][0] as i32) as i32, (y as i32 * m[0][1] as i32) as i32),
        (z as i32 * m[0][2] as i32) as i32,
    ) >> 15u32) as i16
}

fn inner_row0(m: [[i16; 3]; 3], x: i16, y: i16, z: i16) -> (s: i16)
    ensures
        s == spec_inner_row0(m, x, y, z),
{
    let a = mul_i16(x, m[0][0]);
    let b = mul_i16(y, m[0][1]);
    let c = mul_i16(z, m[0][2]);
    (a.wrapping_add(b).wrapping_add(c) >> 15u32) as i16
}

/// Sum of squares of (x, y, z) minus r^2, with 32-bit wrap-around.
pub open spec fn spec_range_sq(x: i16, y: i16, z: i16, r: i16) -> i32 {
    vstd::wrapping::i32_specs::wrapping_sub(
        vstd::wrapping::i32_specs::wrapping_add(
            vstd::wrapping::i32_specs::wrapping_add((x as i32 * x as i32) as i32, (y as i32 * y as i32) as i32),
            (z as i32 * z as i32) as i32,
        ),
        (r as i32 * r as i32) as i32,
    )
}

fn range_sq(x: i16, y: i16, z: i16, r: i16) -> (s: i32)
    ensures
        s == spec_range_sq(x, y, z, r),
{
    mul_i16(x, x).wrapping_add(mul_i16(y, y)).wrapping_add(mul_i16(z, z)).wrapping_sub(mul_i16(r, r))
}

/// Full 32-bit product of two i16 values.
fn mul_i16(a: i16, b: i16) -> (r: i32)
    ensures
        r == (a as i32 * b as i32) as i32,
        r == a as i32 * b as i32,
{
    let (a, b) = (a as i32, b as i32);
    assert(-0x4000_0000 <= a * b <= 0x4000_0000) by (nonlinear_arith)
        requires
            -32768 <= a <= 32767,
            -32768 <= b <= 32767,
    ;
    a * b
}

/// Parameter words a command byte asks for, and the command it is stored
/// as (some aliases collapse onto one command); 0 words: not a command.
pub open spec fn spec_command_entry(b: u8) -> (u8, u32) {
    if b == 0x00 || b == 0x30 || b == 0x10 || b == 0x20 || b == 0x24 || b == 0x04 || b == 0x1e
        || b == 0x2e || b == 0x3e || b == 0x0e {
        (b, 2)
    } else if b == 0x08 || b == 0x28 || b == 0x2c || b == 0x0c || b == 0x16 || b == 0x26 || b
        == 0x36 || b == 0x06 || b == 0x09 || b == 0x39 || b == 0x3d || b == 0x0d || b == 0x19 || b
        == 0x1d || b == 0x29 || b == 0x2d || b == 0x33 || b == 0x03 || b == 0x13 || b == 0x23 || b
        == 0x3b || b == 0x0b || b == 0x1b || b == 0x2b {
        (b, 3)
    } else if b == 0x18 || b == 0x38 || b == 0x05 || b == 0x35 || b == 0x31 || b == 0x01 || b
        == 0x15 || b == 0x11 || b == 0x25 || b == 0x21 {
        (b, 4)
    } else if b == 0x3c || b == 0x1c || b == 0x34 || b == 0x14 {
        (b, 6)
    } else if b == 0x32 || b == 0x22 || b == 0x12 || b == 0x02 {
        (b, 7)
    } else if b == 0x0a || b == 0x07 || b == 0x0f || b == 0x27 || b == 0x2f || b == 0x1f {
        (b, 1)
    } else if b == 0x3a || b == 0x2a || b == 0x1a {
        (0x1a, 1)
    } else if b == 0x17 || b == 0x37 || b == 0x3f {
        (0x1f, 1)
    } else {
        (b, 0)
    }
}

fn command_entry(b: u8) -> (r: (u8, u32))
    ensures
        r == spec_command_entry(b),
{
    match b {
        0x00 | 0x30 | 0x10 | 0x20 | 0x24 | 0x04 | 0x1e | 0x2e | 0x3e | 0x0e => (b, 2),
        0x08 | 0x28 | 0x2c | 0x0c | 0x16 | 0x26 | 0x36 | 0x06 | 0x09 | 0x39 | 0x3d | 0x0d | 0x19
        | 0x1d | 0x29 | 0x2d | 0x33 | 0x03 | 0x13 | 0x23 | 0x3b | 0x0b | 0x1b | 0x2b => (b, 3),
        0x18 | 0x38 | 0x05 | 0x35 | 0x31 | 0x01 | 0x15 | 0x11 | 0x25 | 0x21 => (b, 4),
        0x3c | 0x1c | 0x34 | 0x14 => (b, 6),
        0x32 | 0x22 | 0x12 | 0x02 => (b, 7),
        0x0a | 0x07 | 0x0f | 0x27 | 0x2f | 0x1f => (b, 1),
        0x3a | 0x2a | 0x1a => (0x1a, 1),
        0x17 | 0x37 | 0x3f => (0x1f, 1),
        _ => (b, 0),
    }
}

/// Result bytes a completed command leaves to be read (`prev` for the
/// attitude commands, which produce none and leave the count alone).
pub open spec fn spec_result_bytes(c: u8, prev: u32) -> u32 {
    if c == 0x1f {
        2048
    } else if c == 0x00 || c == 0x20 || c == 0x18 || c == 0x38 || c == 0x28 || c == 0x3b || c
        == 0x0b || c == 0x1b || c == 0x2b || c == 0x27 || c == 0x2f || c == 0x07 || c == 0x0f {
        2
    } else if c == 0x30 || c == 0x10 || c == 0x24 || c == 0x04 || c == 0x08 || c == 0x2c || c
        == 0x0c || c == 0x1e || c == 0x2e || c == 0x3e || c == 0x0e {
        4
    } else if c == 0x3c || c == 0x1c || c == 0x16 || c == 0x26 || c == 0x36 || c == 0x06 || c
        == 0x09 || c == 0x39 || c == 0x3d || c == 0x0d || c == 0x19 || c == 0x1d || c == 0x29 || c
        == 0x2d || c == 0x33 || c == 0x03 || c == 0x13 || c == 0x23 || c == 0x34 || c == 0x14 {
        6
    } else if c == 0x32 || c == 0x22 || c == 0x12 || c == 0x02 || c == 0x3a || c == 0x2a || c
        == 0x1a || c == 0x0a {
        8
    } else {
        prev
    }
}

/// Commands other than the matrix ones: scalar math, projection, raster
/// and the ROM dump.
pub open spec fn vector_command(c: u8) -> bool {
    c == 0x1f || c == 0x00 || c == 0x20 || c == 0x30 || c == 0x10 || c == 0x24 || c == 0x04 || c
        == 0x08 || c == 0x18 || c == 0x38 || c == 0x28 || c == 0x2c || c == 0x0c || c == 0x3c || c
        == 0x1c || c == 0x32 || c == 0x22 || c == 0x12 || c == 0x02 || c == 0x16 || c == 0x26 || c
        == 0x36 || c == 0x06 || c == 0x1e || c == 0x2e || c == 0x3e || c == 0x0e
}

/// Byte `get_byte` returns for the last read of a ROM dump (command $1F):
/// the ROM word at half the read position, low byte at odd positions.
pub open spec fn spec_dump_byte(t: Dsp1Tables, pos: u32) -> u8 {
    let w = t.spec_rom_at((pos >> 1u32) as int);
    if pos % 2 != 0 {
        w as u8
    } else {
        (w >> 8u32) as u8
    }
}

impl Dsp1 {
    /// The matrix an objective command uses: B for $19/$1D, C for $29/$2D,
    /// A for the others.
    pub open spec fn objective_matrix(&self, c: u8) -> [[i16; 3]; 3] {
        if c == 0x19 || c == 0x1d {
            self.matrix_b
        } else if c == 0x29 || c == 0x2d {
            self.matrix_c
        } else {
            self.matrix_a
        }
    }

    /// The matrix a subjective command uses: B for $13, C for $23, A for
    /// the others.
    pub open spec fn subjective_matrix(&self, c: u8) -> [[i16; 3]; 3] {
        if c == 0x13 {
            self.matrix_b
        } else if c == 0x23 {
            self.matrix_c
        } else {
            self.matrix_a
        }
    }
}

impl Dsp1 {
    /// The port protocol state and the tables are the same in `a` and `b`.
    pub open spec fn same_protocol(a: Dsp1, b: Dsp1) -> bool {
        &&& a.waiting4command == b.waiting4command
        &&& a.first_parameter == b.first_parameter
        &&& a.command == b.command
        &&& a.in_count == b.in_count
        &&& a.in_index == b.in_index
        &&& a.out_count == b.out_count
        &&& a.out_index == b.out_index
        &&& a.parameters == b.parameters
        &&& a.output == b.output
        &&& a.command_log_count == b.command_log_count
        &&& a.command_histogram == b.command_histogram
        &&& a.tables == b.tables
    }

    pub open spec fn wf(&self) -> bool {
        &&& self.in_index <= 14
        &&& self.in_count <= 14
        &&& !self.waiting4command ==> 1 <= self.in_count && self.in_index + self.in_count <= 14
        &&& self.out_index + self.out_count <= 2048
    }

    /// Power-on state with blank mask-ROM tables.
    pub fn new() -> (d: Self)
        ensures
            d.wf(),
            d.waiting4command,
            d.first_parameter,
            d.command == 0,
            d.in_count == 0,
            d.in_index == 0,
            d.out_count == 0,
            d.out_index == 0,
            d.command_log_count == 0,
            d.tables.wf(),
    {
        Self::with_tables(Dsp1Tables::blank())
    }

    /// Power-on state using the given mask-ROM tables.
    pub fn with_tables(tables: Dsp1Tables) -> (d: Self)
        ensures
            d.wf(),
            d.waiting4command,
            d.first_parameter,
            d.command == 0,
            d.in_count == 0,
            d.in_index == 0,
            d.out_count == 0,
            d.out_index == 0,
            d.command_log_count == 0,
            d.tables == tables,
    {
        Dsp1 {
            waiting4command: true,
            first_parameter: true,
            command: 0,
            in_count: 0,
            in_index: 0,
            out_count: 0,
            out_index: 0,
            parameters: [0; 512],
            output: [0; 512],
            command_log_count: 0,
            command_histogram: [0; 256],
            centre_x: 0,
            centre_y: 0,
            v_offset: 0,
            vplane_c: 0,
            vplane_e: 0,
            sin_aas: 0,
            cos_aas: 0,
            sin_azs: 0,
            cos_azs: 0,
            sin_azs_clip: 0,
            cos_azs_clip: 0,
            sec_azs_c1: 0,
            sec_azs_e1: 0,
            sec_azs_c2: 0,
            sec_azs_e2: 0,
            nx: 0,
            ny: 0,
            nz: 0,
            gx: 0,
            gy: 0,
            gz: 0,
            c_les: 0,
            e_les: 0,
            g_les: 0,
            matrix_a: [[0; 3]; 3],
            matrix_b: [[0; 3]; 3],
            matrix_c: [[0; 3]; 3],
            op00_multiplicand: 0,
            op00_multiplier: 0,
            op00_result: 0,
            op20_multiplicand: 0,
            op20_multiplier: 0,
            op20_result: 0,
            op10_coefficient: 0,
            op10_exponent: 0,
            op10_coefficient_r: 0,
            op10_exponent_r: 0,
            op04_angle: 0,
            op04_radius: 0,
            op04_sin: 0,
            op04_cos: 0,
            op0c_a: 0,
            op0c_x1: 0,
            op0c_y1: 0,
            op0c_x2: 0,
            op0c_y2: 0,
            op02_fx: 0,
            op02_fy: 0,
            op02_fz: 0,
            op02_lfe: 0,
            op02_les: 0,
            op02_aas: 0,
            op02_azs: 0,
            op02_vof: 0,
            op02_vva: 0,
            op02_cx: 0,
            op02_cy: 0,
            op0a_vs: 0,
            op0a_a: 0,
            op0a_b: 0,
            op0a_c: 0,
            op0a_d: 0,
            op06_x: 0,
            op06_y: 0,
            op06_z: 0,
            op06_h: 0,
            op06_v: 0,
            op06_m: 0,
            op01_m: 0,
            op01_zr: 0,
            op01_xr: 0,
            op01_yr: 0,
            op11_m: 0,
            op11_zr: 0,
            op11_xr: 0,
            op11_yr: 0,
            op21_m: 0,
            op21_zr: 0,
            op21_xr: 0,
            op21_yr: 0,
            op0d_x: 0,
            op0d_y: 0,
            op0d_z: 0,
            op0d_f: 0,
            op0d_l: 0,
            op0d_u: 0,
            op1d_x: 0,
            op1d_y: 0,
            op1d_z: 0,
            op1d_f: 0,
            op1d_l: 0,
            op1d_u: 0,
            op2d_x: 0,
            op2d_y: 0,
            op2d_z: 0,
            op2d_f: 0,
            op2d_l: 0,
            op2d_u: 0,
            op03_f: 0,
            op03_l: 0,
            op03_u: 0,
            op03_x: 0,
            op03_y: 0,
            op03_z: 0,
            op13_f: 0,
            op13_l: 0,
            op13_u: 0,
            op13_x: 0,
            op13_y: 0,
            op13_z: 0,
            op23_f: 0,
            op23_l: 0,
            op23_u: 0,
            op23_x: 0,
            op23_y: 0,
            op23_z: 0,
            op14_zr: 0,
            op14_xr: 0,
            op14_yr: 0,
            op14_u: 0,
            op14_f: 0,
            op14_l: 0,
            op14_zrr: 0,
            op14_xrr: 0,
            op14_yrr: 0,
            op0e_h: 0,
            op0e_v: 0,
            op0e_x: 0,
            op0e_y: 0,
            op0b_x: 0,
            op0b_y: 0,
            op0b_z: 0,
            op0b_s: 0,
            op1b_x: 0,
            op1b_y: 0,
            op1b_z: 0,
            op1b_s: 0,
            op2b_x: 0,
            op2b_y: 0,
            op2b_z: 0,
            op2b_s: 0,
            op28_x: 0,
            op28_y: 0,
            op28_z: 0,
            op28_r: 0,
            op1c_x: 0,
            op1c_y: 0,
            op1c_z: 0,
            op1c_xbr: 0,
            op1c_ybr: 0,
            op1c_zbr: 0,
            op1c_xar: 0,
            op1c_yar: 0,
            op1c_zar: 0,
            op1c_x1: 0,
            op1c_y1: 0,
            op1c_z1: 0,
            op0f_ramsize: 0,
            op0f_pass: 0,
            op2f_unknown: 0,
            op2f_size: 0,
            op08_x: 0,
            op08_y: 0,
            op08_z: 0,
            op08_ll: 0,
            op08_lh: 0,
            op18_x: 0,
            op18_y: 0,
            op18_z: 0,
            op18_r: 0,
            op18_d: 0,
            op38_x: 0,
            op38_y: 0,
            op38_z: 0,
            op38_r: 0,
            op38_d: 0,
            tables,
        }
    }

    fn op00(&mut self)
        ensures
            *final(self) == (Dsp1 { op00_result: q15(old(self).op00_multiplicand, old(self).op00_multiplier), ..*old(self) }),
    {
        self.op00_result = mul15(self.op00_multiplicand as i32, self.op00_multiplier as i32) as i16;
    }

    fn op20(&mut self)
        ensures
            *final(self) == (Dsp1 {
                op20_result: vstd::wrapping::i16_specs::wrapping_add(q15(old(self).op20_multiplicand, old(self).op20_multiplier), 1),
                ..*old(self)
            }),
    {
        self.op20_result = mul15(self.op20_multiplicand as i32, self.op20_multiplier as i32) as i16;
        self.op20_result = self.op20_result.wrapping_add(1);
    }

    fn op10(&mut self)
        ensures
            Self::same_protocol(*old(self), *final(self)),
            old(self).op10_coefficient == 0 ==> final(self).op10_coefficient_r == 0x7fff && final(self).op10_exponent_r
                == 0x2f,
    {
        let (c, e) = dsp1_inverse(&self.tables, self.op10_coefficient, self.op10_exponent);
        self.op10_coefficient_r = c;
        self.op10_exponent_r = e;
    }

    fn op04(&mut self)
        ensures
            Self::same_protocol(*old(self), *final(self)),
            final(self).op04_sin == spec_mul15(
                spec_dsp1_sin(old(self).tables, old(self).op04_angle) as int,
                old(self).op04_radius as int,
            ) as i16,
            final(self).op04_cos == spec_mul15(
                spec_dsp1_cos(old(self).tables, old(self).op04_angle) as int,
                old(self).op04_radius as int,
            ) as i16,
    {
        self.op04_sin = mul15(dsp1_sin(&self.tables, self.op04_angle) as i32, self.op04_radius as i32) as i16;
        self.op04_cos = mul15(dsp1_cos(&self.tables, self.op04_angle) as i32, self.op04_radius as i32) as i16;
    }

    fn op0c(&mut self)
        ensures
            Self::same_protocol(*old(self), *final(self)),
    {
        let s = dsp1_sin(&self.tables, self.op0c_a) as i32;
        let c = dsp1_cos(&self.tables, self.op0c_a) as i32;
        self.op0c_x2 = (mul15(self.op0c_y1 as i32, s) + mul15(self.op0c_x1 as i32, c)) as i16;
        self.op0c_y2 = (mul15(self.op0c_y1 as i32, c) - mul15(self.op0c_x1 as i32, s)) as i16;
    }

    /// Projection parameters: returns (Vof, Vva, Cx, Cy).
    #[verifier::rlimit(40)]
    #[verifier::spinoff_prover]
    fn parameter(&mut self, fx: i16, fy: i16, fz: i16, lfe: i16, les: i16, aas: i16, azs: i16) -> (r: (i16, i16, i16, i16))
        ensures
            Self::same_protocol(*old(self), *final(self)),
            final(self).sin_aas == spec_dsp1_sin(old(self).tables, aas),
            final(self).cos_aas == spec_dsp1_cos(old(self).tables, aas),
            final(self).sin_azs == spec_dsp1_sin(old(self).tables, azs),
            final(self).cos_azs == spec_dsp1_cos(old(self).tables, azs),
            final(self).nx == spec_mul15(final(self).sin_azs as int, -(final(self).sin_aas as int)) as i16,
            final(self).ny == spec_mul15(final(self).sin_azs as int, final(self).cos_aas as int) as i16,
            final(self).nz == spec_mul15(final(self).cos_azs as int, 0x7fff) as i16,
            final(self).g_les == les,
            r.2 == final(self).centre_x && r.3 == final(self).centre_y,
    {
        let mut c: i16;
        let mut e: i16;
        // Copy of the zenith angle for clipping
        let mut azs_clip = azs;
        // Sine and cosine of the azimuth and zenith angles
        self.sin_aas = dsp1_sin(&self.tables, aas);
        self.cos_aas = dsp1_cos(&self.tables, aas);
        self.sin_azs = dsp1_sin(&self.tables, azs);
        self.cos_azs = dsp1_cos(&self.tables, azs);
        self.nx = mul15(self.sin_azs as i32, -(self.sin_aas as i32)) as i16;
        self.ny = mul15(self.sin_azs as i32, self.cos_aas as i32) as i16;
        self.nz = mul15(self.cos_azs as i32, 0x7fff) as i16;
        let lfe_nx = mul15(lfe as i32, self.nx as i32) as i16;
        let lfe_ny = mul15(lfe as i32, self.ny as i32) as i16;
        let lfe_nz = mul15(lfe as i32, self.nz as i32) as i16;
        // Centre of projection
        self.centre_x = (fx as i32 + lfe_nx as i32) as i16;
        self.centre_y = (fy as i32 + lfe_ny as i32) as i16;
        let centre_z: i16 = (fz as i32 + lfe_nz as i32) as i16;
        let les_nx = mul15(les as i32, self.nx as i32) as i16;
        let les_ny = mul15(les as i32, self.ny as i32) as i16;
        let les_nz = mul15(les as i32, self.nz as i32) as i16;
        self.gx = (self.centre_x as i32 - les_nx as i32) as i16;
        self.gy = (self.centre_y as i32 - les_ny as i32) as i16;
        self.gz = (centre_z as i32 - les_nz as i32) as i16;
        let (cl, el) = dsp1_normalize(&self.tables, les, 0);
        self.c_les = cl;
        self.e_les = el;
        self.g_les = les;
        let (c0, e0) = dsp1_normalize(&self.tables, centre_z, 0);
        c = c0;
        e = e0;
        self.vplane_c = c;
        self.vplane_e = e;
        // Clip boundary of the zenith angle
        let mut max_azs = max_azs_exp(-e);
        if azs_clip < 0 {
            max_azs = -max_azs;
            if azs_clip < max_azs.wrapping_add(1) {
                azs_clip = max_azs.wrapping_add(1);
            }
        } else if azs_clip > max_azs {
            azs_clip = max_azs;
        }
        // Sine and cosine of the clipped zenith angle
        self.sin_azs_clip = dsp1_sin(&self.tables, azs_clip);
        self.cos_azs_clip = dsp1_cos(&self.tables, azs_clip);
        let (sc, se) = dsp1_inverse(&self.tables, self.cos_azs_clip, 0);
        self.sec_azs_c1 = sc;
        self.sec_azs_e1 = se;
        let (c1, e1) = dsp1_normalize(&self.tables, mul15(c as i32, self.sec_azs_c1 as i32) as i16, e);
        c = c1;
        e = e1.wrapping_add(self.sec_azs_e1);
        c = mul15(dsp1_truncate(&self.tables, c, e) as i32, self.sin_azs_clip as i32) as i16;
        self.centre_x = (self.centre_x as i32 + mul15(c as i32, self.sin_aas as i32)) as i16;
        self.centre_y = (self.centre_y as i32 - mul15(c as i32, self.cos_aas as i32)) as i16;
        let cx = self.centre_x;
        let cy = self.centre_y;
        // Raster number of the imaginary centre and horizontal line
        let mut vof: i16 = 0;
        if azs != azs_clip || azs == max_azs {
            let mut azs_in = azs;
            if azs_in == -32768 {
                azs_in = -32767;
            }
            c = azs_in.wrapping_sub(max_azs);
            if c >= 0 {
                c = c.wrapping_sub(1);
            }
            let mut aux: i16 = (!(c as i32 * 4)) as i16;
            c = shr15(mul_rom(aux as i32, self.tables.rom_at(0x0328))) as i16;
            c = (mul15(c as i32, aux as i32) + self.tables.rom_at(0x0327)) as i16;
            vof = (vof as i32 - mul15(mul15(c as i32, aux as i32), les as i32)) as i16;
            c = mul15(aux as i32, aux as i32) as i16;
            aux = (shr15(mul_rom(c as i32, self.tables.rom_at(0x0324))) + self.tables.rom_at(0x0325)) as i16;
            self.cos_azs_clip = (self.cos_azs_clip as i32 + mul15(mul15(c as i32, aux as i32), self.cos_azs_clip as i32)) as i16;
        }
        self.v_offset = mul15(les as i32, self.cos_azs_clip as i32) as i16;
        let (csec, e2) = dsp1_inverse(&self.tables, self.sin_azs_clip, 0);
        let (c3, e3) = dsp1_normalize(&self.tables, self.v_offset, e2);
        let (c4, e4) = dsp1_normalize(&self.tables, mul15(c3 as i32, csec as i32) as i16, e3);
        c = c4;
        e = e4;
        if c == -32768 {
            c = c >> 1u16;
            e = e.wrapping_add(1);
        }
        let vva = dsp1_truncate(&self.tables, 0i16.wrapping_sub(c), e);
        // Secant of the clipped zenith angle
        let (sc2, se2) = dsp1_inverse(&self.tables, self.cos_azs_clip, 0);
        self.sec_azs_c2 = sc2;
        self.sec_azs_e2 = se2;
        (vof, vva, cx, cy)
    }

    /// Mode 7 matrix for raster line `vs`: returns (A, B, C, D).
    fn raster(&self, vs: i16) -> (r: (i16, i16, i16, i16)) {
        let (c0, e0) = dsp1_inverse(&self.tables, (mul15(vs as i32, self.sin_azs as i32) + self.v_offset as i32) as i16, 7);
        let e = e0.wrapping_add(self.vplane_e);
        let c1: i16 = mul15(c0 as i32, self.vplane_c as i32) as i16;
        let e1: i16 = e.wrapping_add(self.sec_azs_e2);
        let (c2, e2) = dsp1_normalize(&self.tables, c1, e);
        let c = dsp1_truncate(&self.tables, c2, e2);
        let an = mul15(c as i32, self.cos_aas as i32) as i16;
        let cn = mul15(c as i32, self.sin_aas as i32) as i16;
        let (c3, e3) = dsp1_normalize(&self.tables, mul15(c1 as i32, self.sec_azs_c2 as i32) as i16, e1);
        let c = dsp1_truncate(&self.tables, c3, e3);
        let bn = mul15(c as i32, -(self.sin_aas as i32)) as i16;
        let dn = mul15(c as i32, self.cos_aas as i32) as i16;
        (an, bn, cn, dn)
    }

    fn op02(&mut self)
        ensures
            Self::same_protocol(*old(self), *final(self)),
    {
        let (vof, vva, cx, cy) = self.parameter(
            self.op02_fx,
            self.op02_fy,
            self.op02_fz,
            self.op02_lfe,
            self.op02_les,
            self.op02_aas,
            self.op02_azs,
        );
        self.op02_vof = vof;
        self.op02_vva = vva;
        self.op02_cx = cx;
        self.op02_cy = cy;
    }

    fn op0a(&mut self)
        ensures
            *final(self) == (Dsp1 {
                op0a_a: final(self).op0a_a,
                op0a_b: final(self).op0a_b,
                op0a_c: final(self).op0a_c,
                op0a_d: final(self).op0a_d,
                op0a_vs: final(self).op0a_vs,
                ..*old(self)
            }),
    {
        let (a, b, c, d) = self.raster(self.op0a_vs);
        self.op0a_a = a;
        self.op0a_b = b;
        self.op0a_c = c;
        self.op0a_d = d;
        self.op0a_vs = self.op0a_vs.wrapping_add(1);
    }

    /// Project a point onto the screen: returns (H, V, M).
    #[verifier::rlimit(40)]
    #[verifier::spinoff_prover]
    fn project(&self, x: i16, y: i16, z: i16) -> (r: (i16, i16, i16)) {
        let t = &self.tables;
        let (px0, e40) = dsp1_normalize_double(t, x as i32 - self.gx as i32);
        let (py0, e0) = dsp1_normalize_double(t, y as i32 - self.gy as i32);
        let (pz0, e30) = dsp1_normalize_double(t, z as i32 - self.gz as i32);
        // Halved to keep the scalar products from overflowing
        let px = px0 >> 1u16;
        let e4 = e40 - 1;
        let py = py0 >> 1u16;
        let e = e0 - 1;
        let pz = pz0 >> 1u16;
        let e3 = e30 - 1;
        let mut ref_e = if e < e3 {
            e
        } else {
            e3
        };
        ref_e = if ref_e < e4 {
            ref_e
        } else {
            e4
        };
        // Bring all three to the same exponent
        let px = dsp1_shift_r(t, px, e4 - ref_e);
        let py = dsp1_shift_r(t, py, e - ref_e);
        let pz = dsp1_shift_r(t, pz, e3 - ref_e);
        let c11: i16 = (-mul15(px as i32, self.nx as i32)) as i16;
        let c8: i16 = (-mul15(py as i32, self.ny as i32)) as i16;
        let c9: i16 = (-mul15(pz as i32, self.nz as i32)) as i16;
        let c12: i16 = (c11 as i32 + c8 as i32 + c9 as i32) as i16;
        // De-normalise with 32-bit arithmetic
        let mut aux4: i32 = c12 as i32;
        ref_e = 16 - ref_e;
        if ref_e >= 0 {
            aux4 = aux4.wrapping_shl(ref_e as u32);
        } else {
            aux4 = aux4 >> ((-ref_e) as u32);
        }
        if aux4 == -1 {
            aux4 = 0;
        }
        aux4 = aux4 >> 1u32;
        // Les: scalar product of P with the screen normal
        let aux: i32 = (self.g_les as u16 as i32).wrapping_add(aux4);
        let (c10, e2a) = dsp1_normalize_double(t, aux);
        let e2 = 15i16.wrapping_sub(e2a);
        let (c4, e4b) = dsp1_inverse(t, c10, 0);
        // Scale factor
        let c2: i16 = mul15(c4 as i32, self.c_les as i32) as i16;
        // H
        let c16: i16 = mul15(px as i32, mul15(self.cos_aas as i32, 0x7fff)) as i16;
        let c20: i16 = mul15(py as i32, mul15(self.sin_aas as i32, 0x7fff)) as i16;
        let c17: i16 = (c16 as i32 + c20 as i32) as i16;
        let c18: i16 = mul15(c17 as i32, c2 as i32) as i16;
        let (c19, e7) = dsp1_normalize(t, c18, 0);
        let h = dsp1_truncate(t, c19, (self.e_les as i32 - e2 as i32 + ref_e as i32 + e7 as i32) as i16);
        // V
        let c21: i16 = mul15(px as i32, mul15(self.cos_azs as i32, -(self.sin_aas as i32))) as i16;
        let c22: i16 = mul15(py as i32, mul15(self.cos_azs as i32, self.cos_aas as i32)) as i16;
        let c23: i16 = mul15(pz as i32, mul15(-(self.sin_azs as i32), 0x7fff)) as i16;
        let c24: i16 = (c21 as i32 + c22 as i32 + c23 as i32) as i16;
        let c26: i16 = mul15(c24 as i32, c2 as i32) as i16;
        let (c25, e6) = dsp1_normalize(t, c26, 0);
        let v = dsp1_truncate(t, c25, (self.e_les as i32 - e2 as i32 + ref_e as i32 + e6 as i32) as i16);
        // M: the scale factor divided by 2^7
        let (c6, e4c) = dsp1_normalize(t, c2, e4b);
        let m = dsp1_truncate(t, c6, (e4c as i32 + self.e_les as i32 - e2 as i32 - 7) as i16);
        (h, v, m)
    }

    fn op06(&mut self)
        ensures
            Self::same_protocol(*old(self), *final(self)),
    {
        let (h, v, m) = self.project(self.op06_x, self.op06_y, self.op06_z);
        self.op06_h = h;
        self.op06_v = v;
        self.op06_m = m;
    }

    fn op01(&mut self)
        ensures
            Self::same_protocol(*old(self), *final(self)),
    {
        self.op01_m = self.op01_m >> 1u16;
        self.matrix_a = attitude_matrix(&self.tables, self.op01_m, self.op01_zr, self.op01_yr, self.op01_xr);
    }

    fn op11(&mut self)
        ensures
            Self::same_protocol(*old(self), *final(self)),
    {
        self.op11_m = self.op11_m >> 1u16;
        self.matrix_b = attitude_matrix(&self.tables, self.op11_m, self.op11_zr, self.op11_yr, self.op11_xr);
    }

    fn op21(&mut self)
        ensures
            Self::same_protocol(*old(self), *final(self)),
    {
        self.op21_m = self.op21_m >> 1u16;
        self.matrix_c = attitude_matrix(&self.tables, self.op21_m, self.op21_zr, self.op21_yr, self.op21_xr);
    }

    fn op14(&mut self)
        ensures
            Self::same_protocol(*old(self), *final(self)),
    {
        let t = &self.tables;
        let (csec, esec) = dsp1_inverse(t, dsp1_cos(t, self.op14_xr), 0);
        let cy = dsp1_cos(t, self.op14_yr);
        let sy = dsp1_sin(t, self.op14_yr);
        // Rotation around Z
        let (c0, e0) = dsp1_normalize_double(t, mul_i16(self.op14_u, cy).wrapping_sub(mul_i16(self.op14_f, sy)));
        let e = esec.wrapping_sub(e0);
        let (c1, e1) = dsp1_normalize(t, mul15(c0 as i32, csec as i32) as i16, e);
        let zrr = self.op14_zr.wrapping_add(dsp1_truncate(t, c1, e1));
        // Rotation around X
        let xrr = (self.op14_xr as i32 + mul15(self.op14_u as i32, sy as i32) + mul15(self.op14_f as i32, cy as i32)) as i16;
        // Rotation around Y
        let (c2, e2) = dsp1_normalize_double(t, mul_i16(self.op14_u, cy).wrapping_add(mul_i16(self.op14_f, sy)));
        let e = esec.wrapping_sub(e2);
        let (csin, e3) = dsp1_normalize(t, dsp1_sin(t, self.op14_xr), e);
        let ctan: i16 = mul15(csec as i32, csin as i32) as i16;
        let (c4, e4) = dsp1_normalize(t, (-mul15(c2 as i32, ctan as i32)) as i16, e3);
        let yrr = (self.op14_yr as i32 + dsp1_truncate(t, c4, e4) as i32 + self.op14_l as i32) as i16;
        self.op14_zrr = zrr;
        self.op14_xrr = xrr;
        self.op14_yrr = yrr;
    }

    /// Screen point (H, V) back to ground coordinates: returns (X, Y).
    fn target(&self, h: i16, v: i16) -> (r: (i16, i16)) {
        let t = &self.tables;
        let (c0, e0) = dsp1_inverse(t, (mul15(v as i32, self.sin_azs as i32) + self.v_offset as i32) as i16, 8);
        let e = e0.wrapping_add(self.vplane_e);
        let c1: i16 = mul15(c0 as i32, self.vplane_c as i32) as i16;
        let e1: i16 = e.wrapping_add(self.sec_azs_e1);
        let h: i16 = (h as i32 * 256) as i16;
        let (c2, e2) = dsp1_normalize(t, c1, e);
        let c = mul15(dsp1_truncate(t, c2, e2) as i32, h as i32) as i16;
        let x = (self.centre_x as i32 + mul15(c as i32, self.cos_aas as i32)) as i16;
        let y = (self.centre_y as i32 - mul15(c as i32, self.sin_aas as i32)) as i16;
        let v: i16 = (v as i32 * 256) as i16;
        let (c3, e3) = dsp1_normalize(t, mul15(c1 as i32, self.sec_azs_c1 as i32) as i16, e1);
        let c = mul15(dsp1_truncate(t, c3, e3) as i32, v as i32) as i16;
        let x = (x as i32 + mul15(c as i32, -(self.sin_aas as i32))) as i16;
        let y = (y as i32 + mul15(c as i32, self.cos_aas as i32)) as i16;
        (x, y)
    }

    fn op0e(&mut self)
        ensures
            Self::same_protocol(*old(self), *final(self)),
    {
        let (x, y) = self.target(self.op0e_h, self.op0e_v);
        self.op0e_x = x;
        self.op0e_y = y;
    }

    fn op08(&mut self)
        ensures
            Self::same_protocol(*old(self), *final(self)),
    {
        let size: i32 = mul_i16(self.op08_x, self.op08_x).wrapping_add(mul_i16(self.op08_y, self.op08_y)).wrapping_add(
            mul_i16(self.op08_z, self.op08_z),
        ).wrapping_shl(1);
        self.op08_ll = (size & 0xffff) as i16;
        self.op08_lh = ((size >> 16u32) & 0xffff) as i16;
    }

    fn op28(&mut self)
        ensures
            Self::same_protocol(*old(self), *final(self)),
    {
        let radius: i32 = mul_i16(self.op28_x, self.op28_x).wrapping_add(mul_i16(self.op28_y, self.op28_y)).wrapping_add(
            mul_i16(self.op28_z, self.op28_z),
        );
        if radius == 0 {
            self.op28_r = 0;
        } else {
            let (c0, e) = dsp1_normalize_double(&self.tables, radius);
            let mut c = c0;
            if e & 1 != 0 {
                c = mul15(c as i32, 0x4000) as i16;
            }
            let pos: i16 = mul15(c as i32, 0x0040) as i16;
            let node1 = self.tables.rom_at(0x00d5 + pos as i32) as u16 as i16;
            let node2 = self.tables.rom_at(0x00d6 + pos as i32) as u16 as i16;
            let frac = c as i32 & 0x1ff;
            proof {
                lemma_and_mask_i32(c as i32, 0x1ff);
            }
            let d = node2 as i32 - node1 as i32;
            assert(-65535 * 0x1ff <= d * frac <= 65535 * 0x1ff) by (nonlinear_arith)
                requires
                    -65535 <= d <= 65535,
                    0 <= frac <= 0x1ff,
            ;
            let p = d * frac;
            proof {
                lemma_dsp1_shift_values();
                lemma_asr_i32_bounds(p, 9u32, -33_553_920i32, 33_553_920i32);
            }
            self.op28_r = ((p >> 9u32) + node1 as i32) as i16;
            self.op28_r = self.op28_r.wrapping_shr((e >> 1u16) as u32);
        }
    }

    fn op1c(&mut self)
        ensures
            Self::same_protocol(*old(self), *final(self)),
    {
        let t = &self.tables;
        let (sz, cz) = (dsp1_sin(t, self.op1c_z) as i32, dsp1_cos(t, self.op1c_z) as i32);
        let (sy, cy) = (dsp1_sin(t, self.op1c_y) as i32, dsp1_cos(t, self.op1c_y) as i32);
        let (sx, cx) = (dsp1_sin(t, self.op1c_x) as i32, dsp1_cos(t, self.op1c_x) as i32);
        // Rotate around Z
        let x1 = (mul15(self.op1c_ybr as i32, sz) + mul15(self.op1c_xbr as i32, cz)) as i16;
        let y1 = (mul15(self.op1c_ybr as i32, cz) - mul15(self.op1c_xbr as i32, sz)) as i16;
        self.op1c_xbr = x1;
        self.op1c_ybr = y1;
        // Rotate around Y
        let z1 = (mul15(self.op1c_xbr as i32, sy) + mul15(self.op1c_zbr as i32, cy)) as i16;
        let x1 = (mul15(self.op1c_xbr as i32, cy) - mul15(self.op1c_zbr as i32, sy)) as i16;
        self.op1c_xar = x1;
        self.op1c_zbr = z1;
        // Rotate around X
        let y1 = (mul15(self.op1c_zbr as i32, sx) + mul15(self.op1c_ybr as i32, cx)) as i16;
        let z1 = (mul15(self.op1c_zbr as i32, cx) - mul15(self.op1c_ybr as i32, sx)) as i16;
        self.op1c_x1 = x1;
        self.op1c_y1 = y1;
        self.op1c_z1 = z1;
        self.op1c_yar = y1;
        self.op1c_zar = z1;
    }
}

impl Dsp1 {
    /// Run the command whose parameters have all arrived.
    #[verifier::rlimit(60)]
    #[verifier::spinoff_prover]
    fn execute_command(&mut self)
        requires
            old(self).out_index == 0,
            old(self).out_count <= 2048,
        ensures
            final(self).out_count == spec_result_bytes(old(self).command, old(self).out_count),
            final(self).out_index == old(self).out_index,
            final(self).in_index == if old(self).command == 0x3a || old(self).command == 0x2a
                || old(self).command == 0x1a || old(self).command == 0x0a {
                0
            } else {
                old(self).in_index
            },
            final(self).waiting4command == old(self).waiting4command,
            final(self).first_parameter == old(self).first_parameter,
            final(self).command == old(self).command,
            final(self).in_count == old(self).in_count,
            final(self).parameters == old(self).parameters,
            final(self).command_log_count == old(self).command_log_count,
            final(self).command_histogram == old(self).command_histogram,
            final(self).tables == old(self).tables,
            old(self).command == 0x00 ==> buf_word(final(self).output, 0) == q15(
                buf_word(old(self).parameters, 0),
                buf_word(old(self).parameters, 2),
            ),
            old(self).command == 0x20 ==> buf_word(final(self).output, 0)
                == vstd::wrapping::i16_specs::wrapping_add(
                q15(buf_word(old(self).parameters, 0), buf_word(old(self).parameters, 2)),
                1,
            ),
            old(self).command == 0x18 ==> buf_word(final(self).output, 0) == (spec_range_sq(
                buf_word(old(self).parameters, 0),
                buf_word(old(self).parameters, 2),
                buf_word(old(self).parameters, 4),
                buf_word(old(self).parameters, 6),
            ) >> 15u32) as i16,
            (old(self).command == 0x3b || old(self).command == 0x0b) ==> buf_word(final(self).output, 0)
                == spec_inner_row0(
                old(self).matrix_a,
                buf_word(old(self).parameters, 0),
                buf_word(old(self).parameters, 2),
                buf_word(old(self).parameters, 4),
            ),
            (old(self).command == 0x07 || old(self).command == 0x0f) ==> buf_word(final(self).output, 0) == 0,
            (old(self).command == 0x04 || old(self).command == 0x24) ==> {
                &&& buf_word(final(self).output, 0) == spec_mul15(
                    spec_dsp1_sin(old(self).tables, buf_word(old(self).parameters, 0)) as int,
                    buf_word(old(self).parameters, 2) as int,
                ) as i16
                &&& buf_word(final(self).output, 2) == spec_mul15(
                    spec_dsp1_cos(old(self).tables, buf_word(old(self).parameters, 0)) as int,
                    buf_word(old(self).parameters, 2) as int,
                ) as i16
            },
            (old(self).command == 0x10 || old(self).command == 0x30) && buf_word(old(self).parameters, 0) == 0 ==> buf_word(
                final(self).output,
                0,
            ) == 0x7fff && buf_word(final(self).output, 2) == 0x2f,
            (old(self).command == 0x27 || old(self).command == 0x2f) ==> buf_word(final(self).output, 0) == 0x100,
            objective_command(old(self).command) ==> output_triple(final(self).output) == ({
                let (x, y, z) = parameter_triple(old(self).parameters);
                spec_objective(old(self).objective_matrix(old(self).command), x, y, z)
            }),
            subjective_command(old(self).command) ==> output_triple(final(self).output) == ({
                let (f, l, u) = parameter_triple(old(self).parameters);
                spec_subjective(old(self).subjective_matrix(old(self).command), f, l, u)
            }),
    {
        let c = self.command;
        if c == 0x1f {
            self.out_count = 2048;
        } else if c == 0x00 {
            // Multiply
            self.op00_multiplicand = read_word(&self.parameters, 0);
            self.op00_multiplier = read_word(&self.parameters, 2);
            self.op00();
            self.out_count = 2;
            write_word(&mut self.output, 0, self.op00_result);
        } else if c == 0x20 {
            // Multiply, rounded up
            self.op20_multiplicand = read_word(&self.parameters, 0);
            self.op20_multiplier = read_word(&self.parameters, 2);
            self.op20();
            self.out_count = 2;
            write_word(&mut self.output, 0, self.op20_result);
        } else if c == 0x30 || c == 0x10 {
            // Inverse
            self.op10_coefficient = read_word(&self.parameters, 0);
            self.op10_exponent = read_word(&self.parameters, 2);
            self.op10();
            self.out_count = 4;
            write_word(&mut self.output, 0, self.op10_coefficient_r);
            write_word(&mut self.output, 2, self.op10_exponent_r);
        } else if c == 0x24 || c == 0x04 {
            // Sine and cosine of an angle
            self.op04_angle = read_word(&self.parameters, 0);
            self.op04_radius = read_word(&self.parameters, 2);
            self.op04();
            self.out_count = 4;
            write_word(&mut self.output, 0, self.op04_sin);
            write_word(&mut self.output, 2, self.op04_cos);
        } else if c == 0x08 {
            // Radius
            self.op08_x = read_word(&self.parameters, 0);
            self.op08_y = read_word(&self.parameters, 2);
            self.op08_z = read_word(&self.parameters, 4);
            self.op08();
            self.out_count = 4;
            write_word(&mut self.output, 0, self.op08_ll);
            write_word(&mut self.output, 2, self.op08_lh);
        } else if c == 0x18 || c == 0x38 {
            // Range
            let x = read_word(&self.parameters, 0);
            let y = read_word(&self.parameters, 2);
            let z = read_word(&self.parameters, 4);
            let r = read_word(&self.parameters, 6);
            let d = (range_sq(x, y, z, r) >> 15u32) as i16;
            if c == 0x18 {
                self.op18_x = x;
                self.op18_y = y;
                self.op18_z = z;
                self.op18_r = r;
                self.op18_d = d;
                write_word(&mut self.output, 0, self.op18_d);
            } else {
                self.op38_x = x;
                self.op38_y = y;
                self.op38_z = z;
                self.op38_r = r;
                self.op38_d = d.wrapping_add(1);
                write_word(&mut self.output, 0, self.op38_d);
            }
            self.out_count = 2;
        } else if c == 0x28 {
            // Distance (vector length)
            self.op28_x = read_word(&self.parameters, 0);
            self.op28_y = read_word(&self.parameters, 2);
            self.op28_z = read_word(&self.parameters, 4);
            self.op28();
            self.out_count = 2;
            write_word(&mut self.output, 0, self.op28_r);
        } else if c == 0x2c || c == 0x0c {
            // 2D rotate
            self.op0c_a = read_word(&self.parameters, 0);
            self.op0c_x1 = read_word(&self.parameters, 2);
            self.op0c_y1 = read_word(&self.parameters, 4);
            self.op0c();
            self.out_count = 4;
            write_word(&mut self.output, 0, self.op0c_x2);
            write_word(&mut self.output, 2, self.op0c_y2);
        } else if c == 0x3c || c == 0x1c {
            // Polar (3D rotate); the parameter order is Z, Y, X
            self.op1c_z = read_word(&self.parameters, 0);
            self.op1c_y = read_word(&self.parameters, 2);
            self.op1c_x = read_word(&self.parameters, 4);
            self.op1c_xbr = read_word(&self.parameters, 6);
            self.op1c_ybr = read_word(&self.parameters, 8);
            self.op1c_zbr = read_word(&self.parameters, 10);
            self.op1c();
            self.out_count = 6;
            write_word(&mut self.output, 0, self.op1c_xar);
            write_word(&mut self.output, 2, self.op1c_yar);
            write_word(&mut self.output, 4, self.op1c_zar);
        } else if c == 0x32 || c == 0x22 || c == 0x12 || c == 0x02 {
            // Projection parameters
            self.op02_fx = read_word(&self.parameters, 0);
            self.op02_fy = read_word(&self.parameters, 2);
            self.op02_fz = read_word(&self.parameters, 4);
            self.op02_lfe = read_word(&self.parameters, 6);
            self.op02_les = read_word(&self.parameters, 8);
            self.op02_aas = read_word(&self.parameters, 10);
            self.op02_azs = read_word(&self.parameters, 12);
            self.op02();
            self.out_count = 8;
            write_word(&mut self.output, 0, self.op02_vof);
            write_word(&mut self.output, 2, self.op02_vva);
            write_word(&mut self.output, 4, self.op02_cx);
            write_word(&mut self.output, 6, self.op02_cy);
        } else if c == 0x3a || c == 0x2a || c == 0x1a || c == 0x0a {
            // Raster: Mode 7 matrix data, one line per 8 bytes read
            self.op0a_vs = read_word(&self.parameters, 0);
            self.op0a();
            self.out_count = 8;
            write_word(&mut self.output, 0, self.op0a_a);
            write_word(&mut self.output, 2, self.op0a_b);
            write_word(&mut self.output, 4, self.op0a_c);
            write_word(&mut self.output, 6, self.op0a_d);
            self.in_index = 0;
        } else if c == 0x16 || c == 0x26 || c == 0x36 || c == 0x06 {
            // Project object
            self.op06_x = read_word(&self.parameters, 0);
            self.op06_y = read_word(&self.parameters, 2);
            self.op06_z = read_word(&self.parameters, 4);
            self.op06();
            self.out_count = 6;
            write_word(&mut self.output, 0, self.op06_h);
            write_word(&mut self.output, 2, self.op06_v);
            write_word(&mut self.output, 4, self.op06_m);
        } else if c == 0x1e || c == 0x2e || c == 0x3e || c == 0x0e {
            // Target
            self.op0e_h = read_word(&self.parameters, 0);
            self.op0e_v = read_word(&self.parameters, 2);
            self.op0e();
            self.out_count = 4;
            write_word(&mut self.output, 0, self.op0e_x);
            write_word(&mut self.output, 2, self.op0e_y);
        } else {
            self.execute_matrix_command();
        }
    }

    /// The attitude, objective, subjective and scalar-product commands.
    #[verifier::rlimit(60)]
    #[verifier::spinoff_prover]
    fn execute_matrix_command(&mut self)
        requires
            old(self).out_index == 0,
            old(self).out_count <= 2048,
            !(old(self).command == 0x3a || old(self).command == 0x2a || old(self).command == 0x1a
                || old(self).command == 0x0a),
            !vector_command(old(self).command),
        ensures
            final(self).out_count == spec_result_bytes(old(self).command, old(self).out_count),
            final(self).out_index == old(self).out_index,
            final(self).in_index == old(self).in_index,
            final(self).waiting4command == old(self).waiting4command,
            final(self).first_parameter == old(self).first_parameter,
            final(self).command == old(self).command,
            final(self).in_count == old(self).in_count,
            final(self).parameters == old(self).parameters,
            final(self).command_log_count == old(self).command_log_count,
            final(self).command_histogram == old(self).command_histogram,
            final(self).tables == old(self).tables,
            (old(self).command == 0x3b || old(self).command == 0x0b) ==> buf_word(final(self).output, 0)
                == spec_inner_row0(
                old(self).matrix_a,
                buf_word(old(self).parameters, 0),
                buf_word(old(self).parameters, 2),
                buf_word(old(self).parameters, 4),
            ),
            (old(self).command == 0x07 || old(self).command == 0x0f) ==> buf_word(final(self).output, 0) == 0,
            (old(self).command == 0x27 || old(self).command == 0x2f) ==> buf_word(final(self).output, 0) == 0x100,
            objective_command(old(self).command) ==> output_triple(final(self).output) == ({
                let (x, y, z) = parameter_triple(old(self).parameters);
                spec_objective(old(self).objective_matrix(old(self).command), x, y, z)
            }),
            subjective_command(old(self).command) ==> output_triple(final(self).output) == ({
                let (f, l, u) = parameter_triple(old(self).parameters);
                spec_subjective(old(self).subjective_matrix(old(self).command), f, l, u)
            }),
    {
        let c = self.command;
        if c == 0x05 || c == 0x35 || c == 0x31 || c == 0x01 {
            // Attitude matrix A
            self.op01_m = read_word(&self.parameters, 0);
            self.op01_zr = read_word(&self.parameters, 2);
            self.op01_yr = read_word(&self.parameters, 4);
            self.op01_xr = read_word(&self.parameters, 6);
            self.op01();
        } else if c == 0x15 || c == 0x11 {
            // Attitude matrix B
            self.op11_m = read_word(&self.parameters, 0);
            self.op11_zr = read_word(&self.parameters, 2);
            self.op11_yr = read_word(&self.parameters, 4);
            self.op11_xr = read_word(&self.parameters, 6);
            self.op11();
        } else if c == 0x25 || c == 0x21 {
            // Attitude matrix C
            self.op21_m = read_word(&self.parameters, 0);
            self.op21_zr = read_word(&self.parameters, 2);
            self.op21_yr = read_word(&self.parameters, 4);
            self.op21_xr = read_word(&self.parameters, 6);
            self.op21();
        } else if c == 0x09 || c == 0x39 || c == 0x3d || c == 0x0d || c == 0x19 || c == 0x1d || c
            == 0x29 || c == 0x2d {
            // Objective matrix A, B or C
            let x = read_word(&self.parameters, 0);
            let y = read_word(&self.parameters, 2);
            let z = read_word(&self.parameters, 4);
            let m = if c == 0x19 || c == 0x1d {
                self.matrix_b
            } else if c == 0x29 || c == 0x2d {
                self.matrix_c
            } else {
                self.matrix_a
            };
            let (f, l, u) = objective(m, x, y, z);
            if c == 0x19 || c == 0x1d {
                self.op1d_x = x;
                self.op1d_y = y;
                self.op1d_z = z;
                self.op1d_f = f;
                self.op1d_l = l;
                self.op1d_u = u;
            } else if c == 0x29 || c == 0x2d {
                self.op2d_x = x;
                self.op2d_y = y;
                self.op2d_z = z;
                self.op2d_f = f;
                self.op2d_l = l;
                self.op2d_u = u;
            } else {
                self.op0d_x = x;
                self.op0d_y = y;
                self.op0d_z = z;
                self.op0d_f = f;
                self.op0d_l = l;
                self.op0d_u = u;
            }
            self.out_count = 6;
            write_word(&mut self.output, 0, f);
            write_word(&mut self.output, 2, l);
            write_word(&mut self.output, 4, u);
        } else if c == 0x33 || c == 0x03 || c == 0x13 || c == 0x23 {
            // Subjective matrix A, B or C
            let f = read_word(&self.parameters, 0);
            let l = read_word(&self.parameters, 2);
            let u = read_word(&self.parameters, 4);
            let m = if c == 0x13 {
                self.matrix_b
            } else if c == 0x23 {
                self.matrix_c
            } else {
                self.matrix_a
            };
            let (x, y, z) = subjective(m, f, l, u);
            if c == 0x13 {
                self.op13_f = f;
                self.op13_l = l;
                self.op13_u = u;
                self.op13_x = x;
                self.op13_y = y;
                self.op13_z = z;
            } else if c == 0x23 {
                self.op23_f = f;
                self.op23_l = l;
                self.op23_u = u;
                self.op23_x = x;
                self.op23_y = y;
                self.op23_z = z;
            } else {
                self.op03_f = f;
                self.op03_l = l;
                self.op03_u = u;
                self.op03_x = x;
                self.op03_y = y;
                self.op03_z = z;
            }
            self.out_count = 6;
            write_word(&mut self.output, 0, x);
            write_word(&mut self.output, 2, y);
            write_word(&mut self.output, 4, z);
        } else if c == 0x3b || c == 0x0b || c == 0x1b || c == 0x2b {
            // Scalar product with the first row of matrix A, B or C
            let x = read_word(&self.parameters, 0);
            let y = read_word(&self.parameters, 2);
            let z = read_word(&self.parameters, 4);
            if c == 0x1b {
                self.op1b_x = x;
                self.op1b_y = y;
                self.op1b_z = z;
                self.op1b_s = inner_row0(self.matrix_b, x, y, z);
                write_word(&mut self.output, 0, self.op1b_s);
            } else if c == 0x2b {
                self.op2b_x = x;
                self.op2b_y = y;
                self.op2b_z = z;
                self.op2b_s = inner_row0(self.matrix_c, x, y, z);
                write_word(&mut self.output, 0, self.op2b_s);
            } else {
                self.op0b_x = x;
                self.op0b_y = y;
                self.op0b_z = z;
                self.op0b_s = inner_row0(self.matrix_a, x, y, z);
                write_word(&mut self.output, 0, self.op0b_s);
            }
            self.out_count = 2;
        } else if c == 0x34 || c == 0x14 {
            self.op14_zr = read_word(&self.parameters, 0);
            self.op14_xr = read_word(&self.parameters, 2);
            self.op14_yr = read_word(&self.parameters, 4);
            self.op14_u = read_word(&self.parameters, 6);
            self.op14_f = read_word(&self.parameters, 8);
            self.op14_l = read_word(&self.parameters, 10);
            self.op14();
            self.out_count = 6;
            write_word(&mut self.output, 0, self.op14_zrr);
            write_word(&mut self.output, 2, self.op14_xrr);
            write_word(&mut self.output, 4, self.op14_yrr);
        } else if c == 0x27 || c == 0x2f {
            self.op2f_unknown = read_word(&self.parameters, 0);
            self.op2f_size = 0x100;
            self.out_count = 2;
            write_word(&mut self.output, 0, self.op2f_size);
        } else if c == 0x07 || c == 0x0f {
            self.op0f_ramsize = read_word(&self.parameters, 0);
            self.op0f_pass = 0x0000;
            self.out_count = 2;
            write_word(&mut self.output, 0, self.op0f_pass);
        }
    }

    /// Raster drain: while a raster command's results are pending, a write
    /// only skips one result byte.
    pub open spec fn draining_raster(&self) -> bool {
        (self.command == 0x0A || self.command == 0x1A) && self.out_count != 0
    }

    /// A byte written to the data port: a command byte when idle, otherwise
    /// the next parameter byte; the last parameter byte runs the command.
    #[verifier::spinoff_prover]
    pub fn set_byte(&mut self, byte: u8, address: u16)
        requires
            old(self).wf(),
        ensures
            final(self).wf(),
            final(self).tables == old(self).tables,
            address >= BOUNDARY ==> *final(self) == *old(self),
            address < BOUNDARY && old(self).draining_raster() ==> *final(self) == (Dsp1 {
                out_count: (old(self).out_count - 1) as u32,
                out_index: (old(self).out_index + 1) as u32,
                ..*old(self)
            }),
            address < BOUNDARY && !old(self).draining_raster() && old(self).waiting4command ==> {
                let (cmd, words) = spec_command_entry(byte);
                &&& final(self).command == cmd
                &&& final(self).in_count == 2 * words
                &&& final(self).in_index == 0
                &&& final(self).waiting4command == (words == 0)
                &&& final(self).first_parameter == (words != 0)
                &&& final(self).command_log_count == vstd::wrapping::u32_specs::wrapping_add(old(self).command_log_count, 1)
                &&& final(self).command_histogram@ == old(self).command_histogram@.update(
                    byte as int,
                    vstd::wrapping::u32_specs::wrapping_add(old(self).command_histogram[byte as int], 1),
                )
                &&& final(self).parameters == old(self).parameters
                &&& final(self).output == old(self).output
                &&& final(self).out_count == old(self).out_count
                &&& final(self).out_index == old(self).out_index
            },
            address < BOUNDARY && !old(self).draining_raster() && !old(self).waiting4command ==> {
                &&& final(self).parameters@ == old(self).parameters@.update(old(self).in_index as int, byte)
                &&& !final(self).first_parameter
                &&& final(self).command == old(self).command
                &&& final(self).in_count == old(self).in_count - 1
                &&& final(self).command_log_count == old(self).command_log_count
                &&& (old(self).in_count > 1 ==> {
                    &&& !final(self).waiting4command
                    &&& final(self).in_index == old(self).in_index + 1
                    &&& final(self).out_count == old(self).out_count
                    &&& final(self).out_index == old(self).out_index
                    &&& final(self).output == old(self).output
                })
                &&& (old(self).in_count == 1 ==> {
                    &&& final(self).waiting4command
                    &&& final(self).out_index == 0
                    &&& final(self).out_count == spec_result_bytes(old(self).command, old(self).out_count)
                    &&& (old(self).command == 0x00 ==> buf_word(final(self).output, 0) == q15(
                        buf_word(final(self).parameters, 0),
                        buf_word(final(self).parameters, 2),
                    ))
                    &&& (old(self).command == 0x18 ==> buf_word(final(self).output, 0) == (spec_range_sq(
                        buf_word(final(self).parameters, 0),
                        buf_word(final(self).parameters, 2),
                        buf_word(final(self).parameters, 4),
                        buf_word(final(self).parameters, 6),
                    ) >> 15u32) as i16)
                    &&& (objective_command(old(self).command) ==> output_triple(final(self).output) == ({
                        let (x, y, z) = parameter_triple(final(self).parameters);
                        spec_objective(old(self).objective_matrix(old(self).command), x, y, z)
                    }))
                    &&& (subjective_command(old(self).command) ==> output_triple(final(self).output) == ({
                        let (f, l, u) = parameter_triple(final(self).parameters);
                        spec_subjective(old(self).subjective_matrix(old(self).command), f, l, u)
                    }))
                })
            },
    {
        if address >= BOUNDARY {
            return ;
        }
        if (self.command == 0x0A || self.command == 0x1A) && self.out_count != 0 {
            self.out_count = self.out_count - 1;
            self.out_index = self.out_index + 1;
            return ;
        }
        if self.waiting4command {
            let (cmd, words) = command_entry(byte);
            self.command = cmd;
            self.command_log_count = self.command_log_count.wrapping_add(1);
            self.command_histogram[byte as usize] = self.command_histogram[byte as usize].wrapping_add(1);
            self.in_index = 0;
            self.waiting4command = false;
            self.first_parameter = true;
            if words == 0 {
                self.in_count = 0;
                self.waiting4command = true;
                self.first_parameter = true;
            } else {
                self.in_count = words;
            }
            self.in_count = self.in_count * 2;
        } else {
            self.parameters[self.in_index as usize] = byte;
            self.first_parameter = false;
            self.in_index = self.in_index + 1;
        }
        if self.waiting4command || (self.first_parameter && byte == 0x80) {
            self.waiting4command = true;
            self.first_parameter = false;
        } else if self.first_parameter && (self.in_count != 0 || (self.in_count == 0 && self.in_index == 0)) {
            // waiting for the first parameter byte
        } else if self.in_count != 0 {
            self.in_count = self.in_count - 1;
            if self.in_count == 0 {
                // all parameters in: run the command
                self.waiting4command = true;
                self.out_index = 0;
                self.execute_command();
            }
        }
    }

    /// A byte read from the data port: the next result byte, or $80 when
    /// no result is pending. A drained raster command computes the next
    /// line's matrix; the last byte of a ROM dump comes from the ROM table.
    #[verifier::spinoff_prover]
    pub fn get_byte(&mut self, address: u16) -> (v: u8)
        requires
            old(self).wf(),
        ensures
            final(self).wf(),
            final(self).tables == old(self).tables,
            (address >= BOUNDARY || old(self).out_count == 0) ==> v == 0x80 && *final(self) == *old(self),
            address < BOUNDARY && old(self).out_count != 0 ==> {
                let pos = (old(self).out_index + 1) as u32;
                let left = (old(self).out_count - 1) as u32;
                &&& v == if left == 0 && old(self).command == 0x1f {
                    spec_dump_byte(old(self).tables, pos)
                } else if old(self).out_index < 512 {
                    old(self).output[old(self).out_index as int]
                } else {
                    0
                }
                &&& final(self).waiting4command
                &&& final(self).command == old(self).command
                &&& final(self).parameters == old(self).parameters
                &&& final(self).in_count == old(self).in_count
                &&& final(self).in_index == old(self).in_index
                &&& (left != 0 || (old(self).command != 0x1a && old(self).command != 0x0a) ==> {
                    &&& final(self).out_count == left
                    &&& final(self).out_index == pos
                    &&& final(self).output == old(self).output
                })
                &&& (left == 0 && (old(self).command == 0x1a || old(self).command == 0x0a) ==> {
                    &&& final(self).out_count == 8
                    &&& final(self).out_index == 0
                })
            },
    {
        if address >= BOUNDARY {
            return 0x80;
        }
        if self.out_count == 0 {
            return 0x80;
        }
        // Positions past the result buffer (a ROM dump runs to 2048) read 0.
        let mut t: u8 = if self.out_index < 512 {
            self.output[self.out_index as usize]
        } else {
            0
        };
        self.out_index = self.out_index + 1;
        self.out_count = self.out_count - 1;
        if self.out_count == 0 {
            if self.command == 0x1a || self.command == 0x0a {
                self.op0a();
                self.out_count = 8;
                self.out_index = 0;
                write_word(&mut self.output, 0, self.op0a_a);
                write_word(&mut self.output, 2, self.op0a_b);
                write_word(&mut self.output, 4, self.op0a_c);
                write_word(&mut self.output, 6, self.op0a_d);
            }
            if self.command == 0x1f {
                // The final read of a ROM dump is past the table's end.
                let w = self.tables.rom_at((self.out_index >> 1u32) as i32);
                if self.out_index % 2 != 0 {
                    t = w as u8;
                } else {
                    t = (w >> 8u32) as u8;
                }
            }
        }
        self.waiting4command = true;
        t
    }
}

} // verus!
