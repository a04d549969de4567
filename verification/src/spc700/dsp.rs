//! S-DSP: 8-voice sample playback with BRR decoding, ADSR/GAIN envelopes,
//! gaussian interpolation, noise, pitch modulation and FIR echo.
//!
//! Semantics follow blargg's SPC_DSP, flattened from its per-clock pipeline
//! into a per-sample loop: one output sample is produced every 32 SPC700
//! clocks (32 kHz).

use vstd::prelude::*;
use crate::bits::{lemma_and_le_u8, lemma_asr_i32_bounds, lemma_clear_bit0_i16_range, lemma_zero_bits};

verus! {

/// Gaussian interpolation table (mirrors the hardware ROM).
pub const GAUSS: [i16; 512] = [
    0, 0, 0, 0, 0, 0, 0, 0, 0, 0, 0, 0, 0, 0, 0, 0,
    1, 1, 1, 1, 1, 1, 1, 1, 1, 1, 1, 2, 2, 2, 2, 2,
    2, 2, 3, 3, 3, 3, 3, 4, 4, 4, 4, 4, 5, 5, 5, 5,
    6, 6, 6, 6, 7, 7, 7, 8, 8, 8, 9, 9, 9, 10, 10, 10,
    11, 11, 11, 12, 12, 13, 13, 14, 14, 15, 15, 15, 16, 16, 17, 17,
    18, 19, 19, 20, 20, 21, 21, 22, 23, 23, 24, 24, 25, 26, 27, 27,
    28, 29, 29, 30, 31, 32, 32, 33, 34, 35, 36, 36, 37, 38, 39, 40,
    41, 42, 43, 44, 45, 46, 47, 48, 49, 50, 51, 52, 53, 54, 55, 56,
    58, 59, 60, 61, 62, 64, 65, 66, 67, 69, 70, 71, 73, 74, 76, 77,
    78, 80, 81, 83, 84, 86, 87, 89, 90, 92, 94, 95, 97, 99, 100, 102,
    104, 106, 107, 109, 111, 113, 115, 117, 118, 120, 122, 124, 126, 128, 130, 132,
    134, 137, 139, 141, 143, 145, 147, 150, 152, 154, 156, 159, 161, 163, 166, 168,
    171, 173, 175, 178, 180, 183, 186, 188, 191, 193, 196, 199, 201, 204, 207, 210,
    212, 215, 218, 221, 224, 227, 230, 233, 236, 239, 242, 245, 248, 251, 254, 257,
    260, 263, 267, 270, 273, 276, 280, 283, 286, 290, 293, 297, 300, 304, 307, 311,
    314, 318, 321, 325, 328, 332, 336, 339, 343, 347, 351, 354, 358, 362, 366, 370,
    374, 378, 381, 385, 389, 393, 397, 401, 405, 410, 414, 418, 422, 426, 430, 434,
    439, 443, 447, 451, 456, 460, 464, 469, 473, 477, 482, 486, 491, 495, 499, 504,
    508, 513, 517, 522, 527, 531, 536, 540, 545, 550, 554, 559, 563, 568, 573, 577,
    582, 587, 592, 596, 601, 606, 611, 615, 620, 625, 630, 635, 640, 644, 649, 654,
    659, 664, 669, 674, 678, 683, 688, 693, 698, 703, 708, 713, 718, 723, 728, 732,
    737, 742, 747, 752, 757, 762, 767, 772, 777, 782, 787, 792, 797, 802, 806, 811,
    816, 821, 826, 831, 836, 841, 846, 851, 855, 860, 865, 870, 875, 880, 884, 889,
    894, 899, 904, 908, 913, 918, 923, 927, 932, 937, 941, 946, 951, 955, 960, 965,
    969, 974, 978, 983, 988, 992, 997, 1001, 1005, 1010, 1014, 1019, 1023, 1027, 1032, 1036,
    1040, 1045, 1049, 1053, 1057, 1061, 1066, 1070, 1074, 1078, 1082, 1086, 1090, 1094, 1098, 1102,
    1106, 1109, 1113, 1117, 1121, 1125, 1128, 1132, 1136, 1139, 1143, 1146, 1150, 1153, 1157, 1160,
    1164, 1167, 1170, 1174, 1177, 1180, 1183, 1186, 1190, 1193, 1196, 1199, 1202, 1205, 1207, 1210,
    1213, 1216, 1219, 1221, 1224, 1227, 1229, 1232, 1234, 1237, 1239, 1241, 1244, 1246, 1248, 1251,
    1253, 1255, 1257, 1259, 1261, 1263, 1265, 1267, 1269, 1270, 1272, 1274, 1275, 1277, 1279, 1280,
    1282, 1283, 1284, 1286, 1287, 1288, 1290, 1291, 1292, 1293, 1294, 1295, 1296, 1297, 1297, 1298,
    1299, 1300, 1300, 1301, 1302, 1302, 1303, 1303, 1303, 1304, 1304, 1304, 1304, 1304, 1305, 1305,
];

// Envelope/noise counter scheme: one counter decrements once per sample and a
// rate "fires" when (counter + offset(rate)) % period(rate) == 0.
pub const COUNTER_RANGE: i32 = 30720;  // 2048 * 5 * 3

// Global register addresses
pub const REG_EFB: usize = 0x0D;
pub const REG_MVOLL: usize = 0x0C;
pub const REG_MVOLR: usize = 0x1C;
pub const REG_EVOLL: usize = 0x2C;
pub const REG_EVOLR: usize = 0x3C;
pub const REG_PMON: usize = 0x2D;
pub const REG_NON: usize = 0x3D;
pub const REG_EON: usize = 0x4D;
pub const REG_KON: usize = 0x4C;
pub const REG_KOFF: usize = 0x5C;
pub const REG_DIR: usize = 0x5D;
pub const REG_FLG: usize = 0x6C;
pub const REG_ESA: usize = 0x6D;
pub const REG_ENDX: usize = 0x7C;
pub const REG_EDL: usize = 0x7D;

/// Period in samples of envelope/noise rate `rate` (0 = never).
pub open spec fn spec_counter_rate(rate: int) -> u32 {
    if rate == 0 { 30721 } else if rate == 1 { 2048 } else if rate == 2 { 1536 } else if rate == 3 { 1280 }
    else if rate == 4 { 1024 } else if rate == 5 { 768 } else if rate == 6 { 640 } else if rate == 7 { 512 }
    else if rate == 8 { 384 } else if rate == 9 { 320 } else if rate == 10 { 256 } else if rate == 11 { 192 }
    else if rate == 12 { 160 } else if rate == 13 { 128 } else if rate == 14 { 96 } else if rate == 15 { 80 }
    else if rate == 16 { 64 } else if rate == 17 { 48 } else if rate == 18 { 40 } else if rate == 19 { 32 }
    else if rate == 20 { 24 } else if rate == 21 { 20 } else if rate == 22 { 16 } else if rate == 23 { 12 }
    else if rate == 24 { 10 } else if rate == 25 { 8 } else if rate == 26 { 6 } else if rate == 27 { 5 }
    else if rate == 28 { 4 } else if rate == 29 { 3 } else if rate == 30 { 2 } else { 1 }
}

/// Phase offset of rate `rate` within the shared counter.
pub open spec fn spec_counter_offset(rate: int) -> u32 {
    if rate == 0 { 1 } else if rate == 30 || rate == 31 { 0 } else if rate % 3 == 1 { 0 }
    else if rate % 3 == 2 { 1040 } else { 536 }
}

#[verifier::spinoff_prover]
fn counter_rate(rate: usize) -> (r: u32)
    requires
        rate < 32,
    ensures
        r == spec_counter_rate(rate as int),
        r >= 1,
{
    if rate == 0 { 30721 } else if rate == 1 { 2048 } else if rate == 2 { 1536 } else if rate == 3 { 1280 }
    else if rate == 4 { 1024 } else if rate == 5 { 768 } else if rate == 6 { 640 } else if rate == 7 { 512 }
    else if rate == 8 { 384 } else if rate == 9 { 320 } else if rate == 10 { 256 } else if rate == 11 { 192 }
    else if rate == 12 { 160 } else if rate == 13 { 128 } else if rate == 14 { 96 } else if rate == 15 { 80 }
    else if rate == 16 { 64 } else if rate == 17 { 48 } else if rate == 18 { 40 } else if rate == 19 { 32 }
    else if rate == 20 { 24 } else if rate == 21 { 20 } else if rate == 22 { 16 } else if rate == 23 { 12 }
    else if rate == 24 { 10 } else if rate == 25 { 8 } else if rate == 26 { 6 } else if rate == 27 { 5 }
    else if rate == 28 { 4 } else if rate == 29 { 3 } else if rate == 30 { 2 } else { 1 }
}

#[verifier::spinoff_prover]
fn counter_offset(rate: usize) -> (r: u32)
    requires
        rate < 32,
    ensures
        r == spec_counter_offset(rate as int),
        r <= 1040,
{
    if rate == 0 {
        1
    } else if rate == 30 || rate == 31 {
        0
    } else if rate % 3 == 1 {
        0
    } else if rate % 3 == 2 {
        1040
    } else {
        536
    }
}

/// Whether a rate fires at the given counter value.
pub open spec fn spec_counter_fires(counter: i32, rate: u8) -> bool {
    let r = (rate & 0x1F) as int;
    ((counter as u32 + spec_counter_offset(r)) as int) % (spec_counter_rate(r) as int) == 0
}

#[verifier::spinoff_prover]
pub fn counter_fires(counter: i32, rate: u8) -> (b: bool)
    requires
        0 <= counter < COUNTER_RANGE,
    ensures
        b == spec_counter_fires(counter, rate),
{
    proof {
        lemma_and_le_u8(rate, 0x1F);
    }
    let rate = (rate & 0x1F) as usize;
    ((counter as u32 + counter_offset(rate)) % counter_rate(rate)) == 0
}

/// Saturating clamp to 16 bits with the hardware's wrap quirk for huge inputs.
pub open spec fn spec_clamp16(x: i32) -> i32 {
    if x as i16 as i32 != x {
        (x >> 24i32) ^ 0x7FFF
    } else {
        x
    }
}

/// One output channel: the dry mix times the master volume plus the echo
/// times the echo volume (volumes signed, each product over 128 and kept
/// to 16 bits), clamped to the 16-bit range.
pub open spec fn spec_echo_output(main: i32, echo: i32, mvol: u8, evol: u8) -> i32 {
    let m = mvol as i8 as i32;
    let e = evol as i8 as i32;
    spec_clamp16(((((main * m) as i32) >> 7i32) as i16 as i32 + (((echo * e) as i32) >> 7i32) as i16 as i32) as i32)
}

/// A master volume of 0 silences the dry mix: the channel no longer
/// depends on it.
pub proof fn lemma_master_volume_mutes_dry(main1: i32, main2: i32, echo: i32, evol: u8)
    ensures
        spec_echo_output(main1, echo, 0, evol) == spec_echo_output(main2, echo, 0, evol),
{
    assert(main1 * 0 == 0 && main2 * 0 == 0);
}

/// An echo volume of 0 silences the echo: the channel no longer depends on
/// it.
pub proof fn lemma_echo_volume_mutes_echo(main: i32, echo1: i32, echo2: i32, mvol: u8)
    ensures
        spec_echo_output(main, echo1, mvol, 0) == spec_echo_output(main, echo2, mvol, 0),
{
    assert(echo1 * 0 == 0 && echo2 * 0 == 0);
}

/// With master and echo volume both 0 the channel is silent.
pub proof fn lemma_zero_volumes_silence(main: i32, echo: i32)
    ensures
        spec_echo_output(main, echo, 0, 0) == 0,
{
    assert(main * 0 == 0 && echo * 0 == 0);
    lemma_zero_bits(0, 0);
}

#[verifier::spinoff_prover]
pub fn clamp16(x: i32) -> (r: i32)
    ensures
        r == spec_clamp16(x),
{
    if x as i16 as i32 != x {
        (x >> 24i32) ^ 0x7FFF
    } else {
        x
    }
}

/// For inputs below 2^24 in magnitude the clamp saturates to the i16 range.
pub proof fn lemma_clamp16_saturates(x: i32)
    requires
        -0x100_0000 <= x < 0x100_0000,
    ensures
        -32768 <= spec_clamp16(x) <= 32767,
        x > 32767 ==> spec_clamp16(x) == 32767,
        x < -32768 ==> spec_clamp16(x) == -32768,
        -32768 <= x <= 32767 ==> spec_clamp16(x) == x,
{
    lemma_clamp16_bits(x);
}

proof fn lemma_clamp16_bits(x: i32)
    by (bit_vector)
    requires
        -0x100_0000 <= x < 0x100_0000,
    ensures
        x > 32767 ==> (x >> 24i32) ^ 0x7FFF == 32767,
        x < -32768 ==> (x >> 24i32) ^ 0x7FFF == -32768,
        -32768 <= x <= 32767 <==> x as i16 as i32 == x,
{
}

/// The shifted range ends that the sample pipeline's bounds rest on.
proof fn lemma_dsp_shift_values()
    by (bit_vector)
    ensures
        -0x4000_0000i32 >> 11i32 == -0x80000i32,
        0x4000_0000i32 >> 11i32 == 0x80000i32,
        -32768i32 >> 12i32 == -8i32,
        32767i32 >> 12i32 == 7i32,
        -32768i32 >> 1i32 == -16384i32,
        32767i32 >> 1i32 == 16383i32,
        -98304i32 >> 6i32 == -1536i32,
        98304i32 >> 6i32 == 1536i32,
        -425984i32 >> 7i32 == -3328i32,
        425984i32 >> 7i32 == 3328i32,
        -32768i32 >> 5i32 == -1024i32,
        32768i32 >> 5i32 == 1024i32,
        32767i32 >> 5i32 == 1023i32,
        -16384i32 >> 4i32 == -1024i32,
        16383i32 >> 4i32 == 1023i32,
        -49152i32 >> 4i32 == -3072i32,
        49152i32 >> 4i32 == 3072i32,
        -67076096i32 >> 11i32 == -32752i32,
        67074049i32 >> 11i32 == 32751i32,
        -4194304i32 >> 7i32 == -32768i32,
        4194304i32 >> 7i32 == 32768i32,
        -2097152i32 >> 6i32 == -32768i32,
        2097152i32 >> 6i32 == 32768i32,
        -1i32 >> 8i32 == -1i32,
        0x7FFi32 >> 8i32 == 7i32,
{
}

/// Fields of the interpolation position: Gaussian table index, ring
/// offset and the fractional part kept across samples.
proof fn lemma_interp_position_bits(ip: i32)
    by (bit_vector)
    requires
        0 <= ip <= 0x7FFF,
    ensures
        0 <= ((ip >> 4i32) & 0xFF) <= 0xFF,
        0 <= (ip >> 12i32) <= 7,
        0 <= ip & 0x3FFF <= 0x3FFF,
{
}

/// Range of a sign-extended BRR nybble after the header's shift.
proof fn lemma_brr_scale(s: i32, sh: u32)
    by (bit_vector)
    requires
        -8 <= s <= 7,
    ensures
        sh <= 12 ==> -16384 <= ((s << sh) >> 1i32) <= 16383,
        -2048 <= (s & !0x7FFi32) <= 0,
{
}

/// The 15-bit noise LFSR step stays 15 bits wide.
proof fn lemma_noise_step(n: i32)
    by (bit_vector)
    requires
        0 <= n <= 0x7FFF,
    ensures
        0 <= (((n << 13i32) ^ (n << 14i32)) & 0x4000) ^ (n >> 1i32) <= 0x7FFF,
{
}

/// The 14-bit pitch assembled from its two registers.
proof fn lemma_pitch_bits(lo: i32, hi: i32)
    by (bit_vector)
    requires
        0 <= lo <= 0xFF,
        0 <= hi <= 0x3F,
    ensures
        0 <= (lo | (hi << 8i32)) <= 0x3FFF,
{
}

/// Pitch modulation moves the pitch by at most its own size.
proof fn lemma_pitch_mod_bits(m: i32, pp: i32)
    by (bit_vector)
    requires
        -1024 * pp <= m <= 1023 * pp,
        0 <= pp <= 0x3FFF,
    ensures
        -pp <= (m >> 10i32) <= pp,
{
}

proof fn lemma_i16_half(raw: i16)
    by (bit_vector)
    ensures
        -16384 <= (raw >> 1i16) <= 16383,
{
}

/// Register addresses: the top bit selects the ignored mirror, and the
/// low nybble $C marks the KON/KOF/FLG/ENDX column.
proof fn lemma_reg_addr_bits(addr: u8)
    by (bit_vector)
    ensures
        addr & 0x80 != 0 ==> addr >= 0x80,
        addr & 0x80 == 0 ==> addr < 0x80 && addr & 0x7F == addr,
        addr == 0x4C ==> addr & 0x0F == 0x0C,
        addr == 0x7C ==> addr & 0x0F == 0x0C,
{
}

#[derive(Clone, Copy, PartialEq, Eq, Structural)]
pub enum EnvMode {
    Release,
    Attack,
    Decay,
    Sustain,
}

#[derive(Clone, Copy)]
pub struct Voice {
    /// Decoded BRR ring: 12 entries, doubled (second copy at +12) to
    /// simplify interpolation wrap-around.
    pub buf: [i32; 24],
    pub buf_pos: usize,
    pub interp_pos: i32,
    pub brr_addr: u16,
    pub brr_offset: u16,
    pub env: i32,
    pub hidden_env: i32,
    pub env_mode: EnvMode,
    pub kon_delay: u8,
}

impl Voice {
    pub open spec fn wf(&self) -> bool {
        &&& self.buf_pos <= 8
        &&& self.buf_pos % 4 == 0
        &&& 0 <= self.interp_pos <= 0x7FFF
        &&& self.brr_offset <= 9
        &&& 0 <= self.env <= 0x7FF
        &&& self.kon_delay <= 5
        &&& forall|i: int| 0 <= i < 24 ==> -32768 <= #[trigger] self.buf[i] <= 32767
    }

    #[verifier::spinoff_prover]
    pub fn new() -> (v: Self)
        ensures
            v.wf(),
            v.env == 0,
            v.env_mode == EnvMode::Release,
    {
        Voice {
            buf: [0;24],
            buf_pos: 0,
            interp_pos: 0,
            brr_addr: 0,
            brr_offset: 1,
            env: 0,
            hidden_env: 0,
            env_mode: EnvMode::Release,
            kon_delay: 0,
        }
    }
}

pub struct Dsp {
    pub regs: [u8; 0x80],
    /// Output sample ring (stereo, i16 pairs) drained by the frontend.
    pub sample_buffer: Vec<(i16, i16)>,
    pub voices: [Voice; 8],
    pub counter: i32,
    pub noise: i32,
    pub every_other_sample: bool,
    pub new_kon: u8,
    pub kon: u8,
    pub koff_latch: u8,
    /// Voice 0's output from the previous sample (PMON order dependency).
    pub prev_v0_output: i32,
    pub echo_hist: [[i32; 2]; 8],
    pub echo_hist_pos: usize,
    pub echo_offset: u32,
    pub echo_length: u32,
    pub cycle_count: u32,
}

/// One filter tap: a Gaussian coefficient times a ring sample, scaled by 2^-11.
pub open spec fn gauss_tap(g: i16, b: i32) -> i32 {
    ((g as i32 * b) as i32) >> 11i32
}

/// The Gaussian-filtered sample at the voice's position: bits 11-4 of the
/// position pick the coefficients, bits 14-12 the first of four ring
/// samples; the first three taps are summed with 16-bit wrap-around, the
/// fourth added, the sum clamped to 16 bits and its low bit cleared.
pub open spec fn spec_interpolate(v: Voice) -> i32 {
    let offset = ((v.interp_pos >> 4i32) & 0xFF) as int;
    let base = v.buf_pos + (v.interp_pos >> 12i32) as int;
    let first3 = (gauss_tap(GAUSS[255 - offset], v.buf[base]) + gauss_tap(GAUSS[255 - offset + 256], v.buf[base + 1])
        + gauss_tap(GAUSS[offset + 256], v.buf[base + 2])) as i32;
    spec_clamp16((first3 as i16 as i32 + gauss_tap(GAUSS[offset], v.buf[base + 3])) as i32) & !1i32
}

/// Gaussian interpolation of four ring samples at the voice's position.
#[verifier::spinoff_prover]
pub fn interpolate(v: &Voice) -> (out: i32)
    requires
        v.wf(),
    ensures
        out == spec_interpolate(*v),
        -32768 <= out <= 32767,
{
    let offset = ((v.interp_pos >> 4i32) & 0xFF) as usize;
    proof {
        lemma_interp_position_bits(v.interp_pos);
    }
    let fwd = 255 - offset;
    let rev = offset;
    let base = v.buf_pos + ((v.interp_pos >> 12i32) as usize);
    let g0 = GAUSS[fwd] as i32;
    let g1 = GAUSS[fwd + 256] as i32;
    let g2 = GAUSS[rev + 256] as i32;
    let g3 = GAUSS[rev] as i32;
    let b0 = v.buf[base];
    let b1 = v.buf[base + 1];
    let b2 = v.buf[base + 2];
    let b3 = v.buf[base + 3];
    proof {
        assert(-0x4000_0000 <= g0 * b0 <= 0x4000_0000) by (nonlinear_arith)
            requires -32768 <= g0 <= 32767, -32768 <= b0 <= 32767;
        assert(-0x4000_0000 <= g1 * b1 <= 0x4000_0000) by (nonlinear_arith)
            requires -32768 <= g1 <= 32767, -32768 <= b1 <= 32767;
        assert(-0x4000_0000 <= g2 * b2 <= 0x4000_0000) by (nonlinear_arith)
            requires -32768 <= g2 <= 32767, -32768 <= b2 <= 32767;
        assert(-0x4000_0000 <= g3 * b3 <= 0x4000_0000) by (nonlinear_arith)
            requires -32768 <= g3 <= 32767, -32768 <= b3 <= 32767;
        let p0 = (g0 * b0) as i32;
        let p1 = (g1 * b1) as i32;
        let p2 = (g2 * b2) as i32;
        let p3 = (g3 * b3) as i32;
        lemma_dsp_shift_values();
        lemma_asr_i32_bounds(p0, 11u32, -0x4000_0000i32, 0x4000_0000i32);
        lemma_asr_i32_bounds(p1, 11u32, -0x4000_0000i32, 0x4000_0000i32);
        lemma_asr_i32_bounds(p2, 11u32, -0x4000_0000i32, 0x4000_0000i32);
        lemma_asr_i32_bounds(p3, 11u32, -0x4000_0000i32, 0x4000_0000i32);
    }
    let mut out = (g0 * b0) >> 11i32;
    out = out + ((g1 * b1) >> 11i32);
    out = out + ((g2 * b2) >> 11i32);
    // Interpolate in two passes to allow overflow
    out = out as i16 as i32;
    out = out + ((g3 * b3) >> 11i32);
    let c = clamp16(out);
    proof {
        lemma_clamp16_saturates(out);
        lemma_clear_bit0_i16_range(c);
    }
    c & !1i32
}

/// The 16 bits of four BRR nybbles: the block's data byte above the byte
/// that follows it.
pub open spec fn brr_word(byte: u8, following: u8) -> i32 {
    (((byte as u32) << 8u32) | following as u32) as i32
}

/// Nybble `k` (from the top) of a BRR word, sign-extended.
pub open spec fn brr_raw_sample(word: i32, k: nat) -> i32 {
    ((((word << (4 * k) as u32) as u16) as i16) as i32) >> 12i32
}

/// A nybble scaled by the header's shift; shifts above 12 keep only the sign.
pub open spec fn brr_scaled(s: i32, shift: u8) -> i32 {
    if shift <= 12 {
        (s << shift as u32) >> 1i32
    } else {
        s & !0x7FFi32
    }
}

/// The header's IIR filter applied to a scaled nybble, with `p1` the
/// previous sample and `p2` half the one before.
pub open spec fn brr_filtered(s: i32, p1: i32, p2: i32, filter: u8) -> int {
    if filter >= 8 {
        if filter == 8 {
            s + p1 - p2 + (p2 >> 4i32) + (((p1 * -3) as i32) >> 6i32)
        } else {
            s + p1 - p2 + (((p1 * -13) as i32) >> 7i32) + (((p2 * 3) as i32) >> 4i32)
        }
    } else if filter != 0 {
        s + (p1 >> 1i32) + (((-p1) as i32) >> 5i32)
    } else {
        s as int
    }
}

/// Sample `k` of a block decoded at ring position `pos`: the filter reads
/// the two samples before it from the ring (their copies at +11 and +10),
/// and the clamped result is doubled with 16-bit wrap-around.
pub open spec fn brr_sample(ring: Seq<i32>, pos: int, word: i32, header: u8, k: nat) -> i32 {
    let s = brr_scaled(brr_raw_sample(word, k), header >> 4u8);
    let f = brr_filtered(s, ring[pos + 11], ring[pos + 10] >> 1i32, header & 0x0C);
    vstd::wrapping::i16_specs::wrapping_mul(spec_clamp16(f as i32) as i16, 2) as i32
}

/// The ring after the first `n` samples of a block have been decoded from
/// position `pos0`; each sample is stored twice, 12 entries apart.
#[verifier::opaque]
pub open spec fn brr_decoded_ring(ring: Seq<i32>, pos0: int, word: i32, header: u8, n: nat) -> Seq<i32>
    decreases n,
{
    if n == 0 {
        ring
    } else {
        let prev = brr_decoded_ring(ring, pos0, word, header, (n - 1) as nat);
        let pos = pos0 + n - 1;
        let s2 = brr_sample(prev, pos, word, header, (n - 1) as nat);
        prev.update(pos, s2).update(pos + 12, s2)
    }
}

/// Shifting the BRR word left by a further nybble.
proof fn lemma_brr_word_shift(word: i32, a: u32)
    by (bit_vector)
    requires
        0 <= word <= 0xFFFF,
        a <= 12,
    ensures
        (word << a) << 4u32 == word << (a + 4) as u32,
        word << 0u32 == word,
{
}

/// Decode four BRR samples into the voice ring buffer.
#[verifier::rlimit(40)]
#[verifier::spinoff_prover]
pub fn decode_brr(v: &mut Voice, header: u8, byte: u8, ram: &[u8; 0x10000])
    requires
        old(v).wf(),
    ensures
        final(v).wf(),
        final(v).buf@ == brr_decoded_ring(
            old(v).buf@,
            old(v).buf_pos as int,
            brr_word(
                byte,
                ram[vstd::wrapping::u16_specs::wrapping_add(
                    vstd::wrapping::u16_specs::wrapping_add(old(v).brr_addr, old(v).brr_offset),
                    1,
                ) as int],
            ),
            header,
            4,
        ),
        final(v).interp_pos == old(v).interp_pos,
        final(v).brr_addr == old(v).brr_addr,
        final(v).brr_offset == old(v).brr_offset,
        final(v).env == old(v).env,
        final(v).kon_delay == old(v).kon_delay,
        final(v).env_mode == old(v).env_mode,
        final(v).buf_pos == (if old(v).buf_pos + 4 >= 12 { 0 } else { old(v).buf_pos + 4 }),
{
    // Arrange the four nybbles in 0xABCD order for easy decoding
    let next = v.brr_addr.wrapping_add(v.brr_offset).wrapping_add(1);
    let mut nybbles = (((byte as u32) << 8u32) | ram[next as usize] as u32) as i32;
    let ghost word = nybbles;
    let ghost following: u8 = ram[next as int];
    proof {
        assert(0 <= word <= 0xFFFF) by (bit_vector)
            requires
                word == (((byte as u32) << 8u32) | following as u32) as i32,
        ;
        lemma_brr_word_shift(word, 0);
        reveal(brr_decoded_ring);
    }
    let mut pos = v.buf_pos;
    v.buf_pos = v.buf_pos + 4;
    if v.buf_pos >= 12 {
        v.buf_pos = 0;
    }
    let shift = header >> 4u8;
    let filter = header & 0x0C;
    let mut n: usize = 0;
    while n < 4
        invariant
            n <= 4,
            pos == old(v).buf_pos + n,
            old(v).buf_pos <= 8,
            v.wf(),
            v.interp_pos == old(v).interp_pos,
            v.brr_addr == old(v).brr_addr,
            v.brr_offset == old(v).brr_offset,
            v.env == old(v).env,
            v.kon_delay == old(v).kon_delay,
            v.env_mode == old(v).env_mode,
            v.buf_pos == (if old(v).buf_pos + 4 >= 12 { 0 } else { old(v).buf_pos + 4 }),
            0 <= word <= 0xFFFF,
            nybbles == word << (4 * n) as u32,
            shift == header >> 4u8,
            filter == header & 0x0C,
            v.buf@ == brr_decoded_ring(old(v).buf@, old(v).buf_pos as int, word, header, n as nat),
        decreases 4 - n,
    {
        // Extract nybble and sign-extend
        let ghost ring0 = v.buf@;
        proof {
            let t = ((nybbles as u16) as i16 as i32);
            lemma_dsp_shift_values();
            lemma_asr_i32_bounds(t, 12u32, -32768i32, 32767i32);
        }
        let mut s = ((nybbles as u16) as i16 as i32) >> 12i32;
        assert(s == brr_raw_sample(word, n as nat));
        proof {
            lemma_brr_word_shift(word, (4 * n) as u32);
        }
        nybbles = nybbles << 4i32;
        // Shift sample based on header
        if shift <= 12 {
            proof {
                lemma_brr_scale(s, shift as u32);
            }
            s = (s << shift as u32) >> 1i32;
        } else {
            proof {
                lemma_brr_scale(s, 0);
            }
            s = s & !0x7FFi32;
        }
        assert(s == brr_scaled(brr_raw_sample(word, n as nat), header >> 4u8));
        // IIR filter
        let p1 = v.buf[pos + 11];
        let p2 = v.buf[pos + 10] >> 1i32;
        proof {
            lemma_dsp_shift_values();
            lemma_asr_i32_bounds(v.buf[pos + 10], 1u32, -32768i32, 32767i32);
        }
        proof {
            assert(-32768 <= p1 <= 32767);
            let m3 = (p1 * -3) as i32;
            let m13 = (p1 * -13) as i32;
            let np1 = (-p1) as i32;
            let t3 = (p2 * 3) as i32;
            lemma_dsp_shift_values();
            lemma_asr_i32_bounds(m3, 6u32, -98304i32, 98304i32);
            lemma_asr_i32_bounds(m13, 7u32, -425984i32, 425984i32);
            lemma_asr_i32_bounds(p1, 1u32, -32768i32, 32767i32);
            lemma_asr_i32_bounds(np1, 5u32, -32768i32, 32768i32);
            lemma_asr_i32_bounds(p2, 4u32, -16384i32, 16383i32);
            lemma_asr_i32_bounds(t3, 4u32, -49152i32, 49152i32);
        }
        if filter >= 8 {
            s = s + p1;
            s = s - p2;
            if filter == 8 {
                // s += p1 * 0.953125 - p2 * 0.46875
                s = s + (p2 >> 4i32);
                s = s + ((p1 * -3) >> 6i32);
            } else {
                // s += p1 * 0.8984375 - p2 * 0.40625
                s = s + ((p1 * -13) >> 7i32);
                s = s + ((p2 * 3) >> 4i32);
            }
        } else if filter != 0 {
            // s += p1 * 0.46875
            s = s + (p1 >> 1i32);
            s = s + ((-p1) >> 5i32);
        }
        let c = clamp16(s);
        proof {
            lemma_clamp16_saturates(s);
        }
        let s2 = ((c as i16).wrapping_mul(2)) as i32;
        assert(s == brr_filtered(
            brr_scaled(brr_raw_sample(word, n as nat), header >> 4u8),
            ring0[pos + 11],
            ring0[pos + 10] >> 1i32,
            header & 0x0C,
        ));
        assert(s2 == brr_sample(ring0, pos as int, word, header, n as nat));
        v.buf[pos] = s2;
        v.buf[pos + 12] = s2;  // second copy simplifies wrap-around
        assert(v.buf@ == ring0.update(pos as int, s2).update(pos + 12, s2));
        proof {
            reveal(brr_decoded_ring);
        }
        pos += 1;
        n += 1;
    }
}

impl Dsp {
    pub open spec fn wf(&self) -> bool {
        &&& 0 <= self.counter < COUNTER_RANGE
        &&& self.echo_hist_pos < 8
        &&& self.echo_offset % 4 == 0
        &&& self.echo_offset < 0x8000
        &&& forall|i: int| 0 <= i < 8 ==> (#[trigger] self.voices[i]).wf()
        &&& forall|i: int, c: int| 0 <= i < 8 && 0 <= c < 2 ==> -16384 <= #[trigger] self.echo_hist[i][c] <= 16383
        &&& -32768 <= self.prev_v0_output <= 32767
        &&& 0 <= self.noise <= 0x7FFF
    }

    #[verifier::spinoff_prover]
    pub fn new() -> (d: Self)
        ensures
            d.wf(),
            d.regs[REG_FLG as int] == 0xE0,
            d.sample_buffer@.len() == 0,
    {
        let mut d = Dsp {
            regs: [0;0x80],
            sample_buffer: Vec::with_capacity(4096),
            voices: [
                Voice::new(),
                Voice::new(),
                Voice::new(),
                Voice::new(),
                Voice::new(),
                Voice::new(),
                Voice::new(),
                Voice::new(),
            ],
            counter: 0,
            noise: 0x4000,
            every_other_sample: true,
            new_kon: 0,
            kon: 0,
            koff_latch: 0,
            prev_v0_output: 0,
            echo_hist: [[0;2];8],
            echo_hist_pos: 0,
            echo_offset: 0,
            echo_length: 0,
            cycle_count: 0,
        };
        d.regs[REG_FLG] = 0xE0;  // soft reset state
        d
    }

    /// Register read; reading ENDX ($7C) clears it.
    #[verifier::spinoff_prover]
    pub fn read(&mut self, addr: u8) -> (v: u8)
        ensures
            v == old(self).regs[(addr & 0x7F) as int],
            (addr & 0x7F) == 0x7C ==> *final(self) == (Dsp { regs: final(self).regs, ..*old(self) })
                && final(self).regs@ == old(self).regs@.update(REG_ENDX as int, 0),
            (addr & 0x7F) != 0x7C ==> *final(self) == *old(self),
    {
        proof {
            lemma_and_le_u8(addr, 0x7F);
        }
        let addr = addr & 0x7F;
        let v = self.regs[addr as usize];
        if addr == 0x7C {
            // ENDX reads clear
            self.regs[REG_ENDX] = 0;
        }
        v
    }

    /// Register write (addresses $80-$FF are ignored); KON is latched and
    /// writes to ENDX clear it.
    #[verifier::spinoff_prover]
    pub fn write(&mut self, addr: u8, value: u8)
        requires
            old(self).wf(),
        ensures
            final(self).wf(),
            addr >= 0x80 ==> *final(self) == *old(self),
            addr < 0x80 && addr != 0x7C ==> final(self).regs@ == old(self).regs@.update(addr as int, value),
            addr == 0x7C ==> final(self).regs@ == old(self).regs@.update(REG_ENDX as int, 0),
            addr as usize == REG_KON ==> final(self).new_kon == value,
            addr as usize != REG_KON ==> final(self).new_kon == old(self).new_kon,
            *final(self) == (Dsp { regs: final(self).regs, new_kon: final(self).new_kon, ..*old(self) }),
    {
        if addr & 0x80 != 0 {
            proof {
                lemma_reg_addr_bits(addr);
            }
            return ;
        }
        proof {
            lemma_reg_addr_bits(addr);
        }
        self.regs[(addr & 0x7F) as usize] = value;
        if addr & 0x0F == 0x0C {
            if addr as usize == REG_KON {
                // KON is latched, applied on an every-other-sample cadence
                self.new_kon = value;
            }
            if addr == 0x7C {
                // ENDX writes always clear
                self.regs[REG_ENDX] = 0;
            }
        }
    }

    /// One SPC700 clock. A full sample period is 32 clocks.
    #[verifier::spinoff_prover]
    pub fn cycle(&mut self, ram: &mut [u8; 0x10000])
        requires
            old(self).wf(),
        ensures
            final(self).wf(),
            final(self).cycle_count == vstd::wrapping::u32_specs::wrapping_add(old(self).cycle_count, 1),
            final(self).cycle_count % 32 != 0 ==> *final(self) == (Dsp { cycle_count: final(self).cycle_count, ..*old(self) }) && *final(ram) == *old(ram),
            final(self).cycle_count % 32 == 0 ==> final(self).sample_buffer@.len() == old(self).sample_buffer@.len() + 1,
            final(self).cycle_count % 32 == 0 ==> final(self).sample_buffer@.drop_last() == old(self).sample_buffer@,
            final(self).cycle_count % 32 == 0 && old(self).regs[REG_FLG as int] & 0x40 != 0
                ==> final(self).sample_buffer@.last() == (0i16, 0i16),
            final(self).cycle_count % 32 == 0 && old(self).regs[REG_FLG as int] & 0x20 != 0 ==> *final(ram) == *old(ram),
            final(self).cycle_count % 32 == 0 && old(self).regs[REG_MVOLL as int] == 0 && old(self).regs[REG_EVOLL as int] == 0 ==> final(self).sample_buffer@.last().0 == 0,
            final(self).cycle_count % 32 == 0 && old(self).regs[REG_MVOLR as int] == 0 && old(self).regs[REG_EVOLR as int] == 0 ==> final(self).sample_buffer@.last().1 == 0,
            final(self).cycle_count % 32 == 0 && old(self).regs[REG_FLG as int] & 0x20 == 0 ==> forall|i: int|
                0 <= i < 0x10000 && !(((old(self).regs[REG_ESA as int] as int) * 0x100 + old(self).echo_offset as int) % 0x10000 <= i < ((old(self).regs[REG_ESA as int] as int) * 0x100 + old(self).echo_offset as int) % 0x10000 + 4) ==> final(ram)[i] == old(ram)[i],
    {
        self.cycle_count = self.cycle_count.wrapping_add(1);
        if self.cycle_count % 32 == 0 {
            self.run_sample(ram);
        }
    }

    /// Drain pending samples for the audio device.
    #[verifier::spinoff_prover]
    pub fn drain(&mut self, out: &mut Vec<(i16, i16)>)
        ensures
            final(out)@ == old(out)@ + old(self).sample_buffer@,
            final(self).sample_buffer@.len() == 0,
            *final(self) == (Dsp { sample_buffer: final(self).sample_buffer, ..*old(self) }),
    {
        out.append(&mut self.sample_buffer);
    }

    #[verifier::rlimit(40)]

    #[verifier::spinoff_prover]
    fn run_sample(&mut self, ram: &mut [u8; 0x10000])
        requires
            old(self).wf(),
        ensures
            final(self).wf(),
            final(self).sample_buffer@.len() == old(self).sample_buffer@.len() + 1,
            final(self).cycle_count == old(self).cycle_count,
            final(self).sample_buffer@.drop_last() == old(self).sample_buffer@,
            old(self).regs[REG_FLG as int] & 0x40 != 0 ==> final(self).sample_buffer@.last() == (0i16, 0i16),
            old(self).regs[REG_MVOLL as int] == 0 && old(self).regs[REG_EVOLL as int] == 0 ==> final(self).sample_buffer@.last().0 == 0,
            old(self).regs[REG_MVOLR as int] == 0 && old(self).regs[REG_EVOLR as int] == 0 ==> final(self).sample_buffer@.last().1 == 0,
            old(self).regs[REG_FLG as int] & 0x20 != 0 ==> *final(ram) == *old(ram),
            old(self).regs[REG_FLG as int] & 0x20 == 0 ==> forall|i: int|
                0 <= i < 0x10000 && !(((old(self).regs[REG_ESA as int] as int) * 0x100 + old(self).echo_offset as int) % 0x10000 <= i < ((old(self).regs[REG_ESA as int] as int) * 0x100 + old(self).echo_offset as int) % 0x10000 + 4) ==> final(ram)[i] == old(ram)[i],
    {
        let flg = self.regs[REG_FLG];
        let pmon = self.regs[REG_PMON] & 0xFE;  // voice 0 doesn't support PMON
        let non = self.regs[REG_NON];
        let eon = self.regs[REG_EON];
        let dir = self.regs[REG_DIR] as usize;
        // KON latch
        self.every_other_sample = !self.every_other_sample;
        if self.every_other_sample {
            self.new_kon = self.new_kon & !self.kon;
            self.kon = self.new_kon;
            self.koff_latch = self.regs[REG_KOFF];
        }
        // Counters + noise
        self.counter = self.counter - 1;
        if self.counter < 0 {
            self.counter = COUNTER_RANGE - 1;
        }
        if self.read_counter(flg & 0x1F) {
            let n = self.noise;
            let feedback = (n << 13i32) ^ (n << 14i32);
            self.noise = (feedback & 0x4000) ^ (n >> 1i32);
            proof {
                lemma_noise_step(n);
            }
        }
        let mut main_out: [i32; 2] = [0, 0];
        let mut echo_out: [i32; 2] = [0, 0];
        let mut prev_t_output = self.prev_v0_output;
        let len0 = self.sample_buffer.len();
        let mut vi: usize = 0;
        while vi < 8
            invariant
                vi <= 8,
                self.wf(),
                self.cycle_count == old(self).cycle_count,
                self.sample_buffer@ == old(self).sample_buffer@,
                self.regs[REG_ESA as int] == old(self).regs[REG_ESA as int],
                self.regs[REG_MVOLL as int] == old(self).regs[REG_MVOLL as int],
                self.regs[REG_MVOLR as int] == old(self).regs[REG_MVOLR as int],
                self.regs[REG_EVOLL as int] == old(self).regs[REG_EVOLL as int],
                self.regs[REG_EVOLR as int] == old(self).regs[REG_EVOLR as int],
                self.echo_offset == old(self).echo_offset,
                flg == old(self).regs[REG_FLG as int],
                *ram == *old(ram),
                dir <= 0xFF,
                -32768 <= prev_t_output <= 32767,
                -32768 <= main_out[0] <= 32767,
                -32768 <= main_out[1] <= 32767,
                -32768 <= echo_out[0] <= 32767,
                -32768 <= echo_out[1] <= 32767,
            decreases 8 - vi,
        {
            let base = vi * 0x10;
            let vbit = 1u8 << vi as u8;
            let mut v = self.voices[vi];
            // Sample directory entry. The loop address (+2) is read for
            // running voices, the start address during KON delay.
            let srcn = self.regs[base + 4] as usize;
            let mut entry = dir * 0x100 + srcn * 4;
            if v.kon_delay == 0 {
                entry += 2;
            }
            let entry = entry % 0x10000;
            proof {
                let e = (dir * 0x100 + srcn * 4 + if old(self).voices[vi as int].kon_delay == 0 { 2int } else { 0int }) as usize;
                assert(e % 2 == 0 ==> e % 0x10000 <= 0xFFFE) by (nonlinear_arith);
            }
            let brr_next_addr = ram[entry] as u16 | ((ram[entry + 1] as u16) << 8u16);
            // Pitch
            let mut pitch = self.regs[base + 2] as i32 | (((self.regs[base + 3] & 0x3F) as i32) << 8i32);
            proof {
                let lo = self.regs[base + 2] as i32;
                let hi = (self.regs[base + 3] & 0x3F) as i32;
                lemma_and_le_u8(self.regs[base + 3], 0x3F);
                lemma_pitch_bits(lo, hi);
            }
            // BRR header and data byte
            let brr_byte = ram[v.brr_addr.wrapping_add(v.brr_offset) as usize];
            let mut brr_header = ram[v.brr_addr as usize];
            // Pitch modulation by previous voice's output
            if pmon & vbit != 0 {
                let q = prev_t_output >> 5i32;
                proof {
                    lemma_dsp_shift_values();
                    lemma_asr_i32_bounds(prev_t_output, 5u32, -32768i32, 32767i32);
                    assert(-1024 * pitch <= q * pitch <= 1023 * pitch) by (nonlinear_arith)
                        requires -1024 <= q <= 1023, 0 <= pitch <= 0x3FFF;
                }
                let m = q * pitch;
                proof {
                    lemma_pitch_mod_bits(m, pitch);
                }
                pitch = pitch + (m >> 10i32);
            }
            if v.kon_delay != 0 {
                // Get ready to start BRR decoding
                if v.kon_delay == 5 {
                    v.brr_addr = brr_next_addr;
                    v.brr_offset = 1;
                    v.buf_pos = 0;
                    brr_header = 0;  // header ignored on this sample
                }
                // Envelope never runs during KON
                v.env = 0;
                v.hidden_env = 0;
                // Disable BRR decoding until last three samples
                v.interp_pos = 0;
                v.kon_delay = v.kon_delay - 1;
                if v.kon_delay & 3 != 0 {
                    v.interp_pos = 0x4000;
                }
                // Pitch never added during KON
                pitch = 0;
            }
            // Gaussian interpolation + envelope
            let mut output = interpolate(&v);
            if non & vbit != 0 {
                output = ((self.noise * 2) as i16) as i32;
            }
            proof {
                assert(-32768 * 0x7FF <= output * v.env <= 32767 * 0x7FF) by (nonlinear_arith)
                    requires -32768 <= output <= 32767, 0 <= v.env <= 0x7FF;
            }
            let prod = output * v.env;
            let t_output = (prod >> 11i32) & !1i32;
            proof {
                lemma_dsp_shift_values();
                lemma_asr_i32_bounds(prod, 11u32, -67076096i32, 67074049i32);
                lemma_clear_bit0_i16_range(prod >> 11i32);
            }
            prev_t_output = t_output;
            if vi == 0 {
                self.prev_v0_output = t_output;
            }
            self.regs[base + 8] = (v.env >> 4i32) as u8;  // ENVX
            self.regs[base + 9] = (t_output >> 8i32) as u8;  // OUTX
            // Immediate silence on soft reset or BRR end without loop
            if flg & 0x80 != 0 || (brr_header & 3) == 1 {
                v.env_mode = EnvMode::Release;
                v.env = 0;
            }
            if self.every_other_sample {
                if self.koff_latch & vbit != 0 {
                    v.env_mode = EnvMode::Release;
                }
                if self.kon & vbit != 0 {
                    v.kon_delay = 5;
                    v.env_mode = EnvMode::Attack;
                }
            }
            // Run envelope for next sample
            self.voices[vi] = v;
            if v.kon_delay == 0 {
                self.run_envelope(vi);
            }
            let mut v = self.voices[vi];
            // BRR decode
            let mut looped = false;
            if v.interp_pos >= 0x4000 {
                decode_brr(&mut v, brr_header, brr_byte, ram);
                v.brr_offset = v.brr_offset + 2;
                if v.brr_offset >= 9 {
                    v.brr_addr = v.brr_addr.wrapping_add(9);
                    if brr_header & 1 != 0 {
                        v.brr_addr = brr_next_addr;
                        looped = true;
                    }
                    v.brr_offset = 1;
                }
            }
            // Apply pitch
            proof {
                lemma_interp_position_bits(v.interp_pos);
            }
            v.interp_pos = (v.interp_pos & 0x3FFF) + pitch;
            if v.interp_pos > 0x7FFF {
                v.interp_pos = 0x7FFF;
            }
            self.voices[vi] = v;
            // Channel outputs
            let mut ch: usize = 0;
            while ch < 2
                invariant
                    ch <= 2,
                    -32768 <= t_output <= 32767,
                    -32768 <= main_out[0] <= 32767,
                    -32768 <= main_out[1] <= 32767,
                    -32768 <= echo_out[0] <= 32767,
                    -32768 <= echo_out[1] <= 32767,
                    base + 1 < 0x80,
                decreases 2 - ch,
            {
                let vol = self.regs[base + ch] as i8 as i32;
                proof {
                    assert(-32768 * 128 <= t_output * vol <= 32768 * 128) by (nonlinear_arith)
                        requires -32768 <= t_output <= 32767, -128 <= vol <= 127;
                }
                let amp = (t_output * vol) >> 7i32;
                proof {
                    let tv = (t_output * vol) as i32;
                    lemma_dsp_shift_values();
                    lemma_asr_i32_bounds(tv, 7u32, -4194304i32, 4194304i32);
                    lemma_clamp16_saturates((main_out[ch as int] + amp) as i32);
                    lemma_clamp16_saturates((echo_out[ch as int] + amp) as i32);
                }
                main_out[ch] = clamp16(main_out[ch] + amp);
                if eon & vbit != 0 {
                    echo_out[ch] = clamp16(echo_out[ch] + amp);
                }
                ch += 1;
            }
            // ENDX
            if looped {
                self.regs[REG_ENDX] = self.regs[REG_ENDX] | vbit;
            }
            if v.kon_delay == 5 {
                // KON just began
                self.regs[REG_ENDX] = self.regs[REG_ENDX] & !vbit;
            }
            vi += 1;
        }
        self.echo_mix_and_output(ram, main_out, echo_out, flg);
    }

    /// Echo FIR, master/echo volumes, output sample and echo buffer write.
    #[verifier::spinoff_prover]
    fn echo_mix_and_output(&mut self, ram: &mut [u8; 0x10000], main_out: [i32; 2], echo_out: [i32; 2], flg: u8)
        requires
            old(self).wf(),
            -32768 <= main_out[0] <= 32767,
            -32768 <= main_out[1] <= 32767,
            -32768 <= echo_out[0] <= 32767,
            -32768 <= echo_out[1] <= 32767,
        ensures
            final(self).wf(),
            final(self).sample_buffer@.len() == old(self).sample_buffer@.len() + 1,
            final(self).cycle_count == old(self).cycle_count,
            final(self).sample_buffer@.drop_last() == old(self).sample_buffer@,
            flg & 0x40 != 0 ==> final(self).sample_buffer@.last() == (0i16, 0i16),
            old(self).regs[REG_MVOLL as int] == 0 && old(self).regs[REG_EVOLL as int] == 0 ==> final(self).sample_buffer@.last().0 == 0,
            old(self).regs[REG_MVOLR as int] == 0 && old(self).regs[REG_EVOLR as int] == 0 ==> final(self).sample_buffer@.last().1 == 0,
            flg & 0x20 != 0 ==> *final(ram) == *old(ram),
            flg & 0x20 == 0 ==> forall|i: int|
                0 <= i < 0x10000 && !(((old(self).regs[REG_ESA as int] as int) * 0x100 + old(self).echo_offset as int) % 0x10000 <= i < ((old(self).regs[REG_ESA as int] as int) * 0x100 + old(self).echo_offset as int) % 0x10000 + 4) ==> final(ram)[i] == old(ram)[i],
    {
        // Echo: history read + FIR
        self.echo_hist_pos = (self.echo_hist_pos + 1) % 8;
        let echo_ptr = ((self.regs[REG_ESA] as usize) * 0x100 + self.echo_offset as usize) % 0x10000;
        proof {
            let e = ((self.regs[REG_ESA as int] as usize) * 0x100 + self.echo_offset as usize) as usize;
            assert(e % 4 == 0 ==> e % 0x10000 <= 0xFFFC) by (nonlinear_arith);
        }
        let mut ch: usize = 0;
        while ch < 2
            invariant
                ch <= 2,
                echo_ptr <= 0xFFFC,
                echo_ptr == ((old(self).regs[REG_ESA as int] as int) * 0x100 + old(self).echo_offset as int) % 0x10000,
                self.regs == old(self).regs,
                self.wf(),
                self.sample_buffer@ == old(self).sample_buffer@,
                self.cycle_count == old(self).cycle_count,
            decreases 2 - ch,
        {
            let raw = ((ram[echo_ptr + ch * 2] as u16) | ((ram[echo_ptr + ch * 2 + 1] as u16) << 8u16)) as i16;
            let h = (raw >> 1i16) as i32;
            proof {
                lemma_i16_half(raw);
            }
            self.echo_hist[self.echo_hist_pos][ch] = h;
            ch += 1;
        }
        let mut echo_in: [i32; 2] = [0, 0];
        let mut ch: usize = 0;
        while ch < 2
            invariant
                ch <= 2,
                self.wf(),
                -32768 <= echo_in[0] <= 32767,
                -32768 <= echo_in[1] <= 32767,
            decreases 2 - ch,
        {
            let mut acc: i32 = 0;
            let mut i: usize = 0;
            while i < 7
                invariant
                    i <= 7,
                    ch < 2,
                    self.wf(),
                    -32768 * (i as int) <= acc <= 32768 * (i as int),
                decreases 7 - i,
            {
                let coef = self.regs[0x0F + i * 0x10] as i8 as i32;
                let h = self.echo_hist[(self.echo_hist_pos + 1 + i) % 8][ch];
                proof {
                    assert(-16384 * 128 <= h * coef <= 16384 * 128) by (nonlinear_arith)
                        requires -16384 <= h <= 16383, -128 <= coef <= 127;
                    let hc = (h * coef) as i32;
                    lemma_dsp_shift_values();
                    lemma_asr_i32_bounds(hc, 6u32, -2097152i32, 2097152i32);
                }
                acc = acc + ((h * coef) >> 6i32);
                i += 1;
            }
            let mut l = acc as i16 as i32;
            let coef7 = self.regs[0x0F + 7 * 0x10] as i8 as i32;
            let h7 = self.echo_hist[self.echo_hist_pos][ch];
            proof {
                assert(-16384 * 128 <= h7 * coef7 <= 16384 * 128) by (nonlinear_arith)
                    requires -16384 <= h7 <= 16383, -128 <= coef7 <= 127;
            }
            l = l + (((h7 * coef7) >> 6i32) as i16 as i32);
            let c = clamp16(l);
            proof {
                lemma_clamp16_saturates(l);
                lemma_clear_bit0_i16_range(c);
            }
            echo_in[ch] = c & !1i32;
            ch += 1;
        }
        // Output volumes + echo feedback
        let out_l = Self::echo_output(main_out[0], echo_in[0], self.regs[REG_MVOLL], self.regs[REG_EVOLL]);
        let efb = self.regs[REG_EFB] as i8 as i32;
        let fb_l = Self::echo_feedback(echo_out[0], echo_in[0], efb);
        let fb_r = Self::echo_feedback(echo_out[1], echo_in[1], efb);
        let out_r = Self::echo_output(main_out[1], echo_in[1], self.regs[REG_MVOLR], self.regs[REG_EVOLR]);
        proof {
            lemma_zero_volumes_silence(main_out[0], echo_in[0]);
            lemma_zero_volumes_silence(main_out[1], echo_in[1]);
        }
        let mut l = out_l;
        let mut r = out_r;
        if flg & 0x40 != 0 {
            l = 0;
            r = 0;
        }
        self.sample_buffer.push((l as i16, r as i16));
        // Echo buffer advance + feedback write (skipped when FLG bit5 set)
        if self.echo_offset == 0 {
            proof {
                lemma_and_le_u8(self.regs[REG_EDL as int], 0x0F);
            }
            self.echo_length = ((self.regs[REG_EDL] & 0x0F) as u32) * 0x800;
        }
        self.echo_offset = self.echo_offset + 4;
        if self.echo_offset >= self.echo_length {
            self.echo_offset = 0;
        }
        if self.echo_offset >= 0x8000 {
            // Unreachable: the echo length never exceeds 0x7800.
            self.echo_offset = 0;
        }
        if flg & 0x20 == 0 {
            let wl = fb_l as i16 as u16;
            ram[echo_ptr] = wl as u8;
            ram[echo_ptr + 1] = (wl >> 8u16) as u8;
            let wr = fb_r as i16 as u16;
            ram[echo_ptr + 2] = wr as u8;
            ram[echo_ptr + 3] = (wr >> 8u16) as u8;
        }
    }

    /// Output channel: master volume on the dry mix plus echo volume on the echo.
    #[verifier::spinoff_prover]
    fn echo_output(main: i32, echo: i32, mvol: u8, evol: u8) -> (r: i32)
        requires
            -32768 <= main <= 32767,
            -32768 <= echo <= 32767,
        ensures
            -32768 <= r <= 32767,
            r == spec_echo_output(main, echo, mvol, evol),
    {
        let m = mvol as i8 as i32;
        let e = evol as i8 as i32;
        proof {
            assert(-32768 * 128 <= main * m <= 32768 * 128) by (nonlinear_arith)
                requires -32768 <= main <= 32767, -128 <= m <= 127;
            assert(-32768 * 128 <= echo * e <= 32768 * 128) by (nonlinear_arith)
                requires -32768 <= echo <= 32767, -128 <= e <= 127;
        }
        let x = ((main * m) >> 7i32) as i16 as i32 + ((echo * e) >> 7i32) as i16 as i32;
        proof {
            lemma_clamp16_saturates(x);
        }
        clamp16(x)
    }

    /// Echo feedback: the voice echo mix plus the FIR output scaled by EFB.
    #[verifier::spinoff_prover]
    fn echo_feedback(echo_mix: i32, echo_in: i32, efb: i32) -> (r: i32)
        requires
            -32768 <= echo_mix <= 32767,
            -32768 <= echo_in <= 32767,
            -128 <= efb <= 127,
        ensures
            -32768 <= r <= 32767,
    {
        proof {
            assert(-32768 * 128 <= echo_in * efb <= 32768 * 128) by (nonlinear_arith)
                requires -32768 <= echo_in <= 32767, -128 <= efb <= 127;
        }
        let x = echo_mix + (((echo_in * efb) >> 7i32) as i16 as i32);
        proof {
            lemma_clamp16_saturates(x);
        }
        let c = clamp16(x);
        proof {
            lemma_clear_bit0_i16_range(c);
        }
        c & !1i32
    }

    #[verifier::spinoff_prover]
    fn run_envelope(&mut self, vi: usize)
        requires
            old(self).wf(),
            vi < 8,
        ensures
            final(self).wf(),
            *final(self) == (Dsp { voices: final(self).voices, ..*old(self) }),
            forall|j: int| 0 <= j < 8 && j != vi ==> final(self).voices[j] == old(self).voices[j],
    {
        let base = vi * 0x10;
        let counter = self.counter;
        let adsr1 = self.regs[base + 5];
        let adsr2 = self.regs[base + 6];
        let gain = self.regs[base + 7];
        let mut v = self.voices[vi];
        assert(v.wf());
        let mut env = v.env;
        if v.env_mode == EnvMode::Release {
            env = env - 0x8;
            if env < 0 {
                env = 0;
            }
            v.env = env;
            self.voices[vi] = v;
            return ;
        }
        let mut rate: u8;
        let mut env_data = adsr2;
        if adsr1 & 0x80 != 0 {
            // ADSR
            if v.env_mode == EnvMode::Decay || v.env_mode == EnvMode::Sustain {
                env = env - 1;
                proof {
                    lemma_dsp_shift_values();
                    lemma_asr_i32_bounds(env, 8u32, -1i32, 0x7FFi32);
                }
                env = env - (env >> 8i32);
                rate = adsr2 & 0x1F;
                if v.env_mode == EnvMode::Decay {
                    proof {
                        lemma_and_le_u8(adsr1 >> 3u8, 0x0E);
                    }
                    rate = ((adsr1 >> 3u8) & 0x0E) + 0x10;
                }
            } else {
                proof {
                    lemma_and_le_u8(adsr1, 0x0F);
                }
                rate = (adsr1 & 0x0F) * 2 + 1;
                env = env + if rate < 31 {
                    0x20
                } else {
                    0x400
                };
            }
        } else {
            // GAIN
            env_data = gain;
            let mode = gain >> 5u8;
            if mode < 4 {
                // Direct
                env = gain as i32 * 0x10;
                rate = 31;
            } else {
                rate = gain & 0x1F;
                if mode == 4 {
                    // Linear decrease
                    env = env - 0x20;
                } else if mode == 5 {
                    // Exponential decrease
                    env = env - 1;
                    proof {
                        lemma_dsp_shift_values();
                        lemma_asr_i32_bounds(env, 8u32, -1i32, 0x7FFi32);
                    }
                    env = env - (env >> 8i32);
                } else {
                    // Linear increase; mode 7 is two-slope. (hidden_env is
                    // compared unsigned: a negative value counts as above
                    // the threshold.)
                    env = env + 0x20;
                    if mode > 6 && (v.hidden_env as u32) >= 0x600 {
                        env = env + 0x8 - 0x20;
                    }
                }
            }
        }
        // Sustain level
        if (env >> 8i32) == (env_data as i32 >> 5i32) && v.env_mode == EnvMode::Decay {
            v.env_mode = EnvMode::Sustain;
        }
        v.hidden_env = env as i16 as i32;
        // Unsigned comparison: linear decrease going negative also clamps
        if env > 0x7FF || env < 0 {
            env = if env < 0 {
                0
            } else {
                0x7FF
            };
            if v.env_mode == EnvMode::Attack {
                v.env_mode = EnvMode::Decay;
            }
        }
        if counter_fires(counter, rate) {
            v.env = env;
        }
        self.voices[vi] = v;
    }

    #[verifier::spinoff_prover]
    fn read_counter(&self, rate: u8) -> (b: bool)
        requires
            self.wf(),
        ensures
            b == spec_counter_fires(self.counter, rate),
    {
        counter_fires(self.counter, rate)
    }
}

} // verus!
