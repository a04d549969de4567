//! Small bit-level facts shared by the chip modules.

use vstd::prelude::*;

verus! {

pub proof fn lemma_and_le_u8(x: u8, m: u8)
    by (bit_vector)
    ensures
        x & m <= m,
        x & m <= x,
{
}

pub proof fn lemma_and_le_u16(x: u16, m: u16)
    by (bit_vector)
    ensures
        x & m <= m,
        x & m <= x,
{
}

pub proof fn lemma_and_le_u32(x: u32, m: u32)
    by (bit_vector)
    ensures
        x & m <= m,
        x & m <= x,
{
}

pub proof fn lemma_and_le_usize(x: usize, m: usize)
    by (bit_vector)
    ensures
        x & m <= m,
        x & m <= x,
{
}

/// A 24-bit address below 0x10000 lies in bank 0.
pub proof fn lemma_bank0_u32(x: u32)
    requires
        x <= 0xFFFF,
    ensures
        x >> 16u32 == 0,
{
    vstd::bits::lemma_u32_shr_is_div(x, 16);
    vstd::arithmetic::power2::lemma2_to64();
}

/// Zero stays zero under shifts and masks.
pub proof fn lemma_zero_bits(s: u8, m: u8)
    by (bit_vector)
    ensures
        (0u8 >> s) & m == 0,
        0u8 & m == 0,
        0i32 >> 7i32 == 0,
{
}

/// OR-ing a page base of 0 or 0x100 onto a byte offset adds them.
pub proof fn lemma_page_or(base: u16, d: u16)
    by (bit_vector)
    requires
        base == 0 || base == 0x100,
        d < 0x100,
    ensures
        base | d == base + d,
{
}

/// Arithmetic right shift of an `i32` is monotone.
pub proof fn lemma_asr_i32_bounds(x: i32, k: u32, lo: i32, hi: i32)
    by (bit_vector)
    requires
        0 <= k < 32,
        lo <= x <= hi,
    ensures
        lo >> k <= x >> k <= hi >> k,
{
}

/// Clearing bit 0 of a value in the `i16` range keeps it in that range.
pub proof fn lemma_clear_bit0_i16_range(c: i32)
    by (bit_vector)
    requires
        -32768 <= c <= 32767,
    ensures
        -32768 <= c & !1i32 <= 32767,
{
}

/// Masking with `0x1FF` keeps the value modulo 0x200.
pub proof fn lemma_mask_1ff_usize(a: usize)
    ensures
        a & 0x1FF == a % 0x200,
{
    vstd::bits::lemma_low_bits_mask_values();
    vstd::arithmetic::power2::lemma2_to64();
    vstd::bits::lemma_usize_low_bits_mask_is_mod(a, 9);
}

/// Masking with `0x1FF` keeps the value modulo 0x200.
pub proof fn lemma_mask_1ff_u16(a: u16)
    ensures
        a & 0x1FF == a % 0x200,
{
    vstd::bits::lemma_low_bits_mask_values();
    vstd::arithmetic::power2::lemma2_to64();
    vstd::bits::lemma_u16_low_bits_mask_is_mod(a, 9);
}

/// Right shift of a `u32` never increases it.
pub proof fn lemma_shr_le_u32(x: u32, k: u32)
    requires
        k < 32,
    ensures
        x >> k <= x,
{
    vstd::bits::lemma_u32_shr_is_div(x, k);
    vstd::arithmetic::power2::lemma_pow2_pos(k as nat);
    vstd::arithmetic::div_mod::lemma_div_is_ordered_by_denominator(x as int, 1, vstd::arithmetic::power2::pow2(k as nat) as int);
}

/// Toggling bit 0 of a 0/1 flag.
pub proof fn lemma_flip_bit0_u8(c: u8)
    by (bit_vector)
    requires
        c <= 1,
    ensures
        c ^ 1u8 == 1 - c,
{
}

/// Mirroring a 3-bit index: `r ^ 7` is `7 - r`.
pub proof fn lemma_mirror3_usize(r: usize)
    by (bit_vector)
    requires
        r <= 7,
    ensures
        r ^ 7 == 7 - r,
{
}

/// Replacing one byte of a 16-bit word and reading that byte back.
pub proof fn lemma_word_byte_roundtrip(w: u16, value: u8)
    by (bit_vector)
    ensures
        ((w & 0xFF00) | value as u16) as u8 == value,
        (((w & 0x00FF) | ((value as u16) << 8u16)) >> 8u16) as u8 == value,
{
}

/// A bank byte above a 16-bit address forms a 24-bit bus address.
pub proof fn lemma_bank_addr_u32(bank: u8, addr: u16)
    by (bit_vector)
    ensures
        ((bank as u32) << 16u32) | (addr as u32) <= 0xFFFFFF,
{
}

/// Complementing a byte held in a `u16`.
pub proof fn lemma_complement_byte_u16(x: u16)
    by (bit_vector)
    requires
        x <= 0xFF,
    ensures
        x ^ 0xFF == 0xFF - x,
{
}

/// Masking an `i32` with a non-negative mask gives a value in `0..=m`.
pub proof fn lemma_and_mask_i32(x: i32, m: i32)
    by (bit_vector)
    requires
        m >= 0,
    ensures
        0 <= x & m <= m,
{
}

} // verus!
