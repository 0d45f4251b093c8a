//! Bit-level constants of the program status word and the one lemma about
//! masked writes that the status-register operations are proved from.

use vstd::prelude::*;

verus! {

/// Sign flag (N), bit 31.
pub const FLAG_N: u32 = 0x8000_0000;
/// Zero flag (Z), bit 30.
pub const FLAG_Z: u32 = 0x4000_0000;
/// Carry / no-borrow flag (C), bit 29.
pub const FLAG_C: u32 = 0x2000_0000;
/// Signed overflow flag (V), bit 28.
pub const FLAG_V: u32 = 0x1000_0000;
/// IRQ disable bit (I), bit 7.
pub const FLAG_I: u32 = 0x80;
/// FIQ disable bit (F), bit 6.
pub const FLAG_F: u32 = 0x40;
/// State bit (T), bit 5: 0 = ARM, 1 = THUMB.
pub const FLAG_T: u32 = 0x20;
/// Mode bits, bits 4..0.
pub const MODE_MASK: u32 = 0x1F;
/// The four condition flags NZCV, bits 31..28.
pub const COND_MASK: u32 = 0xF000_0000;
/// Every defined bit: NZCV, I, F, T and the mode bits.
pub const NON_RESERVED_MASK: u32 = 0xF000_00FF;
/// The reserved bits 27..8, which read and write as zero.
pub const RESERVED_MASK: u32 = 0x0FFF_FF00;

/// The word `w` with the bits selected by `mask` replaced by those of `v`.
pub open spec fn masked_write(w: u32, v: u32, mask: u32) -> u32 {
    (w & !mask) | (v & mask)
}

/// Executable twin of [`masked_write`].
pub fn write_masked(w: u32, v: u32, mask: u32) -> (r: u32)
    ensures
        r == masked_write(w, v, mask),
{
    (w & !mask) | (v & mask)
}

/// How a masked write moves each field of the status word, for every mask
/// the status-register operations use.
pub proof fn lemma_psr_masked_write(w: u32, v: u32, mask: u32)
    by (bit_vector)
    requires
        mask == 0x8000_0000u32 || mask == 0x4000_0000u32 || mask == 0x2000_0000u32
            || mask == 0x1000_0000u32 || mask == 0x80u32 || mask == 0x40u32 || mask == 0x20u32
            || mask == 0x1Fu32 || mask == 0xF000_0000u32 || mask == 0xF000_00FFu32
            || mask == 0x0FFF_FF00u32,
    ensures
        masked_write(w, v, mask) & 0x8000_0000u32 == (if mask == 0x8000_0000u32
            || mask == 0xF000_0000u32 || mask == 0xF000_00FFu32 { v } else { w })
            & 0x8000_0000u32,
        masked_write(w, v, mask) & 0x4000_0000u32 == (if mask == 0x4000_0000u32
            || mask == 0xF000_0000u32 || mask == 0xF000_00FFu32 { v } else { w })
            & 0x4000_0000u32,
        masked_write(w, v, mask) & 0x2000_0000u32 == (if mask == 0x2000_0000u32
            || mask == 0xF000_0000u32 || mask == 0xF000_00FFu32 { v } else { w })
            & 0x2000_0000u32,
        masked_write(w, v, mask) & 0x1000_0000u32 == (if mask == 0x1000_0000u32
            || mask == 0xF000_0000u32 || mask == 0xF000_00FFu32 { v } else { w })
            & 0x1000_0000u32,
        masked_write(w, v, mask) & 0x80u32 == (if mask == 0x80u32
            || mask == 0xF000_00FFu32 { v } else { w }) & 0x80u32,
        masked_write(w, v, mask) & 0x40u32 == (if mask == 0x40u32
            || mask == 0xF000_00FFu32 { v } else { w }) & 0x40u32,
        masked_write(w, v, mask) & 0x20u32 == (if mask == 0x20u32
            || mask == 0xF000_00FFu32 { v } else { w }) & 0x20u32,
        masked_write(w, v, mask) & 0x1Fu32 == (if mask == 0x1Fu32
            || mask == 0xF000_00FFu32 { v } else { w }) & 0x1Fu32,
        masked_write(w, v, mask) & 0x0FFF_FF00u32 == (if mask == 0x0FFF_FF00u32 { v } else { w })
            & 0x0FFF_FF00u32,
        masked_write(w, v, mask) & mask == v & mask,
        v == mask ==> masked_write(w, v, mask) & mask == mask,
        v == 0u32 ==> masked_write(w, v, mask) & mask == 0u32,
        v < 32 && mask == 0x1Fu32 ==> masked_write(w, v, mask) & 0x1Fu32 == v,
        mask == 0xF000_00FFu32 ==> masked_write(w, v, mask) & 0xF000_00FFu32
            == v & 0xF000_00FFu32,
        v & mask == w & mask ==> masked_write(w, v, mask) == w,
{
}

/// The NZCV field read by `condition_bits`: bit of the field against bit of
/// the word, and its range.
pub proof fn lemma_condition_bits(w: u32)
    by (bit_vector)
    ensures
        w >> 28u32 < 16,
        (w >> 28u32) & 8u32 != 0 <==> w & 0x8000_0000u32 != 0,
        (w >> 28u32) & 4u32 != 0 <==> w & 0x4000_0000u32 != 0,
        (w >> 28u32) & 2u32 != 0 <==> w & 0x2000_0000u32 != 0,
        (w >> 28u32) & 1u32 != 0 <==> w & 0x1000_0000u32 != 0,
{
}

} // verus!
