//! Facts about the bits of bytes and small words that the laws of the
//! processor and the cartridge boards rest on.
use vstd::prelude::*;

verus! {

/// The status byte `p` after each way an operation sets its flags from a
/// result `r`, a carry `c`, an overflow `v` and a zero test `z`: which
/// flags come out set, and which bits stay as in `p`. Also the sign bit of
/// `r` and `x`, and the symmetry of the bitwise operations.
pub proof fn lemma_status_bits(p: u8, r: u8, x: u8, c: bool, v: bool, z: bool) by (bit_vector)
    ensures
        ({
            // Z and N from `r`.
            let z0: u8 = if r == 0 {
                p | 0x02u8
            } else {
                p & !0x02u8
            };
            let nz: u8 = if r & 0x80u8 != 0 {
                z0 | 0x80u8
            } else {
                z0 & !0x80u8
            };
            // Z and N from `r`, then C.
            let nz_c: u8 = if c {
                nz | 0x01u8
            } else {
                nz & !0x01u8
            };
            // C, then Z and N from `r`.
            let c1: u8 = if c {
                p | 0x01u8
            } else {
                p & !0x01u8
            };
            let cz: u8 = if r == 0 {
                c1 | 0x02u8
            } else {
                c1 & !0x02u8
            };
            let c_nz: u8 = if r & 0x80u8 != 0 {
                cz | 0x80u8
            } else {
                cz & !0x80u8
            };
            // C, then V, then Z and N from `r`.
            let cv: u8 = if v {
                c1 | 0x40u8
            } else {
                c1 & !0x40u8
            };
            let cvz: u8 = if r == 0 {
                cv | 0x02u8
            } else {
                cv & !0x02u8
            };
            let cv_nz: u8 = if r & 0x80u8 != 0 {
                cvz | 0x80u8
            } else {
                cvz & !0x80u8
            };
            // N from `c`, V from `v`, Z from `z` (BIT).
            let n1: u8 = if c {
                p | 0x80u8
            } else {
                p & !0x80u8
            };
            let nv: u8 = if v {
                n1 | 0x40u8
            } else {
                n1 & !0x40u8
            };
            let nvz: u8 = if z {
                nv | 0x02u8
            } else {
                nv & !0x02u8
            };
            &&& (nz & 0x02u8 != 0) == (r == 0) && (nz & 0x80u8 != 0) == (r >= 128) && nz & 0x7Du8
                == p & 0x7Du8
            &&& (nz_c & 0x02u8 != 0) == (r == 0) && (nz_c & 0x01u8 != 0) == c && (nz_c & 0x80u8
                != 0) == (r >= 128) && nz_c & 0x7Cu8 == p & 0x7Cu8
            &&& (c_nz & 0x01u8 != 0) == c && (c_nz & 0x02u8 != 0) == (r == 0) && (c_nz & 0x80u8
                != 0) == (r >= 128) && c_nz & 0x7Cu8 == p & 0x7Cu8
            &&& (cv_nz & 0x01u8 != 0) == c && (cv_nz & 0x40u8 != 0) == v && (cv_nz & 0x02u8 != 0)
                == (r == 0) && (cv_nz & 0x80u8 != 0) == (r >= 128)
            &&& (nvz & 0x80u8 != 0) == c && (nvz & 0x40u8 != 0) == v && (nvz & 0x02u8 != 0) == z
                && nvz & 0x3Du8 == p & 0x3Du8
            &&& (r & 0x80u8 != 0) == (r >= 128) && (r & 0x80u8 == 0x80u8) == (r >= 128) && (r
                & 0x80u8 == 0) == (r < 128)
            &&& (x & 0x80u8 != 0) == (x >= 128) && (x & 0x80u8 == 0x80u8) == (x >= 128) && (x
                & 0x80u8 == 0) == (x < 128)
            &&& r & x == x & r && r | x == x | r && r ^ x == x ^ r
            &&& (p | 0x01u8) & 0x01u8 != 0 && (p | 0x01u8) & !0x01u8 == p & !0x01u8 && (p
                & !0x01u8) & 0x01u8 == 0 && (p & !0x01u8) & !0x01u8 == p & !0x01u8
            &&& (p | 0x04u8) & 0x04u8 != 0 && (p | 0x04u8) & !0x04u8 == p & !0x04u8 && (p
                & !0x04u8) & 0x04u8 == 0 && (p & !0x04u8) & !0x04u8 == p & !0x04u8
            &&& (p | 0x08u8) & 0x08u8 != 0 && (p | 0x08u8) & !0x08u8 == p & !0x08u8 && (p
                & !0x08u8) & 0x08u8 == 0 && (p & !0x08u8) & !0x08u8 == p & !0x08u8
            &&& (p | 0x10u8) | 0x10u8 == p | 0x10u8
            &&& (p | 0x40u8) & 0x40u8 != 0 && (p | 0x40u8) & !0x40u8 == p & !0x40u8 && (p
                & !0x40u8) & 0x40u8 == 0 && (p & !0x40u8) & !0x40u8 == p & !0x40u8
        }),
{
}

/// MMC1's bank numbers: the bits of a register value that pick 4KiB and
/// 16KiB banks.
pub proof fn lemma_word_bits(w: u32) by (bit_vector)
    ensures
        w < 32 ==> (w & 0x1E) == 2 * (w / 2) && (w | 0x01) == 2 * (w / 2) + 1,
        (w & 0x0E) == 2 * ((w % 16) / 2),
        ((w | 0x01) & 0x0F) == 2 * ((w % 16) / 2) + 1,
        (w & 0x0F) == w % 16,
        (w & 0x1F) == w % 32,
{
}

/// The register fields that the cartridge boards decode from a byte written
/// to them, and CNROM's CHR bank window.
pub proof fn lemma_byte_bits(b: u8, a: u16) by (bit_vector)
    ensures
        (b & 0x10 == 0) == ((b & 0x10) >> 4u8 == 0),
        (b & 0x0C) >> 2u8 == (b / 4) % 4,
        (b & 0x0F) == b % 16,
        (b & 0x40 == 0x40) == (b / 64 % 2 == 1),
        (b & 0x80 == 0x80) == (b >= 128),
        b & 0x7 == b % 8,
        (b & 0x10 == 0) == (b / 16 % 2 == 0),
        0x8000u16 & 0xE000 == 0x8000 && 0x8000u16 & 0x1 == 0,
        0x8001u16 & 0xE000 == 0x8000 && 0x8001u16 & 0x1 != 0,
        0xC000u16 & 0xE000 == 0xC000 && 0xC000u16 & 0x1 == 0,
        0xC001u16 & 0xE000 == 0xC000 && 0xC001u16 & 0x1 != 0,
        0xE000u16 & 0xE000 == 0xE000 && 0xE000u16 & 0x1 == 0,
        0xE001u16 & 0xE000 == 0xE000 && 0xE001u16 & 0x1 != 0,
        (b < 8 && a < 0x2000) ==> ((b as u16) << 13u16) | a == b * 0x2000 + a,
        a < 0x2000 ==> (((b & 0x03) as u16) << 13u16) | a == (b % 4) * 0x2000 + a,
        0x0100 | (b as u16) == 0x0100 + b,
        ((b as u16) << 13u16) | a >= a,
{
}

/// The program address bits that select AxROM's and UxROM's windows, and
/// the bits that fold an address into RAM and the PPU registers.
pub proof fn lemma_address_bits(a: u16) by (bit_vector)
    ensures
        a >= 0x8000 ==> a & 0x7FFF == a - 0x8000,
        (0x8000 <= a && a < 0xC000) ==> a & 0x4000 == 0 && a & 0x3FFF == a - 0x8000,
        a >= 0xC000 ==> a & 0x4000 != 0 && a & 0x3FFF == a - 0xC000,
        a & 0x7FF < 0x800 && a & 0x7 < 8,
        a & 0xFF00 == (a / 256) * 256,
        a >= 0x8000 ==> ((a & 0xE000 == 0x8000) == (a < 0xA000) && (a & 0xE000 == 0xA000) == (
        0xA000 <= a < 0xC000) && (a & 0xE000 == 0xC000) == (0xC000 <= a < 0xE000) && (a & 0xE000
            == 0xE000) == (0xE000 <= a)),
{
}

/// MMC3's bank register values and the bank sizes, as byte offsets, and a
/// length cut to 16 bits.
pub proof fn lemma_offset_bits(b: u8, x: usize) by (bit_vector)
    ensures
        x < 256 ==> ((x & 0x7F) << 13usize) == (x % 128) * 0x2000 && ((x & 0xFE) << 10usize) == (x
            / 2) * 0x800 && (x << 10usize) == x * 0x400,
        ((b & 0x7F) as usize) == (b as usize) & 0x7F,
        ((b & 0xFE) as usize) == (b as usize) & 0xFE,
        (1usize << 14usize) == 0x4000,
        (1usize << 15usize) == 0x8000,
        (x as u16) as usize <= x,
{
}

/// One step of the noise channel's 14-bit shift register, with its tap at
/// bit 1 or at bit 5.
pub proof fn lemma_shift_register_bits(r: u16) by (bit_vector)
    requires
        r < 0x4000,
    ensures
        ({
            let f1 = (r & 1) ^ ((r >> 1u16) & 1);
            let f5 = (r & 1) ^ ((r >> 5u16) & 1);
            let s1 = (r >> 1u16) | (f1 << 13u16);
            let s5 = (r >> 1u16) | (f5 << 13u16);
            &&& s1 < 0x4000 && s1 % 0x2000 == r / 2 && s1 / 0x2000 == f1
            &&& s5 < 0x4000 && s5 % 0x2000 == r / 2 && s5 / 0x2000 == f5
            &&& f1 == if r % 2 != (r / 2) % 2 {
                1u16
            } else {
                0u16
            }
            &&& f5 == if r % 2 != (r / 32) % 2 {
                1u16
            } else {
                0u16
            }
        }),
{
}

/// The fields of the sound registers: a duty in the top two bits, flags,
/// a volume or period index in the low four, a length index in the top
/// five, an 11-bit timer period from two writes, and the sample address and
/// length of the delta modulation channel; a cartridge header's mapper
/// number from two high nibbles, and its mirroring bit; a bit shifted into
/// MMC1's five-bit serial register.
pub proof fn lemma_register_bits(b: u8, c: u8, p: u16) by (bit_vector)
    ensures
        b >> 6u8 == b / 64 && b >> 3u8 == b / 8 && b >> 4u8 == b / 16,
        (b & 0x20 != 0) == (b / 32 % 2 == 1) && (b & 0x10 != 0) == (b / 16 % 2 == 1),
        (b & 0x80 != 0) == (b >= 128) && (b & 0x40 != 0) == (b / 64 % 2 == 1),
        (b & 0x08 != 0) == (b / 8 % 2 == 1) && b & 0x07 == b % 8 && b & 0x7F == b % 128,
        b & 0x0F == b % 16,
        ((b & 0x70) >> 4u8) == (b / 16) % 8,
        (((p & 0xFF00) | (c as u16)) & 0x00FF) | (((b & 0x7) as u16) << 8u16) == (b % 8) * 256
            + c,
        0xC000 | ((b as u16) << 6u16) == 0xC000 + b * 64,
        ((b as u16) << 4u16) == b * 16,
        ((b & 0xF0) >> 4u8) | (c & 0xF0) == b / 16 + (c / 16) * 16,
        (b & 0x1 == 0) == (b % 2 == 0),
        c < 32 ==> (c >> 1u8) | ((b & 0x01) << 4u8) == c / 2 + (b % 2) * 16,
{
}

/// The channel enable bits of a status write.
pub proof fn lemma_shifted_flags(b: u8) by (bit_vector)
    ensures
        (b & 1 != 0) == (b % 2 == 1),
        ((b >> 1u8) & 1 != 0) == (b / 2 % 2 == 1),
        ((b >> 2u8) & 1 != 0) == (b / 4 % 2 == 1),
        ((b >> 3u8) & 1 != 0) == (b / 8 % 2 == 1),
        ((b >> 4u8) & 1 != 0) == (b / 16 % 2 == 1),
        (b & 0x70 == 0) == (b / 16 % 8 == 0),
        (b & 1 == 1) == (b % 2 == 1) && (b & 1 == 0) == (b % 2 == 0) && b >> 1u8 == b / 2,
{
}

} // verus!
