//! Bit-range extraction over 32-bit words, and the sign-extension helpers
//! the instruction decoder relies on.
//!
//! A field range is inclusive on both ends: `left` is the index of the most
//! significant bit of the field and `right` the least significant one.
use vstd::prelude::*;

verus! {

/// A mask with the low `n` bits set (all bits set when `n >= 32`).
pub open spec fn low_mask32(n: u32) -> u32 {
    if n >= 32 {
        0xFFFF_FFFFu32
    } else {
        (((1u32 << n) as u32) - 1) as u32
    }
}

/// The value of bits `left ..= right` of `i`, shifted down to bit 0.
pub open spec fn bit_range32(i: u32, left: u32, right: u32) -> u32
    recommends
        right <= left < 32,
{
    (i >> right) & low_mask32((left - right + 1) as u32)
}

/// Sign-extension of a 12-bit value to a 64-bit two's-complement pattern.
pub open spec fn sext12(x: u32) -> u64
    recommends
        x < 0x1000,
{
    if x & 0x800 != 0 {
        (x as u64) | 0xFFFF_FFFF_FFFF_F000u64
    } else {
        x as u64
    }
}

/// Sign-extension of a 13-bit value to a 64-bit two's-complement pattern.
pub open spec fn sext13(x: u32) -> u64
    recommends
        x < 0x2000,
{
    if x & 0x1000 != 0 {
        (x as u64) | 0xFFFF_FFFF_FFFF_E000u64
    } else {
        x as u64
    }
}

/// Sign-extension of a 21-bit value to a 64-bit two's-complement pattern.
pub open spec fn sext21(x: u32) -> u64
    recommends
        x < 0x20_0000,
{
    if x & 0x10_0000 != 0 {
        (x as u64) | 0xFFFF_FFFF_FFE0_0000u64
    } else {
        x as u64
    }
}

/// Sign-extension of a 32-bit value to 64 bits.
pub open spec fn sext32(x: u32) -> u64 {
    x as i32 as i64 as u64
}

/// Sign-extension of a byte to 64 bits.
pub open spec fn sext8(x: u8) -> u64 {
    x as i8 as i64 as u64
}

/// Sign-extension of a half-word to 64 bits.
pub open spec fn sext16(x: u16) -> u64 {
    x as i16 as i64 as u64
}

/// Reinterpreting a `u64` as a signed value and back is the identity.
pub proof fn lemma_u64_i64_roundtrip()
    by (bit_vector)
    ensures
        forall|x: u64| #[trigger] (x as i64 as u64) == x,
{
}

/// Masking with a six- or five-bit mask bounds a shift amount.
pub proof fn lemma_shift_mask_bounds()
    by (bit_vector)
    ensures
        forall|x: u32| #[trigger] (x & 0x3f) < 64,
        forall|x: u32| #[trigger] (x & 0x1f) < 32,
        forall|x: u64| #[trigger] (x & 0x3f) < 64,
        forall|x: u64| #[trigger] (x & 0x1f) < 32,
{
}

/// Bits `left ..= right` of `i`, truncated into a `u8`.
pub fn field_range_into_u8(i: u32, left: usize, right: usize) -> (r: u8)
    requires
        right <= left,
        left < 32,
    ensures
        r == bit_range32(i, left as u32, right as u32) as u8,
{
    let left32: u32 = left as u32;
    let right32: u32 = right as u32;
    let lshift: u32 = 32 - left32 - 1;
    let rshift: u32 = lshift + right32;
    let x = (i << lshift) >> rshift;
    proof {
        assert((i << ((31 - left32) as u32)) >> (((31 - left32) + right32) as u32) == (i
            >> right32) & low_mask32((left32 - right32 + 1) as u32)) by (bit_vector)
            requires
                left32 < 32,
                right32 <= left32,
        ;
    }
    x as u8
}

/// Bits `left ..= right` of `i`, truncated into a `u16`.
pub fn field_range_into_u16(i: u32, left: usize, right: usize) -> (r: u16)
    requires
        right <= left,
        left < 32,
    ensures
        r == bit_range32(i, left as u32, right as u32) as u16,
{
    let left32: u32 = left as u32;
    let right32: u32 = right as u32;
    let lshift: u32 = 32 - left32 - 1;
    let rshift: u32 = lshift + right32;
    let x = (i << lshift) >> rshift;
    proof {
        assert((i << ((31 - left32) as u32)) >> (((31 - left32) + right32) as u32) == (i
            >> right32) & low_mask32((left32 - right32 + 1) as u32)) by (bit_vector)
            requires
                left32 < 32,
                right32 <= left32,
        ;
    }
    x as u16
}

/// Bits `left ..= right` of `i` as a `u32`.
pub fn field_range_into_u32(i: u32, left: usize, right: usize) -> (r: u32)
    requires
        right <= left,
        left < 32,
    ensures
        r == bit_range32(i, left as u32, right as u32),
{
    let left32: u32 = left as u32;
    let right32: u32 = right as u32;
    let lshift: u32 = 32 - left32 - 1;
    let rshift: u32 = lshift + right32;
    let x = (i << lshift) >> rshift;
    proof {
        assert((i << ((31 - left32) as u32)) >> (((31 - left32) + right32) as u32) == (i
            >> right32) & low_mask32((left32 - right32 + 1) as u32)) by (bit_vector)
            requires
                left32 < 32,
                right32 <= left32,
        ;
    }
    x
}

} // verus!
