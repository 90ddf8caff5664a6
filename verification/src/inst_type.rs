//! The six fixed 32-bit instruction layouts of the base ISA.
//!
//! Each format is a thin view over the raw instruction word; accessors
//! extract the named fields, and the `sext_*` helpers produce the
//! sign-extended immediates as 64-bit two's-complement patterns
//! (returned as `i64`).
use vstd::prelude::*;

use crate::bits::{lemma_u64_i64_roundtrip, sext12, sext13, sext21};

verus! {

/// The 32-bit word assembled from four little-endian bytes.
pub open spec fn word_from_le(b0: u8, b1: u8, b2: u8, b3: u8) -> u32 {
    (b0 as u32) | ((b1 as u32) << 8) | ((b2 as u32) << 16) | ((b3 as u32) << 24)
}

/// Register-register format: opcode(7) | rd(5) | funct3(3) | rs1(5) | rs2(5) | funct7(7).
pub struct RType {
    pub word: u32,
}

/// Register-immediate format: opcode(7) | rd(5) | funct3(3) | rs1(5) | imm(12).
pub struct IType {
    pub word: u32,
}

/// Store format: opcode(7) | imm[4:0](5) | funct3(3) | rs1(5) | rs2(5) | imm[11:5](7).
pub struct SType {
    pub word: u32,
}

/// Branch format: opcode(7) | imm[11](1) | imm[4:1](4) | funct3(3) | rs1(5) | rs2(5) | imm[10:5](6) | imm[12](1).
pub struct BType {
    pub word: u32,
}

/// Upper-immediate format: opcode(7) | rd(5) | imm(20).
pub struct UType {
    pub word: u32,
}

/// Jump format: opcode(7) | rd(5) | imm[19:12](8) | imm[11](1) | imm[10:1](10) | imm[20](1).
pub struct JType {
    pub word: u32,
}

/// The opcode field, bits 6..0 of any format.
pub open spec fn spec_opcode(w: u32) -> u32 {
    w & 0x7f
}

/// The rd field, bits 11..7.
pub open spec fn spec_rd(w: u32) -> u32 {
    (w >> 7) & 0x1f
}

/// The funct3 field, bits 14..12.
pub open spec fn spec_funct3(w: u32) -> u32 {
    (w >> 12) & 0x7
}

/// The rs1 field, bits 19..15.
pub open spec fn spec_rs1(w: u32) -> u32 {
    (w >> 15) & 0x1f
}

/// The rs2 field, bits 24..20.
pub open spec fn spec_rs2(w: u32) -> u32 {
    (w >> 20) & 0x1f
}

/// The funct7 field, bits 31..25.
pub open spec fn spec_funct7(w: u32) -> u32 {
    (w >> 25) & 0x7f
}

/// The I-type immediate field, bits 31..20.
pub open spec fn spec_i_imm(w: u32) -> u32 {
    (w >> 20) & 0xfff
}

/// The U-type immediate field, bits 31..12.
pub open spec fn spec_u_imm(w: u32) -> u32 {
    w >> 12
}

/// The S-type immediate reassembled: { imm[11:5], imm[4:0] }.
pub open spec fn spec_s_imm(w: u32) -> u32 {
    (((w >> 25) & 0x7f) << 5) | ((w >> 7) & 0x1f)
}

/// The B-type offset reassembled: { imm[12], imm[11], imm[10:5], imm[4:1], 0 }.
pub open spec fn spec_b_imm(w: u32) -> u32 {
    (((w >> 31) & 0x1) << 12) | (((w >> 7) & 0x1) << 11) | (((w >> 25) & 0x3f) << 5) | (((w >> 8)
        & 0xf) << 1)
}

/// The J-type offset reassembled: { imm[20], imm[19:12], imm[11], imm[10:1], 0 }.
pub open spec fn spec_j_imm(w: u32) -> u32 {
    (((w >> 31) & 0x1) << 20) | (((w >> 12) & 0xff) << 12) | (((w >> 20) & 0x1) << 11) | (((w
        >> 21) & 0x3ff) << 1)
}

/// The decoded fields lie in their natural ranges.
pub proof fn lemma_field_bounds()
    by (bit_vector)
    ensures
        forall|w: u32| #[trigger] spec_rd(w) < 32,
        forall|w: u32| #[trigger] spec_rs1(w) < 32,
        forall|w: u32| #[trigger] spec_rs2(w) < 32,
        forall|w: u32| #[trigger] spec_funct3(w) < 8,
        forall|w: u32| #[trigger] spec_funct7(w) < 128,
        forall|w: u32| #[trigger] spec_i_imm(w) < 4096,
        forall|w: u32| #[trigger] spec_s_imm(w) < 4096,
        forall|w: u32| #[trigger] spec_b_imm(w) < 0x2000,
        forall|w: u32| #[trigger] spec_j_imm(w) < 0x20_0000,
{
}

impl RType {
    pub fn from_bytes(bytes: [u8; 4]) -> (r: RType)
        ensures
            r.word == word_from_le(bytes[0], bytes[1], bytes[2], bytes[3]),
    {
        RType {
            word: (bytes[0] as u32) | ((bytes[1] as u32) << 8) | ((bytes[2] as u32) << 16) | ((
            bytes[3] as u32) << 24),
        }
    }

    pub fn opcode(&self) -> (r: u32)
        ensures
            r == spec_opcode(self.word),
    {
        self.word & 0x7f
    }

    pub fn rd(&self) -> (r: u32)
        ensures
            r == spec_rd(self.word),
    {
        (self.word >> 7) & 0x1f
    }

    pub fn funct3(&self) -> (r: u32)
        ensures
            r == spec_funct3(self.word),
    {
        (self.word >> 12) & 0x7
    }

    pub fn rs1(&self) -> (r: u32)
        ensures
            r == spec_rs1(self.word),
    {
        (self.word >> 15) & 0x1f
    }

    pub fn rs2(&self) -> (r: u32)
        ensures
            r == spec_rs2(self.word),
    {
        (self.word >> 20) & 0x1f
    }

    pub fn funct7(&self) -> (r: u32)
        ensures
            r == spec_funct7(self.word),
    {
        (self.word >> 25) & 0x7f
    }
}

impl IType {
    pub fn from_bytes(bytes: [u8; 4]) -> (r: IType)
        ensures
            r.word == word_from_le(bytes[0], bytes[1], bytes[2], bytes[3]),
    {
        IType {
            word: (bytes[0] as u32) | ((bytes[1] as u32) << 8) | ((bytes[2] as u32) << 16) | ((
            bytes[3] as u32) << 24),
        }
    }

    pub fn opcode(&self) -> (r: u32)
        ensures
            r == spec_opcode(self.word),
    {
        self.word & 0x7f
    }

    pub fn rd(&self) -> (r: u32)
        ensures
            r == spec_rd(self.word),
    {
        (self.word >> 7) & 0x1f
    }

    pub fn funct3(&self) -> (r: u32)
        ensures
            r == spec_funct3(self.word),
    {
        (self.word >> 12) & 0x7
    }

    pub fn rs1(&self) -> (r: u32)
        ensures
            r == spec_rs1(self.word),
    {
        (self.word >> 15) & 0x1f
    }

    pub fn imm(&self) -> (r: u32)
        ensures
            r == spec_i_imm(self.word),
    {
        (self.word >> 20) & 0xfff
    }

    /// The CSR address held in the immediate field.
    pub fn csr(&self) -> (r: u32)
        ensures
            r == spec_i_imm(self.word),
    {
        (self.word >> 20) & 0xfff
    }

    /// The 12-bit immediate, sign-extended.
    pub fn sext_imm(&self) -> (r: i64)
        ensures
            r as u64 == sext12(spec_i_imm(self.word)),
    {
        let imm = (self.word >> 20) & 0xfff;
        let v: u64 = if imm & 0x800 != 0 {
            (imm as u64) | 0xFFFF_FFFF_FFFF_F000u64
        } else {
            imm as u64
        };
        proof {
            lemma_u64_i64_roundtrip();
        }
        v as i64
    }

    /// The immediate shifted left by one and then sign-extended.
    ///
    /// No base-ISA instruction encodes its offset this way; only
    /// [`Self::sext_imm`] belongs in address arithmetic.
    pub fn sext_offset(&self) -> (r: i64)
        ensures
            r as u64 == sext13((spec_i_imm(self.word) << 1) & 0x1ffe),
    {
        let imm = ((self.word >> 20) & 0xfff) << 1;
        let imm = imm & 0x1ffe;
        let v: u64 = if imm & 0x1000 != 0 {
            (imm as u64) | 0xFFFF_FFFF_FFFF_E000u64
        } else {
            imm as u64
        };
        proof {
            lemma_u64_i64_roundtrip();
        }
        v as i64
    }
}

impl SType {
    pub fn from_bytes(bytes: [u8; 4]) -> (r: SType)
        ensures
            r.word == word_from_le(bytes[0], bytes[1], bytes[2], bytes[3]),
    {
        SType {
            word: (bytes[0] as u32) | ((bytes[1] as u32) << 8) | ((bytes[2] as u32) << 16) | ((
            bytes[3] as u32) << 24),
        }
    }

    pub fn opcode(&self) -> (r: u32)
        ensures
            r == spec_opcode(self.word),
    {
        self.word & 0x7f
    }

    pub fn imm4_0(&self) -> (r: u32)
        ensures
            r == spec_rd(self.word),
    {
        (self.word >> 7) & 0x1f
    }

    pub fn funct3(&self) -> (r: u32)
        ensures
            r == spec_funct3(self.word),
    {
        (self.word >> 12) & 0x7
    }

    pub fn rs1(&self) -> (r: u32)
        ensures
            r == spec_rs1(self.word),
    {
        (self.word >> 15) & 0x1f
    }

    pub fn rs2(&self) -> (r: u32)
        ensures
            r == spec_rs2(self.word),
    {
        (self.word >> 20) & 0x1f
    }

    pub fn imm11_5(&self) -> (r: u32)
        ensures
            r == spec_funct7(self.word),
    {
        (self.word >> 25) & 0x7f
    }

    /// The reassembled 12-bit store offset, sign-extended.
    pub fn sext_imm(&self) -> (r: i64)
        ensures
            r as u64 == sext12(spec_s_imm(self.word)),
    {
        let imm = (((self.word >> 25) & 0x7f) << 5) | ((self.word >> 7) & 0x1f);
        let v: u64 = if imm & 0x800 != 0 {
            (imm as u64) | 0xFFFF_FFFF_FFFF_F000u64
        } else {
            imm as u64
        };
        proof {
            lemma_u64_i64_roundtrip();
        }
        v as i64
    }
}

impl BType {
    pub fn from_bytes(bytes: [u8; 4]) -> (r: BType)
        ensures
            r.word == word_from_le(bytes[0], bytes[1], bytes[2], bytes[3]),
    {
        BType {
            word: (bytes[0] as u32) | ((bytes[1] as u32) << 8) | ((bytes[2] as u32) << 16) | ((
            bytes[3] as u32) << 24),
        }
    }

    pub fn opcode(&self) -> (r: u32)
        ensures
            r == spec_opcode(self.word),
    {
        self.word & 0x7f
    }

    pub fn funct3(&self) -> (r: u32)
        ensures
            r == spec_funct3(self.word),
    {
        (self.word >> 12) & 0x7
    }

    pub fn rs1(&self) -> (r: u32)
        ensures
            r == spec_rs1(self.word),
    {
        (self.word >> 15) & 0x1f
    }

    pub fn rs2(&self) -> (r: u32)
        ensures
            r == spec_rs2(self.word),
    {
        (self.word >> 20) & 0x1f
    }

    /// The reassembled 13-bit branch offset (bit 0 forced to zero), sign-extended.
    pub fn sext_offset(&self) -> (r: i64)
        ensures
            r as u64 == sext13(spec_b_imm(self.word)),
    {
        let w = self.word;
        let imm = (((w >> 31) & 0x1) << 12) | (((w >> 7) & 0x1) << 11) | (((w >> 25) & 0x3f) << 5)
            | (((w >> 8) & 0xf) << 1);
        let v: u64 = if imm & 0x1000 != 0 {
            (imm as u64) | 0xFFFF_FFFF_FFFF_E000u64
        } else {
            imm as u64
        };
        proof {
            lemma_u64_i64_roundtrip();
        }
        v as i64
    }
}

impl UType {
    pub fn from_bytes(bytes: [u8; 4]) -> (r: UType)
        ensures
            r.word == word_from_le(bytes[0], bytes[1], bytes[2], bytes[3]),
    {
        UType {
            word: (bytes[0] as u32) | ((bytes[1] as u32) << 8) | ((bytes[2] as u32) << 16) | ((
            bytes[3] as u32) << 24),
        }
    }

    pub fn opcode(&self) -> (r: u32)
        ensures
            r == spec_opcode(self.word),
    {
        self.word & 0x7f
    }

    pub fn rd(&self) -> (r: u32)
        ensures
            r == spec_rd(self.word),
    {
        (self.word >> 7) & 0x1f
    }

    pub fn imm(&self) -> (r: u32)
        ensures
            r == spec_u_imm(self.word),
    {
        self.word >> 12
    }
}

impl JType {
    pub fn from_bytes(bytes: [u8; 4]) -> (r: JType)
        ensures
            r.word == word_from_le(bytes[0], bytes[1], bytes[2], bytes[3]),
    {
        JType {
            word: (bytes[0] as u32) | ((bytes[1] as u32) << 8) | ((bytes[2] as u32) << 16) | ((
            bytes[3] as u32) << 24),
        }
    }

    pub fn opcode(&self) -> (r: u32)
        ensures
            r == spec_opcode(self.word),
    {
        self.word & 0x7f
    }

    pub fn rd(&self) -> (r: u32)
        ensures
            r == spec_rd(self.word),
    {
        (self.word >> 7) & 0x1f
    }

    pub fn imm19_12(&self) -> (r: u32)
        ensures
            r == (self.word >> 12) & 0xff,
    {
        (self.word >> 12) & 0xff
    }

    pub fn imm11(&self) -> (r: u32)
        ensures
            r == (self.word >> 20) & 0x1,
    {
        (self.word >> 20) & 0x1
    }

    pub fn imm10_1(&self) -> (r: u32)
        ensures
            r == (self.word >> 21) & 0x3ff,
    {
        (self.word >> 21) & 0x3ff
    }

    pub fn imm20(&self) -> (r: u32)
        ensures
            r == (self.word >> 31) & 0x1,
    {
        (self.word >> 31) & 0x1
    }

    /// The reassembled 21-bit jump offset (bit 0 forced to zero), sign-extended.
    pub fn get_offset(&self) -> (r: i64)
        ensures
            r as u64 == sext21(spec_j_imm(self.word)),
    {
        let w = self.word;
        let imm = (((w >> 31) & 0x1) << 20) | (((w >> 12) & 0xff) << 12) | (((w >> 20) & 0x1)
            << 11) | (((w >> 21) & 0x3ff) << 1);
        let v: u64 = if imm & 0x10_0000 != 0 {
            (imm as u64) | 0xFFFF_FFFF_FFE0_0000u64
        } else {
            imm as u64
        };
        proof {
            lemma_u64_i64_roundtrip();
        }
        v as i64
    }
}

} // verus!
