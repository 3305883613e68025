//! The RV32I instruction encoding: where each field lies in a 32-bit word,
//! and which decoded instruction a word stands for.

use vstd::prelude::*;
use crate::bits::sign_extend_spec;
use crate::instruction::{InstTypeData, InstTypeName, Instruction};

verus! {

pub const OPCODE_OP: u32 = 0b0110011;
pub const OPCODE_OP_IMM: u32 = 0b0010011;
pub const OPCODE_LOAD: u32 = 0b0000011;
pub const OPCODE_JALR: u32 = 0b1100111;
pub const OPCODE_SYSTEM: u32 = 0b1110011;
pub const OPCODE_STORE: u32 = 0b0100011;
pub const OPCODE_BRANCH: u32 = 0b1100011;
pub const OPCODE_LUI: u32 = 0b0110111;
pub const OPCODE_AUIPC: u32 = 0b0010111;
pub const OPCODE_JAL: u32 = 0b1101111;
pub const OPCODE_FENCE: u32 = 0b0001111;

/// The word that privileged code uses to return from a trap; it is read
/// here as a deliberate halt marker.
pub const HALT_WORD: u32 = 0xc000_1073;

/// Bits 6..0.
pub open spec fn opcode_of(word: u32) -> u32 {
    word & 0x7f
}

/// Bits 11..7.
pub open spec fn rd_of(word: u32) -> u32 {
    (word >> 7) & 0x1f
}

/// Bits 14..12.
pub open spec fn funct3_of(word: u32) -> u32 {
    (word >> 12) & 0x7
}

/// Bits 19..15.
pub open spec fn rs1_of(word: u32) -> u32 {
    (word >> 15) & 0x1f
}

/// Bits 24..20.
pub open spec fn rs2_of(word: u32) -> u32 {
    (word >> 20) & 0x1f
}

/// Bits 31..25.
pub open spec fn funct7_of(word: u32) -> u32 {
    (word >> 25) & 0x7f
}

/// The I-format immediate: bits 31..20, sign-extended from 12 bits.
pub open spec fn imm_i(word: u32) -> u32 {
    sign_extend_spec((word >> 20) & 0xfff, 12)
}

/// The S-format immediate: bits 31..25 above bits 11..7, sign-extended from
/// 12 bits.
pub open spec fn imm_s(word: u32) -> u32 {
    sign_extend_spec((((word >> 25) & 0x7f) << 5) | ((word >> 7) & 0x1f), 12)
}

/// The B-format immediate: bit 31, bit 7, bits 30..25 and bits 11..8 make
/// up bits 12..1 of the displacement, bit 0 is zero; sign-extended from 13
/// bits.
pub open spec fn imm_b(word: u32) -> u32 {
    sign_extend_spec(
        (((word >> 31) & 0x1) << 12) | (((word >> 7) & 0x1) << 11) | (((word >> 25) & 0x3f) << 5)
            | (((word >> 8) & 0xf) << 1),
        13,
    )
}

/// The U-format immediate: the 20-bit field of bits 31..12 placed in the
/// upper bits, the low 12 bits zero. Nothing is sign-extended.
pub open spec fn imm_u(word: u32) -> u32 {
    word & 0xffff_f000
}

/// The J-format immediate: bit 31, bits 19..12, bit 20 and bits 30..21 make
/// up bits 20..1 of the displacement, bit 0 is zero; sign-extended from 21
/// bits.
pub open spec fn imm_j(word: u32) -> u32 {
    sign_extend_spec(
        (((word >> 31) & 0x1) << 20) | (((word >> 12) & 0xff) << 12) | (((word >> 20) & 0x1) << 11)
            | (((word >> 21) & 0x3ff) << 1),
        21,
    )
}

/// The format family that an opcode belongs to.
pub open spec fn format_of(opcode: u32) -> InstTypeName {
    if opcode == OPCODE_OP {
        InstTypeName::R
    } else if opcode == OPCODE_OP_IMM || opcode == OPCODE_LOAD || opcode == OPCODE_JALR || opcode
        == OPCODE_SYSTEM {
        InstTypeName::I
    } else if opcode == OPCODE_STORE {
        InstTypeName::S
    } else if opcode == OPCODE_BRANCH {
        InstTypeName::B
    } else if opcode == OPCODE_JAL {
        InstTypeName::J
    } else if opcode == OPCODE_LUI || opcode == OPCODE_AUIPC {
        InstTypeName::U
    } else if opcode == OPCODE_FENCE {
        InstTypeName::Fence
    } else {
        InstTypeName::Unimp
    }
}

/// The operand fields of `word` read in the given format.
pub open spec fn fields_of(word: u32, format: InstTypeName) -> InstTypeData {
    match format {
        InstTypeName::R => InstTypeData::R {
            rd: rd_of(word) as usize,
            funct3: funct3_of(word),
            rs1: rs1_of(word) as usize,
            rs2: rs2_of(word) as usize,
            funct7: funct7_of(word),
        },
        InstTypeName::I => InstTypeData::I {
            rd: rd_of(word) as usize,
            funct3: funct3_of(word),
            rs1: rs1_of(word) as usize,
            imm: imm_i(word),
        },
        InstTypeName::S => InstTypeData::S {
            imm: imm_s(word),
            funct3: funct3_of(word),
            rs1: rs1_of(word) as usize,
            rs2: rs2_of(word) as usize,
        },
        InstTypeName::B => InstTypeData::B {
            imm: imm_b(word),
            funct3: funct3_of(word),
            rs1: rs1_of(word) as usize,
            rs2: rs2_of(word) as usize,
        },
        InstTypeName::U => InstTypeData::U { rd: rd_of(word) as usize, imm: imm_u(word) },
        InstTypeName::J => InstTypeData::J { rd: rd_of(word) as usize, imm: imm_j(word) },
        InstTypeName::Unimp => InstTypeData::Unimp,
        InstTypeName::Fence => InstTypeData::Fence,
    }
}

/// A word that is never code: the all-zero word and the halt marker.
pub open spec fn is_halt_word(word: u32) -> bool {
    word == 0 || word == HALT_WORD
}

/// The instruction that `word` stands for. The opcode is always the low
/// seven bits; the format is that of the opcode, except that the two words
/// that are never code have the `Unimp` format.
pub open spec fn decode_spec(word: u32) -> Instruction {
    let family = if is_halt_word(word) {
        InstTypeName::Unimp
    } else {
        format_of(opcode_of(word))
    };
    Instruction { opcode: opcode_of(word), type_data: fields_of(word, family), format: family }
}

/// Every field that the decoder cuts out of a word lies in the range of
/// its width.
pub proof fn lemma_field_ranges(word: u32)
    by (bit_vector)
    ensures
        word & 0x7f < 128,
        (word >> 7) & 0x1f < 32,
        (word >> 12) & 0x7 < 8,
        (word >> 15) & 0x1f < 32,
        (word >> 20) & 0x1f < 32,
        (word >> 25) & 0x7f < 128,
{
}

/// A decoded instruction is well formed, whatever the word.
pub proof fn lemma_decode_well_formed(word: u32)
    ensures
        decode_spec(word).well_formed(),
        decode_spec(word).opcode < 128,
{
    lemma_field_ranges(word);
}

} // verus!
