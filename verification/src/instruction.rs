//! The decoded form of one fetched instruction word.

use vstd::prelude::*;

verus! {

/// The format family of an instruction.
#[derive(Clone, Copy, Debug, PartialEq, Eq, Structural)]
pub enum InstTypeName {
    R,
    I,
    S,
    B,
    U,
    J,
    Unimp,
    Fence,
}

/// The operand fields of an instruction, by format family.
///
/// Immediates of the I, S, B and J families are held sign-extended to 32
/// bits. The U family holds its 20-bit field placed in the upper bits, the
/// low 12 bits zero.
#[derive(Clone, Copy, Debug, PartialEq, Eq, Structural)]
pub enum InstTypeData {
    R { rd: usize, funct3: u32, rs1: usize, rs2: usize, funct7: u32 },
    I { rd: usize, funct3: u32, rs1: usize, imm: u32 },
    S { imm: u32, funct3: u32, rs1: usize, rs2: usize },
    B { imm: u32, funct3: u32, rs1: usize, rs2: usize },
    U { rd: usize, imm: u32 },
    J { rd: usize, imm: u32 },
    Unimp,
    Fence,
}

/// One decoded instruction: the raw 7-bit opcode, the format tag and the
/// operand fields of that format.
#[derive(Clone, Copy, Debug, PartialEq, Eq, Structural)]
pub struct Instruction {
    pub opcode: u32,
    pub type_data: InstTypeData,
    pub format: InstTypeName,
}

/// The operation that an instruction selects, which is also its mnemonic.
#[derive(Clone, Copy, Debug, PartialEq, Eq, Structural)]
pub enum Op {
    Add,
    Sub,
    Xor,
    Or,
    And,
    Sll,
    Srl,
    Sra,
    Slt,
    Sltu,
    Addi,
    Nop,
    Xori,
    Ori,
    Andi,
    Slti,
    Sltiu,
    Slli,
    Srli,
    Srai,
    Lb,
    Lh,
    Lw,
    Lbu,
    Lhu,
    Sb,
    Sh,
    Sw,
    Beq,
    Bne,
    Blt,
    Bge,
    Bltu,
    Bgeu,
    Jal,
    Jalr,
    Lui,
    Auipc,
    Ecall,
    Ebreak,
    Mret,
    Csrrw,
    Csrrs,
    Csrrc,
    Csrrwi,
    Csrrsi,
    Csrrci,
    Fence,
    Unimp,
}

impl InstTypeData {
    /// The format tag that belongs to these operand fields.
    pub open spec fn tag(self) -> InstTypeName {
        match self {
            InstTypeData::R { .. } => InstTypeName::R,
            InstTypeData::I { .. } => InstTypeName::I,
            InstTypeData::S { .. } => InstTypeName::S,
            InstTypeData::B { .. } => InstTypeName::B,
            InstTypeData::U { .. } => InstTypeName::U,
            InstTypeData::J { .. } => InstTypeName::J,
            InstTypeData::Unimp => InstTypeName::Unimp,
            InstTypeData::Fence => InstTypeName::Fence,
        }
    }

    /// Every register index among the fields names one of the 32 registers.
    pub open spec fn registers_in_range(self) -> bool {
        match self {
            InstTypeData::R { rd, rs1, rs2, .. } => rd < 32 && rs1 < 32 && rs2 < 32,
            InstTypeData::I { rd, rs1, .. } => rd < 32 && rs1 < 32,
            InstTypeData::S { rs1, rs2, .. } => rs1 < 32 && rs2 < 32,
            InstTypeData::B { rs1, rs2, .. } => rs1 < 32 && rs2 < 32,
            InstTypeData::U { rd, .. } => rd < 32,
            InstTypeData::J { rd, .. } => rd < 32,
            InstTypeData::Unimp => true,
            InstTypeData::Fence => true,
        }
    }
}

impl Instruction {
    /// The format tag agrees with the operand fields and every register
    /// index is below 32. The decoder only produces such instructions.
    pub open spec fn well_formed(self) -> bool {
        self.format == self.type_data.tag() && self.type_data.registers_in_range()
    }

    /// An instruction that stands for "not an instruction": opcode 0 and
    /// the `Unimp` format.
    pub fn new() -> (inst: Self)
        ensures
            inst == (Instruction {
                opcode: 0,
                type_data: InstTypeData::Unimp,
                format: InstTypeName::Unimp,
            }),
            inst.well_formed(),
    {
        Instruction { opcode: 0, type_data: InstTypeData::Unimp, format: InstTypeName::Unimp }
    }
}

} // verus!
