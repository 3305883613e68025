//! The computations of the executor that touch no machine state: selecting
//! the operation of an instruction, the arithmetic and logic unit, and the
//! branch conditions.

use vstd::prelude::*;
use crate::bits::signed;
use crate::encoding::{
    OPCODE_AUIPC, OPCODE_JAL, OPCODE_JALR, OPCODE_LOAD, OPCODE_LUI, OPCODE_OP_IMM, OPCODE_SYSTEM,
};
use crate::instruction::{InstTypeData, InstTypeName, Instruction, Op};
use crate::semantics::{
    access_width, alu, branch_taken, byte_of, is_alu, op_of, op_of_branch, op_of_load,
    op_of_op_imm, op_of_r, op_of_store, op_of_system, MRET_IMM,
};

verus! {

/// Reading a 32-bit pattern as an `i32` gives its two's complement value.
pub proof fn lemma_signed_is_cast(x: u32)
    by (bit_vector)
    ensures
        (x as i32) as int == if x < 0x8000_0000u32 {
            x as int
        } else {
            x as int - 0x1_0000_0000
        },
{
}

/// Five bits make a shift amount below 32.
pub proof fn lemma_shift_amount(x: u32)
    by (bit_vector)
    ensures
        x & 0x1f < 32,
{
}

/// The machine's arithmetic right shift of a signed value replicates the
/// sign bit into the vacated bits.
pub proof fn lemma_arithmetic_shift(value: u32, amount: u32)
    by (bit_vector)
    requires
        amount < 32,
    ensures
        ((value as i32) >> amount) as u32 == if value & 0x8000_0000 != 0 {
            (value >> amount) | !(0xffff_ffffu32 >> amount)
        } else {
            value >> amount
        },
{
}

/// The low eight bits of a value fit in a byte.
pub proof fn lemma_low_byte(x: u32)
    by (bit_vector)
    ensures
        x & 0xff < 256,
{
}

/// Byte `index` of `value`, counted from the least significant.
pub fn byte_at(value: u32, index: u32) -> (byte: u8)
    requires
        index < 4,
    ensures
        byte == byte_of(value, index),
{
    let shifted: u32 = value >> (8 * index);
    proof {
        lemma_low_byte(shifted);
    }
    (shifted & 0xff) as u8
}

impl InstTypeData {
    /// The format tag that belongs to these operand fields.
    pub fn format(&self) -> (name: InstTypeName)
        ensures
            name == self.tag(),
    {
        match self {
            InstTypeData::R { .. } => InstTypeName::R,
            InstTypeData::I { .. } => InstTypeName::I,
            InstTypeData::S { .. } => InstTypeName::S,
            InstTypeData::B { .. } => InstTypeName::B,
            InstTypeData::U { .. } => InstTypeName::U,
            InstTypeData::J { .. } => InstTypeName::J,
            InstTypeData::Unimp => InstTypeName::Unimp,
            InstTypeData::Fence => InstTypeName::Fence,
        }
    }

    /// Whether every register index among the fields is below 32.
    pub fn has_valid_registers(&self) -> (ok: bool)
        ensures
            ok == self.registers_in_range(),
    {
        match *self {
            InstTypeData::R { rd, rs1, rs2, .. } => rd < 32 && rs1 < 32 && rs2 < 32,
            InstTypeData::I { rd, rs1, .. } => rd < 32 && rs1 < 32,
            InstTypeData::S { rs1, rs2, .. } => rs1 < 32 && rs2 < 32,
            InstTypeData::B { rs1, rs2, .. } => rs1 < 32 && rs2 < 32,
            InstTypeData::U { rd, .. } => rd < 32,
            InstTypeData::J { rd, .. } => rd < 32,
            InstTypeData::Unimp => true,
            InstTypeData::Fence => true,
        }
    }
}

fn select_r(funct3: u32, funct7: u32) -> (op: Op)
    ensures
        op == op_of_r(funct3, funct7),
{
    if funct7 == 0 {
        match funct3 {
            0 => Op::Add,
            1 => Op::Sll,
            2 => Op::Slt,
            3 => Op::Sltu,
            4 => Op::Xor,
            5 => Op::Srl,
            6 => Op::Or,
            7 => Op::And,
            _ => Op::Unimp,
        }
    } else if funct7 == 0x20 {
        match funct3 {
            0 => Op::Sub,
            5 => Op::Sra,
            _ => Op::Unimp,
        }
    } else {
        Op::Unimp
    }
}

fn select_op_imm(rd: usize, funct3: u32, rs1: usize, imm: u32) -> (op: Op)
    ensures
        op == op_of_op_imm(rd, funct3, rs1, imm),
{
    let selector: u32 = (imm >> 5) & 0x7f;
    match funct3 {
        0 => if rd == 0 && rs1 == 0 && imm == 0 {
            Op::Nop
        } else {
            Op::Addi
        },
        1 => Op::Slli,
        2 => Op::Slti,
        3 => Op::Sltiu,
        4 => Op::Xori,
        5 => if selector == 0 {
            Op::Srli
        } else if selector == 0x20 {
            Op::Srai
        } else {
            Op::Unimp
        },
        6 => Op::Ori,
        7 => Op::Andi,
        _ => Op::Unimp,
    }
}

fn select_load(funct3: u32) -> (op: Op)
    ensures
        op == op_of_load(funct3),
{
    match funct3 {
        0 => Op::Lb,
        1 => Op::Lh,
        2 => Op::Lw,
        4 => Op::Lbu,
        5 => Op::Lhu,
        _ => Op::Unimp,
    }
}

fn select_system(funct3: u32, imm: u32) -> (op: Op)
    ensures
        op == op_of_system(funct3, imm),
{
    match funct3 {
        0 => if imm == 0 {
            Op::Ecall
        } else if imm == 1 {
            Op::Ebreak
        } else if imm == MRET_IMM {
            Op::Mret
        } else {
            Op::Unimp
        },
        1 => Op::Csrrw,
        2 => Op::Csrrs,
        3 => Op::Csrrc,
        5 => Op::Csrrwi,
        6 => Op::Csrrsi,
        7 => Op::Csrrci,
        _ => Op::Unimp,
    }
}

fn select_store(funct3: u32) -> (op: Op)
    ensures
        op == op_of_store(funct3),
{
    match funct3 {
        0 => Op::Sb,
        1 => Op::Sh,
        2 => Op::Sw,
        _ => Op::Unimp,
    }
}

fn select_branch(funct3: u32) -> (op: Op)
    ensures
        op == op_of_branch(funct3),
{
    match funct3 {
        0 => Op::Beq,
        1 => Op::Bne,
        4 => Op::Blt,
        5 => Op::Bge,
        6 => Op::Bltu,
        7 => Op::Bgeu,
        _ => Op::Unimp,
    }
}

impl Instruction {
    /// Whether the format tag agrees with the operand fields and every
    /// register index is below 32.
    pub fn is_well_formed(&self) -> (ok: bool)
        ensures
            ok == self.well_formed(),
    {
        self.format == self.type_data.format() && self.type_data.has_valid_registers()
    }

    /// The operation that this instruction selects; `Unimp` where it is not
    /// well formed or its selector fields name no operation.
    pub fn op(&self) -> (op: Op)
        ensures
            op == op_of(*self),
    {
        if !self.is_well_formed() {
            return Op::Unimp;
        }
        match self.type_data {
            InstTypeData::R { funct3, funct7, .. } => select_r(funct3, funct7),
            InstTypeData::I { rd, funct3, rs1, imm } => {
                if self.opcode == OPCODE_OP_IMM {
                    select_op_imm(rd, funct3, rs1, imm)
                } else if self.opcode == OPCODE_LOAD {
                    select_load(funct3)
                } else if self.opcode == OPCODE_JALR {
                    if funct3 == 0 {
                        Op::Jalr
                    } else {
                        Op::Unimp
                    }
                } else if self.opcode == OPCODE_SYSTEM {
                    select_system(funct3, imm)
                } else {
                    Op::Unimp
                }
            },
            InstTypeData::S { funct3, .. } => select_store(funct3),
            InstTypeData::B { funct3, .. } => select_branch(funct3),
            InstTypeData::U { .. } => {
                if self.opcode == OPCODE_LUI {
                    Op::Lui
                } else if self.opcode == OPCODE_AUIPC {
                    Op::Auipc
                } else {
                    Op::Unimp
                }
            },
            InstTypeData::J { .. } => {
                if self.opcode == OPCODE_JAL {
                    Op::Jal
                } else {
                    Op::Unimp
                }
            },
            InstTypeData::Fence => Op::Fence,
            InstTypeData::Unimp => Op::Unimp,
        }
    }
}

impl Op {
    /// Whether this operation computes a register value from two operands.
    pub fn is_alu(&self) -> (yes: bool)
        ensures
            yes == is_alu(*self),
    {
        match self {
            Op::Add | Op::Sub | Op::Xor | Op::Or | Op::And | Op::Sll | Op::Srl | Op::Sra | Op::Slt
            | Op::Sltu | Op::Addi | Op::Nop | Op::Xori | Op::Ori | Op::Andi | Op::Slti | Op::Sltiu
            | Op::Slli | Op::Srli | Op::Srai => true,
            _ => false,
        }
    }

    /// The number of bytes that this load or store operation touches; 0
    /// for any other operation.
    pub fn width(&self) -> (width: usize)
        ensures
            width == access_width(*self),
    {
        match self {
            Op::Lb | Op::Lbu | Op::Sb => 1,
            Op::Lh | Op::Lhu | Op::Sh => 2,
            Op::Lw | Op::Sw => 4,
            _ => 0,
        }
    }

    /// The value that this arithmetic or logic operation computes from the
    /// operands `a` and `b`; 0 for any other operation.
    pub fn compute(&self, a: u32, b: u32) -> (value: u32)
        ensures
            value == alu(*self, a, b),
    {
        proof {
            lemma_signed_is_cast(a);
            lemma_signed_is_cast(b);
            lemma_shift_amount(b);
            lemma_arithmetic_shift(a, b & 0x1f);
        }
        let amount: u32 = b & 0x1f;
        match self {
            Op::Add | Op::Addi | Op::Nop => a.wrapping_add(b),
            Op::Sub => a.wrapping_sub(b),
            Op::Xor | Op::Xori => a ^ b,
            Op::Or | Op::Ori => a | b,
            Op::And | Op::Andi => a & b,
            Op::Sll | Op::Slli => a << amount,
            Op::Srl | Op::Srli => a >> amount,
            Op::Sra | Op::Srai => ((a as i32) >> amount) as u32,
            Op::Slt | Op::Slti => if (a as i32) < (b as i32) {
                1
            } else {
                0
            },
            Op::Sltu | Op::Sltiu => if a < b {
                1
            } else {
                0
            },
            _ => 0,
        }
    }

    /// Whether this branch operation is taken on the operands `a` and `b`;
    /// `false` for any other operation.
    pub fn taken(&self, a: u32, b: u32) -> (yes: bool)
        ensures
            yes == branch_taken(*self, a, b),
    {
        proof {
            lemma_signed_is_cast(a);
            lemma_signed_is_cast(b);
        }
        match self {
            Op::Beq => a == b,
            Op::Bne => a != b,
            Op::Blt => (a as i32) < (b as i32),
            Op::Bge => (a as i32) >= (b as i32),
            Op::Bltu => a < b,
            Op::Bgeu => a >= b,
            _ => false,
        }
    }
}

} // verus!
