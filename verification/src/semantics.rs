//! The meaning of RV32I instructions, stated over a mathematical model of
//! the machine: which operation an instruction selects, and the state that
//! follows from executing it.

use vstd::prelude::*;
use crate::bits::{sign_extend_spec, signed, wrap32};
use crate::encoding::{
    OPCODE_AUIPC, OPCODE_JAL, OPCODE_JALR, OPCODE_LOAD, OPCODE_LUI, OPCODE_OP_IMM, OPCODE_SYSTEM,
};
use crate::instruction::{InstTypeData, Instruction, Op};

verus! {

/// The immediate that selects `mret` among the system instructions.
pub const MRET_IMM: u32 = 0b0011_0000_0010;

/// The architectural state: byte-addressed memory, 32 registers and the
/// program counter.
pub struct Machine {
    pub memory: Seq<u8>,
    pub registers: Seq<u32>,
    pub pc: u32,
}

/// What executing one instruction reports: the operation that was selected,
/// the instruction and the address it stood at, the address that it
/// resolved (the effective address of a load or store, the destination of a
/// branch or jump), and whether a load or store fell outside memory.
#[derive(Clone, Copy, Debug, PartialEq, Eq, Structural)]
pub struct Trace {
    pub op: Op,
    pub inst: Instruction,
    pub pc: u32,
    pub address: Option<u32>,
    pub fault: bool,
}

impl Machine {
    /// There are 32 registers and register 0 holds zero.
    pub open spec fn valid(self) -> bool {
        self.registers.len() == 32 && self.registers[0] == 0
    }

    /// The value of register `index`.
    pub open spec fn reg(self, index: usize) -> u32 {
        self.registers[index as int]
    }

    /// The state after writing `value` to register `rd`: a write to
    /// register 0 is discarded.
    pub open spec fn write_reg(self, rd: usize, value: u32) -> Machine {
        if rd == 0 {
            self
        } else {
            Machine { registers: self.registers.update(rd as int, value), ..self }
        }
    }

    /// The state with the program counter moved to `target`.
    pub open spec fn jump(self, target: u32) -> Machine {
        Machine { pc: target, ..self }
    }

    /// The state with the program counter moved to the next instruction.
    pub open spec fn advance(self) -> Machine {
        self.jump(wrap32(self.pc + 4))
    }

    /// The state after an instruction that writes `value` to `rd` and falls
    /// through.
    pub open spec fn retire(self, rd: usize, value: u32) -> Machine {
        self.write_reg(rd, value).advance()
    }
}

/// The seven bits above the shift amount in the immediate of a shift.
pub open spec fn shift_selector(imm: u32) -> u32 {
    (imm >> 5) & 0x7f
}

/// The operation selected by a register-register instruction.
pub open spec fn op_of_r(funct3: u32, funct7: u32) -> Op {
    if funct7 == 0 {
        if funct3 == 0 {
            Op::Add
        } else if funct3 == 1 {
            Op::Sll
        } else if funct3 == 2 {
            Op::Slt
        } else if funct3 == 3 {
            Op::Sltu
        } else if funct3 == 4 {
            Op::Xor
        } else if funct3 == 5 {
            Op::Srl
        } else if funct3 == 6 {
            Op::Or
        } else if funct3 == 7 {
            Op::And
        } else {
            Op::Unimp
        }
    } else if funct7 == 0x20 {
        if funct3 == 0 {
            Op::Sub
        } else if funct3 == 5 {
            Op::Sra
        } else {
            Op::Unimp
        }
    } else {
        Op::Unimp
    }
}

/// The operation selected by a register-immediate instruction.
///
/// The shifts take their amount from the low five bits of the immediate.
/// For the right shifts the seven bits above it select between `srli` and
/// `srai`, and any other selector names no operation. `slli` has no such
/// choice to make: it ignores those bits.
pub open spec fn op_of_op_imm(rd: usize, funct3: u32, rs1: usize, imm: u32) -> Op {
    if funct3 == 0 {
        if rd == 0 && rs1 == 0 && imm == 0 {
            Op::Nop
        } else {
            Op::Addi
        }
    } else if funct3 == 1 {
        Op::Slli
    } else if funct3 == 2 {
        Op::Slti
    } else if funct3 == 3 {
        Op::Sltiu
    } else if funct3 == 4 {
        Op::Xori
    } else if funct3 == 5 {
        if shift_selector(imm) == 0 {
            Op::Srli
        } else if shift_selector(imm) == 0x20 {
            Op::Srai
        } else {
            Op::Unimp
        }
    } else if funct3 == 6 {
        Op::Ori
    } else if funct3 == 7 {
        Op::Andi
    } else {
        Op::Unimp
    }
}

/// The operation selected by a load instruction.
pub open spec fn op_of_load(funct3: u32) -> Op {
    if funct3 == 0 {
        Op::Lb
    } else if funct3 == 1 {
        Op::Lh
    } else if funct3 == 2 {
        Op::Lw
    } else if funct3 == 4 {
        Op::Lbu
    } else if funct3 == 5 {
        Op::Lhu
    } else {
        Op::Unimp
    }
}

/// The operation selected by a system instruction.
pub open spec fn op_of_system(funct3: u32, imm: u32) -> Op {
    if funct3 == 0 {
        if imm == 0 {
            Op::Ecall
        } else if imm == 1 {
            Op::Ebreak
        } else if imm == MRET_IMM {
            Op::Mret
        } else {
            Op::Unimp
        }
    } else if funct3 == 1 {
        Op::Csrrw
    } else if funct3 == 2 {
        Op::Csrrs
    } else if funct3 == 3 {
        Op::Csrrc
    } else if funct3 == 5 {
        Op::Csrrwi
    } else if funct3 == 6 {
        Op::Csrrsi
    } else if funct3 == 7 {
        Op::Csrrci
    } else {
        Op::Unimp
    }
}

/// The operation selected by a store instruction.
pub open spec fn op_of_store(funct3: u32) -> Op {
    if funct3 == 0 {
        Op::Sb
    } else if funct3 == 1 {
        Op::Sh
    } else if funct3 == 2 {
        Op::Sw
    } else {
        Op::Unimp
    }
}

/// The operation selected by a branch instruction.
pub open spec fn op_of_branch(funct3: u32) -> Op {
    if funct3 == 0 {
        Op::Beq
    } else if funct3 == 1 {
        Op::Bne
    } else if funct3 == 4 {
        Op::Blt
    } else if funct3 == 5 {
        Op::Bge
    } else if funct3 == 6 {
        Op::Bltu
    } else if funct3 == 7 {
        Op::Bgeu
    } else {
        Op::Unimp
    }
}

/// The operation that an instruction selects. An instruction that is not
/// well formed, and one whose selector fields name no RV32I operation,
/// selects `Unimp`.
pub open spec fn op_of(inst: Instruction) -> Op {
    if !inst.well_formed() {
        Op::Unimp
    } else {
        match inst.type_data {
            InstTypeData::R { funct3, funct7, .. } => op_of_r(funct3, funct7),
            InstTypeData::I { rd, funct3, rs1, imm } => {
                if inst.opcode == OPCODE_OP_IMM {
                    op_of_op_imm(rd, funct3, rs1, imm)
                } else if inst.opcode == OPCODE_LOAD {
                    op_of_load(funct3)
                } else if inst.opcode == OPCODE_JALR {
                    if funct3 == 0 {
                        Op::Jalr
                    } else {
                        Op::Unimp
                    }
                } else if inst.opcode == OPCODE_SYSTEM {
                    op_of_system(funct3, imm)
                } else {
                    Op::Unimp
                }
            },
            InstTypeData::S { funct3, .. } => op_of_store(funct3),
            InstTypeData::B { funct3, .. } => op_of_branch(funct3),
            InstTypeData::U { .. } => {
                if inst.opcode == OPCODE_LUI {
                    Op::Lui
                } else if inst.opcode == OPCODE_AUIPC {
                    Op::Auipc
                } else {
                    Op::Unimp
                }
            },
            InstTypeData::J { .. } => {
                if inst.opcode == OPCODE_JAL {
                    Op::Jal
                } else {
                    Op::Unimp
                }
            },
            InstTypeData::Fence => Op::Fence,
            InstTypeData::Unimp => Op::Unimp,
        }
    }
}

/// An arithmetic right shift: the logical shift with the sign bit
/// replicated into the vacated high bits.
pub open spec fn shift_right_arithmetic(value: u32, amount: u32) -> u32 {
    if value & 0x8000_0000 != 0 {
        (value >> amount) | !(0xffff_ffffu32 >> amount)
    } else {
        value >> amount
    }
}

/// Whether `op` computes a register value from two operands.
pub open spec fn is_alu(op: Op) -> bool {
    match op {
        Op::Add | Op::Sub | Op::Xor | Op::Or | Op::And | Op::Sll | Op::Srl | Op::Sra | Op::Slt
        | Op::Sltu | Op::Addi | Op::Nop | Op::Xori | Op::Ori | Op::Andi | Op::Slti | Op::Sltiu
        | Op::Slli | Op::Srli | Op::Srai => true,
        _ => false,
    }
}

/// The value that an arithmetic or logic operation computes from its first
/// operand `a` and its second operand `b` (a register value or an
/// immediate). Sums and differences are taken modulo 2^32; shifts use the
/// low five bits of `b`; set-less-than gives 1 or 0.
pub open spec fn alu(op: Op, a: u32, b: u32) -> u32 {
    match op {
        Op::Add | Op::Addi | Op::Nop => wrap32(a + b),
        Op::Sub => wrap32(a - b),
        Op::Xor | Op::Xori => a ^ b,
        Op::Or | Op::Ori => a | b,
        Op::And | Op::Andi => a & b,
        Op::Sll | Op::Slli => a << (b & 0x1f),
        Op::Srl | Op::Srli => a >> (b & 0x1f),
        Op::Sra | Op::Srai => shift_right_arithmetic(a, b & 0x1f),
        Op::Slt | Op::Slti => if signed(a) < signed(b) {
            1
        } else {
            0
        },
        Op::Sltu | Op::Sltiu => if a < b {
            1
        } else {
            0
        },
        _ => 0,
    }
}

/// Whether a branch operation on operands `a` and `b` is taken.
pub open spec fn branch_taken(op: Op, a: u32, b: u32) -> bool {
    match op {
        Op::Beq => a == b,
        Op::Bne => a != b,
        Op::Blt => signed(a) < signed(b),
        Op::Bge => signed(a) >= signed(b),
        Op::Bltu => a < b,
        Op::Bgeu => a >= b,
        _ => false,
    }
}

/// The number of bytes that a load or store operation touches; 0 for any
/// other operation.
pub open spec fn access_width(op: Op) -> nat {
    match op {
        Op::Lb | Op::Lbu | Op::Sb => 1,
        Op::Lh | Op::Lhu | Op::Sh => 2,
        Op::Lw | Op::Sw => 4,
        _ => 0,
    }
}

/// Whether `width` bytes starting at `addr` all lie inside `memory`.
pub open spec fn in_bounds(memory: Seq<u8>, addr: u32, width: nat) -> bool {
    addr + width <= memory.len()
}

/// The two bytes at `addr`, little-endian.
pub open spec fn read_half(memory: Seq<u8>, addr: int) -> u32 {
    (memory[addr] as u32) | ((memory[addr + 1] as u32) << 8)
}

/// The four bytes at `addr`, little-endian.
pub open spec fn read_word(memory: Seq<u8>, addr: int) -> u32 {
    (memory[addr] as u32) | ((memory[addr + 1] as u32) << 8) | ((memory[addr + 2] as u32) << 16)
        | ((memory[addr + 3] as u32) << 24)
}

/// The value that a load operation reads at `addr`: signed loads
/// sign-extend from the width of the access, unsigned loads zero-extend.
pub open spec fn loaded(op: Op, memory: Seq<u8>, addr: int) -> u32 {
    match op {
        Op::Lb => sign_extend_spec(memory[addr] as u32, 8),
        Op::Lbu => memory[addr] as u32,
        Op::Lh => sign_extend_spec(read_half(memory, addr), 16),
        Op::Lhu => read_half(memory, addr),
        Op::Lw => read_word(memory, addr),
        _ => 0,
    }
}

/// Byte `index` of `value`, counted from the least significant.
pub open spec fn byte_of(value: u32, index: u32) -> u8 {
    ((value >> (8 * index) as u32) & 0xff) as u8
}

/// Memory after a store operation has written the low bytes of `value` at
/// `addr`, little-endian.
pub open spec fn stored(op: Op, memory: Seq<u8>, addr: int, value: u32) -> Seq<u8> {
    match op {
        Op::Sb => memory.update(addr, byte_of(value, 0)),
        Op::Sh => memory.update(addr, byte_of(value, 0)).update(addr + 1, byte_of(value, 1)),
        Op::Sw => memory.update(addr, byte_of(value, 0)).update(addr + 1, byte_of(value, 1)).update(
            addr + 2,
            byte_of(value, 2),
        ).update(addr + 3, byte_of(value, 3)),
        _ => memory,
    }
}

/// The destination of `jalr`: the sum of base and displacement modulo 2^32
/// with bit 0 cleared.
pub open spec fn jalr_target(base: u32, imm: u32) -> u32 {
    wrap32(base + imm) & 0xffff_fffe
}

/// The effective address of a load or store: base plus displacement,
/// modulo 2^32.
pub open spec fn effective_address(base: u32, imm: u32) -> u32 {
    wrap32(base + imm)
}

/// The state after a register-register instruction.
pub open spec fn execute_r(m: Machine, op: Op, rd: usize, rs1: usize, rs2: usize) -> Machine {
    if is_alu(op) {
        m.retire(rd, alu(op, m.reg(rs1), m.reg(rs2)))
    } else {
        m.advance()
    }
}

/// The state after an instruction of the I format: a register-immediate
/// operation, a load, `jalr`, or a system or CSR instruction (which has no
/// effect but the fall-through).
pub open spec fn execute_i(m: Machine, op: Op, rd: usize, rs1: usize, imm: u32) -> Machine {
    if is_alu(op) {
        m.retire(rd, alu(op, m.reg(rs1), imm))
    } else if access_width(op) > 0 {
        let addr = effective_address(m.reg(rs1), imm);
        if in_bounds(m.memory, addr, access_width(op)) {
            m.retire(rd, loaded(op, m.memory, addr as int))
        } else {
            m
        }
    } else if op == Op::Jalr {
        m.write_reg(rd, wrap32(m.pc + 4)).jump(jalr_target(m.reg(rs1), imm))
    } else {
        m.advance()
    }
}

/// The state after a store instruction.
pub open spec fn execute_s(m: Machine, op: Op, imm: u32, rs1: usize, rs2: usize) -> Machine {
    if access_width(op) > 0 {
        let addr = effective_address(m.reg(rs1), imm);
        if in_bounds(m.memory, addr, access_width(op)) {
            Machine { memory: stored(op, m.memory, addr as int, m.reg(rs2)), ..m }.advance()
        } else {
            m
        }
    } else {
        m.advance()
    }
}

/// The state after a branch instruction.
pub open spec fn execute_b(m: Machine, op: Op, imm: u32, rs1: usize, rs2: usize) -> Machine {
    if branch_taken(op, m.reg(rs1), m.reg(rs2)) {
        m.jump(wrap32(m.pc + imm))
    } else {
        m.advance()
    }
}

/// The state after `lui` or `auipc`, whose immediate holds the 20-bit
/// field in its upper bits: `lui` loads it, `auipc` adds it to the program
/// counter.
pub open spec fn execute_u(m: Machine, op: Op, rd: usize, imm: u32) -> Machine {
    if op == Op::Lui {
        m.retire(rd, imm)
    } else if op == Op::Auipc {
        m.retire(rd, wrap32(m.pc + imm))
    } else {
        m.advance()
    }
}

/// The state after `jal`.
pub open spec fn execute_j(m: Machine, op: Op, rd: usize, imm: u32) -> Machine {
    if op == Op::Jal {
        m.write_reg(rd, wrap32(m.pc + 4)).jump(wrap32(m.pc + imm))
    } else {
        m.advance()
    }
}

/// The state after executing `inst` in state `m`.
///
/// An instruction that selects `Unimp`, a fence and the system and CSR
/// instructions leave registers and memory alone and fall through. A load
/// or store whose bytes do not all lie inside memory leaves the whole state
/// as it was.
pub open spec fn execute_spec(m: Machine, inst: Instruction) -> Machine {
    let op = op_of(inst);
    match inst.type_data {
        InstTypeData::R { rd, rs1, rs2, .. } => execute_r(m, op, rd, rs1, rs2),
        InstTypeData::I { rd, rs1, imm, .. } => execute_i(m, op, rd, rs1, imm),
        InstTypeData::S { imm, rs1, rs2, .. } => execute_s(m, op, imm, rs1, rs2),
        InstTypeData::B { imm, rs1, rs2, .. } => execute_b(m, op, imm, rs1, rs2),
        InstTypeData::U { rd, imm } => execute_u(m, op, rd, imm),
        InstTypeData::J { rd, imm } => execute_j(m, op, rd, imm),
        InstTypeData::Fence => m.advance(),
        InstTypeData::Unimp => m.advance(),
    }
}

/// The address that executing `inst` in state `m` resolves: the effective
/// address of a load or store, the destination of a branch (taken or not)
/// or of a jump; `None` for every other operation.
pub open spec fn resolved_address(m: Machine, inst: Instruction) -> Option<u32> {
    let op = op_of(inst);
    match inst.type_data {
        InstTypeData::I { rs1, imm, .. } => {
            if access_width(op) > 0 {
                Some(effective_address(m.reg(rs1), imm))
            } else if op == Op::Jalr {
                Some(jalr_target(m.reg(rs1), imm))
            } else {
                None
            }
        },
        InstTypeData::S { imm, rs1, .. } => {
            if access_width(op) > 0 {
                Some(effective_address(m.reg(rs1), imm))
            } else {
                None
            }
        },
        InstTypeData::B { imm, .. } => {
            if op != Op::Unimp {
                Some(wrap32(m.pc + imm))
            } else {
                None
            }
        },
        InstTypeData::J { imm, .. } => {
            if op == Op::Jal {
                Some(wrap32(m.pc + imm))
            } else {
                None
            }
        },
        _ => None,
    }
}

/// Whether executing `inst` in state `m` is a load or store with a byte
/// outside memory.
pub open spec fn faults(m: Machine, inst: Instruction) -> bool {
    match resolved_address(m, inst) {
        Some(addr) => access_width(op_of(inst)) > 0 && !in_bounds(
            m.memory,
            addr,
            access_width(op_of(inst)),
        ),
        None => false,
    }
}

/// What executing `inst` in state `m` reports.
pub open spec fn trace_spec(m: Machine, inst: Instruction) -> Trace {
    Trace {
        op: op_of(inst),
        inst,
        pc: m.pc,
        address: resolved_address(m, inst),
        fault: faults(m, inst),
    }
}

} // verus!
