//! Laws of the instruction set that hold for every state and every
//! operand, proved from the semantics.

use vstd::prelude::*;
use crate::command::{turn_spec, Turn};
use crate::bits::{sign_extend_spec, signed, wrap32};
use crate::encoding::{
    decode_spec, funct3_of, imm_b, imm_i, imm_j, imm_s, imm_u, lemma_field_ranges, opcode_of,
    rd_of, rs1_of, OPCODE_OP, OPCODE_OP_IMM,
};
use crate::instruction::{InstTypeData, InstTypeName, Instruction, Op};
use crate::outcome::{address_overflow, executed_spec, run_spec, step_spec};
use crate::semantics::{
    alu, byte_of, effective_address, execute_i, execute_s, execute_spec, in_bounds, jalr_target,
    loaded, op_of, read_half, read_word, stored, Machine,
};

verus! {

/// The value of a 12-bit field read as a two's complement number.
pub open spec fn signed12(field: u32) -> int {
    if field < 0x800 {
        field as int
    } else {
        field as int - 0x1000
    }
}

/// Sign extension from 8, 12 and 16 bits, as arithmetic: a field with its
/// top bit clear stands for itself, one with its top bit set has every
/// higher bit set.
pub proof fn lemma_sign_extend_values(field: u32)
    by (bit_vector)
    ensures
        field < 0x100 ==> sign_extend_spec(field, 8) == if field < 0x80 {
            field
        } else {
            (field + 0xffff_ff00) as u32
        },
        field < 0x1000 ==> sign_extend_spec(field, 12) == if field < 0x800 {
            field
        } else {
            (field + 0xffff_f000) as u32
        },
        field < 0x1_0000 ==> sign_extend_spec(field, 16) == if field < 0x8000 {
            field
        } else {
            (field + 0xffff_0000) as u32
        },
{
}

/// `add` and `sub` compute the sum and the difference modulo 2^32, for all
/// operands: nothing overflows.
pub proof fn law_add_sub_wrap(a: u32, b: u32)
    ensures
        alu(Op::Add, a, b) as int == (a + b) % 0x1_0000_0000,
        alu(Op::Sub, a, b) as int == (a - b) % 0x1_0000_0000,
{
}

/// An `add` or `sub` instruction leaves in its destination register the sum
/// or difference of its source registers modulo 2^32, and falls through.
pub proof fn law_add_sub_instruction(m: Machine, rd: usize, rs1: usize, rs2: usize, sub: bool)
    requires
        m.valid(),
        rd < 32,
        rs1 < 32,
        rs2 < 32,
    ensures
        ({
            let inst = Instruction {
                opcode: OPCODE_OP,
                type_data: InstTypeData::R {
                    rd,
                    funct3: 0,
                    rs1,
                    rs2,
                    funct7: if sub {
                        0x20
                    } else {
                        0
                    },
                },
                format: InstTypeName::R,
            };
            let result = if sub {
                m.reg(rs1) - m.reg(rs2)
            } else {
                m.reg(rs1) + m.reg(rs2)
            };
            &&& op_of(inst) == if sub {
                Op::Sub
            } else {
                Op::Add
            }
            &&& execute_spec(m, inst) == m.retire(rd, wrap32(result))
        }),
{
}

/// A word with the opcode of the register-immediate, branch or jump
/// instructions is neither the all-zero word nor the halt marker.
pub proof fn lemma_opcode_is_code(word: u32)
    by (bit_vector)
    ensures
        (word & 0x7f == 0b0010011 || word & 0x7f == 0b1100011 || word & 0x7f == 0b1101111) ==> word
            != 0 && word != 0xc000_1073u32,
{
}

/// `addi` adds its 12-bit immediate as a signed number: for every word that
/// encodes an `addi`, the decoded immediate stands for the field's two's
/// complement value, between -2048 and 2047, and the destination register
/// receives the source register plus that value modulo 2^32. Read as a
/// signed number, the result is the signed sum wherever that fits in 32
/// bits.
pub proof fn law_addi(m: Machine, word: u32)
    requires
        m.valid(),
        opcode_of(word) == OPCODE_OP_IMM,
        funct3_of(word) == 0,
    ensures
        ({
            let inst = decode_spec(word);
            let rd = rd_of(word) as usize;
            let rs1 = rs1_of(word) as usize;
            let i = signed12((word >> 20) & 0xfff);
            let sum = signed(m.reg(rs1)) + i;
            &&& -2048 <= i < 2048
            &&& signed(imm_i(word)) == i
            &&& op_of(inst) == Op::Addi || op_of(inst) == Op::Nop
            &&& execute_spec(m, inst) == m.retire(rd, wrap32(sum))
            &&& -0x8000_0000 <= sum < 0x8000_0000 ==> signed(wrap32(sum)) == sum
        }),
{
    let field = (word >> 20) & 0xfff;
    assert(field < 0x1000) by (bit_vector)
        requires
            field == (word >> 20) & 0xfff,
    ;
    lemma_sign_extend_values(field);
    lemma_opcode_is_code(word);
    lemma_field_ranges(word);
    let inst = decode_spec(word);
    assert(inst.well_formed());
    let r = m.reg(rs1_of(word) as usize);
    let i = signed12(field);
    assert(wrap32(r + imm_i(word)) == wrap32(signed(r) + i));
}

/// Register 0 cannot be written: whatever the instruction, and whichever
/// register it names as its destination, the state after it still has 32
/// registers with zero in register 0. Memory keeps its size.
pub proof fn law_state_stays_valid(m: Machine, inst: Instruction)
    requires
        m.valid(),
    ensures
        execute_spec(m, inst).valid(),
        execute_spec(m, inst).reg(0) == 0,
        execute_spec(m, inst).memory.len() == m.memory.len(),
{
}

/// The immediates of a word, as the decoder reconstructs them, as bit
/// patterns: the upper bits are all equal to the sign bit of the field.
proof fn lemma_immediate_patterns(word: u32)
    by (bit_vector)
    ensures
        imm_i(word) < 0x800 || imm_i(word) >= 0xffff_f800,
        imm_s(word) < 0x800 || imm_s(word) >= 0xffff_f800,
        imm_b(word) < 0x1000 || imm_b(word) >= 0xffff_f000,
        imm_j(word) < 0x10_0000 || imm_j(word) >= 0xfff0_0000,
        imm_u(word) & 0xfff == 0,
        imm_u(word) >> 12 == (word >> 12) & 0xf_ffff,
{
}

/// Every immediate that the decoder reconstructs lies in the range of its
/// field: 12 signed bits for the I and S formats, 13 for the B format, 21
/// for the J format. The U format holds its 20-bit field in the upper bits
/// and zero in the low 12.
pub proof fn law_immediate_ranges(word: u32)
    ensures
        -0x800 <= signed(imm_i(word)) < 0x800,
        -0x800 <= signed(imm_s(word)) < 0x800,
        -0x1000 <= signed(imm_b(word)) < 0x1000,
        -0x10_0000 <= signed(imm_j(word)) < 0x10_0000,
        imm_u(word) & 0xfff == 0,
        imm_u(word) >> 12 == (word >> 12) & 0xf_ffff,
{
    lemma_immediate_patterns(word);
}

/// While a run goes on, the program counter lies inside memory, register 0
/// holds zero and memory keeps its size: a cycle that does not end the run
/// leaves such a state.
pub proof fn law_running_stays_inside(m: Machine)
    requires
        m.valid(),
    ensures
        step_spec(m).0.valid(),
        step_spec(m).0.memory.len() == m.memory.len(),
        step_spec(m).1 is None ==> step_spec(m).0.pc < m.memory.len(),
{
}

/// The displacement of a branch and of `jal` is even: bit 0 of the
/// reconstructed immediate is 0, for every word.
pub proof fn law_displacement_even(word: u32)
    by (bit_vector)
    ensures
        imm_b(word) & 1 == 0,
        imm_j(word) & 1 == 0,
{
}

/// The destination of `jalr` is even, also where base plus displacement is
/// odd, and differs from that sum by at most the cleared bit.
pub proof fn law_jalr_clears_low_bit(base: u32, imm: u32)
    ensures
        jalr_target(base, imm) & 1 == 0,
        jalr_target(base, imm) == wrap32(base + imm) - (wrap32(base + imm) % 2),
{
    let sum = wrap32(base + imm);
    assert((sum & 0xffff_fffe) & 1 == 0 && (sum & 0xffff_fffe) == sum - (sum % 2))
        by (bit_vector);
}

/// Signed loads sign-extend and unsigned loads zero-extend: `lbu` and `lhu`
/// give the byte or the little-endian halfword itself; `lb` and `lh` give
/// the same where its top bit is clear, and set every higher bit where it
/// is set.
pub proof fn law_load_extension(memory: Seq<u8>, addr: int)
    ensures
        loaded(Op::Lbu, memory, addr) == memory[addr],
        loaded(Op::Lb, memory, addr) == if memory[addr] < 0x80 {
            memory[addr] as int
        } else {
            memory[addr] + 0xffff_ff00
        },
        loaded(Op::Lhu, memory, addr) == memory[addr] + 256 * memory[addr + 1],
        loaded(Op::Lh, memory, addr) == if memory[addr + 1] < 0x80 {
            memory[addr] + 256 * memory[addr + 1]
        } else {
            memory[addr] + 256 * memory[addr + 1] + 0xffff_0000
        },
{
    let low = memory[addr];
    let high = memory[addr + 1];
    let half = read_half(memory, addr);
    assert(half == low + 256 * high && half < 0x1_0000 && (half < 0x8000 <==> high < 0x80))
        by (bit_vector)
        requires
            half == (low as u32) | ((high as u32) << 8),
    ;
    lemma_sign_extend_values(low as u32);
    lemma_sign_extend_values(half);
}

/// The four bytes of a value, put together little-endian, give the value.
pub proof fn lemma_word_of_bytes(value: u32)
    by (bit_vector)
    ensures
        ((((value >> 0) & 0xff) as u8) as u32) | (((((value >> 8) & 0xff) as u8) as u32) << 8) | (((((
        value >> 16) & 0xff) as u8) as u32) << 16) | (((((value >> 24) & 0xff) as u8) as u32) << 24)
            == value,
{
}

/// A word stored in memory is read back unchanged, at every address inside
/// memory and for every value.
pub proof fn law_store_load_word(memory: Seq<u8>, addr: u32, value: u32)
    requires
        in_bounds(memory, addr, 4),
    ensures
        stored(Op::Sw, memory, addr as int, value).len() == memory.len(),
        read_word(stored(Op::Sw, memory, addr as int, value), addr as int) == value,
{
    lemma_word_of_bytes(value);
    assert(byte_of(value, 0) == ((value >> 0) & 0xff) as u8);
    assert(byte_of(value, 1) == ((value >> 8) & 0xff) as u8);
    assert(byte_of(value, 2) == ((value >> 16) & 0xff) as u8);
    assert(byte_of(value, 3) == ((value >> 24) & 0xff) as u8);
}

/// `sw` followed by `lw` at the same address leaves the stored value in the
/// destination register of the load, wherever the four bytes lie inside
/// memory; register 0 stays zero.
pub proof fn law_sw_then_lw(m: Machine, rd: usize, rs1: usize, rs2: usize, imm: u32)
    requires
        m.valid(),
        rd < 32,
        rs1 < 32,
        rs2 < 32,
        in_bounds(m.memory, effective_address(m.reg(rs1), imm), 4),
    ensures
        ({
            let after_store = execute_s(m, Op::Sw, imm, rs1, rs2);
            let after_load = execute_i(after_store, Op::Lw, rd, rs1, imm);
            &&& after_load.reg(rd) == if rd == 0 {
                0
            } else {
                m.reg(rs2)
            }
            &&& after_load.pc == wrap32(wrap32(m.pc + 4) + 4)
        }),
{
    law_store_load_word(m.memory, effective_address(m.reg(rs1), imm), m.reg(rs2));
}

/// An instruction in the last word of memory that falls through ends the
/// run with an address overflow, whatever else it does: the program counter
/// then stands at the end of memory. This holds of every memory of fewer
/// than 2^32 bytes; in one of exactly 2^32 bytes the program counter wraps
/// to 0 instead.
pub proof fn law_end_of_memory(m: Machine)
    requires
        m.valid(),
        m.pc + 4 == m.memory.len(),
        m.memory.len() < 0x1_0000_0000,
        execute_spec(m, decode_spec(read_word(m.memory, m.pc as int))).pc == wrap32(m.pc + 4),
    ensures
        step_spec(m).1 == Some(address_overflow()),
        step_spec(m).0.pc == m.memory.len(),
{
}

/// In the interactive mode the empty line runs exactly one cycle, so that a
/// run driven by empty lines is the plain run; any other line executes no
/// instruction and leaves the state as it was.
pub proof fn law_interactive_turns(m: Machine, line: Seq<u8>)
    ensures
        line.len() == 0 ==> turn_spec(m, line) == (
            step_spec(m).0,
            Turn::Stepped { executed: executed_spec(m), outcome: step_spec(m).1 },
        ),
        line.len() > 0 ==> turn_spec(m, line).0 == m && turn_spec(m, line).1 is Answered,
{
}

/// A run that has stopped at its limit can be taken up again: running for
/// `first` cycles without reaching the end, and then for `more` cycles from
/// where that stopped, is running for `first + more` cycles.
pub proof fn law_run_resumes(m: Machine, first: nat, more: nat)
    requires
        run_spec(m, first).1 is None,
    ensures
        run_spec(m, first + more) == run_spec(run_spec(m, first).0, more),
    decreases first,
{
    if first > 0 {
        let next = step_spec(m).0;
        assert(run_spec(m, first) == run_spec(next, (first - 1) as nat));
        law_run_resumes(next, (first - 1) as nat, more);
        assert(run_spec(m, first + more) == run_spec(next, (first + more - 1) as nat));
    }
}

} // verus!
