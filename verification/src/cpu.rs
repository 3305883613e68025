//! The processor: register file, memory and program counter, and the
//! fetch/decode/execute cycle that drives them.

use vstd::prelude::*;
use crate::bits::{sign_extend_spec, wrap32};
use crate::encoding::{
    decode_spec, lemma_field_ranges, HALT_WORD, OPCODE_AUIPC, OPCODE_BRANCH, OPCODE_FENCE,
    OPCODE_JAL, OPCODE_JALR, OPCODE_LOAD, OPCODE_LUI, OPCODE_OP, OPCODE_OP_IMM, OPCODE_STORE,
    OPCODE_SYSTEM,
};
use crate::executor::{byte_at, lemma_signed_is_cast};
use crate::image::{image_over, LoadError};
use crate::instruction::{InstTypeData, InstTypeName, Instruction, Op};
use crate::laws::law_state_stays_valid;
use crate::outcome::{
    executed_spec, outcome_after, run_spec, step_spec, Executed, Outcome, OutcomeKind,
    CODE_ADDRESS_OVERFLOW,
    CODE_ILLEGAL_INSTRUCTION, CODE_UNIMPLEMENTED_SYSCALL, REG_A0, REG_A7, REG_SP, SYSCALL_EXIT,
};
use crate::semantics::{
    access_width, effective_address, execute_b, execute_i, execute_j, execute_r, execute_s,
    execute_spec, execute_u, in_bounds, jalr_target, loaded, read_word, stored, trace_spec,
    Machine, Trace,
};

verus! {

/// An RV32I processor with its memory.
pub struct Cpu {
    memory: Vec<u8>,
    registers: [u32; 32],
    pc: u32,
}

impl View for Cpu {
    type V = Machine;

    closed spec fn view(&self) -> Machine {
        Machine { memory: self.memory@, registers: self.registers@, pc: self.pc }
    }
}

impl Cpu {
    #[verifier::type_invariant]
    spec fn zero_register_holds(&self) -> bool {
        self.registers[0] == 0
    }

    /// A processor with `mem_size` bytes of zeroed memory, zeroed registers
    /// and the program counter at 0.
    pub fn new(mem_size: usize) -> (cpu: Self)
        ensures
            cpu@.valid(),
            cpu@.pc == 0,
            cpu@.registers == Seq::new(32, |i: int| 0u32),
            cpu@.memory == Seq::new(mem_size as nat, |i: int| 0u8),
    {
        let cpu = Cpu { memory: vec![0u8; mem_size], registers: [0u32; 32], pc: 0 };
        assert(cpu@.registers =~= Seq::new(32, |i: int| 0u32));
        assert(cpu@.memory =~= Seq::new(mem_size as nat, |i: int| 0u8));
        cpu
    }

    /// The program counter.
    pub fn pc(&self) -> (pc: u32)
        ensures
            pc == self@.pc,
    {
        self.pc
    }

    /// The register file. Register 0 holds zero.
    pub fn registers(&self) -> (registers: &[u32; 32])
        ensures
            registers@ == self@.registers,
            self@.valid(),
    {
        proof {
            use_type_invariant(self);
        }
        &self.registers
    }

    /// The memory.
    pub fn memory(&self) -> (memory: &Vec<u8>)
        ensures
            memory@ == self@.memory,
    {
        &self.memory
    }

    /// Copies a program image to the start of memory and sets the program
    /// counter to `entry_pc`. An image with more bytes than memory is
    /// refused, and the processor is left as it was.
    pub fn load_image(&mut self, bytes: &[u8], entry_pc: u32) -> (result: Result<(), LoadError>)
        ensures
            bytes@.len() <= old(self)@.memory.len() ==> {
                &&& result == Ok::<(), LoadError>(())
                &&& final(self)@ == (Machine {
                    memory: image_over(old(self)@.memory, bytes@),
                    pc: entry_pc,
                    ..old(self)@
                })
            },
            bytes@.len() > old(self)@.memory.len() ==> {
                &&& result == Err::<(), LoadError>(LoadError::ImageTooLarge)
                &&& final(self)@ == old(self)@
            },
            final(self)@.valid(),
    {
        proof {
            use_type_invariant(&*self);
        }
        if bytes.len() > self.memory.len() {
            return Err(LoadError::ImageTooLarge);
        }
        let count: usize = bytes.len();
        let mut done: usize = 0;
        while done < count
            invariant
                done <= count,
                count == bytes@.len(),
                count <= self@.memory.len(),
                self@.memory.len() == old(self)@.memory.len(),
                self@.registers == old(self)@.registers,
                forall|k: int| 0 <= k < done ==> self@.memory[k] == bytes@[k],
                forall|k: int|
                    done <= k < self@.memory.len() ==> self@.memory[k] == old(self)@.memory[k],
            decreases count - done,
        {
            proof {
                use_type_invariant(&*self);
            }
            self.memory[done] = bytes[done];
            done += 1;
        }
        self.pc = entry_pc;
        assert(self@.memory =~= image_over(old(self)@.memory, bytes@));
        Ok(())
    }

    /// Sets the program counter, overriding the entry point of the image.
    pub fn set_pc(&mut self, pc: u32)
        ensures
            final(self)@ == old(self)@.jump(pc),
            final(self)@.valid(),
    {
        self.jump_to(pc);
        proof {
            use_type_invariant(&*self);
        }
    }

    /// Points the stack pointer at the last byte of memory, so that the
    /// program has all of memory as its stack. The address is taken modulo
    /// 2^32. With no memory at all, nothing changes.
    pub fn set_stack_top(&mut self)
        ensures
            final(self)@ == if old(self)@.memory.len() == 0 {
                old(self)@
            } else {
                old(self)@.write_reg(REG_SP, wrap32(old(self)@.memory.len() - 1))
            },
            final(self)@.valid(),
    {
        if self.memory.len() > 0 {
            let top: u64 = (self.memory.len() - 1) as u64;
            let address: u32 = (top % 0x1_0000_0000) as u32;
            self.write_register(REG_SP, address);
        }
        proof {
            use_type_invariant(&*self);
        }
    }

    /// Replicates bit `size - 1` of `data` into all higher bits.
    pub fn sign_extend(data: u32, size: u32) -> (out: u32)
        requires
            1 <= size <= 32,
        ensures
            out == sign_extend_spec(data, size),
    {
        let shift: u32 = 32 - size;
        let out: u32 = (((data << shift) as i32) >> shift) as u32;
        assert(out == sign_extend_spec(data, size)) by (bit_vector)
            requires
                1 <= size <= 32,
                shift == 32 - size,
                out == (((data << shift) as i32) >> shift) as u32,
        ;
        out
    }

    /// The instruction word at the program counter, little-endian; `None`
    /// where its four bytes do not all lie inside memory.
    pub fn fetch(&self) -> (word: Option<u32>)
        ensures
            word == if in_bounds(self@.memory, self@.pc, 4) {
                Some(read_word(self@.memory, self@.pc as int))
            } else {
                None::<u32>
            },
    {
        let index: usize = self.pc as usize;
        if self.memory.len() < 4 || index > self.memory.len() - 4 {
            return None;
        }
        Some(
            self.memory[index] as u32 | (self.memory[index + 1] as u32) << 8 | (self.memory[index
                + 2] as u32) << 16 | (self.memory[index + 3] as u32) << 24,
        )
    }

    /// Decodes one instruction word. Total: a word with an unknown opcode,
    /// the all-zero word and the halt marker decode to `Unimp`.
    pub fn decode(&self, inst: u32) -> (instruction: Instruction)
        ensures
            instruction == decode_spec(inst),
            instruction.well_formed(),
    {
        proof {
            lemma_field_ranges(inst);
        }
        let opcode: u32 = inst & 0b1111111;
        let rd: usize = ((inst >> 7) & 0b11111) as usize;
        let funct3: u32 = (inst >> 12) & 0b111;
        let rs1: usize = ((inst >> 15) & 0b11111) as usize;
        let rs2: usize = ((inst >> 20) & 0b11111) as usize;
        let mut instruction = Instruction::new();
        instruction.opcode = opcode;
        if inst == 0 || inst == HALT_WORD {
            return instruction;
        }
        if opcode == OPCODE_OP {
            let funct7: u32 = (inst >> 25) & 0b1111111;
            instruction.type_data = InstTypeData::R { rd, funct3, rs1, rs2, funct7 };
            instruction.format = InstTypeName::R;
        } else if opcode == OPCODE_OP_IMM || opcode == OPCODE_LOAD || opcode == OPCODE_JALR
            || opcode == OPCODE_SYSTEM {
            let imm: u32 = Cpu::sign_extend((inst >> 20) & 0b111111111111, 12);
            instruction.type_data = InstTypeData::I { rd, funct3, rs1, imm };
            instruction.format = InstTypeName::I;
        } else if opcode == OPCODE_STORE {
            let imm4_0: u32 = (inst >> 7) & 0b11111;
            let imm11_5: u32 = (inst >> 25) & 0b1111111;
            let imm: u32 = Cpu::sign_extend((imm11_5 << 5) | imm4_0, 12);
            instruction.type_data = InstTypeData::S { imm, funct3, rs1, rs2 };
            instruction.format = InstTypeName::S;
        } else if opcode == OPCODE_BRANCH {
            let imm11: u32 = (inst >> 7) & 0b1;
            let imm4_1: u32 = (inst >> 8) & 0b1111;
            let imm10_5: u32 = (inst >> 25) & 0b111111;
            let imm12: u32 = (inst >> 31) & 0b1;
            let imm: u32 = Cpu::sign_extend(
                (imm12 << 12) | (imm11 << 11) | (imm10_5 << 5) | (imm4_1 << 1),
                13,
            );
            instruction.type_data = InstTypeData::B { imm, funct3, rs1, rs2 };
            instruction.format = InstTypeName::B;
        } else if opcode == OPCODE_JAL {
            let imm19_12: u32 = (inst >> 12) & 0b11111111;
            let imm11: u32 = (inst >> 20) & 0b1;
            let imm10_1: u32 = (inst >> 21) & 0b1111111111;
            let imm20: u32 = (inst >> 31) & 0b1;
            let imm: u32 = Cpu::sign_extend(
                (imm20 << 20) | (imm19_12 << 12) | (imm11 << 11) | (imm10_1 << 1),
                21,
            );
            instruction.type_data = InstTypeData::J { rd, imm };
            instruction.format = InstTypeName::J;
        } else if opcode == OPCODE_LUI || opcode == OPCODE_AUIPC {
            let imm: u32 = inst & 0xffff_f000;
            instruction.type_data = InstTypeData::U { rd, imm };
            instruction.format = InstTypeName::U;
        } else if opcode == OPCODE_FENCE {
            instruction.type_data = InstTypeData::Fence;
            instruction.format = InstTypeName::Fence;
        }
        instruction
    }

    /// Whether `width` bytes starting at `addr` all lie inside memory.
    fn holds(&self, addr: u32, width: usize) -> (ok: bool)
        ensures
            ok == in_bounds(self@.memory, addr, width as nat),
    {
        width <= self.memory.len() && addr as usize <= self.memory.len() - width
    }

    /// Writes `value` to register `rd`; a write to register 0 is discarded.
    fn write_register(&mut self, rd: usize, value: u32)
        requires
            rd < 32,
        ensures
            final(self)@ == old(self)@.write_reg(rd, value),
    {
        proof {
            use_type_invariant(&*self);
        }
        if rd != 0 {
            self.registers[rd] = value;
            assert(self@.registers =~= old(self)@.registers.update(rd as int, value));
        }
    }

    /// The value that the load operation `op` reads at `addr`; 0 for any
    /// other operation.
    fn read(&self, op: Op, addr: u32) -> (value: u32)
        requires
            in_bounds(self@.memory, addr, access_width(op)),
        ensures
            value == loaded(op, self@.memory, addr as int),
    {
        let index: usize = addr as usize;
        assert(index + access_width(op) <= self.memory.len());
        match op {
            Op::Lb => Cpu::sign_extend(self.memory[index] as u32, 8),
            Op::Lbu => self.memory[index] as u32,
            Op::Lh => Cpu::sign_extend(
                self.memory[index] as u32 | (self.memory[index + 1] as u32) << 8,
                16,
            ),
            Op::Lhu => self.memory[index] as u32 | (self.memory[index + 1] as u32) << 8,
            Op::Lw => self.memory[index] as u32 | (self.memory[index + 1] as u32) << 8 | (
            self.memory[index + 2] as u32) << 16 | (self.memory[index + 3] as u32) << 24,
            _ => 0,
        }
    }

    /// Writes the low bytes of `value` at `addr` as the store operation
    /// `op` does; nothing for any other operation.
    fn write(&mut self, op: Op, addr: u32, value: u32)
        requires
            in_bounds(old(self)@.memory, addr, access_width(op)),
        ensures
            final(self)@ == (Machine {
                memory: stored(op, old(self)@.memory, addr as int, value),
                ..old(self)@
            }),
    {
        proof {
            use_type_invariant(&*self);
        }
        let index: usize = addr as usize;
        assert(index + access_width(op) <= self.memory.len());
        match op {
            Op::Sb => {
                self.memory[index] = byte_at(value, 0);
            },
            Op::Sh => {
                self.memory[index] = byte_at(value, 0);
                self.memory[index + 1] = byte_at(value, 1);
            },
            Op::Sw => {
                self.memory[index] = byte_at(value, 0);
                self.memory[index + 1] = byte_at(value, 1);
                self.memory[index + 2] = byte_at(value, 2);
                self.memory[index + 3] = byte_at(value, 3);
            },
            _ => {},
        }
    }

    /// Moves the program counter to the next instruction.
    fn fall_through(&mut self)
        ensures
            final(self)@ == old(self)@.advance(),
    {
        proof {
            use_type_invariant(&*self);
        }
        self.pc = self.pc.wrapping_add(4);
    }

    /// Moves the program counter to `target`.
    fn jump_to(&mut self, target: u32)
        ensures
            final(self)@ == old(self)@.jump(target),
    {
        proof {
            use_type_invariant(&*self);
        }
        self.pc = target;
    }

    /// Executes a register-register instruction.
    fn run_r(&mut self, op: Op, rd: usize, rs1: usize, rs2: usize)
        requires
            rd < 32,
            rs1 < 32,
            rs2 < 32,
        ensures
            final(self)@ == execute_r(old(self)@, op, rd, rs1, rs2),
    {
        if op.is_alu() {
            let value: u32 = op.compute(self.registers[rs1], self.registers[rs2]);
            self.write_register(rd, value);
        }
        self.fall_through();
    }

    /// Executes an instruction of the I format. Returns the address that
    /// it resolved, and whether it was a load outside memory.
    fn run_i(&mut self, op: Op, rd: usize, rs1: usize, imm: u32) -> (r: (Option<u32>, bool))
        requires
            rd < 32,
            rs1 < 32,
        ensures
            final(self)@ == execute_i(old(self)@, op, rd, rs1, imm),
            r.0 == if access_width(op) > 0 {
                Some(effective_address(old(self)@.reg(rs1), imm))
            } else if op == Op::Jalr {
                Some(jalr_target(old(self)@.reg(rs1), imm))
            } else {
                None::<u32>
            },
            r.1 == (access_width(op) > 0 && !in_bounds(
                old(self)@.memory,
                effective_address(old(self)@.reg(rs1), imm),
                access_width(op),
            )),
    {
        let base: u32 = self.registers[rs1];
        if op.is_alu() {
            let value: u32 = op.compute(base, imm);
            self.write_register(rd, value);
            self.fall_through();
            (None, false)
        } else if op.width() > 0 {
            let addr: u32 = base.wrapping_add(imm);
            if self.holds(addr, op.width()) {
                let value: u32 = self.read(op, addr);
                self.write_register(rd, value);
                self.fall_through();
                (Some(addr), false)
            } else {
                (Some(addr), true)
            }
        } else if op == Op::Jalr {
            let target: u32 = base.wrapping_add(imm) & 0xffff_fffe;
            let link: u32 = self.pc.wrapping_add(4);
            self.write_register(rd, link);
            self.jump_to(target);
            (Some(target), false)
        } else {
            self.fall_through();
            (None, false)
        }
    }

    /// Executes a store instruction. Returns the address that it resolved,
    /// and whether it lay outside memory.
    fn run_s(&mut self, op: Op, imm: u32, rs1: usize, rs2: usize) -> (r: (Option<u32>, bool))
        requires
            rs1 < 32,
            rs2 < 32,
        ensures
            final(self)@ == execute_s(old(self)@, op, imm, rs1, rs2),
            r.0 == if access_width(op) > 0 {
                Some(effective_address(old(self)@.reg(rs1), imm))
            } else {
                None::<u32>
            },
            r.1 == (access_width(op) > 0 && !in_bounds(
                old(self)@.memory,
                effective_address(old(self)@.reg(rs1), imm),
                access_width(op),
            )),
    {
        if op.width() > 0 {
            let addr: u32 = self.registers[rs1].wrapping_add(imm);
            if self.holds(addr, op.width()) {
                let value: u32 = self.registers[rs2];
                self.write(op, addr, value);
                self.fall_through();
                (Some(addr), false)
            } else {
                (Some(addr), true)
            }
        } else {
            self.fall_through();
            (None, false)
        }
    }

    /// Executes a branch instruction.
    fn run_b(&mut self, op: Op, imm: u32, rs1: usize, rs2: usize)
        requires
            rs1 < 32,
            rs2 < 32,
        ensures
            final(self)@ == execute_b(old(self)@, op, imm, rs1, rs2),
    {
        if op.taken(self.registers[rs1], self.registers[rs2]) {
            let target: u32 = self.pc.wrapping_add(imm);
            self.jump_to(target);
        } else {
            self.fall_through();
        }
    }

    /// Executes `lui` or `auipc`.
    fn run_u(&mut self, op: Op, rd: usize, imm: u32)
        requires
            rd < 32,
        ensures
            final(self)@ == execute_u(old(self)@, op, rd, imm),
    {
        if op == Op::Lui {
            self.write_register(rd, imm);
        } else if op == Op::Auipc {
            let value: u32 = self.pc.wrapping_add(imm);
            self.write_register(rd, value);
        }
        self.fall_through();
    }

    /// Executes `jal`.
    fn run_j(&mut self, op: Op, rd: usize, imm: u32)
        requires
            rd < 32,
        ensures
            final(self)@ == execute_j(old(self)@, op, rd, imm),
    {
        if op == Op::Jal {
            let link: u32 = self.pc.wrapping_add(4);
            let target: u32 = self.pc.wrapping_add(imm);
            self.write_register(rd, link);
            self.jump_to(target);
        } else {
            self.fall_through();
        }
    }

    /// Executes one decoded instruction: commits its effect on registers,
    /// memory and program counter, and reports what was done.
    ///
    /// Total. An instruction that is not well formed, or whose selector
    /// fields name no operation, is executed as `Unimp`: no effect but the
    /// fall-through. A load or store outside memory changes nothing and is
    /// reported as a fault.
    pub fn execute(&mut self, inst: &Instruction) -> (trace: Trace)
        ensures
            final(self)@ == execute_spec(old(self)@, *inst),
            trace == trace_spec(old(self)@, *inst),
            final(self)@.valid(),
            final(self)@.memory.len() == old(self)@.memory.len(),
    {
        proof {
            use_type_invariant(&*self);
            law_state_stays_valid(self@, *inst);
        }
        let op = inst.op();
        let pc: u32 = self.pc;
        if op == Op::Unimp {
            self.fall_through();
            return Trace { op, inst: *inst, pc, address: None, fault: false };
        }
        let mut address: Option<u32> = None;
        let mut fault = false;
        match inst.type_data {
            InstTypeData::R { rd, rs1, rs2, .. } => {
                self.run_r(op, rd, rs1, rs2);
            },
            InstTypeData::I { rd, rs1, imm, .. } => {
                let (resolved, faulted) = self.run_i(op, rd, rs1, imm);
                address = resolved;
                fault = faulted;
            },
            InstTypeData::S { imm, rs1, rs2, .. } => {
                let (resolved, faulted) = self.run_s(op, imm, rs1, rs2);
                address = resolved;
                fault = faulted;
            },
            InstTypeData::B { imm, rs1, rs2, .. } => {
                address = Some(pc.wrapping_add(imm));
                self.run_b(op, imm, rs1, rs2);
            },
            InstTypeData::U { rd, imm } => {
                self.run_u(op, rd, imm);
            },
            InstTypeData::J { rd, imm } => {
                address = Some(pc.wrapping_add(imm));
                self.run_j(op, rd, imm);
            },
            InstTypeData::Fence => {
                self.fall_through();
            },
            InstTypeData::Unimp => {
                self.fall_through();
            },
        }
        Trace { op, inst: *inst, pc, address, fault }
    }

    /// Evaluates the termination conditions after an instruction that
    /// reported `trace`: the outcome where the run ends, `None` where it
    /// goes on.
    pub fn outcome(&self, trace: &Trace) -> (outcome: Option<Outcome>)
        ensures
            outcome == outcome_after(self@, *trace),
    {
        if trace.fault || self.pc as usize >= self.memory.len() {
            return Some(
                Outcome { kind: OutcomeKind::AddressOverflow, code: CODE_ADDRESS_OVERFLOW },
            );
        }
        match trace.op {
            Op::Ecall => {
                if self.registers[REG_A7] == SYSCALL_EXIT {
                    proof {
                        lemma_signed_is_cast(self.registers[REG_A0 as int]);
                    }
                    Some(
                        Outcome {
                            kind: OutcomeKind::NormalExit,
                            code: self.registers[REG_A0] as i32,
                        },
                    )
                } else {
                    Some(
                        Outcome {
                            kind: OutcomeKind::UnimplementedSyscall,
                            code: CODE_UNIMPLEMENTED_SYSCALL,
                        },
                    )
                }
            },
            Op::Unimp => Some(
                Outcome { kind: OutcomeKind::IllegalInstruction, code: CODE_ILLEGAL_INSTRUCTION },
            ),
            _ => None,
        }
    }

    /// Runs one fetch/decode/execute cycle and reports it. Returns what was
    /// fetched and done, for tracing, and the outcome: `None` while the
    /// program is still running, the outcome once it has ended.
    pub fn step_traced(&mut self) -> (cycle: (Option<Executed>, Option<Outcome>))
        ensures
            (final(self)@, cycle.1) == step_spec(old(self)@),
            cycle.0 == executed_spec(old(self)@),
            final(self)@.valid(),
            final(self)@.memory.len() == old(self)@.memory.len(),
            cycle.1 is None ==> final(self)@.pc < final(self)@.memory.len(),
    {
        proof {
            use_type_invariant(&*self);
        }
        match self.fetch() {
            None => (
                None,
                Some(Outcome { kind: OutcomeKind::AddressOverflow, code: CODE_ADDRESS_OVERFLOW }),
            ),
            Some(word) => {
                let inst = self.decode(word);
                let trace = self.execute(&inst);
                let outcome = self.outcome(&trace);
                (Some(Executed { word, trace }), outcome)
            },
        }
    }

    /// Runs one fetch/decode/execute cycle. Returns `None` while the
    /// program is still running and the outcome once it has ended.
    pub fn step(&mut self) -> (outcome: Option<Outcome>)
        ensures
            (final(self)@, outcome) == step_spec(old(self)@),
            final(self)@.valid(),
            final(self)@.memory.len() == old(self)@.memory.len(),
            outcome is None ==> final(self)@.pc < final(self)@.memory.len(),
    {
        self.step_traced().1
    }

    /// Steps until the run ends, but at most `limit` times. Returns the
    /// outcome, or `None` where the run has not ended within the limit; the
    /// run can then be taken up again.
    pub fn run(&mut self, limit: u64) -> (outcome: Option<Outcome>)
        ensures
            (final(self)@, outcome) == run_spec(old(self)@, limit as nat),
            final(self)@.valid(),
            final(self)@.memory.len() == old(self)@.memory.len(),
    {
        proof {
            use_type_invariant(&*self);
        }
        let mut done: u64 = 0;
        while done < limit
            invariant
                done <= limit,
                self@.valid(),
                self@.memory.len() == old(self)@.memory.len(),
                run_spec(old(self)@, limit as nat) == run_spec(self@, (limit - done) as nat),
            decreases limit - done,
        {
            let outcome = self.step();
            if outcome.is_some() {
                return outcome;
            }
            done += 1;
        }
        None
    }
}

} // verus!
