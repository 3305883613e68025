//! How a run ends, and the fetch/decode/execute cycle stated over the
//! machine model.

use vstd::prelude::*;
use crate::bits::signed;
use crate::encoding::decode_spec;
use crate::instruction::Op;
use crate::semantics::{execute_spec, in_bounds, read_word, trace_spec, Machine, Trace};

verus! {

/// The service number, passed in register `a7`, that asks to end the
/// program.
pub const SYSCALL_EXIT: u32 = 93;

/// The register that holds the service number of a system call.
pub const REG_A7: usize = 17;

/// The register that holds the exit status.
pub const REG_A0: usize = 10;

/// The stack pointer.
pub const REG_SP: usize = 2;

/// Status code of a run that left memory.
pub const CODE_ADDRESS_OVERFLOW: i32 = -1;

/// Status code of a run that asked for a service other than exit.
pub const CODE_UNIMPLEMENTED_SYSCALL: i32 = -2;

/// Status code of a run that reached an illegal instruction.
pub const CODE_ILLEGAL_INSTRUCTION: i32 = -3;

/// The four ways in which a run ends.
#[derive(Clone, Copy, Debug, PartialEq, Eq, Structural)]
pub enum OutcomeKind {
    /// The program asked to exit.
    NormalExit,
    /// The program counter, or a load or store, left memory.
    AddressOverflow,
    /// The program asked for a service that is not provided.
    UnimplementedSyscall,
    /// The program reached a word that is no instruction.
    IllegalInstruction,
}

/// The end of a run: its kind and its status code.
#[derive(Clone, Copy, Debug, PartialEq, Eq, Structural)]
pub struct Outcome {
    pub kind: OutcomeKind,
    pub code: i32,
}

/// What one cycle fetched and did: the instruction word and what its
/// execution reported.
#[derive(Clone, Copy, Debug, PartialEq, Eq, Structural)]
pub struct Executed {
    pub word: u32,
    pub trace: Trace,
}

/// Leaving memory.
pub open spec fn address_overflow() -> Outcome {
    Outcome { kind: OutcomeKind::AddressOverflow, code: CODE_ADDRESS_OVERFLOW }
}

/// Whether a run ends after an instruction that left the machine in state
/// `m` and reported `trace`, and how. In order of priority: a faulting
/// access or a program counter at or beyond the end of memory is an address
/// overflow; a system call is a normal exit with the value of `a0` as
/// status where `a7` asks for exit, and an unimplemented system call
/// otherwise; `Unimp` is an illegal instruction. Otherwise the run goes on.
pub open spec fn outcome_after(m: Machine, trace: Trace) -> Option<Outcome> {
    if trace.fault || m.pc >= m.memory.len() {
        Some(address_overflow())
    } else if trace.op == Op::Ecall {
        if m.reg(REG_A7) == SYSCALL_EXIT {
            Some(Outcome { kind: OutcomeKind::NormalExit, code: signed(m.reg(REG_A0)) as i32 })
        } else {
            Some(
                Outcome {
                    kind: OutcomeKind::UnimplementedSyscall,
                    code: CODE_UNIMPLEMENTED_SYSCALL,
                },
            )
        }
    } else if trace.op == Op::Unimp {
        Some(Outcome { kind: OutcomeKind::IllegalInstruction, code: CODE_ILLEGAL_INSTRUCTION })
    } else {
        None
    }
}

/// One cycle from state `m`: the state that follows and the outcome, if the
/// run ends. Where the four bytes at the program counter do not all lie
/// inside memory, nothing is executed and the run ends with an address
/// overflow.
pub open spec fn step_spec(m: Machine) -> (Machine, Option<Outcome>) {
    if !in_bounds(m.memory, m.pc, 4) {
        (m, Some(address_overflow()))
    } else {
        let inst = decode_spec(read_word(m.memory, m.pc as int));
        let next = execute_spec(m, inst);
        (next, outcome_after(next, trace_spec(m, inst)))
    }
}

/// What one cycle from state `m` fetches and does: the word at the program
/// counter and the trace of the instruction that it decodes to; `None`
/// where the four bytes at the program counter do not all lie inside
/// memory, so that nothing is executed.
pub open spec fn executed_spec(m: Machine) -> Option<Executed> {
    if !in_bounds(m.memory, m.pc, 4) {
        None
    } else {
        let word = read_word(m.memory, m.pc as int);
        Some(Executed { word, trace: trace_spec(m, decode_spec(word)) })
    }
}

/// At most `limit` cycles from state `m`, stopping at the first that ends
/// the run: the state reached and the outcome, `None` where the run has not
/// ended within the limit.
pub open spec fn run_spec(m: Machine, limit: nat) -> (Machine, Option<Outcome>)
    decreases limit,
{
    if limit == 0 {
        (m, None)
    } else {
        let (next, outcome) = step_spec(m);
        if outcome is Some {
            (next, outcome)
        } else {
            run_spec(next, (limit - 1) as nat)
        }
    }
}

} // verus!
