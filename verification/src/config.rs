//! The options of a run, and what they ask of the processor before it
//! starts.

use vstd::prelude::*;
use vstd::utf8::encode_utf8;
use crate::bits::wrap32;
use crate::cpu::Cpu;
use crate::number::{parse_spec, parse_unsigned};
use crate::outcome::REG_SP;
use crate::semantics::Machine;

verus! {

/// The size of memory where none is asked for, in KiB.
pub const DEFAULT_MEMORY_KIB: usize = 16;

/// The options of a run.
#[derive(Clone, Debug)]
pub struct Args {
    /// Print instructions as they are executed.
    pub debug: bool,
    /// Show the registers after each instruction.
    pub registers: bool,
    /// Show registers under their ABI names.
    pub aliases: bool,
    /// Wait for a command before each instruction.
    pub interactive: bool,
    /// An entry point, in hexadecimal, to use in place of the file's.
    pub pc: Option<String>,
    /// Give the program all of memory as its stack.
    pub stack: bool,
    /// The size of memory in KiB, in decimal.
    pub mem: Option<String>,
}

/// The entry point that the options ask for: the value of the `pc` option
/// where it is a hexadecimal number of at most 32 bits, else none.
pub open spec fn entry_override_spec(args: Args) -> Option<u32> {
    match args.pc {
        Some(text) => match parse_spec(encode_utf8(text@), true, u32::MAX as int) {
            Some(value) => Some(value as u32),
            None => None,
        },
        None => None,
    }
}

/// The size of memory that the options ask for, in KiB: the value of the
/// `mem` option where it is a decimal number that fits in `usize`, else the
/// default.
pub open spec fn memory_kib_spec(args: Args) -> usize {
    match args.mem {
        Some(text) => match parse_spec(encode_utf8(text@), false, usize::MAX as int) {
            Some(value) => value as usize,
            None => DEFAULT_MEMORY_KIB,
        },
        None => DEFAULT_MEMORY_KIB,
    }
}

/// The state of a machine once the options have been applied: the entry
/// point is overridden where the options give one, then the stack pointer
/// is set to the last byte of memory where the options ask for it and
/// memory is not empty.
pub open spec fn configured(m: Machine, args: Args) -> Machine {
    let entered = match entry_override_spec(args) {
        Some(pc) => m.jump(pc),
        None => m,
    };
    if args.stack && m.memory.len() > 0 {
        entered.write_reg(REG_SP, wrap32(m.memory.len() - 1))
    } else {
        entered
    }
}

impl Args {
    /// The entry point that the options ask for, if any.
    pub fn entry_override(&self) -> (pc: Option<u32>)
        ensures
            pc == entry_override_spec(*self),
    {
        match &self.pc {
            Some(text) => match parse_unsigned(text.as_str().as_bytes(), true, 0xffff_ffff) {
                Some(value) => Some(value as u32),
                None => None,
            },
            None => None,
        }
    }

    /// The size of memory that the options ask for, in KiB.
    pub fn memory_kib(&self) -> (kib: usize)
        ensures
            kib == memory_kib_spec(*self),
    {
        match &self.mem {
            Some(text) => match parse_unsigned(
                text.as_str().as_bytes(),
                false,
                usize::MAX as u64,
            ) {
                Some(value) => value as usize,
                None => DEFAULT_MEMORY_KIB,
            },
            None => DEFAULT_MEMORY_KIB,
        }
    }

    /// The size of memory that the options ask for, in bytes; `None` where
    /// that many bytes cannot be counted in `usize`.
    pub fn memory_bytes(&self) -> (bytes: Option<usize>)
        ensures
            bytes == if memory_kib_spec(*self) * 1024 <= usize::MAX {
                Some((memory_kib_spec(*self) * 1024) as usize)
            } else {
                None
            },
    {
        let kib: usize = self.memory_kib();
        if kib > usize::MAX / 1024 {
            None
        } else {
            Some(kib * 1024)
        }
    }
}

impl Cpu {
    /// Applies the options of a run to a loaded processor: overrides the
    /// entry point and sets up the stack, each where the options ask for
    /// it.
    pub fn configure(&mut self, args: &Args)
        ensures
            final(self)@ == configured(old(self)@, *args),
    {
        match args.entry_override() {
            Some(pc) => {
                self.set_pc(pc);
            },
            None => {},
        }
        if args.stack {
            self.set_stack_top();
        }
    }
}

} // verus!
