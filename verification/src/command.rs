//! The commands of the interactive mode: reading a command line, and
//! answering it from the state of the processor.

use vstd::prelude::*;
use vstd::slice::slice_subrange;
use vstd::string::StringExecFns;
use crate::cpu::Cpu;
use crate::mnemonic::{hex8, prefixed_hex, push_hex8, push_prefixed_hex};
use crate::number::{parse_spec, parse_unsigned};
use crate::outcome::{executed_spec, step_spec, Executed, Outcome};
use crate::semantics::{read_word, Machine};

verus! {

/// A command of the interactive mode.
#[derive(Clone, Copy, Debug, PartialEq, Eq, Structural)]
pub enum Command {
    /// The empty line: execute the next instruction.
    Resume,
    /// `mem <address>`: show the word at a hexadecimal address.
    Memory(usize),
    /// `reg <index>`: show the register with a decimal index.
    Register(usize),
    /// `mem` or `reg` without a number that can be read.
    BadArgument,
    /// Any other keyword; the number of bytes that the keyword has.
    Unknown(usize),
}

/// The answer to a command.
#[derive(Clone, Copy, Debug, PartialEq, Eq, Structural)]
pub enum Reply {
    /// Nothing to say.
    Nothing,
    /// The word at the address asked for.
    Word(u32),
    /// The value of the register asked for.
    Value(u32),
    /// The word asked for does not lie inside memory.
    OutOfBounds,
    /// There is no register with the index asked for.
    NoSuchRegister,
    /// The command had no number that could be read.
    BadArgument,
    /// The keyword is not a command.
    Unknown,
}

/// What one line of the interactive mode led to.
#[derive(Clone, Copy, Debug, PartialEq, Eq, Structural)]
pub enum Turn {
    /// The empty line: one cycle was run. What it fetched and did, and the
    /// outcome if the run has ended.
    Stepped { executed: Option<Executed>, outcome: Option<Outcome> },
    /// Any other line: the command that it stands for, and the answer.
    Answered { command: Command, reply: Reply },
}

/// The end of the word that starts at `from`: the index of the first space
/// at or after `from`, or the length of the line.
pub open spec fn word_end(line: Seq<u8>, from: int) -> int
    decreases line.len() - from,
{
    if from < 0 || from >= line.len() || line[from] == 0x20 {
        from
    } else {
        word_end(line, from + 1)
    }
}

/// The first word of a line: the keyword.
pub open spec fn keyword_of(line: Seq<u8>) -> Seq<u8> {
    line.subrange(0, word_end(line, 0))
}

/// The second word of a line, which begins after the first space and may be
/// empty; `None` where the line has no space.
pub open spec fn argument_of(line: Seq<u8>) -> Option<Seq<u8>> {
    let start = word_end(line, 0) + 1;
    if start > line.len() {
        None
    } else {
        Some(line.subrange(start, word_end(line, start)))
    }
}

/// The keyword `mem`.
pub open spec fn keyword_mem() -> Seq<u8> {
    seq![0x6du8, 0x65u8, 0x6du8]
}

/// The keyword `reg`.
pub open spec fn keyword_reg() -> Seq<u8> {
    seq![0x72u8, 0x65u8, 0x67u8]
}

/// The command that a number argument makes: `wrap` of the number that
/// the argument stands for in the base, or a bad argument where there is
/// none.
pub open spec fn numbered(argument: Option<Seq<u8>>, hex: bool, memory: bool) -> Command {
    match argument {
        Some(text) => match parse_spec(text, hex, usize::MAX as int) {
            Some(value) => if memory {
                Command::Memory(value as usize)
            } else {
                Command::Register(value as usize)
            },
            None => Command::BadArgument,
        },
        None => Command::BadArgument,
    }
}

/// The command that a line stands for. The words of a line are separated
/// by single spaces; the first is the keyword and the second its argument:
/// a hexadecimal address for `mem`, a decimal index for `reg`.
pub open spec fn command_spec(line: Seq<u8>) -> Command {
    if line.len() == 0 {
        Command::Resume
    } else if keyword_of(line) == keyword_mem() {
        numbered(argument_of(line), true, true)
    } else if keyword_of(line) == keyword_reg() {
        numbered(argument_of(line), false, false)
    } else {
        Command::Unknown(keyword_of(line).len() as usize)
    }
}

/// The answer that a machine in state `m` gives to a command.
pub open spec fn reply_spec(m: Machine, command: Command) -> Reply {
    match command {
        Command::Resume => Reply::Nothing,
        Command::Memory(addr) => if addr + 4 <= m.memory.len() {
            Reply::Word(read_word(m.memory, addr as int))
        } else {
            Reply::OutOfBounds
        },
        Command::Register(index) => if index < 32 {
            Reply::Value(m.registers[index as int])
        } else {
            Reply::NoSuchRegister
        },
        Command::BadArgument => Reply::BadArgument,
        Command::Unknown(_) => Reply::Unknown,
    }
}

/// One turn of the interactive mode on a machine in state `m`: the empty
/// line runs one cycle; any other line is answered and leaves the state as
/// it was, so that it executes no instruction.
pub open spec fn turn_spec(m: Machine, line: Seq<u8>) -> (Machine, Turn) {
    let command = command_spec(line);
    if command == Command::Resume {
        (step_spec(m).0, Turn::Stepped { executed: executed_spec(m), outcome: step_spec(m).1 })
    } else {
        (m, Turn::Answered { command, reply: reply_spec(m, command) })
    }
}

/// The answer as the interactive mode shows it.
pub open spec fn reply_text(reply: Reply) -> Seq<char> {
    match reply {
        Reply::Nothing => ""@,
        Reply::Word(word) => "0x"@ + hex8(word),
        Reply::Value(value) => prefixed_hex(value),
        Reply::OutOfBounds => "bad argument: memory out of bounds"@,
        Reply::NoSuchRegister => "bad argument: no such register"@,
        Reply::BadArgument => "bad argument: not a number"@,
        Reply::Unknown => "Unknown command"@,
    }
}

/// The index of the first space at or after `from`, or the length of the
/// line.
fn find_word_end(line: &[u8], from: usize) -> (end: usize)
    requires
        from <= line@.len(),
    ensures
        end == word_end(line@, from as int),
        from <= end <= line@.len(),
{
    let mut end: usize = from;
    while end < line.len() && line[end] != 0x20
        invariant
            from <= end <= line@.len(),
            word_end(line@, from as int) == word_end(line@, end as int),
        decreases line@.len() - end,
    {
        end += 1;
    }
    end
}

/// Whether the first `end` bytes of `line` are the three bytes given.
fn keyword_is(line: &[u8], end: usize, first: u8, second: u8, third: u8) -> (same: bool)
    requires
        end <= line@.len(),
    ensures
        same == (line@.subrange(0, end as int) == seq![first, second, third]),
{
    let same = end == 3 && line[0] == first && line[1] == second && line[2] == third;
    proof {
        let word = line@.subrange(0, end as int);
        let keyword = seq![first, second, third];
        if same {
            assert(word =~= keyword);
        } else if end == 3 {
            assert(word[0] == line@[0] && word[1] == line@[1] && word[2] == line@[2]);
            assert(keyword[0] == first && keyword[1] == second && keyword[2] == third);
        } else {
            assert(word.len() != keyword.len());
        }
    }
    same
}

/// Reads the number argument of a line whose keyword ends at `end`.
fn read_argument(line: &[u8], end: usize, hex: bool, memory: bool) -> (command: Command)
    requires
        end == word_end(line@, 0),
        end <= line@.len(),
    ensures
        command == numbered(argument_of(line@), hex, memory),
{
    if end >= line.len() {
        return Command::BadArgument;
    }
    let start: usize = end + 1;
    let stop: usize = find_word_end(line, start);
    let argument = slice_subrange(line, start, stop);
    match parse_unsigned(argument, hex, usize::MAX as u64) {
        Some(value) => if memory {
            Command::Memory(value as usize)
        } else {
            Command::Register(value as usize)
        },
        None => Command::BadArgument,
    }
}

/// Reads a command line.
pub fn parse_command(line: &[u8]) -> (command: Command)
    ensures
        command == command_spec(line@),
{
    if line.len() == 0 {
        return Command::Resume;
    }
    let end: usize = find_word_end(line, 0);
    if keyword_is(line, end, 0x6d, 0x65, 0x6d) {
        read_argument(line, end, true, true)
    } else if keyword_is(line, end, 0x72, 0x65, 0x67) {
        read_argument(line, end, false, false)
    } else {
        Command::Unknown(end)
    }
}

impl Cpu {
    /// Takes one line of the interactive mode: runs one cycle on the empty
    /// line, and answers any other line without touching the state.
    pub fn interact(&mut self, line: &[u8]) -> (turn: Turn)
        ensures
            (final(self)@, turn) == turn_spec(old(self)@, line@),
    {
        let command = parse_command(line);
        match command {
            Command::Resume => {
                let (executed, outcome) = self.step_traced();
                Turn::Stepped { executed, outcome }
            },
            _ => {
                let reply = self.answer(&command);
                Turn::Answered { command, reply }
            },
        }
    }

    /// Answers a command of the interactive mode from the state of the
    /// processor, which it leaves alone.
    pub fn answer(&self, command: &Command) -> (reply: Reply)
        ensures
            reply == reply_spec(self@, *command),
    {
        match *command {
            Command::Resume => Reply::Nothing,
            Command::Memory(addr) => {
                let memory = self.memory();
                if memory.len() >= 4 && addr <= memory.len() - 4 {
                    Reply::Word(
                        memory[addr] as u32 | (memory[addr + 1] as u32) << 8 | (memory[addr
                            + 2] as u32) << 16 | (memory[addr + 3] as u32) << 24,
                    )
                } else {
                    Reply::OutOfBounds
                }
            },
            Command::Register(index) => {
                if index < 32 {
                    Reply::Value(self.registers()[index])
                } else {
                    Reply::NoSuchRegister
                }
            },
            Command::BadArgument => Reply::BadArgument,
            Command::Unknown(_) => Reply::Unknown,
        }
    }
}

impl Reply {
    /// The answer as the interactive mode shows it.
    pub fn text(&self) -> (text: String)
        ensures
            text@ == reply_text(*self),
    {
        match *self {
            Reply::Nothing => String::from_str(""),
            Reply::Word(word) => {
                let mut text = String::from_str("0x");
                push_hex8(&mut text, word);
                text
            },
            Reply::Value(value) => {
                let mut text = String::new();
                push_prefixed_hex(&mut text, value);
                assert(text@ =~= prefixed_hex(value));
                text
            },
            Reply::OutOfBounds => String::from_str("bad argument: memory out of bounds"),
            Reply::NoSuchRegister => String::from_str("bad argument: no such register"),
            Reply::BadArgument => String::from_str("bad argument: not a number"),
            Reply::Unknown => String::from_str("Unknown command"),
        }
    }
}

} // verus!
