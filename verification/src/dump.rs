//! The register file as text, for tracing.

use vstd::prelude::*;
use vstd::string::StringExecFns;
use crate::cpu::Cpu;
use crate::mnemonic::{hex8, push_hex8, push_register, register_string, register_text};
use crate::semantics::Machine;

verus! {

/// The ABI name of a register, right-aligned in four columns.
pub open spec fn alias_column(index: int) -> Seq<char> {
    if index == 0 {
        "zero"@
    } else if index == 1 {
        "  ra"@
    } else if index == 2 {
        "  sp"@
    } else if index == 3 {
        "  gp"@
    } else if index == 4 {
        "  tp"@
    } else if index == 5 {
        "  t0"@
    } else if index == 6 {
        "  t1"@
    } else if index == 7 {
        "  t2"@
    } else if index == 8 {
        "  s0"@
    } else if index == 9 {
        "  s1"@
    } else if index == 10 {
        "  a0"@
    } else if index == 11 {
        "  a1"@
    } else if index == 12 {
        "  a2"@
    } else if index == 13 {
        "  a3"@
    } else if index == 14 {
        "  a4"@
    } else if index == 15 {
        "  a5"@
    } else if index == 16 {
        "  a6"@
    } else if index == 17 {
        "  a7"@
    } else if index == 18 {
        "  s2"@
    } else if index == 19 {
        "  s3"@
    } else if index == 20 {
        "  s4"@
    } else if index == 21 {
        "  s5"@
    } else if index == 22 {
        "  s6"@
    } else if index == 23 {
        "  s7"@
    } else if index == 24 {
        "  s8"@
    } else if index == 25 {
        "  s9"@
    } else if index == 26 {
        " s10"@
    } else if index == 27 {
        " s11"@
    } else if index == 28 {
        "  t3"@
    } else if index == 29 {
        "  t4"@
    } else if index == 30 {
        "  t5"@
    } else {
        "  t6"@
    }
}

/// The numeric name of a register, right-aligned in three columns.
pub open spec fn index_column(index: int) -> Seq<char> {
    if index < 10 {
        " "@ + register_text(index as usize)
    } else {
        register_text(index as usize)
    }
}

/// One register in the dump: its name, a colon, its value as eight
/// hexadecimal digits and the gap to the next cell. Every fourth cell ends
/// the line.
pub open spec fn register_cell(index: int, value: u32, aliases: bool) -> Seq<char> {
    let named = if aliases {
        alias_column(index) + ": 0x"@ + hex8(value) + "  "@
    } else {
        index_column(index) + ": 0x"@ + hex8(value) + "    "@
    };
    if (index + 1) % 4 == 0 {
        named + "\n"@
    } else {
        named
    }
}

/// The cells of the first `count` registers.
pub open spec fn register_cells(registers: Seq<u32>, aliases: bool, count: nat) -> Seq<char>
    decreases count,
{
    if count == 0 {
        Seq::empty()
    } else {
        register_cells(registers, aliases, (count - 1) as nat) + register_cell(
            count - 1,
            registers[count - 1],
            aliases,
        )
    }
}

/// The dump of a machine's registers: a line with the program counter,
/// then the 32 registers, four to a line, under their ABI names or their
/// numeric names.
pub open spec fn dump_text(m: Machine, aliases: bool) -> Seq<char> {
    " pc: 0x"@ + hex8(m.pc) + "\n"@ + register_cells(m.registers, aliases, 32)
}

/// The ABI name of a register, right-aligned in four columns.
fn alias_str(index: usize) -> (name: &'static str)
    requires
        index < 32,
    ensures
        name@ == alias_column(index as int),
{
    match index {
        0 => "zero",
        1 => "  ra",
        2 => "  sp",
        3 => "  gp",
        4 => "  tp",
        5 => "  t0",
        6 => "  t1",
        7 => "  t2",
        8 => "  s0",
        9 => "  s1",
        10 => "  a0",
        11 => "  a1",
        12 => "  a2",
        13 => "  a3",
        14 => "  a4",
        15 => "  a5",
        16 => "  a6",
        17 => "  a7",
        18 => "  s2",
        19 => "  s3",
        20 => "  s4",
        21 => "  s5",
        22 => "  s6",
        23 => "  s7",
        24 => "  s8",
        25 => "  s9",
        26 => " s10",
        27 => " s11",
        28 => "  t3",
        29 => "  t4",
        30 => "  t5",
        _ => "  t6",
    }
}

/// Joining text is associative.
proof fn lemma_join_associative(a: Seq<char>, b: Seq<char>, c: Seq<char>)
    ensures
        (a + b) + c == a + (b + c),
{
    assert((a + b) + c =~= a + (b + c));
}

/// One register in the dump.
fn cell_string(index: usize, value: u32, aliases: bool) -> (text: String)
    requires
        index < 32,
    ensures
        text@ == register_cell(index as int, value, aliases),
{
    let mut text = if aliases {
        String::from_str(alias_str(index))
    } else if index < 10 {
        let mut name = String::from_str(" ");
        push_register(&mut name, index);
        name
    } else {
        register_string(index)
    };
    text.append(": 0x");
    push_hex8(&mut text, value);
    if aliases {
        text.append("  ");
    } else {
        text.append("    ");
    }
    if (index + 1) % 4 == 0 {
        text.append("\n");
    }
    text
}

impl Cpu {
    /// The registers as text: a line with the program counter, then the 32
    /// registers, four to a line, under their ABI names where `aliases` is
    /// set and under their numeric names where it is not.
    pub fn register_dump(&self, aliases: bool) -> (text: String)
        ensures
            text@ == dump_text(self@, aliases),
    {
        let registers = self.registers();
        let mut text = String::from_str(" pc: 0x");
        push_hex8(&mut text, self.pc());
        text.append("\n");
        let ghost head = text@;
        assert(head + register_cells(self@.registers, aliases, 0) =~= head);
        let mut index: usize = 0;
        while index < 32
            invariant
                index <= 32,
                registers@ == self@.registers,
                registers@.len() == 32,
                text@ == head + register_cells(self@.registers, aliases, index as nat),
            decreases 32 - index,
        {
            let cell = cell_string(index, registers[index], aliases);
            proof {
                lemma_join_associative(
                    head,
                    register_cells(self@.registers, aliases, index as nat),
                    cell@,
                );
            }
            text.append(cell.as_str());
            index += 1;
        }
        text
    }
}

} // verus!
