//! The text of an executed instruction, for tracing: the mnemonic and its
//! operands as an assembler listing shows them.
//!
//! Immediates are shown signed, but for `sltiu`, `lbu` and `lhu`, which
//! show the 32 bits of the sign-extended immediate as an unsigned number,
//! and for the CSR instructions, which show them in hexadecimal. `jal` shows
//! its displacement, a branch its destination.

use vstd::prelude::*;
use vstd::string::StringExecFns;
use crate::instruction::{InstTypeData, Op};
use crate::semantics::Trace;

verus! {

/// The mnemonic of an operation.
pub open spec fn op_name(op: Op) -> Seq<char> {
    match op {
        Op::Add => "add"@,
        Op::Sub => "sub"@,
        Op::Xor => "xor"@,
        Op::Or => "or"@,
        Op::And => "and"@,
        Op::Sll => "sll"@,
        Op::Srl => "srl"@,
        Op::Sra => "sra"@,
        Op::Slt => "slt"@,
        Op::Sltu => "sltu"@,
        Op::Addi => "addi"@,
        Op::Nop => "nop"@,
        Op::Xori => "xori"@,
        Op::Ori => "ori"@,
        Op::Andi => "andi"@,
        Op::Slti => "slti"@,
        Op::Sltiu => "sltiu"@,
        Op::Slli => "slli"@,
        Op::Srli => "srli"@,
        Op::Srai => "srai"@,
        Op::Lb => "lb"@,
        Op::Lh => "lh"@,
        Op::Lw => "lw"@,
        Op::Lbu => "lbu"@,
        Op::Lhu => "lhu"@,
        Op::Sb => "sb"@,
        Op::Sh => "sh"@,
        Op::Sw => "sw"@,
        Op::Beq => "beq"@,
        Op::Bne => "bne"@,
        Op::Blt => "blt"@,
        Op::Bge => "bge"@,
        Op::Bltu => "bltu"@,
        Op::Bgeu => "bgeu"@,
        Op::Jal => "jal"@,
        Op::Jalr => "jalr"@,
        Op::Lui => "lui"@,
        Op::Auipc => "auipc"@,
        Op::Ecall => "ecall"@,
        Op::Ebreak => "ebreak"@,
        Op::Mret => "mret"@,
        Op::Csrrw => "csrrw"@,
        Op::Csrrs => "csrrs"@,
        Op::Csrrc => "csrrc"@,
        Op::Csrrwi => "csrrwi"@,
        Op::Csrrsi => "csrrsi"@,
        Op::Csrrci => "csrrci"@,
        Op::Fence => "fence"@,
        Op::Unimp => "unimp"@,
    }
}

/// The mnemonic of an operation, padded with spaces to the eight columns
/// that precede the operands.
pub open spec fn op_column(op: Op) -> Seq<char> {
    match op {
        Op::Add => "add     "@,
        Op::Sub => "sub     "@,
        Op::Xor => "xor     "@,
        Op::Or => "or      "@,
        Op::And => "and     "@,
        Op::Sll => "sll     "@,
        Op::Srl => "srl     "@,
        Op::Sra => "sra     "@,
        Op::Slt => "slt     "@,
        Op::Sltu => "sltu    "@,
        Op::Addi => "addi    "@,
        Op::Nop => "nop     "@,
        Op::Xori => "xori    "@,
        Op::Ori => "ori     "@,
        Op::Andi => "andi    "@,
        Op::Slti => "slti    "@,
        Op::Sltiu => "sltiu   "@,
        Op::Slli => "slli    "@,
        Op::Srli => "srli    "@,
        Op::Srai => "srai    "@,
        Op::Lb => "lb      "@,
        Op::Lh => "lh      "@,
        Op::Lw => "lw      "@,
        Op::Lbu => "lbu     "@,
        Op::Lhu => "lhu     "@,
        Op::Sb => "sb      "@,
        Op::Sh => "sh      "@,
        Op::Sw => "sw      "@,
        Op::Beq => "beq     "@,
        Op::Bne => "bne     "@,
        Op::Blt => "blt     "@,
        Op::Bge => "bge     "@,
        Op::Bltu => "bltu    "@,
        Op::Bgeu => "bgeu    "@,
        Op::Jal => "jal     "@,
        Op::Jalr => "jalr    "@,
        Op::Lui => "lui     "@,
        Op::Auipc => "auipc   "@,
        Op::Ecall => "ecall   "@,
        Op::Ebreak => "ebreak  "@,
        Op::Mret => "mret    "@,
        Op::Csrrw => "csrrw   "@,
        Op::Csrrs => "csrrs   "@,
        Op::Csrrc => "csrrc   "@,
        Op::Csrrwi => "csrrwi  "@,
        Op::Csrrsi => "csrrsi  "@,
        Op::Csrrci => "csrrci  "@,
        Op::Fence => "fence   "@,
        Op::Unimp => "unimp   "@,
    }
}

/// The text of one digit below 16.
pub open spec fn digit_text(digit: int) -> Seq<char> {
    if digit == 0 {
        "0"@
    } else if digit == 1 {
        "1"@
    } else if digit == 2 {
        "2"@
    } else if digit == 3 {
        "3"@
    } else if digit == 4 {
        "4"@
    } else if digit == 5 {
        "5"@
    } else if digit == 6 {
        "6"@
    } else if digit == 7 {
        "7"@
    } else if digit == 8 {
        "8"@
    } else if digit == 9 {
        "9"@
    } else if digit == 10 {
        "a"@
    } else if digit == 11 {
        "b"@
    } else if digit == 12 {
        "c"@
    } else if digit == 13 {
        "d"@
    } else if digit == 14 {
        "e"@
    } else {
        "f"@
    }
}

/// A number in decimal, most significant digit first, without leading
/// zeros; one digit for zero.
pub open spec fn decimal(value: nat) -> Seq<char>
    decreases value,
{
    if value < 10 {
        digit_text(value as int)
    } else {
        decimal(value / 10) + digit_text((value % 10) as int)
    }
}

/// A number in hexadecimal, most significant digit first, without leading
/// zeros; one digit for zero.
pub open spec fn hexadecimal(value: nat) -> Seq<char>
    decreases value,
{
    if value < 16 {
        digit_text(value as int)
    } else {
        hexadecimal(value / 16) + digit_text((value % 16) as int)
    }
}

/// A 32-bit pattern read as a signed number, in decimal.
pub open spec fn signed_decimal(value: u32) -> Seq<char> {
    if value < 0x8000_0000 {
        decimal(value as nat)
    } else {
        "-"@ + decimal((0x1_0000_0000 - value) as nat)
    }
}

/// A number in hexadecimal with the prefix `0x`.
pub open spec fn prefixed_hex(value: u32) -> Seq<char> {
    "0x"@ + hexadecimal(value as nat)
}

/// The eight hexadecimal digits of a 32-bit pattern.
pub open spec fn hex8(value: u32) -> Seq<char> {
    let v = value as int;
    digit_text((v / 0x1000_0000) % 16) + digit_text((v / 0x100_0000) % 16) + digit_text(
        (v / 0x10_0000) % 16,
    ) + digit_text((v / 0x1_0000) % 16) + digit_text((v / 0x1000) % 16) + digit_text(
        (v / 0x100) % 16,
    ) + digit_text((v / 0x10) % 16) + digit_text(v % 16)
}

/// The name of a register: `x` and its index.
pub open spec fn register_text(index: usize) -> Seq<char> {
    "x"@ + decimal(index as nat)
}

/// How the operands of an operation are written.
#[derive(Clone, Copy, Debug, PartialEq, Eq, Structural)]
pub enum Operands {
    /// No operands: the mnemonic stands alone.
    Bare,
    /// `rd,rs1,rs2`
    Registers,
    /// `rd,rs1,imm` with a signed decimal immediate
    Immediate,
    /// `rd,rs1,imm` with the immediate's 32 bits as an unsigned decimal
    ImmediateUnsigned,
    /// `rd,rs1,shamt` with the shift amount in hexadecimal
    Shift,
    /// `rd,imm(rs1)` with a signed decimal displacement
    Load,
    /// `rd,imm(rs1)` with the displacement's 32 bits as an unsigned decimal
    LoadUnsigned,
    /// `rs2,imm(rs1)`
    Store,
    /// `rs1,rs2,target` with the destination as eight hexadecimal digits
    Branch,
    /// `rd,imm` with the displacement as eight hexadecimal digits
    Jump,
    /// `rd,rs1,imm` with the displacement in hexadecimal
    JumpRegister,
    /// `rd,imm` with the 20-bit field of the immediate in hexadecimal
    Upper,
    /// `rd,imm,rs1` with the immediate's 32 bits in hexadecimal
    Csr,
    /// `rd,imm,uimm` with the immediate's 32 bits in hexadecimal
    CsrImmediate,
}

/// How the operands of `op` are written.
pub open spec fn operands_of(op: Op) -> Operands {
    match op {
        Op::Add | Op::Sub | Op::Xor | Op::Or | Op::And | Op::Sll | Op::Srl | Op::Sra | Op::Slt
        | Op::Sltu => Operands::Registers,
        Op::Addi | Op::Xori | Op::Ori | Op::Andi | Op::Slti => Operands::Immediate,
        Op::Sltiu => Operands::ImmediateUnsigned,
        Op::Slli | Op::Srli | Op::Srai => Operands::Shift,
        Op::Lb | Op::Lh | Op::Lw => Operands::Load,
        Op::Lbu | Op::Lhu => Operands::LoadUnsigned,
        Op::Sb | Op::Sh | Op::Sw => Operands::Store,
        Op::Beq | Op::Bne | Op::Blt | Op::Bge | Op::Bltu | Op::Bgeu => Operands::Branch,
        Op::Jal => Operands::Jump,
        Op::Jalr => Operands::JumpRegister,
        Op::Lui | Op::Auipc => Operands::Upper,
        Op::Csrrw | Op::Csrrs | Op::Csrrc => Operands::Csr,
        Op::Csrrwi | Op::Csrrsi | Op::Csrrci => Operands::CsrImmediate,
        Op::Nop | Op::Ecall | Op::Ebreak | Op::Mret | Op::Fence | Op::Unimp => Operands::Bare,
    }
}

/// The operands of a traced instruction as a listing shows them, or `None`
/// where the operation takes none or the instruction does not hold the
/// fields that the operation needs.
pub open spec fn operands_text(trace: Trace) -> Option<Seq<char>> {
    match (operands_of(trace.op), trace.inst.type_data) {
        (Operands::Registers, InstTypeData::R { rd, rs1, rs2, .. }) => Some(
            register_text(rd) + ","@ + register_text(rs1) + ","@ + register_text(rs2),
        ),
        (Operands::Immediate, InstTypeData::I { rd, rs1, imm, .. }) => Some(
            register_text(rd) + ","@ + register_text(rs1) + ","@ + signed_decimal(imm),
        ),
        (Operands::ImmediateUnsigned, InstTypeData::I { rd, rs1, imm, .. }) => Some(
            register_text(rd) + ","@ + register_text(rs1) + ","@ + decimal(imm as nat),
        ),
        (Operands::Shift, InstTypeData::I { rd, rs1, imm, .. }) => Some(
            register_text(rd) + ","@ + register_text(rs1) + ","@ + prefixed_hex(imm & 0x1f),
        ),
        (Operands::Load, InstTypeData::I { rd, rs1, imm, .. }) => Some(
            register_text(rd) + ","@ + signed_decimal(imm) + "("@ + register_text(rs1) + ")"@,
        ),
        (Operands::LoadUnsigned, InstTypeData::I { rd, rs1, imm, .. }) => Some(
            register_text(rd) + ","@ + decimal(imm as nat) + "("@ + register_text(rs1) + ")"@,
        ),
        (Operands::Store, InstTypeData::S { imm, rs1, rs2, .. }) => Some(
            register_text(rs2) + ","@ + signed_decimal(imm) + "("@ + register_text(rs1) + ")"@,
        ),
        (Operands::Branch, InstTypeData::B { rs1, rs2, .. }) => match trace.address {
            Some(target) => Some(
                register_text(rs1) + ","@ + register_text(rs2) + ","@ + hex8(target),
            ),
            None => None,
        },
        (Operands::Jump, InstTypeData::J { rd, imm }) => Some(
            register_text(rd) + ","@ + hex8(imm),
        ),
        (Operands::JumpRegister, InstTypeData::I { rd, rs1, imm, .. }) => Some(
            register_text(rd) + ","@ + register_text(rs1) + ","@ + prefixed_hex(imm),
        ),
        (Operands::Upper, InstTypeData::U { rd, imm }) => Some(
            register_text(rd) + ","@ + prefixed_hex(imm >> 12),
        ),
        (Operands::Csr, InstTypeData::I { rd, rs1, imm, .. }) => Some(
            register_text(rd) + ","@ + prefixed_hex(imm) + ","@ + register_text(rs1),
        ),
        (Operands::CsrImmediate, InstTypeData::I { rd, rs1, imm, .. }) => Some(
            register_text(rd) + ","@ + prefixed_hex(imm) + ","@ + decimal(rs1 as nat),
        ),
        _ => None,
    }
}

/// The text of a traced instruction: the mnemonic alone, or the mnemonic in
/// its eight columns followed by the operands.
pub open spec fn mnemonic_text(trace: Trace) -> Seq<char> {
    match operands_text(trace) {
        Some(operands) => op_column(trace.op) + operands,
        None => op_name(trace.op),
    }
}

/// The text of one digit below 16.
pub(crate) fn digit_str(digit: u32) -> (text: &'static str)
    requires
        digit < 16,
    ensures
        text@ == digit_text(digit as int),
{
    match digit {
        0 => "0",
        1 => "1",
        2 => "2",
        3 => "3",
        4 => "4",
        5 => "5",
        6 => "6",
        7 => "7",
        8 => "8",
        9 => "9",
        10 => "a",
        11 => "b",
        12 => "c",
        13 => "d",
        14 => "e",
        _ => "f",
    }
}

/// Appends a number in decimal.
pub(crate) fn push_decimal(text: &mut String, value: u64)
    ensures
        final(text)@ == old(text)@ + decimal(value as nat),
    decreases value,
{
    if value < 10 {
        text.append(digit_str(value as u32));
    } else {
        push_decimal(text, value / 10);
        text.append(digit_str((value % 10) as u32));
        assert(text@ =~= old(text)@ + decimal(value as nat));
    }
}

/// Appends a number in hexadecimal.
pub(crate) fn push_hexadecimal(text: &mut String, value: u32)
    ensures
        final(text)@ == old(text)@ + hexadecimal(value as nat),
    decreases value,
{
    if value < 16 {
        text.append(digit_str(value));
    } else {
        push_hexadecimal(text, value / 16);
        text.append(digit_str(value % 16));
        assert(text@ =~= old(text)@ + hexadecimal(value as nat));
    }
}

/// Appends a 32-bit pattern read as a signed number, in decimal.
pub(crate) fn push_signed(text: &mut String, value: u32)
    ensures
        final(text)@ == old(text)@ + signed_decimal(value),
{
    if value < 0x8000_0000 {
        push_decimal(text, value as u64);
    } else {
        text.append("-");
        push_decimal(text, (0xffff_ffff - value) as u64 + 1);
        assert(text@ =~= old(text)@ + signed_decimal(value));
    }
}

/// Appends a number in hexadecimal with the prefix `0x`.
pub(crate) fn push_prefixed_hex(text: &mut String, value: u32)
    ensures
        final(text)@ == old(text)@ + prefixed_hex(value),
{
    text.append("0x");
    push_hexadecimal(text, value);
    assert(text@ =~= old(text)@ + prefixed_hex(value));
}

/// Appends the eight hexadecimal digits of a 32-bit pattern.
pub(crate) fn push_hex8(text: &mut String, value: u32)
    ensures
        final(text)@ == old(text)@ + hex8(value),
{
    text.append(digit_str((value / 0x1000_0000) % 16));
    text.append(digit_str((value / 0x100_0000) % 16));
    text.append(digit_str((value / 0x10_0000) % 16));
    text.append(digit_str((value / 0x1_0000) % 16));
    text.append(digit_str((value / 0x1000) % 16));
    text.append(digit_str((value / 0x100) % 16));
    text.append(digit_str((value / 0x10) % 16));
    text.append(digit_str(value % 16));
    assert(text@ =~= old(text)@ + hex8(value));
}

/// Appends the name of a register.
pub(crate) fn push_register(text: &mut String, index: usize)
    ensures
        final(text)@ == old(text)@ + register_text(index),
{
    text.append("x");
    push_decimal(text, index as u64);
    assert(text@ =~= old(text)@ + register_text(index));
}

/// The name of a register as a string of its own.
pub(crate) fn register_string(index: usize) -> (text: String)
    ensures
        text@ == register_text(index),
{
    let mut text = String::from_str("x");
    push_decimal(&mut text, index as u64);
    text
}

/// `first,second,`
fn two_registers(first: usize, second: usize) -> (text: String)
    ensures
        text@ == register_text(first) + ","@ + register_text(second) + ","@,
{
    let mut text = register_string(first);
    text.append(",");
    push_register(&mut text, second);
    text.append(",");
    text
}

/// `register,displacement(base)` with a signed displacement
fn memory_operands(register: usize, imm: u32, base: usize) -> (text: String)
    ensures
        text@ == register_text(register) + ","@ + signed_decimal(imm) + "("@ + register_text(base)
            + ")"@,
{
    let mut text = register_string(register);
    text.append(",");
    push_signed(&mut text, imm);
    text.append("(");
    push_register(&mut text, base);
    text.append(")");
    text
}

/// `register,displacement(base)` with an unsigned displacement
fn memory_operands_unsigned(register: usize, imm: u32, base: usize) -> (text: String)
    ensures
        text@ == register_text(register) + ","@ + decimal(imm as nat) + "("@ + register_text(base)
            + ")"@,
{
    let mut text = register_string(register);
    text.append(",");
    push_decimal(&mut text, imm as u64);
    text.append("(");
    push_register(&mut text, base);
    text.append(")");
    text
}

/// `rd,imm,` for the CSR instructions.
fn csr_operands(rd: usize, imm: u32) -> (text: String)
    ensures
        text@ == register_text(rd) + ","@ + prefixed_hex(imm) + ","@,
{
    let mut text = register_string(rd);
    text.append(",");
    push_prefixed_hex(&mut text, imm);
    text.append(",");
    text
}

impl Trace {
    /// The operands of this traced instruction as a listing shows them, or
    /// `None` where the operation takes none or the instruction does not
    /// hold the fields that the operation needs.
    pub fn operands(&self) -> (text: Option<String>)
        ensures
            text is Some == operands_text(*self) is Some,
            text matches Some(operands) ==> operands_text(*self) == Some(operands@),
    {
        match (self.op.operands(), self.inst.type_data) {
            (Operands::Registers, InstTypeData::R { rd, rs1, rs2, .. }) => {
                let mut text = two_registers(rd, rs1);
                push_register(&mut text, rs2);
                Some(text)
            },
            (Operands::Immediate, InstTypeData::I { rd, rs1, imm, .. }) => {
                let mut text = two_registers(rd, rs1);
                push_signed(&mut text, imm);
                Some(text)
            },
            (Operands::ImmediateUnsigned, InstTypeData::I { rd, rs1, imm, .. }) => {
                let mut text = two_registers(rd, rs1);
                push_decimal(&mut text, imm as u64);
                Some(text)
            },
            (Operands::Shift, InstTypeData::I { rd, rs1, imm, .. }) => {
                let mut text = two_registers(rd, rs1);
                push_prefixed_hex(&mut text, imm & 0x1f);
                Some(text)
            },
            (Operands::Load, InstTypeData::I { rd, rs1, imm, .. }) => Some(
                memory_operands(rd, imm, rs1),
            ),
            (Operands::LoadUnsigned, InstTypeData::I { rd, rs1, imm, .. }) => Some(
                memory_operands_unsigned(rd, imm, rs1),
            ),
            (Operands::Store, InstTypeData::S { imm, rs1, rs2, .. }) => Some(
                memory_operands(rs2, imm, rs1),
            ),
            (Operands::Branch, InstTypeData::B { rs1, rs2, .. }) => {
                match self.address {
                    Some(target) => {
                        let mut text = two_registers(rs1, rs2);
                        push_hex8(&mut text, target);
                        Some(text)
                    },
                    None => None,
                }
            },
            (Operands::Jump, InstTypeData::J { rd, imm }) => {
                let mut text = register_string(rd);
                text.append(",");
                push_hex8(&mut text, imm);
                Some(text)
            },
            (Operands::JumpRegister, InstTypeData::I { rd, rs1, imm, .. }) => {
                let mut text = two_registers(rd, rs1);
                push_prefixed_hex(&mut text, imm);
                Some(text)
            },
            (Operands::Upper, InstTypeData::U { rd, imm }) => {
                let mut text = register_string(rd);
                text.append(",");
                push_prefixed_hex(&mut text, imm >> 12);
                Some(text)
            },
            (Operands::Csr, InstTypeData::I { rd, rs1, imm, .. }) => {
                let mut text = csr_operands(rd, imm);
                push_register(&mut text, rs1);
                Some(text)
            },
            (Operands::CsrImmediate, InstTypeData::I { rd, rs1, imm, .. }) => {
                let mut text = csr_operands(rd, imm);
                push_decimal(&mut text, rs1 as u64);
                Some(text)
            },
            _ => None,
        }
    }

    /// The text of this traced instruction: the mnemonic alone, or the
    /// mnemonic in its eight columns followed by the operands.
    pub fn mnemonic(&self) -> (text: String)
        ensures
            text@ == mnemonic_text(*self),
    {
        match self.operands() {
            Some(operands) => String::from_str(self.op.column()).concat(operands.as_str()),
            None => String::from_str(self.op.name()),
        }
    }
}

impl Op {
    /// The mnemonic of this operation.
    pub fn name(&self) -> (name: &'static str)
        ensures
            name@ == op_name(*self),
    {
        match self {
            Op::Add => "add",
            Op::Sub => "sub",
            Op::Xor => "xor",
            Op::Or => "or",
            Op::And => "and",
            Op::Sll => "sll",
            Op::Srl => "srl",
            Op::Sra => "sra",
            Op::Slt => "slt",
            Op::Sltu => "sltu",
            Op::Addi => "addi",
            Op::Nop => "nop",
            Op::Xori => "xori",
            Op::Ori => "ori",
            Op::Andi => "andi",
            Op::Slti => "slti",
            Op::Sltiu => "sltiu",
            Op::Slli => "slli",
            Op::Srli => "srli",
            Op::Srai => "srai",
            Op::Lb => "lb",
            Op::Lh => "lh",
            Op::Lw => "lw",
            Op::Lbu => "lbu",
            Op::Lhu => "lhu",
            Op::Sb => "sb",
            Op::Sh => "sh",
            Op::Sw => "sw",
            Op::Beq => "beq",
            Op::Bne => "bne",
            Op::Blt => "blt",
            Op::Bge => "bge",
            Op::Bltu => "bltu",
            Op::Bgeu => "bgeu",
            Op::Jal => "jal",
            Op::Jalr => "jalr",
            Op::Lui => "lui",
            Op::Auipc => "auipc",
            Op::Ecall => "ecall",
            Op::Ebreak => "ebreak",
            Op::Mret => "mret",
            Op::Csrrw => "csrrw",
            Op::Csrrs => "csrrs",
            Op::Csrrc => "csrrc",
            Op::Csrrwi => "csrrwi",
            Op::Csrrsi => "csrrsi",
            Op::Csrrci => "csrrci",
            Op::Fence => "fence",
            Op::Unimp => "unimp",
        }
    }

    /// The mnemonic of this operation, padded with spaces to the eight
    /// columns that precede the operands.
    pub fn column(&self) -> (name: &'static str)
        ensures
            name@ == op_column(*self),
    {
        match self {
            Op::Add => "add     ",
            Op::Sub => "sub     ",
            Op::Xor => "xor     ",
            Op::Or => "or      ",
            Op::And => "and     ",
            Op::Sll => "sll     ",
            Op::Srl => "srl     ",
            Op::Sra => "sra     ",
            Op::Slt => "slt     ",
            Op::Sltu => "sltu    ",
            Op::Addi => "addi    ",
            Op::Nop => "nop     ",
            Op::Xori => "xori    ",
            Op::Ori => "ori     ",
            Op::Andi => "andi    ",
            Op::Slti => "slti    ",
            Op::Sltiu => "sltiu   ",
            Op::Slli => "slli    ",
            Op::Srli => "srli    ",
            Op::Srai => "srai    ",
            Op::Lb => "lb      ",
            Op::Lh => "lh      ",
            Op::Lw => "lw      ",
            Op::Lbu => "lbu     ",
            Op::Lhu => "lhu     ",
            Op::Sb => "sb      ",
            Op::Sh => "sh      ",
            Op::Sw => "sw      ",
            Op::Beq => "beq     ",
            Op::Bne => "bne     ",
            Op::Blt => "blt     ",
            Op::Bge => "bge     ",
            Op::Bltu => "bltu    ",
            Op::Bgeu => "bgeu    ",
            Op::Jal => "jal     ",
            Op::Jalr => "jalr    ",
            Op::Lui => "lui     ",
            Op::Auipc => "auipc   ",
            Op::Ecall => "ecall   ",
            Op::Ebreak => "ebreak  ",
            Op::Mret => "mret    ",
            Op::Csrrw => "csrrw   ",
            Op::Csrrs => "csrrs   ",
            Op::Csrrc => "csrrc   ",
            Op::Csrrwi => "csrrwi  ",
            Op::Csrrsi => "csrrsi  ",
            Op::Csrrci => "csrrci  ",
            Op::Fence => "fence   ",
            Op::Unimp => "unimp   ",
        }
    }

    /// How the operands of this operation are written.
    pub fn operands(&self) -> (operands: Operands)
        ensures
            operands == operands_of(*self),
    {
        match self {
            Op::Add | Op::Sub | Op::Xor | Op::Or | Op::And | Op::Sll | Op::Srl | Op::Sra | Op::Slt
            | Op::Sltu => Operands::Registers,
            Op::Addi | Op::Xori | Op::Ori | Op::Andi | Op::Slti => Operands::Immediate,
            Op::Sltiu => Operands::ImmediateUnsigned,
            Op::Slli | Op::Srli | Op::Srai => Operands::Shift,
            Op::Lb | Op::Lh | Op::Lw => Operands::Load,
            Op::Lbu | Op::Lhu => Operands::LoadUnsigned,
            Op::Sb | Op::Sh | Op::Sw => Operands::Store,
            Op::Beq | Op::Bne | Op::Blt | Op::Bge | Op::Bltu | Op::Bgeu => Operands::Branch,
            Op::Jal => Operands::Jump,
            Op::Jalr => Operands::JumpRegister,
            Op::Lui | Op::Auipc => Operands::Upper,
            Op::Csrrw | Op::Csrrs | Op::Csrrc => Operands::Csr,
            Op::Csrrwi | Op::Csrrsi | Op::Csrrci => Operands::CsrImmediate,
            Op::Nop | Op::Ecall | Op::Ebreak | Op::Mret | Op::Fence | Op::Unimp => Operands::Bare,
        }
    }
}

} // verus!
