//! What the tracing front end shows: mnemonics, register dumps, and the
//! reading and answering of options and commands.

use riscv_emulator::command::{parse_command, Command, Reply};
use riscv_emulator::config::Args;
use riscv_emulator::cpu::Cpu;
use riscv_emulator::instruction::{InstTypeData, InstTypeName, Instruction, Op};
use riscv_emulator::number::parse_unsigned;
use riscv_emulator::semantics::Trace;

fn traced(pc: u32, word: u32) -> String {
    let mut cpu = Cpu::new(64);
    cpu.set_pc(pc);
    let inst = cpu.decode(word);
    cpu.execute(&inst).mnemonic()
}

#[test]
fn mnemonics_of_every_format() {
    assert_eq!(traced(0, 0x0020_81b3), "add     x3,x1,x2");
    assert_eq!(traced(0, 0x41df_0fb3), "sub     x31,x30,x29");
    assert_eq!(traced(0, 0x4073_52b3), "sra     x5,x6,x7");
    assert_eq!(traced(0, 0x02a0_0513), "addi    x10,x0,42");
    assert_eq!(traced(0, 0x8000_0093), "addi    x1,x0,-2048");
    assert_eq!(traced(0, 0xfff0_b093), "sltiu   x1,x1,4294967295");
    assert_eq!(traced(0, 0x0050_b093), "sltiu   x1,x1,5");
    assert_eq!(traced(0, 0xfff0_a093), "slti    x1,x1,-1");
    assert_eq!(traced(0, 0x0000_0013), "nop");
    assert_eq!(traced(0, 0x01f0_9193), "slli    x3,x1,0x1f");
    assert_eq!(traced(0, 0x4010_d193), "srai    x3,x1,0x1");
    assert_eq!(traced(0, 0xffc0_a183), "lw      x3,-4(x1)");
    assert_eq!(traced(0, 0x0010_4183), "lbu     x3,1(x0)");
    assert_eq!(traced(0, 0xffc0_c183), "lbu     x3,4294967292(x1)");
    assert_eq!(traced(0, 0xffe0_d183), "lhu     x3,4294967294(x1)");
    assert_eq!(traced(0, 0xffe0_9183), "lh      x3,-2(x1)");
    assert_eq!(traced(0, 0x4210_9193), "slli    x3,x1,0x1");
    assert_eq!(traced(0, 0xfe20_ae23), "sw      x2,-4(x1)");
    assert_eq!(traced(0, 0x0000_0fa3), "sb      x0,31(x0)");
    assert_eq!(traced(0x100, 0xfe20_8ee3), "beq     x1,x2,000000fc");
    assert_eq!(traced(0, 0xfe20_8ee3), "beq     x1,x2,fffffffc");
    assert_eq!(traced(0x20, 0x0020_9463), "bne     x1,x2,00000028");
    assert_eq!(traced(0x20, 0x0080_00ef), "jal     x1,00000008");
    assert_eq!(traced(0x20, 0xffdf_f06f), "jal     x0,fffffffc");
    assert_eq!(traced(0, 0x00c2_80e7), "jalr    x1,x5,0xc");
    assert_eq!(traced(0, 0xffc2_80e7), "jalr    x1,x5,0xfffffffc");
    assert_eq!(traced(0, 0xabcd_e2b7), "lui     x5,0xabcde");
    assert_eq!(traced(0, 0x0000_0317), "auipc   x6,0x0");
    assert_eq!(traced(0, 0x0000_0073), "ecall");
    assert_eq!(traced(0, 0x0010_0073), "ebreak");
    assert_eq!(traced(0, 0x3020_0073), "mret");
    assert_eq!(traced(0, 0x3001_10f3), "csrrw   x1,0x300,x2");
    assert_eq!(traced(0, 0xc000_20f3), "csrrs   x1,0xfffffc00,x0");
    assert_eq!(traced(0, 0x3002_d0f3), "csrrwi  x1,0x300,5");
    assert_eq!(traced(0, 0x0ff0_000f), "fence");
    assert_eq!(traced(0, 0x0000_0000), "unimp");
    assert_eq!(traced(0, 0xc000_1073), "unimp");
    assert_eq!(traced(0, 0x0220_8033), "unimp");
}

#[test]
fn every_operation_has_its_name() {
    let names = [
        (Op::Add, "add"),
        (Op::Sub, "sub"),
        (Op::Xor, "xor"),
        (Op::Or, "or"),
        (Op::And, "and"),
        (Op::Sll, "sll"),
        (Op::Srl, "srl"),
        (Op::Sra, "sra"),
        (Op::Slt, "slt"),
        (Op::Sltu, "sltu"),
        (Op::Addi, "addi"),
        (Op::Nop, "nop"),
        (Op::Xori, "xori"),
        (Op::Ori, "ori"),
        (Op::Andi, "andi"),
        (Op::Slti, "slti"),
        (Op::Sltiu, "sltiu"),
        (Op::Slli, "slli"),
        (Op::Srli, "srli"),
        (Op::Srai, "srai"),
        (Op::Lb, "lb"),
        (Op::Lh, "lh"),
        (Op::Lw, "lw"),
        (Op::Lbu, "lbu"),
        (Op::Lhu, "lhu"),
        (Op::Sb, "sb"),
        (Op::Sh, "sh"),
        (Op::Sw, "sw"),
        (Op::Beq, "beq"),
        (Op::Bne, "bne"),
        (Op::Blt, "blt"),
        (Op::Bge, "bge"),
        (Op::Bltu, "bltu"),
        (Op::Bgeu, "bgeu"),
        (Op::Jal, "jal"),
        (Op::Jalr, "jalr"),
        (Op::Lui, "lui"),
        (Op::Auipc, "auipc"),
        (Op::Ecall, "ecall"),
        (Op::Ebreak, "ebreak"),
        (Op::Mret, "mret"),
        (Op::Csrrw, "csrrw"),
        (Op::Csrrs, "csrrs"),
        (Op::Csrrc, "csrrc"),
        (Op::Csrrwi, "csrrwi"),
        (Op::Csrrsi, "csrrsi"),
        (Op::Csrrci, "csrrci"),
        (Op::Fence, "fence"),
        (Op::Unimp, "unimp"),
    ];
    for (op, name) in names {
        assert_eq!(op.name(), name);
        assert_eq!(op.column(), format!("{:<8}", name));
        assert_eq!(op.column().len(), 8);
    }
}

#[test]
fn a_trace_without_its_fields_shows_the_bare_name() {
    let inst = Instruction::new();
    let trace = Trace { op: Op::Add, inst, pc: 0, address: None, fault: false };
    assert_eq!(trace.mnemonic(), "add");
    assert_eq!(trace.operands(), None);
    let branch = Instruction {
        opcode: 0b1100011,
        type_data: InstTypeData::B { imm: 8, funct3: 0, rs1: 1, rs2: 2 },
        format: InstTypeName::B,
    };
    let trace = Trace { op: Op::Beq, inst: branch, pc: 0, address: None, fault: false };
    assert_eq!(trace.mnemonic(), "beq");
    let trace = Trace { op: Op::Beq, inst: branch, pc: 0, address: Some(0x1234_abcd), fault: false };
    assert_eq!(trace.mnemonic(), "beq     x1,x2,1234abcd");
    assert_eq!(trace.operands(), Some(String::from("x1,x2,1234abcd")));
}

#[test]
fn register_dump_by_index() {
    let mut cpu = Cpu::new(64);
    cpu.set_pc(0x1c);
    // lui x5,0xabcde; addi x31,x0,-1
    let inst = cpu.decode(0xabcd_e2b7);
    cpu.execute(&inst);
    let inst = cpu.decode(0xfff0_0f93);
    cpu.execute(&inst);
    let expected = concat_lines(&[
        " pc: 0x00000024",
        " x0: 0x00000000     x1: 0x00000000     x2: 0x00000000     x3: 0x00000000    ",
        " x4: 0x00000000     x5: 0xabcde000     x6: 0x00000000     x7: 0x00000000    ",
        " x8: 0x00000000     x9: 0x00000000    x10: 0x00000000    x11: 0x00000000    ",
        "x12: 0x00000000    x13: 0x00000000    x14: 0x00000000    x15: 0x00000000    ",
        "x16: 0x00000000    x17: 0x00000000    x18: 0x00000000    x19: 0x00000000    ",
        "x20: 0x00000000    x21: 0x00000000    x22: 0x00000000    x23: 0x00000000    ",
        "x24: 0x00000000    x25: 0x00000000    x26: 0x00000000    x27: 0x00000000    ",
        "x28: 0x00000000    x29: 0x00000000    x30: 0x00000000    x31: 0xffffffff    ",
    ]);
    assert_eq!(cpu.register_dump(false), expected);
}

#[test]
fn register_dump_by_alias() {
    let mut cpu = Cpu::new(64);
    cpu.set_stack_top();
    let expected = concat_lines(&[
        " pc: 0x00000000",
        "zero: 0x00000000    ra: 0x00000000    sp: 0x0000003f    gp: 0x00000000  ",
        "  tp: 0x00000000    t0: 0x00000000    t1: 0x00000000    t2: 0x00000000  ",
        "  s0: 0x00000000    s1: 0x00000000    a0: 0x00000000    a1: 0x00000000  ",
        "  a2: 0x00000000    a3: 0x00000000    a4: 0x00000000    a5: 0x00000000  ",
        "  a6: 0x00000000    a7: 0x00000000    s2: 0x00000000    s3: 0x00000000  ",
        "  s4: 0x00000000    s5: 0x00000000    s6: 0x00000000    s7: 0x00000000  ",
        "  s8: 0x00000000    s9: 0x00000000   s10: 0x00000000   s11: 0x00000000  ",
        "  t3: 0x00000000    t4: 0x00000000    t5: 0x00000000    t6: 0x00000000  ",
    ]);
    assert_eq!(cpu.register_dump(true), expected);
}

fn concat_lines(lines: &[&str]) -> String {
    let mut text = String::new();
    for line in lines {
        text.push_str(line);
        text.push('\n');
    }
    text
}

#[test]
fn numbers_are_read_as_the_standard_library_reads_them() {
    let hex = ["0", "10", "ff", "FF", "+ff", "fFfFfFfF", "0000000000001", "ffffffff", "100000000",
        "", "+", "-1", "+-1", "++1", " 1", "1 ", "0x10", "g", "1_0", "é", "١", "12345678"];
    for text in hex {
        assert_eq!(
            parse_unsigned(text.as_bytes(), true, u32::MAX as u64),
            u32::from_str_radix(text, 16).ok().map(u64::from),
            "hexadecimal {:?}",
            text
        );
    }
    let decimal = ["0", "16", "+16", "007", "4294967295", "4294967296", "99999999999999999999",
        "18446744073709551615", "18446744073709551616", "1a", "a", "", "+", "-0", "1.5", "１"];
    for text in decimal {
        assert_eq!(
            parse_unsigned(text.as_bytes(), false, u64::MAX),
            text.parse::<u64>().ok(),
            "decimal {:?}",
            text
        );
        assert_eq!(
            parse_unsigned(text.as_bytes(), false, u32::MAX as u64),
            text.parse::<u32>().ok().map(u64::from),
            "decimal {:?}",
            text
        );
    }
    assert_eq!(parse_unsigned(b"ff", true, 255), Some(255));
    assert_eq!(parse_unsigned(b"100", true, 255), None);
    assert_eq!(parse_unsigned(b"0", false, 0), Some(0));
    assert_eq!(parse_unsigned(b"1", false, 0), None);
}

fn options() -> Args {
    Args {
        debug: false,
        registers: false,
        aliases: false,
        interactive: false,
        pc: None,
        stack: false,
        mem: None,
    }
}

#[test]
fn options_give_the_size_of_memory() {
    assert_eq!(options().memory_kib(), 16);
    assert_eq!(options().memory_bytes(), Some(16 * 1024));
    let with = |mem: &str| Args { mem: Some(String::from(mem)), ..options() };
    assert_eq!(with("64").memory_kib(), 64);
    assert_eq!(with("64").memory_bytes(), Some(64 * 1024));
    assert_eq!(with("0").memory_bytes(), Some(0));
    assert_eq!(with("+1").memory_bytes(), Some(1024));
    assert_eq!(with("lots").memory_kib(), 16);
    assert_eq!(with("").memory_kib(), 16);
    assert_eq!(with("0x20").memory_kib(), 16);
    assert_eq!(with("-4").memory_kib(), 16);
    let most = usize::MAX / 1024;
    assert_eq!(with(&most.to_string()).memory_bytes(), Some(most * 1024));
    assert_eq!(with(&(most + 1).to_string()).memory_bytes(), None);
    assert_eq!(with(&usize::MAX.to_string()).memory_kib(), usize::MAX);
    assert_eq!(with(&usize::MAX.to_string()).memory_bytes(), None);
}

#[test]
fn options_override_the_entry_and_set_the_stack() {
    let with = |pc: &str| Args { pc: Some(String::from(pc)), ..options() };
    assert_eq!(options().entry_override(), None);
    assert_eq!(with("1000").entry_override(), Some(0x1000));
    assert_eq!(with("ffffffff").entry_override(), Some(0xffff_ffff));
    assert_eq!(with("100000000").entry_override(), None);
    assert_eq!(with("0x1000").entry_override(), None);
    assert_eq!(with("").entry_override(), None);

    let mut cpu = Cpu::new(256);
    cpu.set_pc(0x40);
    cpu.configure(&options());
    assert_eq!(cpu.pc(), 0x40);
    assert_eq!(cpu.registers(), &[0u32; 32]);
    cpu.configure(&with("zz"));
    assert_eq!(cpu.pc(), 0x40);
    cpu.configure(&with("80"));
    assert_eq!(cpu.pc(), 0x80);
    assert_eq!(cpu.registers(), &[0u32; 32]);
    cpu.configure(&Args { stack: true, ..options() });
    assert_eq!(cpu.pc(), 0x80);
    assert_eq!(cpu.registers()[2], 255);
    cpu.configure(&Args { stack: true, ..with("c") });
    assert_eq!(cpu.pc(), 0xc);
    assert_eq!(cpu.registers()[2], 255);
}

#[test]
fn command_lines_are_read_word_by_word() {
    assert_eq!(parse_command(b""), Command::Resume);
    assert_eq!(parse_command(b"mem 10"), Command::Memory(16));
    assert_eq!(parse_command(b"mem +FF"), Command::Memory(255));
    assert_eq!(parse_command(b"mem 0"), Command::Memory(0));
    assert_eq!(parse_command(b"reg 10"), Command::Register(10));
    assert_eq!(parse_command(b"reg 31"), Command::Register(31));
    assert_eq!(parse_command(b"reg 99"), Command::Register(99));
    assert_eq!(parse_command(b"reg 10 20"), Command::Register(10));
    assert_eq!(parse_command(b"mem 10 "), Command::Memory(16));
    assert_eq!(parse_command(b"mem"), Command::BadArgument);
    assert_eq!(parse_command(b"mem "), Command::BadArgument);
    assert_eq!(parse_command(b"mem  10"), Command::BadArgument);
    assert_eq!(parse_command(b"mem zz"), Command::BadArgument);
    assert_eq!(parse_command(b"mem 0x10"), Command::BadArgument);
    assert_eq!(parse_command(b"reg a"), Command::BadArgument);
    assert_eq!(parse_command(b"reg -1"), Command::BadArgument);
    assert_eq!(parse_command(b"reg"), Command::BadArgument);
    assert_eq!(parse_command(b"reg 99999999999999999999999"), Command::BadArgument);
    assert_eq!(parse_command(b"foo"), Command::Unknown(3));
    assert_eq!(parse_command(b"memory 10"), Command::Unknown(6));
    assert_eq!(parse_command(b"me"), Command::Unknown(2));
    assert_eq!(parse_command(b"MEM 10"), Command::Unknown(3));
    assert_eq!(parse_command(b" mem 10"), Command::Unknown(0));
    assert_eq!(parse_command(b" "), Command::Unknown(0));
    assert_eq!(parse_command(b"regs"), Command::Unknown(4));
}

#[test]
fn commands_are_answered_from_the_state() {
    let mut cpu = Cpu::new(16);
    assert_eq!(cpu.load_image(&[0x78, 0x56, 0x34, 0x12, 0xef, 0xbe, 0xad, 0xde], 0), Ok(()));
    cpu.set_stack_top();
    assert_eq!(cpu.answer(&Command::Resume), Reply::Nothing);
    assert_eq!(cpu.answer(&Command::Memory(0)), Reply::Word(0x1234_5678));
    assert_eq!(cpu.answer(&Command::Memory(4)), Reply::Word(0xdead_beef));
    assert_eq!(cpu.answer(&Command::Memory(2)), Reply::Word(0xbeef_1234));
    assert_eq!(cpu.answer(&Command::Memory(12)), Reply::Word(0));
    assert_eq!(cpu.answer(&Command::Memory(13)), Reply::OutOfBounds);
    assert_eq!(cpu.answer(&Command::Memory(16)), Reply::OutOfBounds);
    assert_eq!(cpu.answer(&Command::Memory(usize::MAX)), Reply::OutOfBounds);
    assert_eq!(cpu.answer(&Command::Register(2)), Reply::Value(15));
    assert_eq!(cpu.answer(&Command::Register(0)), Reply::Value(0));
    assert_eq!(cpu.answer(&Command::Register(31)), Reply::Value(0));
    assert_eq!(cpu.answer(&Command::Register(32)), Reply::NoSuchRegister);
    assert_eq!(cpu.answer(&Command::BadArgument), Reply::BadArgument);
    assert_eq!(cpu.answer(&Command::Unknown(3)), Reply::Unknown);
    let small = Cpu::new(3);
    assert_eq!(small.answer(&Command::Memory(0)), Reply::OutOfBounds);
}

#[test]
fn replies_as_text() {
    assert_eq!(Reply::Nothing.text(), "");
    assert_eq!(Reply::Word(0x1234_5678).text(), "0x12345678");
    assert_eq!(Reply::Word(0xab).text(), "0x000000ab");
    assert_eq!(Reply::Value(0xab).text(), "0xab");
    assert_eq!(Reply::Value(0).text(), "0x0");
    assert_eq!(Reply::Value(0xffff_ffff).text(), "0xffffffff");
    assert_eq!(Reply::OutOfBounds.text(), "bad argument: memory out of bounds");
    assert_eq!(Reply::NoSuchRegister.text(), "bad argument: no such register");
    assert_eq!(Reply::BadArgument.text(), "bad argument: not a number");
    assert_eq!(Reply::Unknown.text(), "Unknown command");
}
