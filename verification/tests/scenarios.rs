//! Whole runs: programs loaded at the start of memory and run to their end.

use riscv_emulator::command::{Command, Reply, Turn};
use riscv_emulator::cpu::Cpu;
use riscv_emulator::image::LoadError;
use riscv_emulator::instruction::Op;
use riscv_emulator::outcome::{Executed, Outcome, OutcomeKind};

fn words(program: &[u32]) -> Vec<u8> {
    let mut bytes = Vec::new();
    for word in program {
        bytes.extend_from_slice(&word.to_le_bytes());
    }
    bytes
}

fn loaded(memory: usize, program: &[u32]) -> Cpu {
    let mut cpu = Cpu::new(memory);
    assert_eq!(cpu.load_image(&words(program), 0), Ok(()));
    cpu
}

#[test]
fn exit_with_status_42() {
    // addi x10,x0,42; addi x17,x0,93; ecall
    let mut cpu = loaded(16 * 1024, &[0x02a0_0513, 0x05d0_0893, 0x0000_0073]);
    let outcome = cpu.run(1000);
    assert_eq!(outcome, Some(Outcome { kind: OutcomeKind::NormalExit, code: 42 }));
    assert_eq!(cpu.registers()[10], 42);
    assert_eq!(cpu.registers()[17], 93);
    assert_eq!(cpu.pc(), 12);
}

#[test]
fn exit_status_is_signed() {
    // addi x10,x0,-7; addi x17,x0,93; ecall
    let mut cpu = loaded(64, &[0xff90_0513, 0x05d0_0893, 0x0000_0073]);
    assert_eq!(cpu.run(10), Some(Outcome { kind: OutcomeKind::NormalExit, code: -7 }));
}

#[test]
fn zero_word_is_an_illegal_instruction() {
    let mut cpu = loaded(16 * 1024, &[0x0000_0000]);
    let outcome = cpu.run(1000);
    assert_eq!(outcome, Some(Outcome { kind: OutcomeKind::IllegalInstruction, code: -3 }));
    assert_eq!(cpu.registers(), &[0u32; 32]);
    assert_eq!(cpu.pc(), 4);
    // the same holds of one step
    let mut cpu = loaded(16 * 1024, &[0x0000_0000]);
    assert_eq!(
        cpu.step(),
        Some(Outcome { kind: OutcomeKind::IllegalInstruction, code: -3 })
    );
    assert_eq!(cpu.registers(), &[0u32; 32]);
}

#[test]
fn halt_marker_is_an_illegal_instruction() {
    // addi x1,x0,1; the halt marker
    let mut cpu = loaded(64, &[0x0010_0093, 0xc000_1073]);
    assert_eq!(cpu.step(), None);
    assert_eq!(
        cpu.step(),
        Some(Outcome { kind: OutcomeKind::IllegalInstruction, code: -3 })
    );
    assert_eq!(cpu.registers()[1], 1);
}

#[test]
fn running_off_the_end_of_memory_is_an_address_overflow() {
    let memory = 64;
    let mut cpu = Cpu::new(memory);
    let mut image = vec![0u8; memory];
    // addi x1,x0,5 in the last word
    image[memory - 4..].copy_from_slice(&0x0050_0093u32.to_le_bytes());
    assert_eq!(cpu.load_image(&image, (memory - 4) as u32), Ok(()));
    assert_eq!(cpu.pc(), 60);
    let outcome = cpu.step();
    assert_eq!(outcome, Some(Outcome { kind: OutcomeKind::AddressOverflow, code: -1 }));
    assert_eq!(cpu.registers()[1], 5);
    assert_eq!(cpu.pc(), 64);
    // and any further step stays there
    assert_eq!(cpu.step(), Some(Outcome { kind: OutcomeKind::AddressOverflow, code: -1 }));
    assert_eq!(cpu.pc(), 64);
    assert_eq!(cpu.registers()[1], 5);
}

#[test]
fn address_overflow_comes_before_the_other_outcomes() {
    // ecall with a7 = 93 in the last word of memory
    let mut cpu = loaded(8, &[0x05d0_0893, 0x0000_0073]);
    assert_eq!(cpu.step(), None);
    assert_eq!(cpu.step(), Some(Outcome { kind: OutcomeKind::AddressOverflow, code: -1 }));
    // an illegal instruction in the last word of memory
    let mut cpu = loaded(4, &[0x0000_0000]);
    assert_eq!(cpu.step(), Some(Outcome { kind: OutcomeKind::AddressOverflow, code: -1 }));
}

#[test]
fn a_jump_out_of_memory_is_an_address_overflow() {
    // jal x0,+1024 in 64 bytes
    let mut cpu = loaded(64, &[0x4000_006f]);
    assert_eq!(cpu.step(), Some(Outcome { kind: OutcomeKind::AddressOverflow, code: -1 }));
    assert_eq!(cpu.pc(), 1024);
}

#[test]
fn a_program_counter_outside_memory_executes_nothing() {
    let mut cpu = loaded(64, &[0x0010_0093]);
    cpu.set_pc(62);
    assert_eq!(cpu.step(), Some(Outcome { kind: OutcomeKind::AddressOverflow, code: -1 }));
    assert_eq!(cpu.pc(), 62);
    assert_eq!(cpu.registers(), &[0u32; 32]);
    let mut empty = Cpu::new(0);
    assert_eq!(empty.run(5), Some(Outcome { kind: OutcomeKind::AddressOverflow, code: -1 }));
}

#[test]
fn a_load_outside_memory_is_an_address_overflow() {
    // lw x1,64(x0) in 64 bytes
    let mut cpu = loaded(64, &[0x0400_2083, 0x0000_0013]);
    assert_eq!(cpu.run(10), Some(Outcome { kind: OutcomeKind::AddressOverflow, code: -1 }));
    assert_eq!(cpu.pc(), 0);
    assert_eq!(cpu.registers(), &[0u32; 32]);
}

#[test]
fn another_service_is_an_unimplemented_syscall() {
    // addi x10,x0,42; addi x17,x0,64; ecall
    let mut cpu = loaded(64, &[0x02a0_0513, 0x0400_0893, 0x0000_0073]);
    assert_eq!(
        cpu.run(10),
        Some(Outcome { kind: OutcomeKind::UnimplementedSyscall, code: -2 })
    );
    // ecall with a7 = 0
    let mut cpu = loaded(64, &[0x0000_0073]);
    assert_eq!(
        cpu.step(),
        Some(Outcome { kind: OutcomeKind::UnimplementedSyscall, code: -2 })
    );
}

#[test]
fn ebreak_and_mret_do_not_end_the_run() {
    // ebreak; mret; csrrw x1,0x300,x2; fence; addi x17,x0,93; ecall
    let mut cpu = loaded(
        64,
        &[0x0010_0073, 0x3020_0073, 0x3001_10f3, 0x0ff0_000f, 0x05d0_0893, 0x0000_0073],
    );
    for _ in 0..5 {
        assert_eq!(cpu.step(), None);
    }
    assert_eq!(cpu.step(), Some(Outcome { kind: OutcomeKind::NormalExit, code: 0 }));
}

#[test]
fn a_run_stops_at_its_limit_and_can_be_taken_up() {
    // addi x1,x1,1; jal x0,-4
    let mut cpu = loaded(64, &[0x0010_8093, 0xffdf_f06f]);
    assert_eq!(cpu.run(0), None);
    assert_eq!(cpu.pc(), 0);
    assert_eq!(cpu.run(7), None);
    assert_eq!(cpu.registers()[1], 4);
    assert_eq!(cpu.pc(), 4);
    assert_eq!(cpu.run(1), None);
    assert_eq!(cpu.pc(), 0);
    assert_eq!(cpu.run(1000), None);
    assert_eq!(cpu.registers()[1], 504);
}

#[test]
fn a_run_equals_its_steps() {
    // a loop that counts x1 down from 5, then exits with x1 + 9
    let program = [
        0x0050_0093, // addi x1,x0,5
        0xfff0_8093, // addi x1,x1,-1
        0xfe00_9ee3, // bne x1,x0,-4
        0x0090_8513, // addi x10,x1,9
        0x05d0_0893, // addi x17,x0,93
        0x0000_0073, // ecall
    ];
    let mut run = loaded(64, &program);
    let mut stepped = loaded(64, &program);
    let outcome = run.run(1000);
    assert_eq!(outcome, Some(Outcome { kind: OutcomeKind::NormalExit, code: 9 }));
    let mut steps = 0;
    let last = loop {
        steps += 1;
        if let Some(outcome) = stepped.step() {
            break outcome;
        }
    };
    assert_eq!(steps, 1 + 2 * 5 + 3);
    assert_eq!(Some(last), outcome);
    assert_eq!(run.pc(), stepped.pc());
    assert_eq!(run.registers(), stepped.registers());
    assert_eq!(run.memory(), stepped.memory());
    // with one step too few the run has not ended
    let mut short = loaded(64, &program);
    assert_eq!(short.run(13), None);
    assert_eq!(short.run(1), outcome);
}

#[test]
fn load_image_copies_to_the_start_of_memory() {
    let mut cpu = Cpu::new(8);
    assert_eq!(cpu.load_image(&[1, 2, 3, 4, 5, 6, 7, 8], 4), Ok(()));
    assert_eq!(cpu.memory().as_slice(), &[1, 2, 3, 4, 5, 6, 7, 8]);
    assert_eq!(cpu.pc(), 4);
    // a shorter image leaves the rest of memory as it was
    assert_eq!(cpu.load_image(&[9, 9, 9], 0x100), Ok(()));
    assert_eq!(cpu.memory().as_slice(), &[9, 9, 9, 4, 5, 6, 7, 8]);
    assert_eq!(cpu.pc(), 0x100);
    assert_eq!(cpu.load_image(&[], 0), Ok(()));
    assert_eq!(cpu.memory().as_slice(), &[9, 9, 9, 4, 5, 6, 7, 8]);
    assert_eq!(cpu.pc(), 0);
    assert_eq!(cpu.registers(), &[0u32; 32]);
}

#[test]
fn an_image_larger_than_memory_is_refused() {
    let mut cpu = Cpu::new(8);
    assert_eq!(cpu.load_image(&[1, 2, 3, 4], 4), Ok(()));
    assert_eq!(cpu.load_image(&[7; 9], 0), Err(LoadError::ImageTooLarge));
    assert_eq!(cpu.memory().as_slice(), &[1, 2, 3, 4, 0, 0, 0, 0]);
    assert_eq!(cpu.pc(), 4);
    let mut empty = Cpu::new(0);
    assert_eq!(empty.load_image(&[0], 0), Err(LoadError::ImageTooLarge));
    assert_eq!(empty.load_image(&[], 0), Ok(()));
}

#[test]
fn a_traced_step_reports_what_it_fetched_and_did() {
    // addi x10,x0,42; addi x17,x0,93; ecall
    let mut cpu = loaded(12, &[0x02a0_0513, 0x05d0_0893, 0x0000_0073]);
    let (executed, outcome) = cpu.step_traced();
    let executed = executed.expect("the word lies inside memory");
    assert_eq!(executed.word, 0x02a0_0513);
    assert_eq!(executed.trace.op, Op::Addi);
    assert_eq!(executed.trace.pc, 0);
    assert_eq!(executed.trace.inst, cpu.decode(0x02a0_0513));
    assert_eq!(outcome, None);
    assert_eq!(cpu.registers()[10], 42);
    let (executed, outcome) = cpu.step_traced();
    assert_eq!(executed.map(|cycle| cycle.word), Some(0x05d0_0893));
    assert_eq!(outcome, None);
    // the exit call stands in the last word: leaving memory comes first
    let (executed, outcome) = cpu.step_traced();
    assert_eq!(executed.map(|cycle| cycle.trace.op), Some(Op::Ecall));
    assert_eq!(outcome, Some(Outcome { kind: OutcomeKind::AddressOverflow, code: -1 }));
    // outside memory nothing is fetched
    let (executed, outcome) = cpu.step_traced();
    assert_eq!(executed, None::<Executed>);
    assert_eq!(outcome, Some(Outcome { kind: OutcomeKind::AddressOverflow, code: -1 }));
    assert_eq!(cpu.pc(), 12);
}

#[test]
fn traced_steps_are_steps() {
    let program = [0x0050_0093, 0xfff0_8093, 0xfe00_9ee3, 0x0090_8513, 0x05d0_0893, 0x0000_0073];
    let mut plain = loaded(64, &program);
    let mut traced = loaded(64, &program);
    loop {
        let outcome = plain.step();
        let (_, other) = traced.step_traced();
        assert_eq!(outcome, other);
        assert_eq!(plain.pc(), traced.pc());
        assert_eq!(plain.registers(), traced.registers());
        if outcome.is_some() {
            assert_eq!(outcome, Some(Outcome { kind: OutcomeKind::NormalExit, code: 9 }));
            break;
        }
    }
}

#[test]
fn empty_lines_drive_the_run_and_commands_execute_nothing() {
    let program = [0x0050_0093, 0xfff0_8093, 0xfe00_9ee3, 0x0090_8513, 0x05d0_0893, 0x0000_0073];
    let mut plain = loaded(64, &program);
    let mut driven = loaded(64, &program);
    let mut cycles = 0;
    let last = loop {
        // a command between the cycles changes nothing
        let pc = driven.pc();
        let registers = *driven.registers();
        let memory = driven.memory().clone();
        assert_eq!(
            driven.interact(b"reg 1"),
            Turn::Answered { command: Command::Register(1), reply: Reply::Value(registers[1]) }
        );
        assert_eq!(
            driven.interact(b"mem 0"),
            Turn::Answered { command: Command::Memory(0), reply: Reply::Word(0x0050_0093) }
        );
        assert_eq!(
            driven.interact(b"jump"),
            Turn::Answered { command: Command::Unknown(4), reply: Reply::Unknown }
        );
        assert_eq!(
            driven.interact(b" "),
            Turn::Answered { command: Command::Unknown(0), reply: Reply::Unknown }
        );
        assert_eq!(driven.pc(), pc);
        assert_eq!(driven.registers(), &registers);
        assert_eq!(driven.memory(), &memory);
        // the empty line runs one cycle
        let expected = plain.step_traced();
        cycles += 1;
        match driven.interact(b"") {
            Turn::Stepped { executed, outcome } => {
                assert_eq!((executed, outcome), expected);
                assert_eq!(driven.pc(), plain.pc());
                assert_eq!(driven.registers(), plain.registers());
                if let Some(outcome) = outcome {
                    break outcome;
                }
            }
            turn => panic!("the empty line steps, but gave {:?}", turn),
        }
    };
    assert_eq!(cycles, 14);
    assert_eq!(last, Outcome { kind: OutcomeKind::NormalExit, code: 9 });
}

#[test]
fn upper_immediates_load_as_they_are_decoded() {
    // lui x5,0xabcde; auipc x6,0x1; addi x17,x0,93; ecall
    let mut cpu = loaded(64, &[0xabcd_e2b7, 0x0000_1317, 0x05d0_0893, 0x0000_0073]);
    assert_eq!(cpu.run(10), Some(Outcome { kind: OutcomeKind::NormalExit, code: 0 }));
    assert_eq!(cpu.registers()[5], 0xabcd_e000);
    assert_eq!(cpu.registers()[6], 0x1004);
}
