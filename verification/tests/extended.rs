use cpu6502::cpu::{AddressingMode, Cpu, RunResult, StepResult};
use cpu6502::error::CpuError;
use cpu6502::memory::Memory;
use cpu6502::opcodes::{OpCode, OpCodeTable};
use cpu6502::registers::RESET_VECTOR;
use cpu6502::status::Flag;

const ORIGIN: u16 = 0x8000;

fn full_table() -> OpCodeTable {
    let mut table = OpCodeTable::standard();
    let rows: [(u8, &'static str, u8, u8, AddressingMode); 52] = [
        (0x10, "BPL", 2, 2, AddressingMode::Immediate),
        (0x30, "BMI", 2, 2, AddressingMode::Immediate),
        (0x50, "BVC", 2, 2, AddressingMode::Immediate),
        (0x70, "BVS", 2, 2, AddressingMode::Immediate),
        (0x90, "BCC", 2, 2, AddressingMode::Immediate),
        (0xb0, "BCS", 2, 2, AddressingMode::Immediate),
        (0xd0, "BNE", 2, 2, AddressingMode::Immediate),
        (0xf0, "BEQ", 2, 2, AddressingMode::Immediate),
        (0x4c, "JMP", 3, 3, AddressingMode::Absolute),
        (0x6c, "JMP", 3, 5, AddressingMode::Implicit),
        (0x20, "JSR", 3, 6, AddressingMode::Absolute),
        (0x60, "RTS", 1, 6, AddressingMode::Implicit),
        (0x40, "RTI", 1, 6, AddressingMode::Implicit),
        (0x48, "PHA", 1, 3, AddressingMode::Implicit),
        (0x68, "PLA", 1, 4, AddressingMode::Implicit),
        (0x08, "PHP", 1, 3, AddressingMode::Implicit),
        (0x28, "PLP", 1, 4, AddressingMode::Implicit),
        (0x18, "CLC", 1, 2, AddressingMode::Implicit),
        (0x38, "SEC", 1, 2, AddressingMode::Implicit),
        (0x58, "CLI", 1, 2, AddressingMode::Implicit),
        (0x78, "SEI", 1, 2, AddressingMode::Implicit),
        (0xb8, "CLV", 1, 2, AddressingMode::Implicit),
        (0xd8, "CLD", 1, 2, AddressingMode::Implicit),
        (0xf8, "SED", 1, 2, AddressingMode::Implicit),
        (0xea, "NOP", 1, 2, AddressingMode::Implicit),
        (0xca, "DEX", 1, 2, AddressingMode::Implicit),
        (0x88, "DEY", 1, 2, AddressingMode::Implicit),
        (0xc8, "INY", 1, 2, AddressingMode::Implicit),
        (0xa8, "TAY", 1, 2, AddressingMode::Implicit),
        (0x8a, "TXA", 1, 2, AddressingMode::Implicit),
        (0x98, "TYA", 1, 2, AddressingMode::Implicit),
        (0xba, "TSX", 1, 2, AddressingMode::Implicit),
        (0x9a, "TXS", 1, 2, AddressingMode::Implicit),
        (0x29, "AND", 2, 2, AddressingMode::Immediate),
        (0x09, "ORA", 2, 2, AddressingMode::Immediate),
        (0x49, "EOR", 2, 2, AddressingMode::Immediate),
        (0xe9, "SBC", 2, 2, AddressingMode::Immediate),
        (0x24, "BIT", 2, 3, AddressingMode::ZeroPage),
        (0x0a, "ASL", 1, 2, AddressingMode::Implicit),
        (0x06, "ASL", 2, 5, AddressingMode::ZeroPage),
        (0x4a, "LSR", 1, 2, AddressingMode::Implicit),
        (0x4e, "LSR", 3, 6, AddressingMode::Absolute),
        (0x2a, "ROL", 1, 2, AddressingMode::Implicit),
        (0x3e, "ROL", 3, 7, AddressingMode::AbsoluteX),
        (0x6a, "ROR", 1, 2, AddressingMode::Implicit),
        (0x66, "ROR", 2, 5, AddressingMode::ZeroPage),
        (0xe6, "INC", 2, 5, AddressingMode::ZeroPage),
        (0xfe, "INC", 3, 7, AddressingMode::AbsoluteX),
        (0xc6, "DEC", 2, 5, AddressingMode::ZeroPage),
        (0x86, "STX", 2, 3, AddressingMode::ZeroPage),
        (0x84, "STY", 2, 3, AddressingMode::ZeroPage),
        (0xbd, "LDA", 3, 4, AddressingMode::AbsoluteX),
    ];
    for (code, mnemonic, len, cycles, mode) in rows {
        table.insert(OpCode::new(code, mnemonic, len, cycles, mode));
    }
    table
}

fn load(memory: &mut Memory, origin: u16, bytes: &[u8]) {
    let mut address = origin;
    for byte in bytes {
        memory.write_byte(address, *byte);
        address = address.wrapping_add(1);
    }
}

fn boot_with(table: OpCodeTable, origin: u16, program: &[u8]) -> (Cpu, Memory) {
    let mut memory = Memory::new();
    load(&mut memory, origin, program);
    memory.write_byte(RESET_VECTOR, origin as u8);
    memory.write_byte(RESET_VECTOR + 1, (origin >> 8) as u8);
    let mut cpu = Cpu::new(table);
    assert_eq!(cpu.reset(&memory), Ok(()));
    (cpu, memory)
}

fn boot(program: &[u8]) -> (Cpu, Memory) {
    boot_with(full_table(), ORIGIN, program)
}

fn stepped(cycles_spent: u64) -> Result<StepResult, CpuError> {
    Ok(StepResult { cycles_spent, halted: false })
}

fn steps(cpu: &mut Cpu, memory: &mut Memory, count: usize) {
    for _ in 0..count {
        assert!(cpu.step(memory).is_ok());
    }
}

#[test]
fn branch_not_taken_costs_its_base_cycles() {
    let (mut cpu, mut memory) = boot(&[0xa9, 0x01, 0xf0, 0x05]);
    steps(&mut cpu, &mut memory, 1);
    assert_eq!(cpu.step(&mut memory), stepped(2));
    assert_eq!(cpu.program_counter(), ORIGIN + 4);
}

#[test]
fn branch_taken_costs_one_cycle_more() {
    let (mut cpu, mut memory) = boot(&[0xa9, 0x00, 0xf0, 0x05]);
    steps(&mut cpu, &mut memory, 1);
    assert_eq!(cpu.step(&mut memory), stepped(3));
    assert_eq!(cpu.program_counter(), ORIGIN + 9);
    assert_eq!(cpu.cycles_elapsed(), 5);
    assert_eq!(cpu.status().bits(), 0x06);
}

#[test]
fn branch_backwards() {
    let (mut cpu, mut memory) = boot(&[0xea, 0xea, 0xea, 0xea, 0xd0, 0xfc]);
    steps(&mut cpu, &mut memory, 4);
    assert_eq!(cpu.step(&mut memory), stepped(3));
    assert_eq!(cpu.program_counter(), ORIGIN + 2);
}

#[test]
fn branch_to_another_page_costs_two_cycles_more() {
    let (mut cpu, mut memory) = boot_with(full_table(), 0x80f0, &[0xd0, 0x20]);
    assert_eq!(cpu.step(&mut memory), stepped(4));
    assert_eq!(cpu.program_counter(), 0x8112);

    let (mut cpu, mut memory) = boot_with(full_table(), 0x8000, &[0xd0, 0xfd]);
    assert_eq!(cpu.step(&mut memory), stepped(4));
    assert_eq!(cpu.program_counter(), 0x7fff);

    let (mut cpu, mut memory) = boot_with(full_table(), 0x80fd, &[0xd0, 0x00]);
    assert_eq!(cpu.step(&mut memory), stepped(3));
    assert_eq!(cpu.program_counter(), 0x80ff);

    let (mut cpu, mut memory) = boot_with(full_table(), 0x80fe, &[0xd0, 0x7f]);
    assert_eq!(cpu.step(&mut memory), stepped(3));
    assert_eq!(cpu.program_counter(), 0x817f);

    let (mut cpu, mut memory) = boot_with(full_table(), 0x80fe, &[0xd0, 0x80]);
    assert_eq!(cpu.step(&mut memory), stepped(4));
    assert_eq!(cpu.program_counter(), 0x8080);
}

#[test]
fn branch_wraps_at_the_ends_of_the_address_space() {
    let (mut cpu, mut memory) = boot_with(full_table(), 0xfff0, &[0xd0, 0x10]);
    assert_eq!(cpu.step(&mut memory), stepped(4));
    assert_eq!(cpu.program_counter(), 0x0002);

    let (mut cpu, mut memory) = boot_with(full_table(), 0x0000, &[0xd0, 0x80]);
    assert_eq!(cpu.step(&mut memory), stepped(4));
    assert_eq!(cpu.program_counter(), 0xff82);
}

#[test]
fn each_branch_tests_its_flag() {
    let cases: [(u8, &[u8], bool); 16] = [
        (0x90, &[0x18], true),
        (0x90, &[0x38], false),
        (0xb0, &[0x38], true),
        (0xb0, &[0x18], false),
        (0xf0, &[0xa9, 0x00], true),
        (0xf0, &[0xa9, 0x01], false),
        (0xd0, &[0xa9, 0x01], true),
        (0xd0, &[0xa9, 0x00], false),
        (0x30, &[0xa9, 0x80], true),
        (0x30, &[0xa9, 0x7f], false),
        (0x10, &[0xa9, 0x7f], true),
        (0x10, &[0xa9, 0x80], false),
        (0x70, &[0xa9, 0x50, 0x69, 0x50], true),
        (0x70, &[0xa9, 0x01, 0x69, 0x01], false),
        (0x50, &[0xa9, 0x01, 0x69, 0x01], true),
        (0x50, &[0xa9, 0x50, 0x69, 0x50], false),
    ];
    for (branch, setup, taken) in cases {
        let mut program = setup.to_vec();
        program.extend_from_slice(&[branch, 0x10]);
        let (mut cpu, mut memory) = boot(&program);
        let mut left = setup.len();
        while left > 0 {
            let before = cpu.program_counter();
            cpu.step(&mut memory).unwrap();
            left -= (cpu.program_counter() - before) as usize;
        }
        let next = ORIGIN + program.len() as u16;
        if taken {
            assert_eq!(cpu.step(&mut memory), stepped(3));
            assert_eq!(cpu.program_counter(), next + 0x10);
        } else {
            assert_eq!(cpu.step(&mut memory), stepped(2));
            assert_eq!(cpu.program_counter(), next);
        }
    }
}

#[test]
fn jump_absolute() {
    let (mut cpu, mut memory) = boot(&[0x4c, 0x34, 0x12]);
    let status = cpu.status().bits();
    assert_eq!(cpu.step(&mut memory), stepped(3));
    assert_eq!(cpu.program_counter(), 0x1234);
    assert_eq!(cpu.status().bits(), status);
    assert_eq!(cpu.stack_pointer(), 0xfd);
}

#[test]
fn jump_indirect() {
    let (mut cpu, mut memory) = boot(&[0x6c, 0x20, 0x01]);
    load(&mut memory, 0x0120, &[0xfc, 0xba]);
    assert_eq!(cpu.step(&mut memory), stepped(5));
    assert_eq!(cpu.program_counter(), 0xbafc);
}

#[test]
fn jump_indirect_wraps_within_the_page_of_the_pointer() {
    let (mut cpu, mut memory) = boot(&[0x6c, 0xff, 0x30]);
    load(&mut memory, 0x30ff, &[0x80, 0x40]);
    load(&mut memory, 0x3000, &[0x50]);
    assert_eq!(cpu.step(&mut memory), stepped(5));
    assert_eq!(cpu.program_counter(), 0x5080);
}

#[test]
fn call_and_return() {
    let (mut cpu, mut memory) = boot(&[0x20, 0x00, 0x90, 0xa9, 0x01]);
    load(&mut memory, 0x9000, &[0xa2, 0x07, 0x60]);
    assert_eq!(cpu.step(&mut memory), stepped(6));
    assert_eq!(cpu.program_counter(), 0x9000);
    assert_eq!(cpu.stack_pointer(), 0xfb);
    assert_eq!(memory.read_byte(0x01fd), 0x80);
    assert_eq!(memory.read_byte(0x01fc), 0x02);
    assert_eq!(cpu.step(&mut memory), stepped(2));
    assert_eq!(cpu.step(&mut memory), stepped(6));
    assert_eq!(cpu.program_counter(), ORIGIN + 3);
    assert_eq!(cpu.stack_pointer(), 0xfd);
    assert_eq!(cpu.index_x(), 0x07);
    assert_eq!(cpu.step(&mut memory), stepped(2));
    assert_eq!(cpu.accumulator(), 0x01);
    assert_eq!(cpu.cycles_elapsed(), 16);
}

#[test]
fn call_at_a_page_boundary_pushes_the_last_byte_of_the_call() {
    let (mut cpu, mut memory) = boot_with(full_table(), 0x80fe, &[0x20, 0x00, 0x90]);
    load(&mut memory, 0x9000, &[0x60]);
    assert_eq!(cpu.step(&mut memory), stepped(6));
    assert_eq!(memory.read_byte(0x01fd), 0x81);
    assert_eq!(memory.read_byte(0x01fc), 0x00);
    assert_eq!(cpu.step(&mut memory), stepped(6));
    assert_eq!(cpu.program_counter(), 0x8101);
}

#[test]
fn push_and_pull_the_accumulator() {
    let (mut cpu, mut memory) = boot(&[0xa9, 0x80, 0x48, 0xa9, 0x00, 0x68]);
    steps(&mut cpu, &mut memory, 1);
    assert_eq!(cpu.step(&mut memory), stepped(3));
    assert_eq!(cpu.stack_pointer(), 0xfc);
    assert_eq!(memory.read_byte(0x01fd), 0x80);
    assert_eq!(cpu.program_counter(), ORIGIN + 3);
    steps(&mut cpu, &mut memory, 1);
    assert!(cpu.flag(Flag::Zero));
    assert_eq!(cpu.step(&mut memory), stepped(4));
    assert_eq!(cpu.accumulator(), 0x80);
    assert!(cpu.flag(Flag::Negative));
    assert!(!cpu.flag(Flag::Zero));
    assert_eq!(cpu.stack_pointer(), 0xfd);
    assert_eq!(cpu.program_counter(), ORIGIN + 6);
}

#[test]
fn push_and_pull_the_status() {
    let (mut cpu, mut memory) = boot(&[0x38, 0x08, 0x18, 0xa9, 0x00, 0x28]);
    steps(&mut cpu, &mut memory, 1);
    assert_eq!(cpu.step(&mut memory), stepped(3));
    assert_eq!(memory.read_byte(0x01fd), 0x35);
    assert_eq!(cpu.status().bits(), 0x05);
    steps(&mut cpu, &mut memory, 2);
    assert_eq!(cpu.status().bits(), 0x06);
    assert_eq!(cpu.step(&mut memory), stepped(4));
    assert_eq!(cpu.status().bits(), 0x05);
    assert!(!cpu.flag(Flag::Break));
    assert_eq!(cpu.stack_pointer(), 0xfd);
}

#[test]
fn pull_status_takes_every_flag_but_break() {
    let (mut cpu, mut memory) = boot(&[0xa9, 0xff, 0x48, 0x28]);
    steps(&mut cpu, &mut memory, 2);
    assert_eq!(cpu.step(&mut memory), stepped(4));
    assert_eq!(cpu.status().bits(), 0xcf);
}

#[test]
fn stack_pointer_wraps_within_the_stack_page() {
    let (mut cpu, mut memory) = boot(&[0xa2, 0x00, 0x9a, 0xa9, 0x77, 0x48, 0xa9, 0x00, 0x68]);
    steps(&mut cpu, &mut memory, 2);
    assert_eq!(cpu.stack_pointer(), 0x00);
    assert!(cpu.flag(Flag::Zero));
    steps(&mut cpu, &mut memory, 2);
    assert_eq!(memory.read_byte(0x0100), 0x77);
    assert_eq!(cpu.stack_pointer(), 0xff);
    steps(&mut cpu, &mut memory, 2);
    assert_eq!(cpu.accumulator(), 0x77);
    assert_eq!(cpu.stack_pointer(), 0x00);
}

#[test]
fn return_from_interrupt() {
    let (mut cpu, mut memory) = boot(&[0xa2, 0xfa, 0x9a, 0x40]);
    load(&mut memory, 0x01fb, &[0xf3, 0x34, 0x12]);
    steps(&mut cpu, &mut memory, 2);
    assert_eq!(cpu.step(&mut memory), stepped(6));
    assert_eq!(cpu.program_counter(), 0x1234);
    assert_eq!(cpu.stack_pointer(), 0xfd);
    assert_eq!(cpu.status().bits(), 0xc3);
}

#[test]
fn logic_instructions() {
    let (mut cpu, mut memory) = boot(&[0xa9, 0xf0, 0x29, 0x3c, 0x09, 0x0f, 0x49, 0xff, 0x29, 0x00]);
    steps(&mut cpu, &mut memory, 1);
    assert_eq!(cpu.step(&mut memory), stepped(2));
    assert_eq!(cpu.accumulator(), 0x30);
    assert!(!cpu.flag(Flag::Negative));
    assert_eq!(cpu.step(&mut memory), stepped(2));
    assert_eq!(cpu.accumulator(), 0x3f);
    assert_eq!(cpu.step(&mut memory), stepped(2));
    assert_eq!(cpu.accumulator(), 0xc0);
    assert!(cpu.flag(Flag::Negative));
    assert_eq!(cpu.step(&mut memory), stepped(2));
    assert_eq!(cpu.accumulator(), 0x00);
    assert!(cpu.flag(Flag::Zero));
    assert!(!cpu.flag(Flag::Carry));
}

#[test]
fn subtract_through_the_dispatcher() {
    let (mut cpu, mut memory) = boot(&[0x38, 0xa9, 0x50, 0xe9, 0x30, 0xe9, 0x30, 0xe9, 0x00]);
    steps(&mut cpu, &mut memory, 2);
    assert_eq!(cpu.step(&mut memory), stepped(2));
    assert_eq!(cpu.accumulator(), 0x20);
    assert!(cpu.flag(Flag::Carry));
    assert_eq!(cpu.step(&mut memory), stepped(2));
    assert_eq!(cpu.accumulator(), 0xf0);
    assert!(!cpu.flag(Flag::Carry));
    assert!(cpu.flag(Flag::Negative));
    assert!(!cpu.flag(Flag::Overflow));
    assert_eq!(cpu.step(&mut memory), stepped(2));
    assert_eq!(cpu.accumulator(), 0xef);
    assert!(cpu.flag(Flag::Carry));
}

#[test]
fn bit_test_through_the_dispatcher() {
    let (mut cpu, mut memory) = boot(&[0xa9, 0x0f, 0x24, 0x40]);
    load(&mut memory, 0x0040, &[0xc0]);
    steps(&mut cpu, &mut memory, 1);
    assert_eq!(cpu.step(&mut memory), stepped(3));
    assert_eq!(cpu.accumulator(), 0x0f);
    assert!(cpu.flag(Flag::Zero));
    assert!(cpu.flag(Flag::Overflow));
    assert!(cpu.flag(Flag::Negative));
}

#[test]
fn shifts_of_the_accumulator() {
    let (mut cpu, mut memory) = boot(&[0xa9, 0x81, 0x0a, 0x2a, 0x4a, 0x6a, 0x6a]);
    steps(&mut cpu, &mut memory, 1);
    assert_eq!(cpu.step(&mut memory), stepped(2));
    assert_eq!(cpu.accumulator(), 0x02);
    assert!(cpu.flag(Flag::Carry));
    assert_eq!(cpu.step(&mut memory), stepped(2));
    assert_eq!(cpu.accumulator(), 0x05);
    assert!(!cpu.flag(Flag::Carry));
    assert_eq!(cpu.step(&mut memory), stepped(2));
    assert_eq!(cpu.accumulator(), 0x02);
    assert!(cpu.flag(Flag::Carry));
    assert_eq!(cpu.step(&mut memory), stepped(2));
    assert_eq!(cpu.accumulator(), 0x81);
    assert!(!cpu.flag(Flag::Carry));
    assert!(cpu.flag(Flag::Negative));
    assert_eq!(cpu.step(&mut memory), stepped(2));
    assert_eq!(cpu.accumulator(), 0x40);
    assert!(cpu.flag(Flag::Carry));
    assert_eq!(cpu.program_counter(), ORIGIN + 7);
}

#[test]
fn shifts_of_memory() {
    let (mut cpu, mut memory) = boot(&[0x06, 0x40, 0x4e, 0x00, 0x30, 0x66, 0x41]);
    load(&mut memory, 0x0040, &[0xc1, 0x02]);
    load(&mut memory, 0x3000, &[0x03]);
    assert_eq!(cpu.step(&mut memory), stepped(5));
    assert_eq!(memory.read_byte(0x0040), 0x82);
    assert!(cpu.flag(Flag::Carry));
    assert!(cpu.flag(Flag::Negative));
    assert_eq!(cpu.accumulator(), 0);
    assert_eq!(cpu.step(&mut memory), stepped(6));
    assert_eq!(memory.read_byte(0x3000), 0x01);
    assert!(cpu.flag(Flag::Carry));
    assert!(!cpu.flag(Flag::Negative));
    assert_eq!(cpu.step(&mut memory), stepped(5));
    assert_eq!(memory.read_byte(0x0041), 0x81);
    assert!(!cpu.flag(Flag::Carry));
    assert!(cpu.flag(Flag::Negative));
    assert_eq!(cpu.program_counter(), ORIGIN + 7);
}

#[test]
fn page_crossing_costs_a_modification_nothing() {
    let (mut cpu, mut memory) = boot(&[0xa2, 0x01, 0x3e, 0xff, 0x20, 0xfe, 0xff, 0x20, 0xbd, 0xff, 0x20]);
    load(&mut memory, 0x2100, &[0x40]);
    steps(&mut cpu, &mut memory, 1);
    assert_eq!(cpu.step(&mut memory), stepped(7));
    assert_eq!(memory.read_byte(0x2100), 0x80);
    assert_eq!(cpu.step(&mut memory), stepped(7));
    assert_eq!(memory.read_byte(0x2100), 0x81);
    assert_eq!(cpu.step(&mut memory), stepped(5));
    assert_eq!(cpu.accumulator(), 0x81);
}

#[test]
fn increment_and_decrement_memory_wrap() {
    let (mut cpu, mut memory) = boot(&[0xe6, 0x40, 0xc6, 0x40, 0xc6, 0x40]);
    load(&mut memory, 0x0040, &[0xff]);
    assert_eq!(cpu.step(&mut memory), stepped(5));
    assert_eq!(memory.read_byte(0x0040), 0x00);
    assert!(cpu.flag(Flag::Zero));
    assert_eq!(cpu.step(&mut memory), stepped(5));
    assert_eq!(memory.read_byte(0x0040), 0xff);
    assert!(cpu.flag(Flag::Negative));
    assert!(!cpu.flag(Flag::Zero));
    assert_eq!(cpu.step(&mut memory), stepped(5));
    assert_eq!(memory.read_byte(0x0040), 0xfe);
    assert_eq!(cpu.accumulator(), 0);
}

#[test]
fn transfers_and_index_arithmetic() {
    let (mut cpu, mut memory) = boot(&[
        0xa9, 0x80, // LDA #$80
        0xa8, // TAY
        0xc8, // INY
        0x88, // DEY
        0x88, // DEY
        0x98, // TYA
        0xaa, // TAX
        0xca, // DEX
        0x8a, // TXA
        0xba, // TSX
        0xa2, 0x00, // LDX #0
        0xca, // DEX
        0x9a, // TXS
        0x86, 0x10, // STX $10
        0x84, 0x11, // STY $11
    ]);
    steps(&mut cpu, &mut memory, 2);
    assert_eq!(cpu.index_y(), 0x80);
    steps(&mut cpu, &mut memory, 1);
    assert_eq!(cpu.index_y(), 0x81);
    steps(&mut cpu, &mut memory, 2);
    assert_eq!(cpu.index_y(), 0x7f);
    assert!(!cpu.flag(Flag::Negative));
    steps(&mut cpu, &mut memory, 1);
    assert_eq!(cpu.accumulator(), 0x7f);
    steps(&mut cpu, &mut memory, 2);
    assert_eq!(cpu.index_x(), 0x7e);
    steps(&mut cpu, &mut memory, 1);
    assert_eq!(cpu.accumulator(), 0x7e);
    steps(&mut cpu, &mut memory, 1);
    assert_eq!(cpu.index_x(), 0xfd);
    assert!(cpu.flag(Flag::Negative));
    steps(&mut cpu, &mut memory, 2);
    assert_eq!(cpu.index_x(), 0xff);
    let status = cpu.status().bits();
    steps(&mut cpu, &mut memory, 1);
    assert_eq!(cpu.stack_pointer(), 0xff);
    assert_eq!(cpu.status().bits(), status);
    assert_eq!(cpu.step(&mut memory), stepped(3));
    assert_eq!(cpu.step(&mut memory), stepped(3));
    assert_eq!(memory.read_byte(0x0010), 0xff);
    assert_eq!(memory.read_byte(0x0011), 0x7f);
}

#[test]
fn flag_instructions() {
    let (mut cpu, mut memory) = boot(&[0x38, 0xf8, 0x58, 0x18, 0xd8, 0x78, 0xa9, 0x50, 0x69, 0x50, 0xb8, 0xea]);
    steps(&mut cpu, &mut memory, 1);
    assert_eq!(cpu.status().bits(), 0x05);
    steps(&mut cpu, &mut memory, 1);
    assert_eq!(cpu.status().bits(), 0x0d);
    steps(&mut cpu, &mut memory, 1);
    assert_eq!(cpu.status().bits(), 0x09);
    steps(&mut cpu, &mut memory, 1);
    assert_eq!(cpu.status().bits(), 0x08);
    steps(&mut cpu, &mut memory, 1);
    assert_eq!(cpu.status().bits(), 0x00);
    steps(&mut cpu, &mut memory, 1);
    assert_eq!(cpu.status().bits(), 0x04);
    steps(&mut cpu, &mut memory, 2);
    assert_eq!(cpu.status().bits(), 0xc4);
    steps(&mut cpu, &mut memory, 1);
    assert_eq!(cpu.status().bits(), 0x84);
    let registers = cpu.registers();
    assert_eq!(cpu.step(&mut memory), stepped(2));
    let after = cpu.registers();
    assert_eq!(after.accumulator, registers.accumulator);
    assert_eq!(after.status.bits(), registers.status.bits());
    assert_eq!(after.program_counter, registers.program_counter + 1);
}

#[test]
fn mismatched_mode_is_reported_and_changes_nothing() {
    let mut table = OpCodeTable::standard();
    table.insert(OpCode::new(0x89, "STA", 2, 2, AddressingMode::Immediate));
    table.insert(OpCode::new(0x03, "TAX", 3, 2, AddressingMode::Absolute));
    table.insert(OpCode::new(0x04, "LDA", 1, 2, AddressingMode::Implicit));
    table.insert(OpCode::new(0x05, "INC", 1, 2, AddressingMode::Implicit));
    table.insert(OpCode::new(0x07, "BEQ", 2, 2, AddressingMode::Implicit));
    table.insert(OpCode::new(0x0b, "JSR", 3, 6, AddressingMode::Implicit));
    table.insert(OpCode::new(0x0c, "BRK", 1, 7, AddressingMode::Immediate));
    table.insert(OpCode::new(0x0f, "JMP", 3, 5, AddressingMode::IndirectX));
    for code in [0x89u8, 0x03, 0x04, 0x05, 0x07, 0x0b, 0x0c, 0x0f] {
        let mut copy = OpCodeTable::standard();
        for other in [0x89u8, 0x03, 0x04, 0x05, 0x07, 0x0b, 0x0c, 0x0f] {
            copy.insert(table.lookup(other).unwrap());
        }
        let (mut cpu, mut memory) = boot_with(copy, ORIGIN, &[0xa9, 0x11, code, 0x00, 0x00]);
        steps(&mut cpu, &mut memory, 1);
        assert_eq!(cpu.step(&mut memory), Err(CpuError::AddressingModeMismatch { code }));
        assert!(cpu.is_halted());
        assert_eq!(cpu.accumulator(), 0x11);
        assert_eq!(cpu.index_x(), 0);
        assert_eq!(cpu.program_counter(), ORIGIN + 2);
        assert_eq!(cpu.cycles_elapsed(), 2);
        assert_eq!(cpu.stack_pointer(), 0xfd);
        assert_eq!(memory.read_byte(ORIGIN + 3), 0x00);
    }
}

#[test]
fn entry_with_an_unknown_name_is_illegal() {
    let mut table = OpCodeTable::standard();
    table.insert(OpCode::new(0x02, "HLT", 1, 1, AddressingMode::Implicit));
    table.insert(OpCode::new(0xa9, "lda", 2, 2, AddressingMode::Immediate));
    let (mut cpu, mut memory) = boot_with(table, ORIGIN, &[0x02]);
    assert_eq!(cpu.step(&mut memory), Err(CpuError::IllegalOpcode { code: 0x02 }));
    assert!(cpu.is_halted());
    assert_eq!(cpu.program_counter(), ORIGIN);

    let mut table = OpCodeTable::standard();
    table.insert(OpCode::new(0xa9, "lda", 2, 2, AddressingMode::Immediate));
    let (mut cpu, mut memory) = boot_with(table, ORIGIN, &[0xa9, 0x01]);
    assert_eq!(cpu.step(&mut memory), Err(CpuError::IllegalOpcode { code: 0xa9 }));
}

#[test]
fn mismatch_is_found_before_a_fault() {
    let mut table = OpCodeTable::standard();
    table.insert(OpCode::new(0x89, "STA", 2, 2, AddressingMode::Immediate));
    let mut memory = Memory::with_size(0x0201).unwrap();
    load(&mut memory, 0x0200, &[0x89]);
    let mut vector = Memory::new();
    load(&mut vector, RESET_VECTOR, &[0x00, 0x02]);
    let mut cpu = Cpu::new(table);
    cpu.reset(&vector).unwrap();
    assert_eq!(cpu.step(&mut memory), Err(CpuError::AddressingModeMismatch { code: 0x89 }));
}

#[test]
fn the_table_decides_length_and_cost() {
    let mut table = OpCodeTable::new();
    table.insert(OpCode::new(0x01, "LDA", 3, 9, AddressingMode::Immediate));
    table.insert(OpCode::new(0x02, "NOP", 1, 0, AddressingMode::Implicit));
    table.insert(OpCode::new(0x03, "LDX", 2, 255, AddressingMode::AbsoluteY));
    table.insert(OpCode::new(0x04, "LDY", 2, 1, AddressingMode::Immediate));
    let (mut cpu, mut memory) = boot_with(table, ORIGIN, &[0x01, 0x42, 0xee, 0x02, 0x04, 0x01, 0x03, 0xff, 0x10]);
    load(&mut memory, 0x1100, &[0x66]);
    assert_eq!(cpu.step(&mut memory), stepped(9));
    assert_eq!(cpu.accumulator(), 0x42);
    assert_eq!(cpu.program_counter(), ORIGIN + 3);
    assert_eq!(cpu.step(&mut memory), stepped(0));
    assert_eq!(cpu.program_counter(), ORIGIN + 4);
    assert!(!cpu.is_halted());
    assert_eq!(cpu.step(&mut memory), stepped(1));
    assert_eq!(cpu.step(&mut memory), stepped(256));
    assert_eq!(cpu.index_x(), 0x66);
    assert_eq!(cpu.program_counter(), ORIGIN + 8);
    assert_eq!(cpu.cycles_elapsed(), 266);
    assert_eq!(cpu.step(&mut memory), Err(CpuError::IllegalOpcode { code: 0x10 }));
}

#[test]
fn a_run_of_free_instructions_ends_with_the_step_budget() {
    let mut table = OpCodeTable::new();
    table.insert(OpCode::new(0xea, "NOP", 1, 0, AddressingMode::Implicit));
    table.insert(OpCode::new(0x4c, "JMP", 3, 0, AddressingMode::Absolute));
    let (mut cpu, mut memory) = boot_with(table, ORIGIN, &[0xea, 0x4c, 0x00, 0x80]);
    assert_eq!(
        cpu.run_until(&mut memory, 10, 5),
        Ok(RunResult { cycles_spent: 0, steps_taken: 5, halted: false })
    );
    assert_eq!(cpu.program_counter(), ORIGIN + 1);
    assert_eq!(cpu.cycles_elapsed(), 0);
}

#[test]
fn a_loop_runs_until_its_budget() {
    let (mut cpu, mut memory) = boot(&[0xe8, 0xd0, 0xfd, 0x00]);
    assert_eq!(
        cpu.run_until(&mut memory, 50, u64::MAX),
        Ok(RunResult { cycles_spent: 50, steps_taken: 20, halted: false })
    );
    assert_eq!(cpu.index_x(), 10);
    assert_eq!(
        cpu.run_until(&mut memory, u64::MAX, u64::MAX),
        Ok(RunResult { cycles_spent: 246 * 5 - 1 + 7, steps_taken: 246 * 2 + 1, halted: true })
    );
    assert_eq!(cpu.index_x(), 0);
    assert_eq!(cpu.cycles_elapsed(), 256 * 5 - 1 + 7);
    assert!(cpu.flag(Flag::Break));
}

#[test]
fn push_outside_the_memory_faults() {
    let mut memory = Memory::with_size(0x0180).unwrap();
    load(&mut memory, 0x0000, &[0xa9, 0x55, 0x48]);
    let mut vector = Memory::new();
    load(&mut vector, RESET_VECTOR, &[0x00, 0x00]);
    let mut cpu = Cpu::new(full_table());
    cpu.reset(&vector).unwrap();
    steps(&mut cpu, &mut memory, 1);
    assert_eq!(cpu.step(&mut memory), Err(CpuError::MemoryFault { address: 0x01fd }));
    assert_eq!(cpu.stack_pointer(), 0xfd);
    assert_eq!(cpu.program_counter(), 0x0002);
    assert!(cpu.is_halted());
}

#[test]
fn call_that_cannot_push_both_bytes_pushes_none() {
    let mut memory = Memory::with_size(0x0180).unwrap();
    load(&mut memory, 0x0000, &[0xa2, 0x00, 0x9a, 0x20, 0x40, 0x00]);
    let mut vector = Memory::new();
    load(&mut vector, RESET_VECTOR, &[0x00, 0x00]);
    let mut cpu = Cpu::new(full_table());
    cpu.reset(&vector).unwrap();
    steps(&mut cpu, &mut memory, 2);
    assert_eq!(cpu.stack_pointer(), 0x00);
    assert_eq!(cpu.step(&mut memory), Err(CpuError::MemoryFault { address: 0x01ff }));
    assert_eq!(memory.read_byte(0x0100), 0x00);
    assert_eq!(cpu.stack_pointer(), 0x00);
    assert_eq!(cpu.program_counter(), 0x0003);
}

#[test]
fn pull_outside_the_memory_faults() {
    let mut memory = Memory::with_size(0x0100).unwrap();
    load(&mut memory, 0x0000, &[0x68]);
    let mut vector = Memory::new();
    load(&mut vector, RESET_VECTOR, &[0x00, 0x00]);
    let mut cpu = Cpu::new(full_table());
    cpu.reset(&vector).unwrap();
    assert_eq!(cpu.step(&mut memory), Err(CpuError::MemoryFault { address: 0x01fe }));
    assert_eq!(cpu.stack_pointer(), 0xfd);

    let mut memory = Memory::with_size(0x01ff).unwrap();
    load(&mut memory, 0x0000, &[0x60]);
    let mut cpu = Cpu::new(full_table());
    cpu.reset(&vector).unwrap();
    assert_eq!(cpu.step(&mut memory), Err(CpuError::MemoryFault { address: 0x01ff }));
    assert_eq!(cpu.stack_pointer(), 0xfd);
    assert_eq!(cpu.program_counter(), 0x0000);
}
