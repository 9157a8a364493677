use ibm701::emulator::{implemented, Emulator, INSTRUCTION_SPACE, MEMORY_CELLS};
use ibm701::error::MachineError;
use ibm701::instruction::{pack_instructions, Instruction, Opcode};
use ibm701::word::{get_full_word, FULL_WORD_MASK};

fn sum_program() -> Vec<u64> {
    pack_instructions(&[
        Instruction::new(true, Opcode::R_ADD, 4),
        Instruction::new(true, Opcode::ADD, 6),
        Instruction::new(true, Opcode::STORE, 10),
        Instruction::new(false, Opcode::STOP, 0),
    ])
}

#[test]
fn new_machine_is_blank() {
    let emu = Emulator::new();
    assert_eq!(emu.memory.len(), MEMORY_CELLS);
    assert!(emu.memory.iter().all(|&w| w == FULL_WORD_MASK));
    assert_eq!(emu.instruction_counter, 0);
    assert!(!emu.halt);
}

#[test]
fn sum_program_adds_two_words() {
    let mut emu = Emulator::new();
    emu.load(&sum_program());
    emu.write_memory(-4, 1000);
    emu.write_memory(-6, 234);
    assert_eq!(emu.run(100), Ok(()));
    assert_eq!(emu.read_memory(-10), 1234);
    assert_eq!(get_full_word(emu.memory[5]), 1234);
    assert_eq!(emu.accumulator_register.value_as_i64(), 1234);
    assert!(emu.halt);
    assert_eq!(emu.instruction_counter, 0);
    assert!(!emu.accumulator_register.overflow);
}

#[test]
fn sum_program_wraps_on_overflow() {
    let mut emu = Emulator::new();
    emu.load(&sum_program());
    emu.memory[2] = 0x7_FFFF_FFFC;
    emu.memory[3] = 7;
    assert_eq!(emu.run(100), Ok(()));
    assert_eq!(emu.read_memory(-10), 3);
    assert!(emu.accumulator_register.overflow);
}

#[test]
fn unimplemented_operation_is_reported() {
    let mut emu = Emulator::new();
    emu.load(&pack_instructions(&[Instruction::new(false, Opcode::SUB, 4)]));
    assert_eq!(
        emu.step(),
        Err(MachineError::UnimplementedOperation(Opcode::SUB))
    );
    assert_eq!(emu.instruction_counter, 1);
}

#[test]
fn blank_memory_stops_on_copy() {
    let mut emu = Emulator::new();
    assert_eq!(
        emu.run(10),
        Err(MachineError::UnimplementedOperation(Opcode::COPY))
    );
}

#[test]
fn transfer_loop_exhausts_budget() {
    let mut emu = Emulator::new();
    emu.load(&pack_instructions(&[Instruction::new(false, Opcode::TR, 0)]));
    assert_eq!(emu.run(50), Ok(()));
    assert!(!emu.halt);
    assert_eq!(emu.instruction_counter, 0);
}

#[test]
fn stop_then_run_resumes() {
    let mut emu = Emulator::new();
    emu.load(&pack_instructions(&[
        Instruction::new(false, Opcode::STOP, 2),
        Instruction::new(false, Opcode::TR, 0),
        Instruction::new(false, Opcode::STOP, 7),
    ]));
    assert_eq!(emu.run(10), Ok(()));
    assert_eq!(emu.instruction_counter, 2);
    assert_eq!(emu.run(10), Ok(()));
    assert_eq!(emu.instruction_counter, 7);
    assert!(emu.halt);
}

#[test]
fn shifts_clamp_to_35_bits() {
    let mut emu = Emulator::new();
    emu.accumulator_register.insert(0b1011);
    assert_eq!(emu.execute(Instruction::new(false, Opcode::A_LEFT, 2)), Ok(()));
    assert_eq!(emu.accumulator_register.value, 0b101100);
    assert_eq!(emu.execute(Instruction::new(false, Opcode::A_RIGHT, 3)), Ok(()));
    assert_eq!(emu.accumulator_register.value, 0b101);
    emu.accumulator_register.insert(0x7_0000_0001);
    assert_eq!(emu.execute(Instruction::new(false, Opcode::A_LEFT, 4)), Ok(()));
    assert_eq!(emu.accumulator_register.value, 0x10);
    assert_eq!(emu.execute(Instruction::new(false, Opcode::A_LEFT, 200)), Ok(()));
    assert_eq!(emu.accumulator_register.value, 0);
}

#[test]
fn half_word_store_keeps_other_half() {
    let mut emu = Emulator::new();
    emu.memory[3] = 0;
    emu.write_memory(6, -5);
    emu.write_memory(7, 9);
    assert_eq!(emu.memory[3], (0x2_0005 << 18) | 9);
    assert_eq!(emu.read_memory(6), -5);
    assert_eq!(emu.read_memory(7), 9);
}

#[test]
fn full_word_store_replaces_cell() {
    let mut emu = Emulator::new();
    emu.write_memory(-8, -42);
    assert_eq!(emu.memory[4], 0x8_0000_002A);
    assert_eq!(emu.read_memory(-8), -42);
    assert_eq!(emu.read_memory(-9), -42);
}

#[test]
fn counter_wraps_at_instruction_space() {
    let mut emu = Emulator::new();
    emu.instruction_counter = INSTRUCTION_SPACE - 1;
    emu.increment_instruction();
    assert_eq!(emu.instruction_counter, 0);
}

#[test]
fn reset_and_add_loads_half_word() {
    let mut emu = Emulator::new();
    emu.write_memory(10, -77);
    emu.accumulator_register.insert(500);
    assert_eq!(emu.execute(Instruction::new(false, Opcode::R_ADD, 10)), Ok(()));
    assert_eq!(emu.accumulator_register.value_as_i64(), -77);
    assert_eq!(emu.memory_register, -77);
}

#[test]
fn implemented_operations_are_enumerable() {
    let done: Vec<u64> = (0..32u64)
        .map(|c| Opcode::from_code(c).unwrap())
        .filter(|&op| implemented(op))
        .map(|op| op.code())
        .collect();
    assert_eq!(done, vec![0, 1, 9, 10, 12, 22, 23]);
    for code in 0..32u64 {
        let op = Opcode::from_code(code).unwrap();
        let mut emu = Emulator::new();
        let outcome = emu.execute(Instruction::new(false, op, 2));
        assert_eq!(outcome.is_ok(), implemented(op));
    }
}
