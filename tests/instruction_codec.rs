use ibm701::error::MachineError;
use ibm701::instruction::{pack_instructions, Instruction, Opcode};
use ibm701::word::HI_WORD_MASK;

#[test]
fn opcode_codes() {
    assert_eq!(Opcode::STOP.code(), 0);
    assert_eq!(Opcode::ADD.code(), 9);
    assert_eq!(Opcode::R_ADD.code(), 10);
    assert_eq!(Opcode::COPY.code(), 31);
    for code in 0..32u64 {
        assert_eq!(Opcode::from_code(code).map(|op| op.code()), Ok(code));
    }
}

#[test]
fn undefined_opcode_is_invalid() {
    assert_eq!(Opcode::from_code(32), Err(MachineError::InvalidOpcode(32)));
    assert_eq!(Opcode::from_code(1000), Err(MachineError::InvalidOpcode(1000)));
}

#[test]
fn instruction_bits() {
    let inst = Instruction::new(true, Opcode::R_ADD, 4);
    assert_eq!(inst.as_bits_low(), 0x2_A004);
    assert_eq!(inst.as_bits_high(), 0x2_A004 << 18);
    let stop = Instruction::new(false, Opcode::STOP, 0);
    assert_eq!(stop.as_bits_low(), 0);
    let tr = Instruction::new(false, Opcode::TR, 0xFFF);
    assert_eq!(tr.as_bits_low(), 0x1FFF);
}

#[test]
fn signed_addresses() {
    assert_eq!(Instruction::new(true, Opcode::ADD, 6).address_signed(), -6);
    assert_eq!(Instruction::new(false, Opcode::ADD, 6).address_signed(), 6);
}

#[test]
fn instruction_round_trip() {
    for (sign, op, addr) in [
        (true, Opcode::R_ADD, 4u16),
        (false, Opcode::STOP, 0),
        (true, Opcode::COPY, 4095),
        (false, Opcode::A_LEFT, 17),
    ] {
        let inst = Instruction::new(sign, op, addr);
        assert_eq!(Instruction::from_bits_low(inst.as_bits_low()), Ok(inst));
        assert_eq!(Instruction::from_bits_high(inst.as_bits_high()), Ok(inst));
    }
}

#[test]
fn decoding_ignores_the_other_half() {
    let low = Instruction::new(false, Opcode::TR, 12);
    let high = Instruction::new(true, Opcode::STORE, 99);
    let cell = low.as_bits_low() | high.as_bits_high();
    assert_eq!(Instruction::from_bits_low(cell), Ok(low));
    assert_eq!(Instruction::from_bits_high(cell), Ok(high));
}

#[test]
fn blank_half_decodes_as_copy() {
    let blank = Instruction::from_bits_high(HI_WORD_MASK).unwrap();
    assert_eq!(blank.opcode, Opcode::COPY);
    assert_eq!(blank.address, 0xFFF);
    assert!(blank.sign);
}

#[test]
fn pack_pairs_and_pads() {
    let list = [
        Instruction::new(true, Opcode::R_ADD, 4),
        Instruction::new(true, Opcode::ADD, 6),
        Instruction::new(true, Opcode::STORE, 10),
    ];
    let packed = pack_instructions(&list);
    assert_eq!(packed.len(), 2);
    assert_eq!(packed[0], 0x2_A004 | (0x2_9006 << 18));
    assert_eq!(packed[1], 0x2_C00A | HI_WORD_MASK);
    assert!(pack_instructions(&[]).is_empty());
}
