//! Instructions: an operation code, a 12-bit address and a sign, packed in an
//! 18-bit half word, two to a memory cell.
use vstd::prelude::*;

use crate::error::MachineError;
use crate::word::{signed, HI_WORD_MASK};

verus! {

/// The operation codes, in the order of their numeric codes (0 to 31).
#[allow(non_camel_case_types, clippy::upper_case_acronyms)]
#[derive(Debug, Clone, Copy, PartialEq, Eq, Structural)]
pub enum Opcode {
    /// Stop and transfer.
    STOP,
    /// Transfer.
    TR,
    /// Transfer on overflow.
    TR_OV,
    /// Transfer on plus.
    TR_PLUS,
    /// Transfer on zero.
    TR_ZERO,
    /// Subtract.
    SUB,
    /// Reset and subtract.
    R_SUB,
    /// Subtract absolute value.
    SUB_AB,
    /// No operation.
    NO_OP,
    /// Add.
    ADD,
    /// Reset and add.
    R_ADD,
    /// Add absolute value.
    ADD_AB,
    /// Store.
    STORE,
    /// Store address.
    STORE_A,
    /// Store the multiplier-quotient register.
    STORE_MQ,
    /// Load the multiplier-quotient register.
    LOAD_MQ,
    /// Multiply.
    MPY,
    /// Multiply and round.
    MPY_R,
    /// Divide.
    DIV,
    /// Round.
    ROUND,
    /// Long left shift.
    L_LEFT,
    /// Long right shift.
    L_RIGHT,
    /// Accumulator left shift.
    A_LEFT,
    /// Accumulator right shift.
    A_RIGHT,
    /// Prepare to read.
    READ,
    /// Prepare to read backward.
    READ_B,
    /// Prepare to write.
    WRITE,
    /// Write end of file.
    WRITE_EF,
    /// Rewind tape.
    REWIND,
    /// Set drum address.
    SET_DR,
    /// Sense and skip or control.
    SENSE,
    /// Copy and skip.
    COPY,
}

/// The operation that a numeric code names, if any.
pub open spec fn opcode_of(code: u64) -> Option<Opcode> {
    match code {
        0 => Some(Opcode::STOP),
        1 => Some(Opcode::TR),
        2 => Some(Opcode::TR_OV),
        3 => Some(Opcode::TR_PLUS),
        4 => Some(Opcode::TR_ZERO),
        5 => Some(Opcode::SUB),
        6 => Some(Opcode::R_SUB),
        7 => Some(Opcode::SUB_AB),
        8 => Some(Opcode::NO_OP),
        9 => Some(Opcode::ADD),
        10 => Some(Opcode::R_ADD),
        11 => Some(Opcode::ADD_AB),
        12 => Some(Opcode::STORE),
        13 => Some(Opcode::STORE_A),
        14 => Some(Opcode::STORE_MQ),
        15 => Some(Opcode::LOAD_MQ),
        16 => Some(Opcode::MPY),
        17 => Some(Opcode::MPY_R),
        18 => Some(Opcode::DIV),
        19 => Some(Opcode::ROUND),
        20 => Some(Opcode::L_LEFT),
        21 => Some(Opcode::L_RIGHT),
        22 => Some(Opcode::A_LEFT),
        23 => Some(Opcode::A_RIGHT),
        24 => Some(Opcode::READ),
        25 => Some(Opcode::READ_B),
        26 => Some(Opcode::WRITE),
        27 => Some(Opcode::WRITE_EF),
        28 => Some(Opcode::REWIND),
        29 => Some(Opcode::SET_DR),
        30 => Some(Opcode::SENSE),
        31 => Some(Opcode::COPY),
        _ => None,
    }
}

impl Opcode {
    /// The numeric code of the operation.
    pub open spec fn spec_code(self) -> nat {
        match self {
            Opcode::STOP => 0,
            Opcode::TR => 1,
            Opcode::TR_OV => 2,
            Opcode::TR_PLUS => 3,
            Opcode::TR_ZERO => 4,
            Opcode::SUB => 5,
            Opcode::R_SUB => 6,
            Opcode::SUB_AB => 7,
            Opcode::NO_OP => 8,
            Opcode::ADD => 9,
            Opcode::R_ADD => 10,
            Opcode::ADD_AB => 11,
            Opcode::STORE => 12,
            Opcode::STORE_A => 13,
            Opcode::STORE_MQ => 14,
            Opcode::LOAD_MQ => 15,
            Opcode::MPY => 16,
            Opcode::MPY_R => 17,
            Opcode::DIV => 18,
            Opcode::ROUND => 19,
            Opcode::L_LEFT => 20,
            Opcode::L_RIGHT => 21,
            Opcode::A_LEFT => 22,
            Opcode::A_RIGHT => 23,
            Opcode::READ => 24,
            Opcode::READ_B => 25,
            Opcode::WRITE => 26,
            Opcode::WRITE_EF => 27,
            Opcode::REWIND => 28,
            Opcode::SET_DR => 29,
            Opcode::SENSE => 30,
            Opcode::COPY => 31,
        }
    }

    /// The numeric code of the operation.
    pub fn code(self) -> (r: u64)
        ensures
            r == self.spec_code(),
    {
        match self {
            Opcode::STOP => 0,
            Opcode::TR => 1,
            Opcode::TR_OV => 2,
            Opcode::TR_PLUS => 3,
            Opcode::TR_ZERO => 4,
            Opcode::SUB => 5,
            Opcode::R_SUB => 6,
            Opcode::SUB_AB => 7,
            Opcode::NO_OP => 8,
            Opcode::ADD => 9,
            Opcode::R_ADD => 10,
            Opcode::ADD_AB => 11,
            Opcode::STORE => 12,
            Opcode::STORE_A => 13,
            Opcode::STORE_MQ => 14,
            Opcode::LOAD_MQ => 15,
            Opcode::MPY => 16,
            Opcode::MPY_R => 17,
            Opcode::DIV => 18,
            Opcode::ROUND => 19,
            Opcode::L_LEFT => 20,
            Opcode::L_RIGHT => 21,
            Opcode::A_LEFT => 22,
            Opcode::A_RIGHT => 23,
            Opcode::READ => 24,
            Opcode::READ_B => 25,
            Opcode::WRITE => 26,
            Opcode::WRITE_EF => 27,
            Opcode::REWIND => 28,
            Opcode::SET_DR => 29,
            Opcode::SENSE => 30,
            Opcode::COPY => 31,
        }
    }

    /// The operation that `code` names; `InvalidOpcode` where none does.
    pub fn from_code(code: u64) -> (r: Result<Opcode, MachineError>)
        ensures
            r == (match opcode_of(code) {
                Some(op) => Ok(op),
                None => Err(MachineError::InvalidOpcode(code)),
            }),
    {
        match code {
            0 => Ok(Opcode::STOP),
            1 => Ok(Opcode::TR),
            2 => Ok(Opcode::TR_OV),
            3 => Ok(Opcode::TR_PLUS),
            4 => Ok(Opcode::TR_ZERO),
            5 => Ok(Opcode::SUB),
            6 => Ok(Opcode::R_SUB),
            7 => Ok(Opcode::SUB_AB),
            8 => Ok(Opcode::NO_OP),
            9 => Ok(Opcode::ADD),
            10 => Ok(Opcode::R_ADD),
            11 => Ok(Opcode::ADD_AB),
            12 => Ok(Opcode::STORE),
            13 => Ok(Opcode::STORE_A),
            14 => Ok(Opcode::STORE_MQ),
            15 => Ok(Opcode::LOAD_MQ),
            16 => Ok(Opcode::MPY),
            17 => Ok(Opcode::MPY_R),
            18 => Ok(Opcode::DIV),
            19 => Ok(Opcode::ROUND),
            20 => Ok(Opcode::L_LEFT),
            21 => Ok(Opcode::L_RIGHT),
            22 => Ok(Opcode::A_LEFT),
            23 => Ok(Opcode::A_RIGHT),
            24 => Ok(Opcode::READ),
            25 => Ok(Opcode::READ_B),
            26 => Ok(Opcode::WRITE),
            27 => Ok(Opcode::WRITE_EF),
            28 => Ok(Opcode::REWIND),
            29 => Ok(Opcode::SET_DR),
            30 => Ok(Opcode::SENSE),
            31 => Ok(Opcode::COPY),
            _ => Err(MachineError::InvalidOpcode(code)),
        }
    }
}

/// Every operation has a code below 32, and that code names it.
pub proof fn lemma_code_round_trip(op: Opcode)
    ensures
        op.spec_code() < 32,
        opcode_of(op.spec_code() as u64) == Some(op),
{
}

/// Exactly the codes below 32 name an operation.
pub proof fn lemma_defined_codes(code: u64)
    ensures
        opcode_of(code) is Some <==> code < 32,
        opcode_of(code) matches Some(op) ==> op.spec_code() == code,
{
}

/// One instruction: an operation, a 12-bit address and the address's sign.
#[derive(Debug, Clone, Copy, PartialEq, Eq, Structural)]
pub struct Instruction {
    pub opcode: Opcode,
    pub address: u16,
    pub sign: bool,
}

/// The instruction that an 18-bit field holds: the sign in bit 17, the
/// opcode in bits 12 to 16, the address in bits 0 to 11. Bits above 17 are
/// not read.
pub open spec fn decoded(field: nat) -> Result<Instruction, MachineError> {
    let code = ((field / 0x1000) % 32) as u64;
    match opcode_of(code) {
        Some(op) => Ok(
            Instruction {
                opcode: op,
                address: (field % 0x1000) as u16,
                sign: (field / 0x2_0000) % 2 == 1,
            },
        ),
        None => Err(MachineError::InvalidOpcode(code)),
    }
}

/// The cell that packs `list[2 * j]` in its low half and `list[2 * j + 1]`,
/// or the blank pattern (all ones) where the list has ended, in its high half.
pub open spec fn packed_cell(list: Seq<Instruction>, j: int) -> nat {
    (list[2 * j].low_bits() + if 2 * j + 1 < list.len() {
        list[2 * j + 1].low_bits() * 0x4_0000
    } else {
        HI_WORD_MASK as nat
    }) as nat
}

impl Instruction {
    /// The address fits in its 12-bit field.
    pub open spec fn wf(&self) -> bool {
        self.address < 0x1000
    }

    /// The address, negated when the sign is set.
    pub open spec fn signed_address(&self) -> int {
        signed(self.sign, self.address as nat)
    }

    /// The 18-bit field that holds the instruction.
    pub open spec fn low_bits(&self) -> nat {
        ((if self.sign { 0x2_0000nat } else { 0nat }) + self.opcode.spec_code() * 0x1000
            + self.address) as nat
    }

    pub fn new(sign: bool, opcode: Opcode, address: u16) -> (r: Self)
        requires
            address < 0x1000,
        ensures
            r == (Instruction { opcode, address, sign }),
    {
        Self { opcode, address, sign }
    }

    /// The address, negated when the sign is set.
    pub fn address_signed(&self) -> (r: i16)
        requires
            self.wf(),
        ensures
            r == self.signed_address(),
    {
        if !self.sign {
            self.address as i16
        } else {
            -(self.address as i16)
        }
    }

    /// The instruction in the high half of a cell.
    pub fn as_bits_high(&self) -> (r: u64)
        requires
            self.wf(),
        ensures
            r == self.low_bits() * 0x4_0000,
    {
        let low = self.as_bits_low();
        assert(low < 0x4_0000 ==> low << 18 == low * 0x4_0000) by (bit_vector);
        low << 18
    }

    /// The instruction in the low half of a cell.
    pub fn as_bits_low(&self) -> (r: u64)
        requires
            self.wf(),
        ensures
            r == self.low_bits(),
            r < 0x4_0000,
    {
        let s: u64 = if self.sign {
            1
        } else {
            0
        };
        let c = self.opcode.code();
        proof {
            lemma_code_round_trip(self.opcode);
        }
        let a = self.address as u64;
        assert((s < 2 && c < 32 && a < 0x1000) ==> (s << 17) | (c << 12) | a == s * 0x2_0000 + c
            * 0x1000 + a) by (bit_vector);
        (s << 17) | (c << 12) | a
    }

    /// Decodes the instruction in the high half of `bytes`.
    pub fn from_bits_high(bytes: u64) -> (r: Result<Self, MachineError>)
        ensures
            r == decoded(bytes as nat / 0x4_0000),
    {
        assert(bytes >> 18 == bytes / 0x4_0000) by (bit_vector);
        Self::from_bits_low(bytes >> 18)
    }

    /// Decodes the instruction in the low half of `bytes`; `InvalidOpcode`
    /// where the opcode field names no operation.
    pub fn from_bits_low(bytes: u64) -> (r: Result<Self, MachineError>)
        ensures
            r == decoded(bytes as nat),
    {
        let sign = bytes & 0x2_0000 != 0;
        let code = (bytes & 0x1_F000) >> 12;
        let address = (bytes & 0xFFF) as u16;
        assert((bytes & 0x2_0000 != 0) == ((bytes / 0x2_0000) % 2 == 1)) by (bit_vector);
        assert((bytes & 0x1_F000) >> 12 == (bytes / 0x1000) % 32) by (bit_vector);
        assert(bytes & 0xFFF == bytes % 0x1000) by (bit_vector);
        match Opcode::from_code(code) {
            Ok(opcode) => Ok(Instruction { opcode, address, sign }),
            Err(e) => Err(e),
        }
    }
}

/// Decoding an encoded instruction, from either half of a cell, gives it
/// back.
pub proof fn lemma_instruction_round_trip(inst: Instruction)
    requires
        inst.wf(),
    ensures
        decoded(inst.low_bits()) == Ok::<Instruction, MachineError>(inst),
        decoded((inst.low_bits() * 0x4_0000) / 0x4_0000) == Ok::<Instruction, MachineError>(inst),
{
    lemma_code_round_trip(inst.opcode);
}

/// Packs the instructions two to a cell, the first of each pair in the low
/// half; an odd last instruction gets the blank pattern in its high half.
pub fn pack_instructions(inst_list: &[Instruction]) -> (r: Vec<u64>)
    requires
        forall|i: int| 0 <= i < inst_list@.len() ==> (#[trigger] inst_list@[i]).wf(),
    ensures
        r@.len() == (inst_list@.len() + 1) / 2,
        forall|j: int| 0 <= j < r@.len() ==> r@[j] == packed_cell(inst_list@, j),
{
    let mut inst_bits: Vec<u64> = Vec::new();
    let n = inst_list.len();
    let mut i: usize = 0;
    while i < n
        invariant
            n == inst_list@.len(),
            i <= n,
            i < n ==> i % 2 == 0,
            inst_bits@.len() == (i + 1) / 2,
            forall|k: int| 0 <= k < inst_list@.len() ==> (#[trigger] inst_list@[k]).wf(),
            forall|j: int| 0 <= j < inst_bits@.len() ==> inst_bits@[j] == packed_cell(inst_list@, j),
        decreases n - i,
    {
        let low = inst_list[i].as_bits_low();
        let paired = i + 1 < n;
        let high = if paired {
            inst_list[i + 1].as_bits_high()
        } else {
            HI_WORD_MASK
        };
        assert((low < 0x4_0000 && high % 0x4_0000 == 0) ==> low | high == low + high) by (bit_vector);
        assert(HI_WORD_MASK % 0x4_0000 == 0);
        assert(low | high == packed_cell(inst_list@, (i / 2) as int));
        inst_bits.push(low | high);
        i = if paired {
            i + 2
        } else {
            n
        };
    }
    inst_bits
}

} // verus!
