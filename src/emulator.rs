//! The central processor: memory, registers and the fetch-execute cycle.
//!
//! A logical address selects its memory cell by its absolute value halved. A
//! negative address reads or writes the whole cell as a full word; a
//! non-negative one reads or writes one half of it as a half word, the high
//! half for an even address and the low half for an odd one.
use vstd::prelude::*;

use crate::accumulator::{lemma_operations_keep_wf, Accumulator};
use crate::error::MachineError;
use crate::instruction::{
    decoded, lemma_instruction_round_trip, packed_cell, Instruction, Opcode,
};
use crate::word::{
    abs, full_word_encoding, full_word_value, get_full_word, get_half_word, half_field,
    half_field_encoding, half_word_encoding, half_word_value, lemma_full_word_round_trip,
    to_full_word, to_half_word, FULL_WORD_MASK, FULL_WORD_VALUE_MASK, HI_WORD_MASK, LO_WORD_MASK,
};

verus! {

/// The number of cells in memory.
pub const MEMORY_CELLS: usize = 2048;
/// The size of the instruction space: the counter runs below it, and wraps.
pub const INSTRUCTION_SPACE: u16 = 4096;

/// The whole machine: registers, memory and the halt indicator.
#[derive(Debug)]
pub struct Emulator {
    /// The half-word address of the next instruction.
    pub instruction_counter: u16,
    /// The operand that the last memory-reading instruction fetched.
    pub memory_register: i64,
    pub accumulator_register: Accumulator,
    pub multiplier_quotient_register: i64,
    /// The cells, each a 36-bit word in a 64-bit container.
    pub memory: Vec<u64>,
    pub halt: bool,
}

/// The state of an `Emulator`, with memory as a sequence.
pub struct MachineState {
    pub instruction_counter: u16,
    pub memory_register: i64,
    pub accumulator: Accumulator,
    pub multiplier_quotient: i64,
    pub memory: Seq<u64>,
    pub halt: bool,
}

impl View for Emulator {
    type V = MachineState;

    open spec fn view(&self) -> MachineState {
        MachineState {
            instruction_counter: self.instruction_counter,
            memory_register: self.memory_register,
            accumulator: self.accumulator_register,
            multiplier_quotient: self.multiplier_quotient_register,
            memory: self.memory@,
            halt: self.halt,
        }
    }
}

/// An address within the instruction space, in either sign.
pub open spec fn valid_location(location: int) -> bool {
    -0x1000 < location < 0x1000
}

/// The cell that a logical address selects.
pub open spec fn cell_of(location: int) -> int {
    (abs(location) / 2) as int
}

/// The half that a non-negative logical address selects (`true`: the high
/// half).
pub open spec fn high_half(location: int) -> bool {
    location % 2 == 0
}

/// The cell `old` after writing `value` at `location`: the whole cell as a
/// full word for a negative location; otherwise one half replaced by the half
/// word, the other bits kept.
pub open spec fn written_cell(old: u64, location: int, value: int) -> nat {
    if location < 0 {
        full_word_encoding(value)
    } else {
        let portion = high_half(location);
        let scale: nat = if portion {
            0x4_0000
        } else {
            1
        };
        (old - half_field(old as nat, portion) * scale + half_word_encoding(value, portion)) as nat
    }
}

/// The accumulator magnitude shifted left by `n`, truncated to 35 bits.
pub open spec fn shifted_left(value: u64, n: u16) -> u64 {
    if n >= 35 {
        0
    } else {
        (value << n) & FULL_WORD_VALUE_MASK
    }
}

/// The accumulator magnitude shifted right by `n`.
pub open spec fn shifted_right(value: u64, n: u16) -> u64 {
    if n >= 35 {
        0
    } else {
        value >> n
    }
}

/// The operations that this machine carries out; the others are reported as
/// unimplemented.
pub open spec fn is_implemented(op: Opcode) -> bool {
    match op {
        Opcode::STOP | Opcode::TR | Opcode::ADD | Opcode::R_ADD | Opcode::STORE | Opcode::A_LEFT
        | Opcode::A_RIGHT => true,
        _ => false,
    }
}

/// Whether this machine carries out `op`.
pub fn implemented(op: Opcode) -> (r: bool)
    ensures
        r == is_implemented(op),
{
    match op {
        Opcode::STOP | Opcode::TR | Opcode::ADD | Opcode::R_ADD | Opcode::STORE | Opcode::A_LEFT
        | Opcode::A_RIGHT => true,
        _ => false,
    }
}

impl MachineState {
    /// Memory has its full size, the counter is within the instruction space,
    /// and the accumulator's magnitude fits in 35 bits.
    pub open spec fn wf(&self) -> bool {
        &&& self.memory.len() == MEMORY_CELLS
        &&& self.instruction_counter < INSTRUCTION_SPACE
        &&& self.accumulator.wf()
    }

    /// The value at a logical address.
    pub open spec fn read(&self, location: int) -> int {
        let raw = self.memory[cell_of(location)] as nat;
        if location < 0 {
            full_word_value(raw)
        } else {
            half_word_value(raw, high_half(location))
        }
    }

    /// The state after writing `value` at a logical address.
    pub open spec fn written(self, location: int, value: int) -> MachineState {
        let cell = cell_of(location);
        MachineState {
            memory: self.memory.update(cell, written_cell(self.memory[cell], location, value) as u64),
            ..self
        }
    }

    /// The state after the counter advances by one, wrapping at the end of
    /// the instruction space.
    pub open spec fn advanced(self) -> MachineState {
        MachineState {
            instruction_counter: ((self.instruction_counter + 1) % 0x1000) as u16,
            ..self
        }
    }

    /// The state after carrying out `inst`, and whether it was carried out.
    pub open spec fn executed(self, inst: Instruction) -> (MachineState, Result<(), MachineError>) {
        let acc = self.accumulator;
        match inst.opcode {
            Opcode::STOP => (
                MachineState { instruction_counter: inst.address, halt: true, ..self },
                Ok(()),
            ),
            Opcode::TR => (MachineState { instruction_counter: inst.address, ..self }, Ok(())),
            Opcode::ADD => {
                let operand = self.read(inst.signed_address());
                (
                    MachineState {
                        memory_register: operand as i64,
                        accumulator: acc.added(operand),
                        ..self
                    },
                    Ok(()),
                )
            },
            Opcode::R_ADD => {
                let operand = self.read(inst.signed_address());
                let cleared = Accumulator { sign: false, value: 0, overflow: acc.overflow };
                (
                    MachineState {
                        memory_register: operand as i64,
                        accumulator: cleared.inserted(operand),
                        ..self
                    },
                    Ok(()),
                )
            },
            Opcode::STORE => (self.written(inst.signed_address(), acc.signed_value()), Ok(())),
            Opcode::A_LEFT => (
                MachineState {
                    accumulator: Accumulator { value: shifted_left(acc.value, inst.address), ..acc },
                    ..self
                },
                Ok(()),
            ),
            Opcode::A_RIGHT => (
                MachineState {
                    accumulator: Accumulator { value: shifted_right(acc.value, inst.address), ..acc },
                    ..self
                },
                Ok(()),
            ),
            _ => (self, Err(MachineError::UnimplementedOperation(inst.opcode))),
        }
    }

    /// The instruction that the counter points at: the low half of its cell
    /// for an even counter, the high half for an odd one.
    pub open spec fn fetched(&self) -> Result<Instruction, MachineError> {
        let c = self.instruction_counter;
        let raw = self.memory[(c / 2) as int] as nat;
        if c % 2 == 0 {
            decoded(raw)
        } else {
            decoded(raw / 0x4_0000)
        }
    }

    /// One cycle: fetch and decode, advance the counter, execute. A decoding
    /// failure leaves the state alone; an unimplemented operation leaves it
    /// with the counter advanced.
    pub open spec fn stepped(self) -> (MachineState, Result<(), MachineError>) {
        match self.fetched() {
            Err(e) => (self, Err(e)),
            Ok(inst) => self.advanced().executed(inst),
        }
    }

    /// Up to `fuel` cycles, stopping at a halt or at the first failure.
    pub open spec fn ran(self, fuel: nat) -> (MachineState, Result<(), MachineError>)
        decreases fuel,
    {
        if self.halt || fuel == 0 {
            (self, Ok(()))
        } else {
            let (next, outcome) = self.stepped();
            if outcome is Err {
                (next, outcome)
            } else {
                next.ran((fuel - 1) as nat)
            }
        }
    }
}

impl Emulator {
    /// A machine at address 0, with cleared registers and every cell blank
    /// (all 36 bits set).
    pub fn new() -> (r: Self)
        ensures
            r@.wf(),
            r@.instruction_counter == 0,
            r@.memory_register == 0,
            r@.multiplier_quotient == 0,
            r@.accumulator == (Accumulator { sign: false, overflow: false, value: 0 }),
            r@.memory == Seq::new(MEMORY_CELLS as nat, |i: int| FULL_WORD_MASK),
            !r@.halt,
    {
        let memory = vec![FULL_WORD_MASK; MEMORY_CELLS];
        assert(memory@ =~= Seq::new(MEMORY_CELLS as nat, |i: int| FULL_WORD_MASK));
        Self {
            instruction_counter: 0,
            accumulator_register: Accumulator::default(),
            multiplier_quotient_register: 0,
            memory_register: 0,
            memory,
            halt: false,
        }
    }

    /// Copies a memory image into the cells from address 0 on.
    pub fn load(&mut self, image: &[u64])
        requires
            old(self)@.wf(),
            image@.len() <= MEMORY_CELLS,
        ensures
            final(self)@ == (MachineState {
                memory: image@ + old(self)@.memory.skip(image@.len() as int),
                ..old(self)@
            }),
    {
        let n = image.len();
        let mut i: usize = 0;
        assert(self@.memory =~= image@.take(0) + self@.memory.skip(0));
        while i < n
            invariant
                n == image@.len(),
                n <= MEMORY_CELLS,
                i <= n,
                self@ == (MachineState {
                    memory: image@.take(i as int) + old(self)@.memory.skip(i as int),
                    ..old(self)@
                }),
                old(self)@.memory.len() == MEMORY_CELLS,
            decreases n - i,
        {
            self.memory.set(i, image[i]);
            i = i + 1;
            assert(self@.memory =~= image@.take(i as int) + old(self)@.memory.skip(i as int));
        }
        assert(image@.take(n as int) =~= image@);
    }

    /// Advances the counter by one, wrapping to 0 at the end of the
    /// instruction space.
    pub fn increment_instruction(&mut self)
        requires
            old(self)@.instruction_counter < INSTRUCTION_SPACE,
        ensures
            final(self)@ == old(self)@.advanced(),
    {
        self.instruction_counter = self.instruction_counter + 1;

        if self.instruction_counter >= INSTRUCTION_SPACE {
            self.instruction_counter = 0;
        }
    }

    /// The value at a logical address.
    pub fn read_memory(&self, location: i16) -> (r: i64)
        requires
            self@.wf(),
            valid_location(location as int),
        ensures
            r == self@.read(location as int),
    {
        let cell: usize = if location < 0 {
            (-location) as usize / 2
        } else {
            location as usize / 2
        };
        if location < 0 {
            get_full_word(self.memory[cell])
        } else {
            get_half_word(self.memory[cell], location % 2 == 0)
        }
    }

    /// Writes `value` at a logical address: the whole cell for a negative
    /// address, one half of it otherwise.
    pub fn write_memory(&mut self, location: i16, value: i64)
        requires
            old(self)@.wf(),
            valid_location(location as int),
        ensures
            final(self)@ == old(self)@.written(location as int, value as int),
    {
        let cell: usize = if location < 0 {
            (-location) as usize / 2
        } else {
            location as usize / 2
        };
        let old_word = self.memory[cell];
        let new_word = if location < 0 {
            to_full_word(value)
        } else if location % 2 == 0 {
            let e = to_half_word(value, true);
            proof {
                let h = half_field_encoding(value as int) as u64;
                assert(h < 0x4_0000 ==> h << 18 == h * 0x4_0000) by (bit_vector);
                assert(h < 0x4_0000 ==> (old_word & !0xF_FFFC_0000u64) | (h << 18) == old_word - (
                (old_word / 0x4_0000) % 0x4_0000) * 0x4_0000 + h * 0x4_0000) by (bit_vector);
            }
            (old_word & !HI_WORD_MASK) | e
        } else {
            let e = to_half_word(value, false);
            proof {
                let h = e;
                assert(h < 0x4_0000 ==> (old_word & !0x3_FFFFu64) | h == old_word - old_word
                    % 0x4_0000 + h) by (bit_vector);
            }
            (old_word & !LO_WORD_MASK) | e
        };
        self.memory.set(cell, new_word);
    }
    /// Carries out `inst`. An operation that this machine does not carry out
    /// is reported as `UnimplementedOperation`, and changes nothing.
    pub fn execute(&mut self, inst: Instruction) -> (r: Result<(), MachineError>)
        requires
            old(self)@.wf(),
            inst.wf(),
        ensures
            (final(self)@, r) == old(self)@.executed(inst),
            r is Err <==> !is_implemented(inst.opcode),
    {
        match inst.opcode {
            Opcode::STOP => {
                self.instruction_counter = inst.address;
                self.halt = true;
                Ok(())
            },
            Opcode::TR => {
                self.instruction_counter = inst.address;
                Ok(())
            },
            Opcode::ADD => {
                self.memory_register = self.read_memory(inst.address_signed());
                self.accumulator_register.add(self.memory_register);
                Ok(())
            },
            Opcode::R_ADD => {
                self.memory_register = self.read_memory(inst.address_signed());
                self.accumulator_register.reset();
                self.accumulator_register.insert(self.memory_register);
                Ok(())
            },
            Opcode::STORE => {
                let value = self.accumulator_register.value_as_i64();
                self.write_memory(inst.address_signed(), value);
                Ok(())
            },
            Opcode::A_LEFT => {
                let n = inst.address;
                if n >= 35 {
                    self.accumulator_register.value = 0;
                } else {
                    self.accumulator_register.value = (self.accumulator_register.value << n)
                        & FULL_WORD_VALUE_MASK;
                }
                Ok(())
            },
            Opcode::A_RIGHT => {
                let n = inst.address;
                if n >= 35 {
                    self.accumulator_register.value = 0;
                } else {
                    self.accumulator_register.value = self.accumulator_register.value >> n;
                }
                Ok(())
            },
            _ => Err(MachineError::UnimplementedOperation(inst.opcode)),
        }
    }

    /// One fetch-execute cycle. The counter advances before the instruction
    /// runs, so that a transfer overrides it. A decoding failure leaves the
    /// machine as it was.
    pub fn step(&mut self) -> (r: Result<(), MachineError>)
        requires
            old(self)@.wf(),
        ensures
            (final(self)@, r) == old(self)@.stepped(),
            final(self)@.wf(),
    {
        proof {
            lemma_step_keeps_wf(self@);
        }
        let counter_value = self.instruction_counter as usize;
        let inst_value = self.memory[counter_value / 2];

        let decoded = if counter_value % 2 == 0 {
            Instruction::from_bits_low(inst_value)
        } else {
            Instruction::from_bits_high(inst_value)
        };
        let instruction = match decoded {
            Ok(inst) => inst,
            Err(e) => {
                return Err(e);
            },
        };

        self.increment_instruction();
        self.execute(instruction)
    }

    /// Clears the halt indicator and runs cycles until the machine halts, a
    /// cycle fails, or `max_steps` cycles have run.
    pub fn run(&mut self, max_steps: u64) -> (r: Result<(), MachineError>)
        requires
            old(self)@.wf(),
        ensures
            (final(self)@, r) == (MachineState { halt: false, ..old(self)@ }).ran(max_steps as nat),
            final(self)@.wf(),
    {
        self.halt = false;
        let mut steps: u64 = 0;
        while !self.halt && steps < max_steps
            invariant
                self@.wf(),
                steps <= max_steps,
                (MachineState { halt: false, ..old(self)@ }).ran(max_steps as nat) == self@.ran(
                    (max_steps - steps) as nat,
                ),
            decreases max_steps - steps,
        {
            match self.step() {
                Ok(()) => {},
                Err(e) => {
                    return Err(e);
                },
            }
            steps = steps + 1;
        }
        Ok(())
    }
}

/// Every cycle keeps the machine well formed: memory keeps its size, the
/// counter stays within the instruction space, and the accumulator's
/// magnitude within 35 bits.
pub proof fn lemma_step_keeps_wf(s: MachineState)
    requires
        s.wf(),
    ensures
        s.stepped().0.wf(),
{
    if let Ok(inst) = s.fetched() {
        let a = s.advanced();
        let acc = a.accumulator;
        let v = acc.value;
        let n = inst.address;
        assert(n < 35 ==> (v << n) & 0x7_FFFF_FFFF < 0x8_0000_0000) by (bit_vector);
        assert(n < 35 ==> v >> n <= v) by (bit_vector);
        if inst.opcode == Opcode::R_ADD {
            let operand = a.read(inst.signed_address());
            lemma_operations_keep_wf(
                Accumulator { sign: false, value: 0, overflow: acc.overflow },
                operand,
            );
        }
        lemma_operations_keep_wf(acc, a.read(inst.signed_address()));
    }
}

/// Running keeps the machine well formed.
pub proof fn lemma_run_keeps_wf(s: MachineState, fuel: nat)
    requires
        s.wf(),
    ensures
        s.ran(fuel).0.wf(),
    decreases fuel,
{
    if !s.halt && fuel > 0 {
        lemma_step_keeps_wf(s);
        if s.stepped().1 is Ok {
            lemma_run_keeps_wf(s.stepped().0, (fuel - 1) as nat);
        }
    }
}

/// A program of four instructions: reset and add full word 4, add full word
/// 6, store at full word 10, stop and transfer to 0.
pub open spec fn sum_program() -> Seq<Instruction> {
    seq![
        Instruction { opcode: Opcode::R_ADD, address: 4, sign: true },
        Instruction { opcode: Opcode::ADD, address: 6, sign: true },
        Instruction { opcode: Opcode::STORE, address: 10, sign: true },
        Instruction { opcode: Opcode::STOP, address: 0, sign: false },
    ]
}

/// A run that does not stop at once is one cycle followed by the rest.
proof fn lemma_ran_one_step(s: MachineState, fuel: nat)
    requires
        !s.halt,
        fuel > 0,
        s.stepped().1 is Ok,
    ensures
        s.ran(fuel) == s.stepped().0.ran((fuel - 1) as nat),
{
}

/// Decoding reads only the low 18 bits of a field.
proof fn lemma_decoded_low_bits(f: u64)
    ensures
        decoded(f as nat) == decoded((f % 0x4_0000) as nat),
{
    assert((f / 0x1000) % 32 == ((f % 0x4_0000) / 0x1000) % 32) by (bit_vector);
    assert(f % 0x1000 == (f % 0x4_0000) % 0x1000) by (bit_vector);
    assert((f / 0x2_0000) % 2 == ((f % 0x4_0000) / 0x2_0000) % 2) by (bit_vector);
}

/// With the sum program in cells 0 and 1, the counter values 0 to 3 fetch
/// its four instructions in order.
proof fn lemma_sum_program_fetch(t: MachineState, k: int)
    requires
        t.memory.len() == MEMORY_CELLS,
        t.memory[0] == packed_cell(sum_program(), 0),
        t.memory[1] == packed_cell(sum_program(), 1),
        t.instruction_counter == k,
        0 <= k < 4,
    ensures
        t.fetched() == Ok::<Instruction, MachineError>(sum_program()[k]),
{
    let prog = sum_program();
    lemma_instruction_round_trip(prog[k]);
    assert(packed_cell(prog, 0) == 0x2_A004 + 0x2_9006 * 0x4_0000);
    assert(packed_cell(prog, 1) == 0x2_C00A);
    lemma_decoded_low_bits(t.memory[0]);
    lemma_decoded_low_bits(t.memory[1]);
}

/// The sum program's cells, at counter `k` of a running, well-formed machine.
pub open spec fn sum_program_at(t: MachineState, k: int) -> bool {
    &&& t.wf()
    &&& !t.halt
    &&& t.instruction_counter == k
    &&& t.memory[0] == packed_cell(sum_program(), 0)
    &&& t.memory[1] == packed_cell(sum_program(), 1)
}

/// The first cycle of the sum program loads full word 4.
proof fn lemma_sum_program_first(t: MachineState, x: int)
    requires
        sum_program_at(t, 0),
        t.memory[2] == full_word_encoding(x),
        abs(x) < 0x8_0000_0000,
    ensures
        t.stepped().1 is Ok,
        sum_program_at(t.stepped().0, 1),
        t.stepped().0.memory == t.memory,
        t.stepped().0.accumulator.signed_value() == x,
{
    lemma_sum_program_fetch(t, 0);
    lemma_full_word_round_trip(x);
    lemma_step_keeps_wf(t);
}

/// The second cycle of the sum program adds full word 6.
proof fn lemma_sum_program_second(t: MachineState, x: int, y: int)
    requires
        sum_program_at(t, 1),
        t.accumulator.signed_value() == x,
        t.memory[3] == full_word_encoding(y),
        abs(y) < 0x8_0000_0000,
        abs(x + y) < 0x8_0000_0000,
    ensures
        t.stepped().1 is Ok,
        sum_program_at(t.stepped().0, 2),
        t.stepped().0.accumulator.signed_value() == x + y,
{
    lemma_sum_program_fetch(t, 1);
    lemma_full_word_round_trip(y);
    lemma_step_keeps_wf(t);
}

/// The third cycle of the sum program stores at full word 10.
proof fn lemma_sum_program_third(t: MachineState, z: int)
    requires
        sum_program_at(t, 2),
        t.accumulator.signed_value() == z,
        abs(z) < 0x8_0000_0000,
    ensures
        t.stepped().1 is Ok,
        sum_program_at(t.stepped().0, 3),
        t.stepped().0.accumulator == t.accumulator,
        t.stepped().0.read(-10) == z,
{
    lemma_sum_program_fetch(t, 2);
    lemma_full_word_round_trip(z);
    lemma_step_keeps_wf(t);
}

/// The fourth cycle of the sum program stops and transfers to 0.
proof fn lemma_sum_program_fourth(t: MachineState)
    requires
        sum_program_at(t, 3),
    ensures
        t.stepped().1 is Ok,
        t.stepped().0 == (MachineState { instruction_counter: 0, halt: true, ..t }),
{
    lemma_sum_program_fetch(t, 3);
}

/// Run from address 0 with the packed sum program in cells 0 and 1 and the
/// full words `x` and `y` at addresses 4 and 6, the machine halts with the
/// counter at 0, and both the accumulator and the full word at address 10
/// hold `x + y`, for every `x` and `y` whose sum fits in 35 bits.
pub proof fn lemma_sum_program(s: MachineState, x: int, y: int, fuel: nat)
    requires
        s.wf(),
        s.instruction_counter == 0,
        s.memory[0] == packed_cell(sum_program(), 0),
        s.memory[1] == packed_cell(sum_program(), 1),
        s.memory[2] == full_word_encoding(x),
        s.memory[3] == full_word_encoding(y),
        abs(x) < 0x8_0000_0000,
        abs(y) < 0x8_0000_0000,
        abs(x + y) < 0x8_0000_0000,
        fuel >= 4,
    ensures
        ({
            let (end, outcome) = (MachineState { halt: false, ..s }).ran(fuel);
            &&& outcome is Ok
            &&& end.halt
            &&& end.instruction_counter == 0
            &&& end.accumulator.signed_value() == x + y
            &&& end.read(-10) == x + y
        }),
{
    let s0 = MachineState { halt: false, ..s };
    lemma_sum_program_first(s0, x);
    let s1 = s0.stepped().0;
    lemma_sum_program_second(s1, x, y);
    let s2 = s1.stepped().0;
    lemma_sum_program_third(s2, x + y);
    let s3 = s2.stepped().0;
    lemma_sum_program_fourth(s3);
    let s4 = s3.stepped().0;
    assert(s4.read(-10) == s3.read(-10));
    lemma_ran_one_step(s3, (fuel - 3) as nat);
    lemma_ran_one_step(s2, (fuel - 2) as nat);
    lemma_ran_one_step(s1, (fuel - 1) as nat);
    lemma_ran_one_step(s0, fuel);
}

} // verus!
