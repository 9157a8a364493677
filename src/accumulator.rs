//! The accumulator: a sign-magnitude register with a 35-bit magnitude, whose
//! overflow indicator is inferred from bits 18 and 19 of the magnitude (P and
//! Q), as the hardware did.
use vstd::prelude::*;

use crate::word::{abs, magnitude, signed, FULL_WORD_VALUE_MASK};

verus! {

/// The arithmetic register: a sign, a 35-bit magnitude, and the overflow
/// indicator of the most recent addition.
#[derive(Debug, Clone, Copy)]
pub struct Accumulator {
    pub sign: bool,
    /// Overflow indication of the most recent `add`.
    pub overflow: bool,
    /// The 35-bit magnitude.
    pub value: u64,
}

impl Default for Accumulator {
    fn default() -> (r: Self)
        ensures
            !r.sign,
            !r.overflow,
            r.value == 0,
    {
        Accumulator { sign: false, overflow: false, value: 0 }
    }
}

impl Accumulator {
    /// The magnitude fits in 35 bits.
    pub open spec fn wf(&self) -> bool {
        self.value < 0x8_0000_0000
    }

    /// The signed value held.
    pub open spec fn signed_value(&self) -> int {
        signed(self.sign, self.value as nat)
    }

    /// The P and Q bits of a magnitude: its bits 18 and 19.
    pub open spec fn pq(value: u64) -> (bool, bool) {
        ((value / 0x4_0000) % 2 == 1, (value / 0x8_0000) % 2 == 1)
    }

    /// The register after loading `value`: its sign, and its magnitude
    /// truncated to 35 bits; the overflow indicator is kept.
    pub open spec fn inserted(self, value: int) -> Accumulator {
        Accumulator {
            sign: value < 0,
            value: (abs(value) % 0x8_0000_0000) as u64,
            overflow: self.overflow,
        }
    }

    /// The register after adding `value`: the sum with its magnitude
    /// truncated to 35 bits, and overflow set when P or Q changed.
    pub open spec fn added(self, value: int) -> Accumulator {
        let sum = self.signed_value() + value;
        let loaded = self.inserted(signed(sum < 0, abs(sum) % 0x8_0000_0000));
        Accumulator { overflow: Self::pq(loaded.value) != Self::pq(self.value), ..loaded }
    }

    /// Loads `value`: sign from its sign, magnitude from its absolute value
    /// truncated to 35 bits. The overflow indicator is left alone.
    pub fn insert(&mut self, value: i64)
        ensures
            *final(self) == old(self).inserted(value as int),
    {
        let m = magnitude(value);
        assert(m & 0x7_FFFF_FFFF == m % 0x8_0000_0000) by (bit_vector);
        self.sign = value < 0;
        self.value = m & FULL_WORD_VALUE_MASK;
    }

    /// The signed value held.
    pub fn value_as_i64(&self) -> (r: i64)
        requires
            self.wf(),
        ensures
            r == self.signed_value(),
    {
        if !self.sign {
            self.value as i64
        } else {
            -(self.value as i64)
        }
    }

    /// Adds `value`, truncating the magnitude of the sum to 35 bits, and sets
    /// the overflow indicator when bit 18 or bit 19 of the magnitude changed.
    pub fn add(&mut self, value: i64)
        requires
            old(self).wf(),
        ensures
            *final(self) == old(self).added(value as int),
    {
        let pq_initial_state = Self::test_pq(self.value);

        let sum: i128 = self.value_as_i64() as i128 + value as i128;
        let sum_magnitude: u128 = if sum < 0 {
            (-sum) as u128
        } else {
            sum as u128
        };
        let truncated: u64 = (sum_magnitude & 0x7_FFFF_FFFF) as u64;
        assert(sum_magnitude & 0x7_FFFF_FFFF == sum_magnitude % 0x8_0000_0000) by (bit_vector);
        let result: i64 = if sum < 0 {
            -(truncated as i64)
        } else {
            truncated as i64
        };
        self.insert(result);

        let pq_final_state = Self::test_pq(self.value);
        self.overflow = pq_final_state.0 != pq_initial_state.0 || pq_final_state.1
            != pq_initial_state.1;
    }

    /// The P and Q bits (bits 18 and 19) of `value`.
    pub fn test_pq(value: u64) -> (r: (bool, bool))
        ensures
            r == Self::pq(value),
    {
        let p_state = value & 0x4_0000 != 0;
        let q_state = value & 0x8_0000 != 0;
        assert((value & 0x4_0000 != 0) == ((value / 0x4_0000) % 2 == 1)) by (bit_vector);
        assert((value & 0x8_0000 != 0) == ((value / 0x8_0000) % 2 == 1)) by (bit_vector);
        (p_state, q_state)
    }

    /// Clears sign and magnitude; the overflow indicator is left alone.
    pub fn reset(&mut self)
        ensures
            *final(self) == (Accumulator { sign: false, value: 0, overflow: old(self).overflow }),
    {
        self.sign = false;
        self.value = 0;
    }
}

/// An addition that carries a magnitude below 2^18 into [2^18, 2^19)
/// changes P, and so reports overflow.
pub proof fn lemma_crossing_sets_overflow(acc: Accumulator, value: int)
    requires
        acc.wf(),
        acc.value < 0x4_0000,
        0x4_0000 <= acc.added(value).value < 0x8_0000,
    ensures
        acc.added(value).overflow,
{
}

/// An addition whose result stays in the same 2^18-aligned block of
/// magnitudes as before leaves P and Q alone, and so reports no overflow.
pub proof fn lemma_same_block_no_overflow(acc: Accumulator, value: int)
    requires
        acc.wf(),
        acc.value / 0x4_0000 == acc.added(value).value / 0x4_0000,
    ensures
        !acc.added(value).overflow,
{
}

/// Every operation keeps the magnitude within 35 bits.
pub proof fn lemma_operations_keep_wf(acc: Accumulator, value: int)
    requires
        acc.wf(),
    ensures
        acc.inserted(value).wf(),
        acc.added(value).wf(),
{
}

} // verus!
