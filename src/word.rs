//! Conversions between a 64-bit container and the signed values that a
//! 36-bit word holds, read as one full word or as one of two half words.
use vstd::prelude::*;

verus! {

/// The 36 bits of a word inside its 64-bit container.
pub const FULL_WORD_MASK: u64 = 0xF_FFFF_FFFF;
/// The low 18-bit half of a word.
pub const LO_WORD_MASK: u64 = 0x3_FFFF;
/// The high 18-bit half of a word.
pub const HI_WORD_MASK: u64 = 0xF_FFFC_0000;
/// The sign bit of a half word.
pub const LO_WORD_SIGN_MASK: u64 = 0x2_0000;
/// The 17 magnitude bits of a half word.
pub const LO_WORD_VALUE_MASK: u64 = 0x1_FFFF;
/// The sign bit of a full word.
pub const FULL_WORD_SIGN_MASK: u64 = 0x8_0000_0000;
/// The 35 magnitude bits of a full word.
pub const FULL_WORD_VALUE_MASK: u64 = 0x7_FFFF_FFFF;

/// Absolute value.
pub open spec fn abs(v: int) -> nat {
    if v < 0 {
        (-v) as nat
    } else {
        v as nat
    }
}

/// Sign-magnitude reading: `magnitude` negated when `negative`.
pub open spec fn signed(negative: bool, magnitude: nat) -> int {
    if negative {
        -magnitude
    } else {
        magnitude as int
    }
}

/// The value of a full word: bit 35 is the sign, bits 0 to 34 the magnitude.
pub open spec fn full_word_value(raw: nat) -> int {
    signed((raw / 0x8_0000_0000) % 2 == 1, raw % 0x8_0000_0000)
}

/// The 18-bit half of a word that `portion` selects (`true`: the high half).
pub open spec fn half_field(raw: nat, portion: bool) -> nat {
    if portion {
        (raw / 0x4_0000) % 0x4_0000
    } else {
        raw % 0x4_0000
    }
}

/// The value of a half word: bit 17 of the field is the sign, bits 0 to 16
/// the magnitude.
pub open spec fn half_word_value(raw: nat, portion: bool) -> int {
    let field = half_field(raw, portion);
    signed(field / 0x2_0000 == 1, field % 0x2_0000)
}

/// The full word that holds `value`; a magnitude wider than 35 bits is
/// truncated.
pub open spec fn full_word_encoding(value: int) -> nat {
    (if value < 0 { 0x8_0000_0000nat } else { 0nat }) + abs(value) % 0x8_0000_0000
}

/// The half-word field that holds `value`; a magnitude wider than 17 bits is
/// truncated.
pub open spec fn half_field_encoding(value: int) -> nat {
    (if value < 0 { 0x2_0000nat } else { 0nat }) + abs(value) % 0x2_0000
}

/// The half word that holds `value`, placed in the half that `portion` selects.
pub open spec fn half_word_encoding(value: int, portion: bool) -> nat {
    if portion {
        half_field_encoding(value) * 0x4_0000
    } else {
        half_field_encoding(value)
    }
}

/// The magnitude of `value` as an unsigned integer (defined for `i64::MIN` too).
pub fn magnitude(value: i64) -> (r: u64)
    ensures
        r == abs(value as int),
{
    if value < 0 {
        (-(value + 1)) as u64 + 1
    } else {
        value as u64
    }
}

/// Reads `raw` as a full word.
#[must_use]
pub fn get_full_word(raw: u64) -> (r: i64)
    ensures
        r == full_word_value(raw as nat),
{
    let sign = raw & FULL_WORD_SIGN_MASK;
    let value = raw & FULL_WORD_VALUE_MASK;
    assert(raw & 0x7_FFFF_FFFF == raw % 0x8_0000_0000) by (bit_vector);
    assert((raw & 0x8_0000_0000 != 0) == ((raw / 0x8_0000_0000) % 2 == 1)) by (bit_vector);
    let value = value as i64;
    if sign != 0 {
        -value
    } else {
        value
    }
}

/// Reads one half of `raw` as a half word (`portion` true: the high half).
#[must_use]
pub fn get_half_word(raw: u64, portion: bool) -> (r: i64)
    ensures
        r == half_word_value(raw as nat, portion),
{
    let mut field = raw & FULL_WORD_MASK;
    if portion {
        field = field >> 18;
    }
    let sign = field & LO_WORD_SIGN_MASK;
    let value = field & LO_WORD_VALUE_MASK;
    proof {
        let f = field;
        if portion {
            assert((raw & 0xF_FFFF_FFFF) >> 18 == (raw / 0x4_0000) % 0x4_0000) by (bit_vector);
        } else {
            assert((f & 0x2_0000) == (raw % 0x4_0000) & 0x2_0000) by (bit_vector)
                requires f == raw & 0xF_FFFF_FFFF;
            assert((f & 0x1_FFFF) == (raw % 0x4_0000) & 0x1_FFFF) by (bit_vector)
                requires f == raw & 0xF_FFFF_FFFF;
        }
        let h = half_field(raw as nat, portion) as u64;
        assert(h < 0x4_0000 ==> (h & 0x1_FFFF == h % 0x2_0000)) by (bit_vector);
        assert(h < 0x4_0000 ==> ((h & 0x2_0000 != 0) == (h / 0x2_0000 == 1))) by (bit_vector);
    }
    let value = value as i64;
    if sign != 0 {
        -value
    } else {
        value
    }
}

/// Writes `value` as a full word.
pub fn to_full_word(value: i64) -> (r: u64)
    ensures
        r == full_word_encoding(value as int),
{
    let mut output: u64 = if value < 0 {
        FULL_WORD_SIGN_MASK
    } else {
        0
    };
    let m = magnitude(value);
    let low = m & FULL_WORD_VALUE_MASK;
    proof {
        let s = output;
        assert(m & 0x7_FFFF_FFFF == m % 0x8_0000_0000) by (bit_vector);
        assert((s == 0 || s == 0x8_0000_0000) ==> (s | (m & 0x7_FFFF_FFFF)) == s + (m
            & 0x7_FFFF_FFFF)) by (bit_vector);
    }
    output = output | low;
    output
}

/// Writes `value` as a half word, in the high half when `portion` is true.
pub fn to_half_word(value: i64, portion: bool) -> (r: u64)
    ensures
        r == half_word_encoding(value as int, portion),
{
    let mut output: u64 = if value < 0 {
        LO_WORD_SIGN_MASK
    } else {
        0
    };
    let m = magnitude(value);
    let low = m & LO_WORD_VALUE_MASK;
    proof {
        let s = output;
        assert(m & 0x1_FFFF == m % 0x2_0000) by (bit_vector);
        assert((s == 0 || s == 0x2_0000) ==> (s | (m & 0x1_FFFF)) == s + (m & 0x1_FFFF))
            by (bit_vector);
    }
    output = output | low;
    if portion {
        assert(output < 0x4_0000 ==> output << 18 == output * 0x4_0000) by (bit_vector);
        output = output << 18;
    }
    output
}

/// Reading back a written full word gives the value written, for every value
/// whose magnitude fits in 35 bits.
pub proof fn lemma_full_word_round_trip(value: int)
    requires
        abs(value) < 0x8_0000_0000,
    ensures
        full_word_value(full_word_encoding(value)) == value,
{
}

/// Reading back a written half word, from either half, gives the value
/// written, for every value whose magnitude fits in 17 bits.
pub proof fn lemma_half_word_round_trip(value: int, portion: bool)
    requires
        abs(value) < 0x2_0000,
    ensures
        half_word_value(half_word_encoding(value, portion), portion) == value,
{
}

/// Writing back what a full word reads gives the word again, for every
/// 36-bit pattern but the negative zero (sign bit alone), which reads as zero.
pub proof fn lemma_full_word_canonical(raw: nat)
    requires
        raw < 0x10_0000_0000,
        raw != 0x8_0000_0000,
    ensures
        full_word_encoding(full_word_value(raw)) == raw,
{
}

/// Writing back what a half word reads gives the half word again, for every
/// 18-bit field but the negative zero, whichever half holds it.
pub proof fn lemma_half_word_canonical(field: nat, portion: bool)
    requires
        field < 0x4_0000,
        field != 0x2_0000,
    ensures
        ({
            let raw = if portion {
                field * 0x4_0000
            } else {
                field
            };
            half_word_encoding(half_word_value(raw, portion), portion) == raw
        }),
{
}

} // verus!
