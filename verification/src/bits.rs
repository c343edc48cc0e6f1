//! Single bits of a byte, stated arithmetically, and the bit-level
//! operations that compute them.

use vstd::prelude::*;

verus! {

/// The value of bit `bit` of a byte: 1, 2, 4, ..., 128.
pub open spec fn weight(bit: u8) -> int {
    match bit {
        0 => 1,
        1 => 2,
        2 => 4,
        3 => 8,
        4 => 16,
        5 => 32,
        6 => 64,
        _ => 128,
    }
}

/// Whether bit `bit` of `value` is 1. Bit 0 is the least significant;
/// there is no bit above 7.
pub open spec fn bit_set(value: u8, bit: u8) -> bool {
    match bit {
        0 => value % 2 == 1,
        1 => (value / 2) % 2 == 1,
        2 => (value / 4) % 2 == 1,
        3 => (value / 8) % 2 == 1,
        4 => (value / 16) % 2 == 1,
        5 => (value / 32) % 2 == 1,
        6 => (value / 64) % 2 == 1,
        7 => value / 128 == 1,
        _ => false,
    }
}

/// `value` with bit `bit` forced to 1.
pub open spec fn raised(value: u8, bit: u8) -> u8 {
    if bit_set(value, bit) {
        value
    } else {
        (value + weight(bit)) as u8
    }
}

/// `value` with bit `bit` forced to 0.
pub open spec fn lowered(value: u8, bit: u8) -> u8 {
    if bit_set(value, bit) {
        (value - weight(bit)) as u8
    } else {
        value
    }
}

proof fn lemma_single_bit(value: u8, bit: u8)
    by (bit_vector)
    requires
        bit < 8,
    ensures
        ((value >> bit) & 1 == 1) == bit_set(value, bit),
        value | (1u8 << bit) == raised(value, bit),
        value & !(1u8 << bit) == lowered(value, bit),
{
}

/// Tests bit `bit` of `value`.
pub fn test_bit(value: u8, bit: u8) -> (set: bool)
    requires
        bit < 8,
    ensures
        set == bit_set(value, bit),
{
    proof {
        lemma_single_bit(value, bit);
    }
    (value >> bit) & 1 == 1
}

/// Sets bit `bit` of `value`.
pub fn raise_bit(value: u8, bit: u8) -> (res: u8)
    requires
        bit < 8,
    ensures
        res == raised(value, bit),
{
    proof {
        lemma_single_bit(value, bit);
    }
    value | (1u8 << bit)
}

/// Clears bit `bit` of `value`.
pub fn lower_bit(value: u8, bit: u8) -> (res: u8)
    requires
        bit < 8,
    ensures
        res == lowered(value, bit),
{
    proof {
        lemma_single_bit(value, bit);
    }
    value & !(1u8 << bit)
}

/// The high byte of a 16-bit value.
pub fn high_byte(value: u16) -> (byte: u8)
    ensures
        byte == value / 256,
{
    (value / 256) as u8
}

/// The low byte of a 16-bit value.
pub fn low_byte(value: u16) -> (byte: u8)
    ensures
        byte == value % 256,
{
    (value % 256) as u8
}

/// The 16-bit value whose high byte is `high` and whose low byte is `low`.
pub open spec fn joined(high: u8, low: u8) -> u16 {
    (high * 256 + low) as u16
}

pub fn combine(high: u8, low: u8) -> (value: u16)
    ensures
        value == joined(high, low),
{
    (high as u16) * 256 + (low as u16)
}

} // verus!
