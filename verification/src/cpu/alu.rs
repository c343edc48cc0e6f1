//! Arithmetic and logic of the CPU, on plain values: what each operation
//! computes and which flags it leaves.

use vstd::prelude::*;
use super::flags::Flags;

verus! {

/// An 8-bit result with the flags that come with it.
#[derive(Debug, Clone, Copy, PartialEq, Eq, Structural)]
pub struct Alu8 {
    pub value: u8,
    pub flags: Flags,
}

/// A 16-bit result with the flags that come with it.
#[derive(Debug, Clone, Copy, PartialEq, Eq, Structural)]
pub struct Alu16 {
    pub value: u16,
    pub flags: Flags,
}

/// The byte that a signed offset is encoded as.
pub open spec fn offset_byte(offset: i8) -> int {
    if offset < 0 {
        offset + 256
    } else {
        offset as int
    }
}

/// The signed offset that a byte encodes.
pub open spec fn signed(byte: u8) -> i8 {
    if byte < 128 {
        byte as i8
    } else {
        (byte - 256) as i8
    }
}

/// `a + b + carry_in`: Z from the result, N clear, H from the carry out of
/// bit 3, C from the carry out of bit 7.
pub open spec fn add8(a: u8, b: u8, carry_in: bool) -> Alu8 {
    let c: int = if carry_in { 1 } else { 0 };
    let value = ((a + b + c) % 256) as u8;
    Alu8 {
        value,
        flags: Flags {
            zero: value == 0,
            negative: false,
            half_carry: a % 16 + b % 16 + c > 15,
            carry: a + b + c > 255,
        },
    }
}

/// `a - b - carry_in`: Z from the result, N set, H from the borrow into
/// bit 3, C from the borrow into bit 7.
pub open spec fn sub8(a: u8, b: u8, carry_in: bool) -> Alu8 {
    let c: int = if carry_in { 1 } else { 0 };
    let value = ((a - b - c) % 256) as u8;
    Alu8 {
        value,
        flags: Flags {
            zero: value == 0,
            negative: true,
            half_carry: a % 16 < b % 16 + c,
            carry: a < b + c,
        },
    }
}

pub open spec fn and8(a: u8, b: u8) -> Alu8 {
    Alu8 {
        value: a & b,
        flags: Flags { zero: a & b == 0, negative: false, half_carry: true, carry: false },
    }
}

pub open spec fn or8(a: u8, b: u8) -> Alu8 {
    Alu8 {
        value: a | b,
        flags: Flags { zero: a | b == 0, negative: false, half_carry: false, carry: false },
    }
}

pub open spec fn xor8(a: u8, b: u8) -> Alu8 {
    Alu8 {
        value: a ^ b,
        flags: Flags { zero: a ^ b == 0, negative: false, half_carry: false, carry: false },
    }
}

/// `value + 1`: C is kept, H comes from the carry out of bit 3.
pub open spec fn inc8(value: u8, flags: Flags) -> Alu8 {
    let res = ((value + 1) % 256) as u8;
    Alu8 {
        value: res,
        flags: Flags {
            zero: res == 0,
            negative: false,
            half_carry: value % 16 == 15,
            carry: flags.carry,
        },
    }
}

/// `value - 1`: C is kept, H comes from the borrow into bit 3.
pub open spec fn dec8(value: u8, flags: Flags) -> Alu8 {
    let res = ((value - 1) % 256) as u8;
    Alu8 {
        value: res,
        flags: Flags {
            zero: res == 0,
            negative: true,
            half_carry: value % 16 == 0,
            carry: flags.carry,
        },
    }
}

/// `hl + rhs`: Z is kept, N clear, H from the carry out of bit 11, C from
/// the carry out of bit 15.
pub open spec fn add16(hl: u16, rhs: u16, flags: Flags) -> Alu16 {
    Alu16 {
        value: ((hl + rhs) % 0x10000) as u16,
        flags: Flags {
            zero: flags.zero,
            negative: false,
            half_carry: hl % 0x1000 + rhs % 0x1000 > 0xFFF,
            carry: hl + rhs > 0xFFFF,
        },
    }
}

/// `value + offset` for a signed offset. The flags come from the
/// addition of the offset's byte to the low byte of `value`: H from the
/// carry out of bit 3, C from the carry out of bit 7; Z and N are clear.
pub open spec fn add_offset(value: u16, offset: i8) -> Alu16 {
    Alu16 {
        value: ((value + offset) % 0x10000) as u16,
        flags: Flags {
            zero: false,
            negative: false,
            half_carry: value % 16 + offset_byte(offset) % 16 > 15,
            carry: value % 256 + offset_byte(offset) > 255,
        },
    }
}

/// The decimal adjustment of `a` after an addition (N clear) or a
/// subtraction (N set) of two packed decimal bytes.
///
/// After an addition, 6 is added if H is set or the low digit is above 9,
/// then 0x60 if C is set or the value is above 0x9F; C is set if it was
/// or if the sum left the byte. After a subtraction, 6 is taken off if H
/// is set and 0x60 if C is set; C is kept. H is cleared, N kept, Z comes
/// from the result.
pub open spec fn daa(a: u8, flags: Flags) -> Alu8 {
    if !flags.negative {
        let low: int = if flags.half_carry || a % 16 > 9 { a + 6 } else { a as int };
        let sum: int = if flags.carry || low > 0x9F { low + 0x60 } else { low };
        Alu8 {
            value: (sum % 256) as u8,
            flags: Flags {
                zero: sum % 256 == 0,
                negative: false,
                half_carry: false,
                carry: flags.carry || sum > 255,
            },
        }
    } else {
        let low: int = if flags.half_carry { a - 6 } else { a as int };
        let diff: int = if flags.carry { low - 0x60 } else { low };
        Alu8 {
            value: (diff % 256) as u8,
            flags: Flags {
                zero: diff % 256 == 0,
                negative: true,
                half_carry: false,
                carry: flags.carry,
            },
        }
    }
}

/// The flags after a rotation or shift that gave `value` and pushed out
/// `carry`: N and H clear, Z from the result where `set_zero` asks for
/// it.
pub open spec fn shifted(value: u8, carry: bool, set_zero: bool) -> Alu8 {
    Alu8 {
        value,
        flags: Flags { zero: set_zero && value == 0, negative: false, half_carry: false, carry },
    }
}

/// Rotation to the left through the carry: the old C comes in at bit 0.
pub open spec fn rotate_left_through_carry(value: u8, flags: Flags, set_zero: bool) -> Alu8 {
    shifted(
        ((value % 128) * 2 + if flags.carry { 1int } else { 0 }) as u8,
        value >= 128,
        set_zero,
    )
}

/// Rotation to the right through the carry: the old C comes in at bit 7.
pub open spec fn rotate_right_through_carry(value: u8, flags: Flags, set_zero: bool) -> Alu8 {
    shifted(
        (value / 2 + if flags.carry { 128int } else { 0 }) as u8,
        value % 2 == 1,
        set_zero,
    )
}

/// Rotation to the left: bit 7 comes in at bit 0.
pub open spec fn rotate_left(value: u8, set_zero: bool) -> Alu8 {
    shifted(((value % 128) * 2 + value / 128) as u8, value >= 128, set_zero)
}

/// Rotation to the right: bit 0 comes in at bit 7.
pub open spec fn rotate_right(value: u8, set_zero: bool) -> Alu8 {
    shifted((value / 2 + (value % 2) * 128) as u8, value % 2 == 1, set_zero)
}

/// Shift to the left: a zero comes in at bit 0.
pub open spec fn shift_left(value: u8) -> Alu8 {
    shifted(((value % 128) * 2) as u8, value >= 128, true)
}

/// Shift to the right: a zero comes in at bit 7.
pub open spec fn shift_right_logical(value: u8) -> Alu8 {
    shifted(value / 2, value % 2 == 1, true)
}

/// Shift to the right: bit 7 stays as it is.
pub open spec fn shift_right_arithmetic(value: u8) -> Alu8 {
    shifted((value / 2 + (value / 128) * 128) as u8, value % 2 == 1, true)
}

/// The two nibbles exchanged.
pub open spec fn swap(value: u8) -> Alu8 {
    shifted(((value % 16) * 16 + value / 16) as u8, false, true)
}

/// Whether adding the low nibbles of `a` and `b` carries into bit 4.
pub fn check_half_carry(a: u8, b: u8) -> (carries: bool)
    ensures
        carries == (a % 16 + b % 16 > 15),
{
    a % 16 + b % 16 > 15
}

/// Whether adding the low 12 bits of `a` and `b` carries into bit 12.
pub fn check_half_carry_16bits_high(a: u16, b: u16) -> (carries: bool)
    ensures
        carries == (a % 0x1000 + b % 0x1000 > 0xFFF),
{
    a % 0x1000 + b % 0x1000 > 0xFFF
}

/// Whether adding the low bytes of `a` and `b` carries into bit 8.
pub fn check_half_carry_16bits_mid(a: u16, b: u16) -> (carries: bool)
    ensures
        carries == (a % 256 + b % 256 > 255),
{
    a % 256 + b % 256 > 255
}

/// Whether adding the low nibbles of `a` and `b` carries into bit 4.
pub fn check_half_carry_16bits_low(a: u16, b: u16) -> (carries: bool)
    ensures
        carries == (a % 16 + b % 16 > 15),
{
    check_half_carry((a % 256) as u8, (b % 256) as u8)
}

pub fn add_a(a: u8, b: u8, carry_in: bool) -> (res: Alu8)
    ensures
        res == add8(a, b, carry_in),
{
    let sum: u16 = a as u16 + b as u16;
    let mut value: u8 = (sum % 256) as u8;
    let mut carry: bool = sum > 255;
    let mut half_carry: bool = check_half_carry(a, b);
    if carry_in {
        let half_carry2: bool = check_half_carry(value, 1);
        carry = carry || value == 255;
        half_carry = half_carry || half_carry2;
        value = value.wrapping_add(1);
    }
    Alu8 { value, flags: Flags { zero: value == 0, negative: false, half_carry, carry } }
}

pub fn sub_a(a: u8, b: u8, carry_in: bool) -> (res: Alu8)
    ensures
        res == sub8(a, b, carry_in),
{
    let c: u8 = if carry_in { 1 } else { 0 };
    let value: u8 = a.wrapping_sub(b).wrapping_sub(c);
    Alu8 {
        value,
        flags: Flags {
            zero: value == 0,
            negative: true,
            half_carry: (a % 16) < (b % 16) + c,
            carry: (a as u16) < (b as u16) + (c as u16),
        },
    }
}

pub fn and_a(a: u8, b: u8) -> (res: Alu8)
    ensures
        res == and8(a, b),
{
    let value: u8 = a & b;
    Alu8 { value, flags: Flags { zero: value == 0, negative: false, half_carry: true, carry: false } }
}

pub fn or_a(a: u8, b: u8) -> (res: Alu8)
    ensures
        res == or8(a, b),
{
    let value: u8 = a | b;
    Alu8 {
        value,
        flags: Flags { zero: value == 0, negative: false, half_carry: false, carry: false },
    }
}

pub fn xor_a(a: u8, b: u8) -> (res: Alu8)
    ensures
        res == xor8(a, b),
{
    let value: u8 = a ^ b;
    Alu8 {
        value,
        flags: Flags { zero: value == 0, negative: false, half_carry: false, carry: false },
    }
}

pub fn increment(value: u8, flags: Flags) -> (res: Alu8)
    ensures
        res == inc8(value, flags),
{
    let half_carry = check_half_carry(value, 1);
    let new_value: u8 = value.wrapping_add(1);
    Alu8 {
        value: new_value,
        flags: Flags { zero: new_value == 0, negative: false, half_carry, carry: flags.carry },
    }
}

pub fn decrement(value: u8, flags: Flags) -> (res: Alu8)
    ensures
        res == dec8(value, flags),
{
    let new_value: u8 = value.wrapping_sub(1);
    Alu8 {
        value: new_value,
        flags: Flags {
            zero: new_value == 0,
            negative: true,
            half_carry: value % 16 == 0,
            carry: flags.carry,
        },
    }
}

pub fn add_hl(hl: u16, rhs: u16, flags: Flags) -> (res: Alu16)
    ensures
        res == add16(hl, rhs, flags),
{
    let sum: u32 = hl as u32 + rhs as u32;
    Alu16 {
        value: (sum % 0x10000) as u16,
        flags: Flags {
            zero: flags.zero,
            negative: false,
            half_carry: check_half_carry_16bits_high(hl, rhs),
            carry: sum > 0xFFFF,
        },
    }
}

pub fn add_signed_offset(value: u16, offset: i8) -> (res: Alu16)
    ensures
        res == add_offset(value, offset),
{
    let byte: u16 = if offset < 0 {
        (offset as i16 + 256) as u16
    } else {
        offset as u16
    };
    let sum: i32 = value as i32 + offset as i32;
    let wrapped: i32 = if sum < 0 {
        sum + 0x10000
    } else if sum > 0xFFFF {
        sum - 0x10000
    } else {
        sum
    };
    Alu16 {
        value: wrapped as u16,
        flags: Flags {
            zero: false,
            negative: false,
            half_carry: check_half_carry_16bits_low(value, byte),
            carry: check_half_carry_16bits_mid(value, byte),
        },
    }
}

pub fn decimal_adjust(a: u8, flags: Flags) -> (res: Alu8)
    ensures
        res == daa(a, flags),
{
    let mut wide: u32 = a as u32;
    let mut carry: bool = flags.carry;
    if !flags.negative {
        if flags.half_carry || (wide % 16) > 9 {
            wide = wide + 0x06;
        }
        if flags.carry || wide > 0x9F {
            wide = wide + 0x60;
        }
        if wide > 0xFF {
            carry = true;
        }
    } else {
        if flags.half_carry {
            wide = (wide + 0x100 - 6) % 0x100;
        }
        if flags.carry {
            wide = wide + 0x100 - 0x60;
        }
    }
    let value: u8 = (wide % 0x100) as u8;
    Alu8 {
        value,
        flags: Flags { zero: value == 0, negative: flags.negative, half_carry: false, carry },
    }
}

pub fn rotate_left_through_carry_op(value: u8, flags: Flags, set_zero: bool) -> (res: Alu8)
    ensures
        res == rotate_left_through_carry(value, flags, set_zero),
{
    let carry_in: u8 = if flags.carry { 1 } else { 0 };
    let new_value: u8 = (value % 128) * 2 + carry_in;
    finish_shift(new_value, value >= 128, set_zero)
}

pub fn rotate_right_through_carry_op(value: u8, flags: Flags, set_zero: bool) -> (res: Alu8)
    ensures
        res == rotate_right_through_carry(value, flags, set_zero),
{
    let carry_in: u8 = if flags.carry { 128 } else { 0 };
    let new_value: u8 = value / 2 + carry_in;
    finish_shift(new_value, value % 2 == 1, set_zero)
}

pub fn rotate_left_op(value: u8, set_zero: bool) -> (res: Alu8)
    ensures
        res == rotate_left(value, set_zero),
{
    let new_value: u8 = (value % 128) * 2 + value / 128;
    finish_shift(new_value, value >= 128, set_zero)
}

pub fn rotate_right_op(value: u8, set_zero: bool) -> (res: Alu8)
    ensures
        res == rotate_right(value, set_zero),
{
    let new_value: u8 = value / 2 + (value % 2) * 128;
    finish_shift(new_value, value % 2 == 1, set_zero)
}

pub fn shift_left_op(value: u8) -> (res: Alu8)
    ensures
        res == shift_left(value),
{
    finish_shift((value % 128) * 2, value >= 128, true)
}

pub fn shift_right_logical_op(value: u8) -> (res: Alu8)
    ensures
        res == shift_right_logical(value),
{
    finish_shift(value / 2, value % 2 == 1, true)
}

pub fn shift_right_arithmetic_op(value: u8) -> (res: Alu8)
    ensures
        res == shift_right_arithmetic(value),
{
    finish_shift(value / 2 + (value / 128) * 128, value % 2 == 1, true)
}

pub fn swap_op(value: u8) -> (res: Alu8)
    ensures
        res == swap(value),
{
    finish_shift((value % 16) * 16 + value / 16, false, true)
}

fn finish_shift(value: u8, carry: bool, set_zero: bool) -> (res: Alu8)
    ensures
        res == shifted(value, carry, set_zero),
{
    Alu8 {
        value,
        flags: Flags { zero: set_zero && value == 0, negative: false, half_carry: false, carry },
    }
}

/// The signed offset that an operand byte encodes.
pub fn to_signed(byte: u8) -> (offset: i8)
    ensures
        offset == signed(byte),
{
    if byte < 128 {
        byte as i8
    } else {
        (byte as i16 - 256) as i8
    }
}

/// What the shifts and rotations compute, said with bit operations.
pub proof fn law_shifts_as_bit_operations(value: u8)
    by (bit_vector)
    ensures
        (value % 128) * 2 == (value << 1u8) as int,
        value / 2 == value >> 1u8,
        (value >= 128) == (value >> 7u8 == 1),
        (value % 2 == 1) == (value & 1 == 1),
        (value % 128) * 2 + value / 128 == ((value << 1u8) | (value >> 7u8)) as int,
        value / 2 + (value % 2) * 128 == ((value >> 1u8) | (value << 7u8)) as int,
        value / 2 + (value / 128) * 128 == ((value >> 1u8) | (value & 0x80)) as int,
        (value % 16) * 16 + value / 16 == ((value << 4u8) | (value >> 4u8)) as int,
{
}

} // verus!
