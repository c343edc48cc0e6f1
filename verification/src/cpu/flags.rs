//! The flag register `F`.

use vstd::prelude::*;

verus! {

/// The four condition flags. They occupy bits 7..4 of `F`; bits 3..0 of
/// `F` do not exist, which is why the register is kept as four booleans
/// and not as a byte.
#[derive(Debug, Clone, Copy, PartialEq, Eq, Structural)]
pub struct Flags {
    pub zero: bool,
    pub negative: bool,
    pub half_carry: bool,
    pub carry: bool,
}

impl Flags {
    /// The register with every flag cleared.
    pub open spec fn none() -> Flags {
        Flags { zero: false, negative: false, half_carry: false, carry: false }
    }

    /// The byte read from `F`: Z is worth 128, N 64, H 32 and C 16.
    pub open spec fn to_byte(self) -> u8 {
        ((if self.zero { 128int } else { 0 })
            + (if self.negative { 64int } else { 0 })
            + (if self.half_carry { 32int } else { 0 })
            + (if self.carry { 16int } else { 0 })) as u8
    }

    /// The flags that a write of `value` to `F` leaves: the low nibble of
    /// `value` is dropped.
    pub open spec fn of_byte(value: u8) -> Flags {
        Flags {
            zero: value / 128 == 1,
            negative: (value / 64) % 2 == 1,
            half_carry: (value / 32) % 2 == 1,
            carry: (value / 16) % 2 == 1,
        }
    }

    pub fn empty() -> (flags: Flags)
        ensures
            flags == Flags::none(),
    {
        Flags { zero: false, negative: false, half_carry: false, carry: false }
    }

    pub fn bits(self) -> (byte: u8)
        ensures
            byte == self.to_byte(),
            byte % 16 == 0,
    {
        let z: u8 = if self.zero { 0x80 } else { 0 };
        let n: u8 = if self.negative { 0x40 } else { 0 };
        let h: u8 = if self.half_carry { 0x20 } else { 0 };
        let c: u8 = if self.carry { 0x10 } else { 0 };
        z + n + h + c
    }

    pub fn from_bits_truncate(value: u8) -> (flags: Flags)
        ensures
            flags == Flags::of_byte(value),
    {
        Flags {
            zero: value / 128 == 1,
            negative: (value / 64) % 2 == 1,
            half_carry: (value / 32) % 2 == 1,
            carry: (value / 16) % 2 == 1,
        }
    }

    /// Reading `F` after writing `f.to_byte()` gives `f` back, and the byte
    /// written has an empty low nibble.
    pub proof fn law_byte_round_trip(self)
        ensures
            Flags::of_byte(self.to_byte()) == self,
            self.to_byte() % 16 == 0,
    {
    }

    /// Writing any byte to `F` and reading it back keeps the high nibble
    /// and clears the low one.
    pub proof fn law_write_then_read(value: u8)
        ensures
            Flags::of_byte(value).to_byte() == value - value % 16,
    {
    }
}

} // verus!
