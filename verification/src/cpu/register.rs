//! Names of the CPU registers.

use vstd::prelude::*;
use super::flags::Flags;
use crate::bits::joined;

verus! {

/// The six 16-bit registers. The four pairs are big-endian: the first
/// letter names the high byte.
#[derive(Debug, Clone, Copy, PartialEq, Eq, Structural)]
pub enum Register16 {
    AF,
    BC,
    DE,
    HL,
    SP,
    PC,
}

/// The 8-bit registers, including the halves of `SP` and `PC` and the
/// flag register `F`.
#[derive(Debug, Clone, Copy, PartialEq, Eq, Structural)]
pub enum Register8 {
    A,
    B,
    C,
    D,
    E,
    H,
    L,
    SPHigh,
    SPLow,
    PCHigh,
    PCLow,
    Flags,
}

impl Register16 {
    /// Whether the register can be split into halves by
    /// [`Register16::higher_half`] and [`Register16::lower_half`].
    /// Every register but `PC` can.
    pub open spec fn splits(self) -> bool {
        self != Register16::PC
    }

    /// The register holding bits 15..8 of `self`.
    pub open spec fn high(self) -> Register8 {
        match self {
            Register16::AF => Register8::A,
            Register16::BC => Register8::B,
            Register16::DE => Register8::D,
            Register16::HL => Register8::H,
            Register16::SP => Register8::SPHigh,
            Register16::PC => Register8::PCHigh,
        }
    }

    /// The register holding bits 7..0 of `self`.
    pub open spec fn low(self) -> Register8 {
        match self {
            Register16::AF => Register8::Flags,
            Register16::BC => Register8::C,
            Register16::DE => Register8::E,
            Register16::HL => Register8::L,
            Register16::SP => Register8::SPLow,
            Register16::PC => Register8::PCLow,
        }
    }

    pub fn higher_half(self) -> (half: Register8)
        requires
            self.splits(),
        ensures
            half == self.high(),
    {
        match self {
            Register16::AF => Register8::A,
            Register16::BC => Register8::B,
            Register16::DE => Register8::D,
            Register16::HL => Register8::H,
            _ => Register8::SPHigh,
        }
    }

    pub fn lower_half(self) -> (half: Register8)
        requires
            self.splits(),
        ensures
            half == self.low(),
    {
        match self {
            Register16::AF => Register8::Flags,
            Register16::BC => Register8::C,
            Register16::DE => Register8::E,
            Register16::HL => Register8::L,
            _ => Register8::SPLow,
        }
    }
}

/// The values of the registers.
#[derive(Debug, Clone, Copy, PartialEq, Eq, Structural)]
pub struct Registers {
    pub a: u8,
    pub b: u8,
    pub c: u8,
    pub d: u8,
    pub e: u8,
    pub h: u8,
    pub l: u8,
    pub flags: Flags,
    pub sp: u16,
    pub pc: u16,
}

impl Registers {
    /// The value of an 8-bit register. `F` reads with its low nibble
    /// zero.
    pub open spec fn load8(self, reg: Register8) -> u8 {
        match reg {
            Register8::A => self.a,
            Register8::B => self.b,
            Register8::C => self.c,
            Register8::D => self.d,
            Register8::E => self.e,
            Register8::H => self.h,
            Register8::L => self.l,
            Register8::SPHigh => (self.sp / 256) as u8,
            Register8::SPLow => (self.sp % 256) as u8,
            Register8::PCHigh => (self.pc / 256) as u8,
            Register8::PCLow => (self.pc % 256) as u8,
            Register8::Flags => self.flags.to_byte(),
        }
    }

    /// The registers after `value` is stored in an 8-bit register. A
    /// store to `F` drops the low nibble of `value`.
    pub open spec fn store8(self, reg: Register8, value: u8) -> Registers {
        match reg {
            Register8::A => Registers { a: value, ..self },
            Register8::B => Registers { b: value, ..self },
            Register8::C => Registers { c: value, ..self },
            Register8::D => Registers { d: value, ..self },
            Register8::E => Registers { e: value, ..self },
            Register8::H => Registers { h: value, ..self },
            Register8::L => Registers { l: value, ..self },
            Register8::SPHigh => Registers { sp: joined(value, (self.sp % 256) as u8), ..self },
            Register8::SPLow => Registers { sp: joined((self.sp / 256) as u8, value), ..self },
            Register8::PCHigh => Registers { pc: joined(value, (self.pc % 256) as u8), ..self },
            Register8::PCLow => Registers { pc: joined((self.pc / 256) as u8, value), ..self },
            Register8::Flags => Registers { flags: Flags::of_byte(value), ..self },
        }
    }

    /// The value of a 16-bit register.
    pub open spec fn load16(self, reg: Register16) -> u16 {
        match reg {
            Register16::AF => joined(self.a, self.flags.to_byte()),
            Register16::BC => joined(self.b, self.c),
            Register16::DE => joined(self.d, self.e),
            Register16::HL => joined(self.h, self.l),
            Register16::SP => self.sp,
            Register16::PC => self.pc,
        }
    }

    /// The registers after `value` is stored in a 16-bit register.
    pub open spec fn store16(self, reg: Register16, value: u16) -> Registers {
        match reg {
            Register16::AF => Registers {
                a: (value / 256) as u8,
                flags: Flags::of_byte((value % 256) as u8),
                ..self
            },
            Register16::BC => Registers { b: (value / 256) as u8, c: (value % 256) as u8, ..self },
            Register16::DE => Registers { d: (value / 256) as u8, e: (value % 256) as u8, ..self },
            Register16::HL => Registers { h: (value / 256) as u8, l: (value % 256) as u8, ..self },
            Register16::SP => Registers { sp: value, ..self },
            Register16::PC => Registers { pc: value, ..self },
        }
    }

    /// A 16-bit register is its two halves: the high one first.
    pub proof fn law_pair_is_its_halves(self, reg: Register16)
        ensures
            self.load16(reg) == joined(self.load8(reg.high()), self.load8(reg.low())),
    {
    }

    /// Whatever is stored, `F` reads with a zero low nibble.
    pub proof fn law_flags_read_without_low_nibble(self)
        ensures
            self.load8(Register8::Flags) % 16 == 0,
            self.load16(Register16::AF) % 16 == 0,
    {
    }
}

} // verus!
