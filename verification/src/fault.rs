//! What stops the emulator: programs that need something the core does
//! not provide, and cartridges that it cannot load.

use vstd::prelude::*;

verus! {

/// A gap in the core that a running program has met. Emulation cannot go
/// on after one.
#[derive(Debug, Clone, Copy, PartialEq, Eq, Structural)]
pub enum Fault {
    /// The byte `opcode`, fetched at `pc`, encodes no instruction.
    UnknownOpcode { opcode: u8, pc: u16 },
    /// A write of `value` at `addr` asked an MBC1 cartridge for its second
    /// banking mode.
    UnsupportedBankingMode { addr: u16, value: u8 },
    /// The window is enabled at the horizontal position `wx`, which is
    /// below 7 or equal to 166.
    UnsupportedWindowPosition { wx: u8 },
}

/// Why a cartridge image was not accepted.
#[derive(Debug, Clone, Copy, PartialEq, Eq, Structural)]
pub enum CartridgeError {
    /// The image ends before its header does.
    MissingHeader { len: usize },
    /// The ROM size class `tag` is above what is taken: above 0 for plain
    /// ROM, and above 8 where the header is read with its Game Boy Color
    /// flag.
    UnsupportedRomSize { tag: u8 },
    /// The ROM size class `tag` stands for another number of bytes than
    /// the `actual` ones that the image holds.
    SizeMismatch { tag: u8, actual: usize },
    /// The RAM size class `tag` is not one of the six known ones.
    UnknownRamSize { tag: u8 },
    /// The cartridge type `tag` is neither plain ROM nor MBC1.
    UnsupportedType { tag: u8 },
}

} // verus!
