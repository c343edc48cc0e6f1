//! A cartridge without a bank controller: 32 KiB of ROM and nothing else.

use vstd::prelude::*;
use super::store::{padded, padded_copy};

verus! {

pub const ROM_SIZE: usize = 0x8000;

pub struct Simple {
    pub rom: Vec<u8>,
}

impl View for Simple {
    type V = Seq<u8>;

    /// The 32 KiB of ROM.
    open spec fn view(&self) -> Seq<u8> {
        self.rom@
    }
}

/// The byte that a plain cartridge with ROM `rom` answers a read at `addr`
/// with: the ROM byte below 0x8000, and 0xFF elsewhere, where it has
/// nothing.
pub open spec fn simple_read(rom: Seq<u8>, addr: u16) -> u8 {
    if addr < 0x8000 {
        rom[addr as int]
    } else {
        0xFF
    }
}

impl Simple {
    pub open spec fn well_formed(&self) -> bool {
        self.rom@.len() == ROM_SIZE
    }

    /// The cartridge holding `content`, padded with zeros to 32 KiB.
    pub fn new(content: &[u8]) -> (mbc: Simple)
        requires
            content@.len() <= ROM_SIZE,
        ensures
            mbc.well_formed(),
            mbc@ == padded(content@, ROM_SIZE as nat),
    {
        Simple { rom: padded_copy(content, ROM_SIZE) }
    }

    pub fn read_memory(&self, addr: u16) -> (byte: u8)
        requires
            self.well_formed(),
        ensures
            byte == simple_read(self@, addr),
    {
        if addr < 0x8000 {
            self.rom[addr as usize]
        } else {
            0xFF
        }
    }

    /// Writes to a plain cartridge are ignored.
    pub fn write_memory(&mut self, addr: u16, value: u8)
        ensures
            final(self)@ == old(self)@,
            final(self).well_formed() == old(self).well_formed(),
    {
    }
}

} // verus!
