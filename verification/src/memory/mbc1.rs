//! The MBC1 bank controller.

use vstd::prelude::*;
use super::store::{padded, padded_copy, zeroed, zeros};
use crate::fault::Fault;

verus! {

/// The size of the window through which ROM and RAM banks are seen.
pub const BANK_SIZE: usize = 0x4000;

pub struct MBC1 {
    /// The number of ROM banks in the image.
    pub bank_count: usize,
    /// The ROM bank register, five bits wide.
    pub bank_lo: u8,
    /// The RAM bank register, two bits wide.
    pub ram_index: u8,
    pub ram_enabled: bool,
    pub rom: Vec<u8>,
    pub ram: Vec<u8>,
}

/// An MBC1 cartridge as the contracts see it.
pub struct Mbc1View {
    pub bank_count: usize,
    pub bank_lo: u8,
    pub ram_index: u8,
    pub ram_enabled: bool,
    pub rom: Seq<u8>,
    pub ram: Seq<u8>,
}

impl View for MBC1 {
    type V = Mbc1View;

    open spec fn view(&self) -> Mbc1View {
        Mbc1View {
            bank_count: self.bank_count,
            bank_lo: self.bank_lo,
            ram_index: self.ram_index,
            ram_enabled: self.ram_enabled,
            rom: self.rom@,
            ram: self.ram@,
        }
    }
}

/// The byte at `index` of a ROM or RAM array, or 0xFF where the array has
/// none.
pub open spec fn byte_or_open_bus(bytes: Seq<u8>, index: int) -> u8 {
    if 0 <= index < bytes.len() {
        bytes[index]
    } else {
        0xFF
    }
}

impl Mbc1View {
    pub open spec fn well_formed(self) -> bool {
        self.bank_count > 0 && self.bank_lo < 32 && self.ram_index < 4
    }

    /// The ROM bank seen at 0x4000..0x7FFF: the bank register modulo the
    /// number of banks, and the next bank where that has a zero low
    /// nibble. It is never bank 0.
    pub open spec fn selected_bank(self) -> int {
        let bank = self.bank_lo as int % self.bank_count as int;
        if bank % 16 == 0 {
            bank + 1
        } else {
            bank
        }
    }

    /// Where in the RAM array the byte seen at `addr` lies.
    pub open spec fn ram_position(self, addr: u16) -> int {
        self.ram_index * BANK_SIZE + (addr - 0xA000)
    }

    /// The byte read at `addr`. Bank 0 answers below 0x4000, the selected
    /// bank below 0x8000, and the RAM, if it is enabled, at
    /// 0xA000..0xBFFF. Everything else reads as 0xFF.
    pub open spec fn read(self, addr: u16) -> u8 {
        if addr < 0x4000 {
            byte_or_open_bus(self.rom, addr as int)
        } else if addr < 0x8000 {
            byte_or_open_bus(self.rom, self.selected_bank() * BANK_SIZE + (addr - 0x4000))
        } else if 0xA000 <= addr < 0xC000 && self.ram_enabled {
            byte_or_open_bus(self.ram, self.ram_position(addr))
        } else {
            0xFF
        }
    }

    /// The cartridge after a write of `value` at `addr`.
    pub open spec fn write(self, addr: u16, value: u8) -> Mbc1View {
        if addr < 0x2000 {
            Mbc1View { ram_enabled: value % 16 == 0x0A, ..self }
        } else if addr < 0x4000 {
            Mbc1View { bank_lo: value % 32, ..self }
        } else if addr < 0x6000 {
            Mbc1View { ram_index: value % 4, ..self }
        } else if 0xA000 <= addr < 0xC000 && self.ram_enabled && self.ram_position(addr)
            < self.ram.len() {
            Mbc1View { ram: self.ram.update(self.ram_position(addr), value), ..self }
        } else {
            self
        }
    }

    /// The fault that a write of `value` at `addr` meets: only banking
    /// mode 0 exists.
    pub open spec fn write_fault(self, addr: u16, value: u8) -> Option<Fault> {
        if 0x6000 <= addr < 0x8000 && value != 0 {
            Some(Fault::UnsupportedBankingMode { addr, value })
        } else {
            None
        }
    }
}

impl MBC1 {
    pub open spec fn well_formed(&self) -> bool {
        self@.well_formed()
    }

    /// The cartridge holding `content` in a ROM of `rom_size` bytes, with
    /// `ram_size` bytes of RAM, bank 1 selected and the RAM disabled.
    pub fn new(content: &[u8], rom_size: usize, ram_size: usize) -> (mbc: MBC1)
        requires
            content@.len() > 0,
            content@.len() % BANK_SIZE as nat == 0,
        ensures
            mbc.well_formed(),
            mbc@ == (Mbc1View {
                bank_count: (content@.len() / BANK_SIZE as nat) as usize,
                bank_lo: 1,
                ram_index: 0,
                ram_enabled: false,
                rom: padded(content@, rom_size as nat),
                ram: zeros(ram_size as nat),
            }),
    {
        MBC1 {
            bank_count: content.len() / BANK_SIZE,
            bank_lo: 1,
            ram_index: 0,
            ram_enabled: false,
            rom: padded_copy(content, rom_size),
            ram: zeroed(ram_size),
        }
    }

    fn selected_bank(&self) -> (bank: usize)
        requires
            self.well_formed(),
        ensures
            bank == self@.selected_bank(),
            0 < bank <= 32,
    {
        let bank: usize = self.bank_lo as usize % self.bank_count;
        assert(bank <= self.bank_lo) by (nonlinear_arith)
            requires
                bank == self.bank_lo as int % self.bank_count as int,
                self.bank_count > 0,
        ;
        if bank % 16 == 0 {
            bank + 1
        } else {
            bank
        }
    }

    pub fn read_memory(&self, addr: u16) -> (byte: u8)
        requires
            self.well_formed(),
        ensures
            byte == self@.read(addr),
    {
        if addr < 0x4000 {
            read_or_open_bus(&self.rom, addr as usize)
        } else if addr < 0x8000 {
            read_or_open_bus(
                &self.rom,
                self.selected_bank() * BANK_SIZE + (addr as usize - 0x4000),
            )
        } else if 0xA000 <= addr && addr < 0xC000 && self.ram_enabled {
            read_or_open_bus(
                &self.ram,
                self.ram_index as usize * BANK_SIZE + (addr as usize - 0xA000),
            )
        } else {
            0xFF
        }
    }

    pub fn write_memory(&mut self, addr: u16, value: u8) -> (res: Result<(), Fault>)
        requires
            old(self).well_formed(),
        ensures
            final(self).well_formed(),
            final(self)@ == old(self)@.write(addr, value),
            res == match old(self)@.write_fault(addr, value) {
                Some(fault) => Err::<(), Fault>(fault),
                None => Ok(()),
            },
    {
        if addr < 0x2000 {
            self.ram_enabled = value % 16 == 0x0A;
        } else if addr < 0x4000 {
            self.bank_lo = value % 32;
        } else if addr < 0x6000 {
            self.ram_index = value % 4;
        } else if addr < 0x8000 {
            if value != 0 {
                return Err(Fault::UnsupportedBankingMode { addr, value });
            }
        } else if 0xA000 <= addr && addr < 0xC000 && self.ram_enabled {
            let position: usize = self.ram_index as usize * BANK_SIZE + (addr as usize - 0xA000);
            if position < self.ram.len() {
                self.ram[position] = value;
            }
        }
        Ok(())
    }
}

fn read_or_open_bus(bytes: &Vec<u8>, index: usize) -> (byte: u8)
    ensures
        byte == byte_or_open_bus(bytes@, index as int),
{
    if index < bytes.len() {
        bytes[index]
    } else {
        0xFF
    }
}

/// The switchable window never shows bank 0: a bank register of 0
/// selects bank 1.
pub proof fn law_selected_bank_is_not_zero(mbc: Mbc1View)
    requires
        mbc.well_formed(),
    ensures
        mbc.selected_bank() >= 1,
        mbc.write(0x2000, 0).selected_bank() == 1,
{
    assert(0int % (mbc.bank_count as int) == 0) by (nonlinear_arith)
        requires
            mbc.bank_count > 0,
    ;
}

} // verus!
