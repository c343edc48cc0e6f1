//! The two interfaces of the address space: what the CPU and the picture
//! processing unit see of memory, and what memory sees of a cartridge.
//! Both are stated by what a read gives.

use vstd::prelude::*;
use super::mbc1::MBC1;
use super::mmu::MMU;
use super::simple::Simple;
use super::Cartridge;
use crate::fault::Fault;

verus! {

/// A cartridge on the bus.
pub trait MBC {
    /// Whether the cartridge can be used.
    spec fn ready(&self) -> bool;

    /// The byte that a read at `addr` gives.
    spec fn byte_at(&self, addr: u16) -> u8;

    /// The byte that a read at `at` gives after a write of `value` at
    /// `addr`.
    spec fn byte_after_write(&self, addr: u16, value: u8, at: u16) -> u8;

    /// The fault that a write of `value` at `addr` meets, if any.
    spec fn refusal(&self, addr: u16, value: u8) -> Option<Fault>;

    fn read_memory(&self, addr: u16) -> (byte: u8)
        requires
            self.ready(),
        ensures
            byte == self.byte_at(addr),
    ;

    fn write_memory(&mut self, addr: u16, value: u8) -> (res: Result<(), Fault>)
        requires
            old(self).ready(),
        ensures
            final(self).ready(),
            forall|at: u16| #[trigger]
                final(self).byte_at(at) == old(self).byte_after_write(addr, value, at),
            res == match old(self).refusal(addr, value) {
                Some(fault) => Err::<(), Fault>(fault),
                None => Ok(()),
            },
    ;
}

impl MBC for Simple {
    open spec fn ready(&self) -> bool {
        self.well_formed()
    }

    open spec fn byte_at(&self, addr: u16) -> u8 {
        super::simple::simple_read(self@, addr)
    }

    open spec fn byte_after_write(&self, addr: u16, value: u8, at: u16) -> u8 {
        super::simple::simple_read(self@, at)
    }

    open spec fn refusal(&self, addr: u16, value: u8) -> Option<Fault> {
        None
    }

    fn read_memory(&self, addr: u16) -> (byte: u8) {
        Simple::read_memory(self, addr)
    }

    fn write_memory(&mut self, addr: u16, value: u8) -> (res: Result<(), Fault>) {
        Simple::write_memory(self, addr, value);
        Ok(())
    }
}

impl MBC for MBC1 {
    open spec fn ready(&self) -> bool {
        self.well_formed()
    }

    open spec fn byte_at(&self, addr: u16) -> u8 {
        self@.read(addr)
    }

    open spec fn byte_after_write(&self, addr: u16, value: u8, at: u16) -> u8 {
        self@.write(addr, value).read(at)
    }

    open spec fn refusal(&self, addr: u16, value: u8) -> Option<Fault> {
        self@.write_fault(addr, value)
    }

    fn read_memory(&self, addr: u16) -> (byte: u8) {
        MBC1::read_memory(self, addr)
    }

    fn write_memory(&mut self, addr: u16, value: u8) -> (res: Result<(), Fault>) {
        MBC1::write_memory(self, addr, value)
    }
}

impl MBC for Cartridge {
    open spec fn ready(&self) -> bool {
        self.well_formed()
    }

    open spec fn byte_at(&self, addr: u16) -> u8 {
        self@.read(addr)
    }

    open spec fn byte_after_write(&self, addr: u16, value: u8, at: u16) -> u8 {
        self@.write(addr, value).read(at)
    }

    open spec fn refusal(&self, addr: u16, value: u8) -> Option<Fault> {
        self@.write_fault(addr, value)
    }

    fn read_memory(&self, addr: u16) -> (byte: u8) {
        Cartridge::read_memory(self, addr)
    }

    fn write_memory(&mut self, addr: u16, value: u8) -> (res: Result<(), Fault>) {
        Cartridge::write_memory(self, addr, value)
    }
}

/// The address space as its users see it.
pub trait Memory {
    /// Whether the memory can be used.
    spec fn ready(&self) -> bool;

    /// The byte that a read at `addr` gives.
    spec fn byte_at(&self, addr: u16) -> u8;

    /// The byte that a read at `at` gives after a write of `value` at
    /// `addr`.
    spec fn byte_after_write(&self, addr: u16, value: u8, at: u16) -> u8;

    /// The byte that a read at `at` gives after one machine cycle.
    spec fn byte_after_tick(&self, at: u16) -> u8;

    /// The fault that a write of `value` at `addr` meets, if any.
    spec fn refusal(&self, addr: u16, value: u8) -> Option<Fault>;

    fn read_memory(&self, addr: u16) -> (byte: u8)
        requires
            self.ready(),
        ensures
            byte == self.byte_at(addr),
    ;

    fn write_memory(&mut self, addr: u16, value: u8) -> (res: Result<(), Fault>)
        requires
            old(self).ready(),
        ensures
            final(self).ready(),
            forall|at: u16| #[trigger]
                final(self).byte_at(at) == old(self).byte_after_write(addr, value, at),
            res == match old(self).refusal(addr, value) {
                Some(fault) => Err::<(), Fault>(fault),
                None => Ok(()),
            },
    ;

    fn tick(&mut self)
        requires
            old(self).ready(),
        ensures
            final(self).ready(),
            forall|at: u16| #[trigger] final(self).byte_at(at) == old(self).byte_after_tick(at),
    ;
}

impl Memory for MMU {
    open spec fn ready(&self) -> bool {
        self.well_formed()
    }

    open spec fn byte_at(&self, addr: u16) -> u8 {
        self@.read(addr)
    }

    open spec fn byte_after_write(&self, addr: u16, value: u8, at: u16) -> u8 {
        self@.write(addr, value).read(at)
    }

    open spec fn byte_after_tick(&self, at: u16) -> u8 {
        self@.tick().read(at)
    }

    open spec fn refusal(&self, addr: u16, value: u8) -> Option<Fault> {
        self@.write_fault(addr, value)
    }

    fn read_memory(&self, addr: u16) -> (byte: u8) {
        MMU::read_memory(self, addr)
    }

    fn write_memory(&mut self, addr: u16, value: u8) -> (res: Result<(), Fault>) {
        MMU::write_memory(self, addr, value)
    }

    fn tick(&mut self) {
        MMU::tick(self)
    }
}

} // verus!
