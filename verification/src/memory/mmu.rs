//! The memory management unit: one 16-bit address space over the
//! cartridge, the internal memories, the I/O registers and the interrupt
//! and timer controller.

use vstd::prelude::*;
use super::dma::{DMAInfo, DMA_LENGTH};
use super::store::{zeroed, zeros};
use super::{
    Cartridge, CartridgeView, BOOTSTRAP_ROM_MOUNT_CONTROL_ADDR, DIVIDER_REGISTER_ADDR,
    INTERRUPT_FLAG_ADDR, JOYPAD_STATUS_ADDR, LCD_OAM_DMA_ADDR, SERIAL_TRANSFER_CONTROL_ADDR,
    SERIAL_TRANSFER_DATA_ADDR, TIMER_CONTROL_ADDR, TIMER_COUNTER_ADDR, TIMER_MODULO_ADDR,
};
use crate::bits::bit_set;
use crate::fault::Fault;
use crate::interrupt::InterruptController;
use crate::serial::{SerialBuffer, SerialWrite};

verus! {

pub const BOOTSTRAP_ROM_SIZE: usize = 0x100;

pub const VRAM_SIZE: usize = 0x2000;

pub const WRAM_SIZE: usize = 0x2000;

pub const OAM_SIZE: usize = 0xA0;

pub const IO_REGS_SIZE: usize = 0x80;

pub const HRAM_SIZE: usize = 0x7F;

pub struct MMU {
    pub bootstrap_rom: Vec<u8>,
    pub mbc: Cartridge,
    pub vram: Vec<u8>,
    pub wram: Vec<u8>,
    pub oam: Vec<u8>,
    pub io_regs: Vec<u8>,
    pub hram: Vec<u8>,
    pub serial: SerialBuffer,
    pub interrupt_controller: InterruptController,
    pub waiting_dma: Option<DMAInfo>,
}

/// The contents of the address space and of what stands behind it.
pub struct MmuView {
    pub bootstrap_rom: Seq<u8>,
    pub mbc: CartridgeView,
    pub vram: Seq<u8>,
    pub wram: Seq<u8>,
    pub oam: Seq<u8>,
    pub io_regs: Seq<u8>,
    pub hram: Seq<u8>,
    /// The bytes sent over the serial port and not yet taken by the host.
    pub serial: Seq<u8>,
    pub interrupt_controller: InterruptController,
    pub waiting_dma: Option<DMAInfo>,
}

impl View for MMU {
    type V = MmuView;

    open spec fn view(&self) -> MmuView {
        MmuView {
            bootstrap_rom: self.bootstrap_rom@,
            mbc: self.mbc@,
            vram: self.vram@,
            wram: self.wram@,
            oam: self.oam@,
            io_regs: self.io_regs@,
            hram: self.hram@,
            serial: self.serial.sent(),
            interrupt_controller: self.interrupt_controller,
            waiting_dma: self.waiting_dma,
        }
    }
}

impl MmuView {
    /// The unit at power-on: every memory zeroed, the boot ROM mounted,
    /// no transfer waiting, and the register at 0xFF4D reading 0xFF.
    pub open spec fn initial(
        mbc: CartridgeView,
        interrupt_controller: InterruptController,
        serial: Seq<u8>,
    ) -> MmuView {
        MmuView {
            bootstrap_rom: zeros(BOOTSTRAP_ROM_SIZE as nat),
            mbc,
            vram: zeros(VRAM_SIZE as nat),
            wram: zeros(WRAM_SIZE as nat),
            oam: zeros(OAM_SIZE as nat),
            io_regs: zeros(IO_REGS_SIZE as nat).update(0x4D, 0xFF),
            hram: zeros(HRAM_SIZE as nat),
            serial,
            interrupt_controller,
            waiting_dma: None,
        }
    }

    /// The state with the boot ROM image `image` loaded over the start of
    /// the boot ROM.
    pub open spec fn with_boot_rom(self, image: Seq<u8>) -> MmuView {
        MmuView {
            bootstrap_rom: Seq::new(
                BOOTSTRAP_ROM_SIZE as nat,
                |i: int|
                    if i < image.len() {
                        image[i]
                    } else {
                        self.bootstrap_rom[i]
                    },
            ),
            ..self
        }
    }

    pub open spec fn well_formed(self) -> bool {
        &&& self.bootstrap_rom.len() == BOOTSTRAP_ROM_SIZE
        &&& self.mbc.well_formed()
        &&& self.vram.len() == VRAM_SIZE
        &&& self.wram.len() == WRAM_SIZE
        &&& self.oam.len() == OAM_SIZE
        &&& self.io_regs.len() == IO_REGS_SIZE
        &&& self.hram.len() == HRAM_SIZE
        &&& match self.waiting_dma {
            Some(dma) => 0 < dma.timer <= DMA_LENGTH,
            None => true,
        }
    }

    /// Whether the boot ROM still covers 0x0000..0x00FF.
    pub open spec fn boot_rom_mounted(self) -> bool {
        self.io_regs[0x50] == 0
    }

    /// The byte read from the I/O register at `addr`, for `addr` in
    /// 0xFF00..0xFF7F. The joypad, timer and interrupt-flag registers are
    /// answered by the controller, the others by the register file.
    pub open spec fn read_io(self, addr: u16) -> u8 {
        let itc = self.interrupt_controller;
        if addr == JOYPAD_STATUS_ADDR {
            itc.joypad_byte()
        } else if addr == DIVIDER_REGISTER_ADDR {
            itc.divider_register
        } else if addr == TIMER_COUNTER_ADDR {
            itc.timer_counter
        } else if addr == TIMER_MODULO_ADDR {
            itc.timer_modulo
        } else if addr == TIMER_CONTROL_ADDR {
            itc.timer_control
        } else if addr == INTERRUPT_FLAG_ADDR {
            itc.interrupt_flag
        } else {
            self.io_regs[addr - 0xFF00]
        }
    }

    /// The byte read at `addr`.
    #[verifier::opaque]
    pub open spec fn read(self, addr: u16) -> u8 {
        if addr < 0x0100 {
            if self.boot_rom_mounted() {
                self.bootstrap_rom[addr as int]
            } else {
                self.mbc.read(addr)
            }
        } else if addr < 0x8000 {
            self.mbc.read(addr)
        } else if addr < 0xA000 {
            self.vram[addr - 0x8000]
        } else if addr < 0xC000 {
            self.mbc.read(addr)
        } else if addr < 0xE000 {
            self.wram[addr - 0xC000]
        } else if addr < 0xFE00 {
            self.wram[addr - 0xE000]
        } else if addr < 0xFEA0 {
            self.oam[addr - 0xFE00]
        } else if addr < 0xFF00 {
            0xFF
        } else if addr < 0xFF80 {
            self.read_io(addr)
        } else if addr < 0xFFFF {
            self.hram[addr - 0xFF80]
        } else {
            self.interrupt_controller.interrupt_enable
        }
    }

    /// The 16-bit value whose low byte is read at `addr` and whose high
    /// byte is read at the next address.
    pub open spec fn read_u16(self, addr: u16) -> u16 {
        crate::bits::joined(self.read(addr.wrapping_add(1)), self.read(addr))
    }

    /// The state after a write of `value` to the I/O register at `addr`,
    /// for `addr` in 0xFF00..0xFF7F.
    ///
    /// A write to the divider register clears it whatever the value. A
    /// write to the OAM DMA register starts a transfer unless one is
    /// waiting. The boot-ROM register keeps its first nonzero value for
    /// good.
    pub open spec fn write_io(self, addr: u16, value: u8) -> MmuView {
        let itc = self.interrupt_controller;
        if addr == JOYPAD_STATUS_ADDR {
            MmuView {
                interrupt_controller: InterruptController {
                    select_directions: !bit_set(value, 4),
                    select_buttons: !bit_set(value, 5),
                    ..itc
                },
                ..self
            }
        } else if addr == DIVIDER_REGISTER_ADDR {
            MmuView {
                interrupt_controller: InterruptController { divider_register: 0, ..itc },
                ..self
            }
        } else if addr == TIMER_COUNTER_ADDR {
            MmuView {
                interrupt_controller: InterruptController { timer_counter: value, ..itc },
                ..self
            }
        } else if addr == TIMER_MODULO_ADDR {
            MmuView {
                interrupt_controller: InterruptController { timer_modulo: value, ..itc },
                ..self
            }
        } else if addr == TIMER_CONTROL_ADDR {
            MmuView {
                interrupt_controller: InterruptController { timer_control: value, ..itc },
                ..self
            }
        } else if addr == INTERRUPT_FLAG_ADDR {
            MmuView {
                interrupt_controller: InterruptController { interrupt_flag: value, ..itc },
                ..self
            }
        } else if addr == BOOTSTRAP_ROM_MOUNT_CONTROL_ADDR && !self.boot_rom_mounted() {
            self
        } else {
            MmuView {
                io_regs: self.io_regs.update(addr - 0xFF00, value),
                waiting_dma: if addr == LCD_OAM_DMA_ADDR && self.waiting_dma is None {
                    Some(DMAInfo { high_byte_addr: value, timer: DMA_LENGTH })
                } else {
                    self.waiting_dma
                },
                ..self
            }
        }
    }

    /// Whether a write at `addr` reaches the cartridge: ROM and cartridge
    /// RAM addresses do, unless the boot ROM covers them.
    pub open spec fn reaches_cartridge(self, addr: u16) -> bool {
        if addr < 0x0100 {
            !self.boot_rom_mounted()
        } else {
            addr < 0x8000 || 0xA000 <= addr < 0xC000
        }
    }

    /// The state with `byte` sent over the serial port if the write of
    /// `value` at `addr` asks for a transfer: the value 0x81 written to
    /// the serial control register sends the serial data register.
    pub open spec fn serial_transfer(self, addr: u16, value: u8) -> MmuView {
        if addr == SERIAL_TRANSFER_CONTROL_ADDR && value == 0x81 {
            MmuView { serial: self.serial.push(self.read(SERIAL_TRANSFER_DATA_ADDR)), ..self }
        } else {
            self
        }
    }

    /// The state after a write of `value` at `addr`. Where the write
    /// faults, nothing changes.
    #[verifier::opaque]
    pub open spec fn write(self, addr: u16, value: u8) -> MmuView {
        let sent = self.serial_transfer(addr, value);
        if self.reaches_cartridge(addr) {
            MmuView { mbc: self.mbc.write(addr, value), ..sent }
        } else if addr < 0x0100 {
            sent
        } else if addr < 0xA000 {
            MmuView { vram: self.vram.update(addr - 0x8000, value), ..sent }
        } else if addr < 0xE000 {
            MmuView { wram: self.wram.update(addr - 0xC000, value), ..sent }
        } else if addr < 0xFE00 {
            MmuView { wram: self.wram.update(addr - 0xE000, value), ..sent }
        } else if addr < 0xFEA0 {
            MmuView { oam: self.oam.update(addr - 0xFE00, value), ..sent }
        } else if addr < 0xFF00 {
            sent
        } else if addr < 0xFF80 {
            sent.write_io(addr, value)
        } else if addr < 0xFFFF {
            MmuView { hram: self.hram.update(addr - 0xFF80, value), ..sent }
        } else {
            MmuView {
                interrupt_controller: InterruptController {
                    interrupt_enable: value,
                    ..self.interrupt_controller
                },
                ..sent
            }
        }
    }

    /// The fault that a write of `value` at `addr` meets, if any. Only the
    /// cartridge can refuse a write.
    pub open spec fn write_fault(self, addr: u16, value: u8) -> Option<Fault> {
        if self.reaches_cartridge(addr) {
            self.mbc.write_fault(addr, value)
        } else {
            None
        }
    }

    /// The 160 bytes that an OAM DMA from page `high_byte_addr` copies.
    pub open spec fn dma_source(self, high_byte_addr: u8) -> Seq<u8> {
        Seq::new(OAM_SIZE as nat, |i: int| self.read((high_byte_addr * 256 + i) as u16))
    }

    /// The state one machine cycle later, as far as OAM DMA goes: a
    /// waiting transfer counts down, and when its count is over the 160
    /// bytes are copied at once.
    pub open spec fn tick(self) -> MmuView {
        match self.waiting_dma {
            None => self,
            Some(dma) => if dma.timer == 1 {
                MmuView { oam: self.dma_source(dma.high_byte_addr), waiting_dma: None, ..self }
            } else {
                MmuView {
                    waiting_dma: Some(DMAInfo { timer: (dma.timer - 1) as u8, ..dma }),
                    ..self
                }
            },
        }
    }

    /// The state after `cycles` machine cycles without a write.
    pub open spec fn ticks(self, cycles: nat) -> MmuView
        decreases cycles,
    {
        if cycles == 0 {
            self
        } else {
            self.tick().ticks((cycles - 1) as nat)
        }
    }
}

impl MMU {
    pub open spec fn well_formed(&self) -> bool {
        self@.well_formed()
    }

    /// The unit at power-on.
    pub fn new(mbc: Cartridge, int_controller: InterruptController, serial: SerialBuffer) -> (mmu:
        MMU)
        requires
            mbc.well_formed(),
        ensures
            mmu.well_formed(),
            mmu@ == MmuView::initial(mbc@, int_controller, serial.sent()),
    {
        let mut mmu = MMU {
            bootstrap_rom: zeroed(BOOTSTRAP_ROM_SIZE),
            mbc,
            vram: zeroed(VRAM_SIZE),
            wram: zeroed(WRAM_SIZE),
            oam: zeroed(OAM_SIZE),
            io_regs: zeroed(IO_REGS_SIZE),
            hram: zeroed(HRAM_SIZE),
            serial,
            interrupt_controller: int_controller,
            waiting_dma: None,
        };
        mmu.init_default_values();
        mmu
    }

    fn init_default_values(&mut self)
        requires
            old(self).well_formed(),
        ensures
            final(self)@ == (MmuView { io_regs: old(self)@.io_regs.update(0x4D, 0xFF), ..old(self)@ }),
            final(self).well_formed(),
    {
        self.io_regs[0x4D] = 0xFF;
    }

    /// Loads a boot ROM image.
    pub fn write_bootstrap_rom(&mut self, slice: &[u8])
        requires
            old(self).well_formed(),
            slice@.len() <= BOOTSTRAP_ROM_SIZE,
        ensures
            final(self).well_formed(),
            final(self)@ == old(self)@.with_boot_rom(slice@),
    {
        let mut i: usize = 0;
        while i < slice.len()
            invariant
                i <= slice@.len() <= BOOTSTRAP_ROM_SIZE,
                self.bootstrap_rom@.len() == BOOTSTRAP_ROM_SIZE,
                forall|j: int| 0 <= j < i ==> self.bootstrap_rom@[j] == slice@[j],
                forall|j: int|
                    i <= j < BOOTSTRAP_ROM_SIZE ==> self.bootstrap_rom@[j] == old(
                        self,
                    ).bootstrap_rom@[j],
                self@ == (MmuView { bootstrap_rom: self.bootstrap_rom@, ..old(self)@ }),
            decreases slice@.len() - i,
        {
            self.bootstrap_rom[i] = slice[i];
            i = i + 1;
        }
        assert(self.bootstrap_rom@ =~= old(self)@.with_boot_rom(slice@).bootstrap_rom);
    }

    fn is_boot_rom_mounted(&self) -> (mounted: bool)
        requires
            self.well_formed(),
        ensures
            mounted == self@.boot_rom_mounted(),
    {
        self.io_regs[0x50] == 0
    }

    /// Reads a byte of the first 256, from the boot ROM while it is
    /// mounted and from the cartridge afterwards.
    pub fn read_mounted_rom(&self, addr: u16) -> (byte: u8)
        requires
            self.well_formed(),
            addr < 0x0100,
        ensures
            byte == self@.read(addr),
    {
        reveal(MmuView::read);
        if !self.is_boot_rom_mounted() {
            self.mbc.read_memory(addr)
        } else {
            self.bootstrap_rom[addr as usize]
        }
    }

    /// Writes to one of the first 256 addresses: the cartridge gets the
    /// write unless the boot ROM is mounted.
    pub fn write_mounted_rom(&mut self, addr: u16, value: u8) -> (res: Result<(), Fault>)
        requires
            old(self).well_formed(),
            addr < 0x0100,
        ensures
            final(self).well_formed(),
            final(self)@ == old(self)@.write(addr, value),
            res == match old(self)@.write_fault(addr, value) {
                Some(fault) => Err::<(), Fault>(fault),
                None => Ok(()),
            },
    {
        reveal(MmuView::write);
        reveal(MmuView::read);
        if !self.is_boot_rom_mounted() {
            self.mbc.write_memory(addr, value)
        } else {
            Ok(())
        }
    }

    /// Takes the boot ROM out of the address space, for good.
    pub fn unmount_bootstrap_rom(&mut self)
        requires
            old(self).well_formed(),
        ensures
            final(self).well_formed(),
            final(self)@ == old(self)@.write(BOOTSTRAP_ROM_MOUNT_CONTROL_ADDR, 1),
            !final(self)@.boot_rom_mounted(),
    {
        reveal(MmuView::write);
        reveal(MmuView::read);
        self.write_io_reg(BOOTSTRAP_ROM_MOUNT_CONTROL_ADDR, 1);
    }

    pub fn read_io_reg(&self, addr: u16) -> (byte: u8)
        requires
            self.well_formed(),
            0xFF00 <= addr < 0xFF80,
        ensures
            byte == self@.read_io(addr),
    {
        if addr == JOYPAD_STATUS_ADDR {
            self.interrupt_controller.read_joypad_reg()
        } else if addr == DIVIDER_REGISTER_ADDR {
            self.interrupt_controller.divider_register
        } else if addr == TIMER_COUNTER_ADDR {
            self.interrupt_controller.timer_counter
        } else if addr == TIMER_MODULO_ADDR {
            self.interrupt_controller.timer_modulo
        } else if addr == TIMER_CONTROL_ADDR {
            self.interrupt_controller.timer_control
        } else if addr == INTERRUPT_FLAG_ADDR {
            self.interrupt_controller.interrupt_flag
        } else {
            self.io_regs[addr as usize - 0xFF00]
        }
    }

    pub fn write_io_reg(&mut self, addr: u16, value: u8)
        requires
            old(self).well_formed(),
            0xFF00 <= addr < 0xFF80,
        ensures
            final(self).well_formed(),
            final(self)@ == old(self)@.write_io(addr, value),
    {
        if addr == JOYPAD_STATUS_ADDR {
            self.interrupt_controller.write_joypad_reg(value);
        } else if addr == DIVIDER_REGISTER_ADDR {
            self.interrupt_controller.divider_register = 0;
        } else if addr == TIMER_COUNTER_ADDR {
            self.interrupt_controller.timer_counter = value;
        } else if addr == TIMER_MODULO_ADDR {
            self.interrupt_controller.timer_modulo = value;
        } else if addr == TIMER_CONTROL_ADDR {
            self.interrupt_controller.timer_control = value;
        } else if addr == INTERRUPT_FLAG_ADDR {
            self.interrupt_controller.interrupt_flag = value;
        } else if addr == BOOTSTRAP_ROM_MOUNT_CONTROL_ADDR && !self.is_boot_rom_mounted() {
        } else {
            if addr == LCD_OAM_DMA_ADDR && self.waiting_dma.is_none() {
                self.waiting_dma = Some(DMAInfo::new(value));
            }
            self.io_regs[addr as usize - 0xFF00] = value;
        }
    }

    pub fn read_memory(&self, addr: u16) -> (byte: u8)
        requires
            self.well_formed(),
        ensures
            byte == self@.read(addr),
    {
        reveal(MmuView::read);
        if addr < 0x0100 {
            self.read_mounted_rom(addr)
        } else if addr < 0x8000 {
            self.mbc.read_memory(addr)
        } else if addr < 0xA000 {
            self.vram[addr as usize - 0x8000]
        } else if addr < 0xC000 {
            self.mbc.read_memory(addr)
        } else if addr < 0xE000 {
            self.wram[addr as usize - 0xC000]
        } else if addr < 0xFE00 {
            self.wram[addr as usize - 0xE000]
        } else if addr < 0xFEA0 {
            self.oam[addr as usize - 0xFE00]
        } else if addr < 0xFF00 {
            0xFF
        } else if addr < 0xFF80 {
            self.read_io_reg(addr)
        } else if addr < 0xFFFF {
            self.hram[addr as usize - 0xFF80]
        } else {
            self.interrupt_controller.interrupt_enable
        }
    }

    pub fn write_memory(&mut self, addr: u16, value: u8) -> (res: Result<(), Fault>)
        requires
            old(self).well_formed(),
        ensures
            final(self).well_formed(),
            final(self)@ == old(self)@.write(addr, value),
            res == match old(self)@.write_fault(addr, value) {
                Some(fault) => Err::<(), Fault>(fault),
                None => Ok(()),
            },
    {
        reveal(MmuView::write);
        reveal(MmuView::read);
        if addr == SERIAL_TRANSFER_CONTROL_ADDR && value == 0x81 {
            let byte = self.read_memory(SERIAL_TRANSFER_DATA_ADDR);
            self.serial.write_byte(byte);
        }
        if addr < 0x0100 {
            self.write_mounted_rom(addr, value)
        } else if addr < 0x8000 {
            self.mbc.write_memory(addr, value)
        } else if addr < 0xA000 {
            self.vram[addr as usize - 0x8000] = value;
            Ok(())
        } else if addr < 0xC000 {
            self.mbc.write_memory(addr, value)
        } else if addr < 0xE000 {
            self.wram[addr as usize - 0xC000] = value;
            Ok(())
        } else if addr < 0xFE00 {
            self.wram[addr as usize - 0xE000] = value;
            Ok(())
        } else if addr < 0xFEA0 {
            self.oam[addr as usize - 0xFE00] = value;
            Ok(())
        } else if addr < 0xFF00 {
            Ok(())
        } else if addr < 0xFF80 {
            self.write_io_reg(addr, value);
            Ok(())
        } else if addr < 0xFFFF {
            self.hram[addr as usize - 0xFF80] = value;
            Ok(())
        } else {
            self.interrupt_controller.interrupt_enable = value;
            Ok(())
        }
    }

    /// Lets one machine cycle pass for the OAM DMA.
    pub fn tick(&mut self)
        requires
            old(self).well_formed(),
        ensures
            final(self).well_formed(),
            final(self)@ == old(self)@.tick(),
    {
        reveal(MmuView::read);
        let due_from: Option<u8> = match self.waiting_dma {
            Some(mut dma) => {
                if dma.tick() {
                    self.waiting_dma = None;
                    Some(dma.high_byte_addr)
                } else {
                    self.waiting_dma = Some(dma);
                    None
                }
            },
            None => None,
        };
        if let Some(high_byte_addr) = due_from {
            let start_addr: u16 = (high_byte_addr as u16) * 256;
            let ghost source = old(self)@.dma_source(high_byte_addr);
            let mut offset: u16 = 0;
            while offset < 0xA0
                invariant
                    offset <= 0xA0,
                    start_addr == high_byte_addr * 256,
                    self.well_formed(),
                    source == old(self)@.dma_source(high_byte_addr),
                    old(self).well_formed(),
                    self@ == (MmuView { oam: self@.oam, waiting_dma: None, ..old(self)@ }),
                    forall|i: int| 0 <= i < offset ==> self@.oam[i] == source[i],
                    forall|i: int| offset <= i < OAM_SIZE ==> self@.oam[i] == old(self)@.oam[i],
                decreases 0xA0 - offset,
            {
                proof {
                    reveal(MmuView::read);
                }
                let src_addr: u16 = start_addr + offset;
                let byte = self.read_memory(src_addr);
                assert(byte == source[offset as int]);
                self.oam[offset as usize] = byte;
                offset = offset + 1;
            }
            assert(self@.oam =~= source);
        }
    }

    /// Hands out the bytes that the program has sent over the serial port
    /// since the last call.
    pub fn take_serial_output(&mut self) -> (bytes: Vec<u8>)
        ensures
            bytes@ == old(self)@.serial,
            final(self)@ == (MmuView { serial: Seq::<u8>::empty(), ..old(self)@ }),
            final(self).well_formed() == old(self).well_formed(),
    {
        self.serial.take()
    }
}

} // verus!
