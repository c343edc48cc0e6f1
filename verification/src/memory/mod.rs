//! The memory management unit and the cartridges behind it.

pub mod bus;
pub mod dma;
pub mod laws;
pub mod mbc1;
pub mod mmu;
pub mod simple;
pub mod store;

use vstd::prelude::*;
pub use bus::{Memory, MBC};
use crate::fault::{CartridgeError, Fault};
use mbc1::{Mbc1View, BANK_SIZE, MBC1};
use simple::{simple_read, Simple, ROM_SIZE};
use store::{padded, zeros};

verus! {

pub const JOYPAD_STATUS_ADDR: u16 = 0xFF00;

pub const SERIAL_TRANSFER_DATA_ADDR: u16 = 0xFF01;

pub const SERIAL_TRANSFER_CONTROL_ADDR: u16 = 0xFF02;

pub const DIVIDER_REGISTER_ADDR: u16 = 0xFF04;

pub const TIMER_COUNTER_ADDR: u16 = 0xFF05;

pub const TIMER_MODULO_ADDR: u16 = 0xFF06;

pub const TIMER_CONTROL_ADDR: u16 = 0xFF07;

pub const INTERRUPT_FLAG_ADDR: u16 = 0xFF0F;

pub const LCD_OAM_DMA_ADDR: u16 = 0xFF46;

pub const BOOTSTRAP_ROM_MOUNT_CONTROL_ADDR: u16 = 0xFF50;

pub const CARTRIDGE_CGB_FLAG_ADDR: usize = 0x0143;

pub const CARTRIDGE_TYPE_ADDR: usize = 0x0147;

pub const CARTRIDGE_ROM_SIZE_ADDR: usize = 0x0148;

pub const CARTRIDGE_RAM_SIZE_ADDR: usize = 0x0149;

/// The length of a cartridge header: an image must be at least this long.
pub const CARTRIDGE_HEADER_END: usize = 0x0150;

/// What the header says about Game Boy Color support.
#[derive(Debug, Clone, Copy, PartialEq, Eq, Structural)]
pub enum CGBFlag {
    DMG,
    CGBFeatures,
    CGBOnly,
}

/// A cartridge: plain ROM, or ROM and RAM behind an MBC1.
pub enum Cartridge {
    Simple(Simple),
    Mbc1(MBC1),
}

pub enum CartridgeView {
    Simple(Seq<u8>),
    Mbc1(Mbc1View),
}

impl View for Cartridge {
    type V = CartridgeView;

    open spec fn view(&self) -> CartridgeView {
        match self {
            Cartridge::Simple(mbc) => CartridgeView::Simple(mbc@),
            Cartridge::Mbc1(mbc) => CartridgeView::Mbc1(mbc@),
        }
    }
}

impl CartridgeView {
    pub open spec fn well_formed(self) -> bool {
        match self {
            CartridgeView::Simple(rom) => rom.len() == ROM_SIZE,
            CartridgeView::Mbc1(mbc) => mbc.well_formed(),
        }
    }

    pub open spec fn read(self, addr: u16) -> u8 {
        match self {
            CartridgeView::Simple(rom) => simple_read(rom, addr),
            CartridgeView::Mbc1(mbc) => mbc.read(addr),
        }
    }

    pub open spec fn write(self, addr: u16, value: u8) -> CartridgeView {
        match self {
            CartridgeView::Simple(rom) => self,
            CartridgeView::Mbc1(mbc) => CartridgeView::Mbc1(mbc.write(addr, value)),
        }
    }

    pub open spec fn write_fault(self, addr: u16, value: u8) -> Option<Fault> {
        match self {
            CartridgeView::Simple(rom) => None,
            CartridgeView::Mbc1(mbc) => mbc.write_fault(addr, value),
        }
    }
}

impl Cartridge {
    pub open spec fn well_formed(&self) -> bool {
        self@.well_formed()
    }

    pub fn read_memory(&self, addr: u16) -> (byte: u8)
        requires
            self.well_formed(),
        ensures
            byte == self@.read(addr),
    {
        match self {
            Cartridge::Simple(mbc) => mbc.read_memory(addr),
            Cartridge::Mbc1(mbc) => mbc.read_memory(addr),
        }
    }

    pub fn write_memory(&mut self, addr: u16, value: u8) -> (res: Result<(), Fault>)
        requires
            old(self).well_formed(),
        ensures
            final(self).well_formed(),
            final(self)@ == old(self)@.write(addr, value),
            res == match old(self)@.write_fault(addr, value) {
                Some(fault) => Err::<(), Fault>(fault),
                None => Ok(()),
            },
    {
        match self {
            Cartridge::Simple(mbc) => {
                mbc.write_memory(addr, value);
                Ok(())
            },
            Cartridge::Mbc1(mbc) => mbc.write_memory(addr, value),
        }
    }
}

/// The number of ROM bytes that the size class `tag` stands for: 32 KiB,
/// doubled `tag` times.
pub open spec fn rom_bytes(tag: u8) -> int
    decreases tag,
{
    if tag == 0 {
        0x8000
    } else {
        2 * rom_bytes((tag - 1) as u8)
    }
}

/// The number of RAM bytes that the size class `tag` stands for.
pub open spec fn ram_bytes(tag: u8) -> Option<int> {
    match tag {
        0 => Some(0),
        1 => Some(0x800),
        2 => Some(0x2000),
        3 => Some(0x8000),
        4 => Some(0x20000),
        5 => Some(0x10000),
        _ => None,
    }
}

/// The Game Boy Color flag that the header byte `bits` stands for.
pub open spec fn cgb_flag(bits: u8) -> CGBFlag {
    if bits == 0x80 {
        CGBFlag::CGBFeatures
    } else if bits == 0xC0 {
        CGBFlag::CGBOnly
    } else {
        CGBFlag::DMG
    }
}

/// Why the image `content` does not give a cartridge, if it does not.
/// The checks are made in this order: the header is there; the image is
/// as long as its ROM size class says; the RAM size class is known; the
/// type is plain ROM (of 32 KiB) or MBC1.
pub open spec fn cartridge_error(content: Seq<u8>) -> Option<CartridgeError> {
    if content.len() < CARTRIDGE_HEADER_END {
        Some(CartridgeError::MissingHeader { len: content.len() as usize })
    } else {
        let rom_tag = content[CARTRIDGE_ROM_SIZE_ADDR as int];
        let ram_tag = content[CARTRIDGE_RAM_SIZE_ADDR as int];
        let kind = content[CARTRIDGE_TYPE_ADDR as int];
        if rom_bytes(rom_tag) != content.len() {
            Some(CartridgeError::SizeMismatch { tag: rom_tag, actual: content.len() as usize })
        } else if ram_bytes(ram_tag) is None {
            Some(CartridgeError::UnknownRamSize { tag: ram_tag })
        } else if kind > 3 {
            Some(CartridgeError::UnsupportedType { tag: kind })
        } else if kind == 0 && rom_tag != 0 {
            Some(CartridgeError::UnsupportedRomSize { tag: rom_tag })
        } else {
            None
        }
    }
}

/// Why the header of the image `content` is not accepted, if it is not:
/// a ROM size class above 8 is refused before anything else is looked
/// at but the presence of the header; the rest is as for
/// [`cartridge_error`].
pub open spec fn header_error(content: Seq<u8>) -> Option<CartridgeError> {
    if content.len() >= CARTRIDGE_HEADER_END && content[CARTRIDGE_ROM_SIZE_ADDR as int] > 8 {
        Some(CartridgeError::UnsupportedRomSize { tag: content[CARTRIDGE_ROM_SIZE_ADDR as int] })
    } else {
        cartridge_error(content)
    }
}

/// The cartridge that an accepted image `content` describes. Type 0 is
/// plain ROM; type 1 is an MBC1 without RAM; types 2 and 3 are an MBC1
/// with the RAM that the header declares.
pub open spec fn cartridge_of(content: Seq<u8>) -> CartridgeView {
    let kind = content[CARTRIDGE_TYPE_ADDR as int];
    let ram_tag = content[CARTRIDGE_RAM_SIZE_ADDR as int];
    if kind == 0 {
        CartridgeView::Simple(padded(content, ROM_SIZE as nat))
    } else {
        CartridgeView::Mbc1(
            Mbc1View {
                bank_count: (content.len() / BANK_SIZE as nat) as usize,
                bank_lo: 1,
                ram_index: 0,
                ram_enabled: false,
                rom: padded(content, content.len()),
                ram: zeros(
                    if kind == 1 {
                        0
                    } else {
                        ram_bytes(ram_tag).unwrap() as nat
                    },
                ),
            },
        )
    }
}

/// The size of a class is a whole number of 32 KiB.
proof fn lemma_rom_bytes_whole(tag: u8)
    ensures
        rom_bytes(tag) >= 0x8000,
        rom_bytes(tag) % 0x8000 == 0,
    decreases tag,
{
    if tag > 0 {
        lemma_rom_bytes_whole((tag - 1) as u8);
    }
}

/// A higher class stands for at least twice the size of a lower one.
proof fn lemma_rom_bytes_grow(lower: u8, higher: u8)
    requires
        lower < higher,
    ensures
        rom_bytes(higher) >= 2 * rom_bytes(lower),
    decreases higher,
{
    lemma_rom_bytes_whole(lower);
    if lower < higher - 1 {
        lemma_rom_bytes_grow(lower, (higher - 1) as u8);
    }
}

/// Tells whether `len` is the number of bytes that the ROM size class
/// `tag` stands for.
fn has_rom_size(tag: u8, len: usize) -> (fits: bool)
    ensures
        fits == (rom_bytes(tag) == len),
        fits ==> len >= 0x8000 && len % BANK_SIZE == 0,
{
    proof {
        lemma_rom_bytes_whole(tag);
    }
    if len < 0x8000 {
        return false;
    }
    let mut size: usize = 0x8000;
    let mut doubled: u8 = 0;
    while doubled < tag
        invariant
            doubled <= tag,
            size == rom_bytes(doubled),
            size % 0x8000 == 0,
            0x8000 <= size <= len,
        decreases tag - doubled,
    {
        if size > len - size {
            proof {
                lemma_rom_bytes_grow(doubled, tag);
            }
            return false;
        }
        size = size + size;
        doubled = doubled + 1;
    }
    size == len
}

fn ram_size_of(tag: u8) -> (size: Option<usize>)
    ensures
        match size {
            Some(bytes) => ram_bytes(tag) == Some(bytes as int),
            None => ram_bytes(tag) is None,
        },
{
    match tag {
        0x00 => Some(0),
        0x01 => Some(0x800),
        0x02 => Some(0x2000),
        0x03 => Some(0x8000),
        0x04 => Some(0x20000),
        0x05 => Some(0x10000),
        _ => None,
    }
}

/// Reads the header of a cartridge image and builds the cartridge. A
/// ROM size class above 8 is not taken.
pub fn read_cartridge(content: &[u8]) -> (res: Result<(Cartridge, CGBFlag), CartridgeError>)
    ensures
        match res {
            Ok((mbc, flag)) => {
                &&& header_error(content@) is None
                &&& mbc.well_formed()
                &&& mbc@ == cartridge_of(content@)
                &&& flag == cgb_flag(content@[CARTRIDGE_CGB_FLAG_ADDR as int])
            },
            Err(error) => header_error(content@) == Some(error),
        },
{
    if content.len() < CARTRIDGE_HEADER_END {
        return Err(CartridgeError::MissingHeader { len: content.len() });
    }
    let rom_size_tag: u8 = content[CARTRIDGE_ROM_SIZE_ADDR];
    if rom_size_tag > 0x08 {
        return Err(CartridgeError::UnsupportedRomSize { tag: rom_size_tag });
    }
    let mbc = match build_mbc(content) {
        Ok(mbc) => mbc,
        Err(error) => {
            return Err(error);
        },
    };

    let cgb_flag_bits: u8 = content[CARTRIDGE_CGB_FLAG_ADDR];
    let flag = if cgb_flag_bits == 0x80 {
        CGBFlag::CGBFeatures
    } else if cgb_flag_bits == 0xC0 {
        CGBFlag::CGBOnly
    } else {
        CGBFlag::DMG
    };
    Ok((mbc, flag))
}

/// Builds the cartridge that an image describes, whatever its ROM size
/// class, as long as the image has the size of the class.
pub fn build_mbc(content: &[u8]) -> (res: Result<Cartridge, CartridgeError>)
    ensures
        match res {
            Ok(mbc) => {
                &&& cartridge_error(content@) is None
                &&& mbc.well_formed()
                &&& mbc@ == cartridge_of(content@)
            },
            Err(error) => cartridge_error(content@) == Some(error),
        },
{
    if content.len() < CARTRIDGE_HEADER_END {
        return Err(CartridgeError::MissingHeader { len: content.len() });
    }
    let rom_size_tag: u8 = content[CARTRIDGE_ROM_SIZE_ADDR];
    if !has_rom_size(rom_size_tag, content.len()) {
        return Err(CartridgeError::SizeMismatch { tag: rom_size_tag, actual: content.len() });
    }
    let ram_size_tag: u8 = content[CARTRIDGE_RAM_SIZE_ADDR];
    let ram_size: usize = match ram_size_of(ram_size_tag) {
        Some(bytes) => bytes,
        None => {
            return Err(CartridgeError::UnknownRamSize { tag: ram_size_tag });
        },
    };

    let kind: u8 = content[CARTRIDGE_TYPE_ADDR];
    let mbc = if kind == 0x00 {
        if rom_size_tag != 0 {
            return Err(CartridgeError::UnsupportedRomSize { tag: rom_size_tag });
        }
        Cartridge::Simple(Simple::new(content))
    } else if kind == 0x01 {
        Cartridge::Mbc1(MBC1::new(content, content.len(), 0))
    } else if kind == 0x02 || kind == 0x03 {
        Cartridge::Mbc1(MBC1::new(content, content.len(), ram_size))
    } else {
        return Err(CartridgeError::UnsupportedType { tag: kind });
    };
    Ok(mbc)
}

} // verus!
