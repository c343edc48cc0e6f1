//! Objects (sprites) and their entries in object attribute memory.

use vstd::prelude::*;
use super::pixel::{read_tile_pixels, tile_pixels, Pixel, PixelSource};
use crate::bits::bit_set;
use crate::memory::mmu::{MmuView, MMU};

verus! {

/// The four attribute bits of an object.
#[derive(Debug, Clone, Copy, PartialEq, Eq, Structural)]
pub struct OAMFlags {
    /// Bit 7: the background, where it is not color 0, covers the object.
    pub obj_to_bg_priority: bool,
    /// Bit 6.
    pub y_flip: bool,
    /// Bit 5.
    pub x_flip: bool,
    /// Bit 4: the object uses the second object palette.
    pub palette_number: bool,
}

impl OAMFlags {
    pub open spec fn of_byte(byte: u8) -> OAMFlags {
        OAMFlags {
            obj_to_bg_priority: bit_set(byte, 7),
            y_flip: bit_set(byte, 6),
            x_flip: bit_set(byte, 5),
            palette_number: bit_set(byte, 4),
        }
    }

    pub fn from_bits_truncate(byte: u8) -> (flags: OAMFlags)
        ensures
            flags == OAMFlags::of_byte(byte),
    {
        OAMFlags {
            obj_to_bg_priority: byte / 128 == 1,
            y_flip: (byte / 64) % 2 == 1,
            x_flip: (byte / 32) % 2 == 1,
            palette_number: (byte / 16) % 2 == 1,
        }
    }
}

/// The two object sizes.
#[derive(Debug, Clone, Copy, PartialEq, Eq, Structural)]
pub enum OAMSize {
    _8x8,
    _8x16,
}

impl OAMSize {
    pub open spec fn rows(self) -> u8 {
        match self {
            OAMSize::_8x16 => 16,
            OAMSize::_8x8 => 8,
        }
    }

    pub fn height(self) -> (rows: u8)
        ensures
            rows == self.rows(),
    {
        match self {
            OAMSize::_8x16 => 16,
            OAMSize::_8x8 => 8,
        }
    }
}

/// An entry of object attribute memory.
#[derive(Debug, Clone, Copy, PartialEq, Eq, Structural)]
pub struct Oam {
    /// The line of the top row, plus 16.
    pub y_pos: u8,
    /// The column of the left edge, plus 8.
    pub x_pos: u8,
    pub tile_id: u8,
    pub flags: OAMFlags,
}

/// Another name for [`Oam`].
pub type OAM = Oam;

/// The sequence `pixels`, backwards.
pub open spec fn mirrored(pixels: Seq<Pixel>) -> Seq<Pixel> {
    Seq::new(pixels.len(), |i: int| pixels[pixels.len() - 1 - i])
}

impl Oam {
    /// The entry that memory holds in the four bytes from `addr`.
    pub open spec fn at(mmu: MmuView, addr: u16) -> Oam {
        Oam {
            y_pos: mmu.read(addr),
            x_pos: mmu.read((addr + 1) as u16),
            tile_id: mmu.read((addr + 2) as u16),
            flags: OAMFlags::of_byte(mmu.read((addr + 3) as u16)),
        }
    }

    /// Whether the object covers the line `scan_line`.
    pub open spec fn hits(self, scan_line: u8, oam_size: OAMSize) -> bool {
        self.y_pos <= scan_line + 16 < self.y_pos + oam_size.rows()
    }

    /// How the object colors its pixels.
    pub open spec fn source(self) -> PixelSource {
        PixelSource::OAM {
            palette: if self.flags.palette_number { 1 } else { 0 },
            bg_priority: self.flags.obj_to_bg_priority,
        }
    }

    /// The row of the object, counted from its top as stored, that is
    /// shown at row `in_oam_y` of the object as displayed.
    pub open spec fn stored_row(self, in_oam_y: u8, oam_size: OAMSize) -> int {
        if self.flags.y_flip {
            oam_size.rows() - 1 - in_oam_y
        } else {
            in_oam_y as int
        }
    }

    /// The tile that holds the stored row `row`. A tall object takes its
    /// upper half from the even tile of a pair and its lower half from
    /// the odd one.
    pub open spec fn tile_of_row(self, row: int, oam_size: OAMSize) -> u16 {
        match oam_size {
            OAMSize::_8x8 => self.tile_id as u16,
            OAMSize::_8x16 => if row < 8 {
                (self.tile_id - self.tile_id % 2) as u16
            } else {
                (self.tile_id - self.tile_id % 2 + 1) as u16
            },
        }
    }

    /// The eight pixels of the object at row `in_oam_y`, as displayed.
    pub open spec fn pixels(self, mmu: MmuView, in_oam_y: u8, oam_size: OAMSize) -> Seq<Pixel> {
        let row = self.stored_row(in_oam_y, oam_size);
        let stored = tile_pixels(
            mmu,
            self.tile_of_row(row, oam_size),
            (row % 8) as u8,
            self.source(),
        );
        if self.flags.x_flip {
            mirrored(stored)
        } else {
            stored
        }
    }

    pub fn read_from_memory(mmu: &MMU, addr: u16) -> (oam: Oam)
        requires
            mmu.well_formed(),
            addr <= 0xFFFC,
        ensures
            oam == Oam::at(mmu@, addr),
    {
        let y_pos = mmu.read_memory(addr);
        let x_pos = mmu.read_memory(addr + 1);
        let tile_id = mmu.read_memory(addr + 2);
        let flags = OAMFlags::from_bits_truncate(mmu.read_memory(addr + 3));

        Oam { y_pos, x_pos, tile_id, flags }
    }

    pub fn is_y_hitting(&self, scan_line: u8, oam_size: OAMSize) -> (hit: bool)
        ensures
            hit == self.hits(scan_line, oam_size),
    {
        let line: u16 = scan_line as u16 + 16;
        self.y_pos as u16 <= line && line < self.y_pos as u16 + oam_size.height() as u16
    }

    pub fn get_pixels(&self, mmu: &MMU, in_oam_y: u8, oam_size: OAMSize) -> (pixels: [Pixel; 8])
        requires
            mmu.well_formed(),
            in_oam_y < oam_size.rows(),
        ensures
            pixels@ == self.pixels(mmu@, in_oam_y, oam_size),
            forall|i: int| 0 <= i < 8 ==> (#[trigger] pixels@[i]).well_formed(),
    {
        let in_tile_y: u8 = if self.flags.y_flip {
            oam_size.height() - 1 - in_oam_y
        } else {
            in_oam_y
        };

        let palette: u8 = if self.flags.palette_number { 1 } else { 0 };

        let (real_tile_id, in_tile_y): (u8, u8) = match oam_size {
            OAMSize::_8x8 => (self.tile_id, in_tile_y),
            OAMSize::_8x16 => if in_tile_y < 8 {
                (self.tile_id - self.tile_id % 2, in_tile_y)
            } else {
                (self.tile_id - self.tile_id % 2 + 1, in_tile_y - 8)
            },
        };

        let pixels = read_tile_pixels(
            mmu,
            real_tile_id as u16,
            in_tile_y,
            PixelSource::OAM { palette, bg_priority: self.flags.obj_to_bg_priority },
        );

        if self.flags.x_flip {
            let reversed = [
                pixels[7],
                pixels[6],
                pixels[5],
                pixels[4],
                pixels[3],
                pixels[2],
                pixels[1],
                pixels[0],
            ];
            assert(reversed@ =~= mirrored(pixels@));
            reversed
        } else {
            pixels
        }
    }
}

} // verus!
