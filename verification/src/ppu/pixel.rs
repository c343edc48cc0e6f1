//! Pixels and the rows of tiles that they come from.

use vstd::prelude::*;
use super::{BG_PALETTE_DATA_ADDR, OAM0_PALETTE_DATA_ADDR, OAM1_PALETTE_DATA_ADDR};
use crate::bits::{bit_set, test_bit};
use crate::memory::mmu::{MmuView, MMU};

verus! {

/// Where a pixel comes from: the background or window, or an object with
/// its palette and its priority against the background.
#[derive(Debug, Clone, Copy, PartialEq, Eq, Structural)]
pub enum PixelSource {
    BackgroundWindow,
    OAM { palette: u8, bg_priority: bool },
}

/// A color index with its source.
#[derive(Debug, Clone, Copy, PartialEq, Eq, Structural)]
pub struct Pixel {
    pub color: u8,
    pub source: PixelSource,
}

/// The shade that the palette register `palette` gives the color index
/// `color`: two bits per index, index 0 lowest.
pub open spec fn shade(palette: u8, color: u8) -> u8 {
    match color {
        0 => palette % 4,
        1 => (palette / 4) % 4,
        2 => (palette / 16) % 4,
        _ => palette / 64,
    }
}

/// The color index of the pixel at `column` of a tile row given by its
/// two bytes: bit `7 - column` of `high` is worth 2, that of `low` 1.
pub open spec fn color_at(low: u8, high: u8, column: int) -> u8 {
    ((if bit_set(high, (7 - column) as u8) { 2int } else { 0 })
        + (if bit_set(low, (7 - column) as u8) { 1int } else { 0 })) as u8
}

/// The eight pixels of a tile row, leftmost first.
pub open spec fn tile_row(low: u8, high: u8, source: PixelSource) -> Seq<Pixel> {
    Seq::new(8, |column: int| Pixel { color: color_at(low, high, column), source })
}

/// The address of row `in_tile_y` of tile `real_tile_id`: tiles are 16
/// bytes from 0x8000 on, rows 2 bytes.
pub open spec fn row_address(real_tile_id: u16, in_tile_y: u8) -> int {
    0x8000 + real_tile_id * 16 + in_tile_y * 2
}

/// The eight pixels of row `in_tile_y` of tile `real_tile_id` in memory.
pub open spec fn tile_pixels(
    mmu: MmuView,
    real_tile_id: u16,
    in_tile_y: u8,
    source: PixelSource,
) -> Seq<Pixel> {
    tile_row(
        mmu.read(row_address(real_tile_id, in_tile_y) as u16),
        mmu.read((row_address(real_tile_id, in_tile_y) + 1) as u16),
        source,
    )
}

impl PixelSource {
    /// The address of the palette register that colors the source.
    pub open spec fn palette_address(self) -> u16 {
        match self {
            PixelSource::BackgroundWindow => BG_PALETTE_DATA_ADDR,
            PixelSource::OAM { palette, .. } => if palette == 0 {
                OAM0_PALETTE_DATA_ADDR
            } else {
                OAM1_PALETTE_DATA_ADDR
            },
        }
    }

    pub open spec fn well_formed(self) -> bool {
        match self {
            PixelSource::BackgroundWindow => true,
            PixelSource::OAM { palette, .. } => palette < 2,
        }
    }
}

impl Pixel {
    /// The color index is one of four and the palette one of two.
    pub open spec fn well_formed(self) -> bool {
        self.color < 4 && self.source.well_formed()
    }

    /// The shade of the pixel under the palettes in memory.
    pub open spec fn shade(self, mmu: MmuView) -> u8 {
        shade(mmu.read(self.source.palette_address()), self.color)
    }

    /// Maps the color index through the palette register of the source.
    pub fn through_palette(&self, mmu: &MMU) -> (res: u8)
        requires
            self.well_formed(),
            mmu.well_formed(),
        ensures
            res == self.shade(mmu@),
            res < 4,
    {
        let palette_addr = match self.source {
            PixelSource::BackgroundWindow => BG_PALETTE_DATA_ADDR,
            PixelSource::OAM { palette, .. } => if palette == 0 {
                OAM0_PALETTE_DATA_ADDR
            } else {
                OAM1_PALETTE_DATA_ADDR
            },
        };
        let palette = mmu.read_memory(palette_addr);
        if self.color == 0 {
            palette % 4
        } else if self.color == 1 {
            (palette / 4) % 4
        } else if self.color == 2 {
            (palette / 16) % 4
        } else {
            palette / 64
        }
    }
}

fn pixel_at(low: u8, high: u8, column: u8, source: PixelSource) -> (pixel: Pixel)
    requires
        column < 8,
    ensures
        pixel == (Pixel { color: color_at(low, high, column as int), source }),
        pixel.color < 4,
{
    let bit: u8 = 7 - column;
    let bit_low_value: u8 = if test_bit(low, bit) { 1 } else { 0 };
    let bit_high_value: u8 = if test_bit(high, bit) { 2 } else { 0 };
    Pixel { color: bit_high_value + bit_low_value, source }
}

/// Splits the two bytes of a tile row into its eight pixels.
pub fn byte_pair_to_pixels(low: u8, high: u8, source: PixelSource) -> (pixels: [Pixel; 8])
    ensures
        pixels@ == tile_row(low, high, source),
        forall|i: int| 0 <= i < 8 ==> (#[trigger] pixels@[i]).color < 4,
{
    let pixels = [
        pixel_at(low, high, 0, source),
        pixel_at(low, high, 1, source),
        pixel_at(low, high, 2, source),
        pixel_at(low, high, 3, source),
        pixel_at(low, high, 4, source),
        pixel_at(low, high, 5, source),
        pixel_at(low, high, 6, source),
        pixel_at(low, high, 7, source),
    ];
    assert(pixels@ =~= tile_row(low, high, source));
    pixels
}

/// Reads a tile row from memory.
pub fn read_tile_pixels(mmu: &MMU, real_tile_id: u16, in_tile_y: u8, source: PixelSource) -> (pixels:
    [Pixel; 8])
    requires
        mmu.well_formed(),
        row_address(real_tile_id, in_tile_y) < 0xFFFF,
    ensures
        pixels@ == tile_pixels(mmu@, real_tile_id, in_tile_y, source),
        forall|i: int| 0 <= i < 8 ==> (#[trigger] pixels@[i]).color < 4,
{
    let tile_addr: u16 = 0x8000 + real_tile_id * 16;
    let row_addr: u16 = tile_addr + (in_tile_y as u16) * 2;

    let byte1 = mmu.read_memory(row_addr);
    let byte2 = mmu.read_memory(row_addr + 1);

    byte_pair_to_pixels(byte1, byte2, source)
}

} // verus!
