//! The display: the frame that the host shows.

use vstd::prelude::*;
use crate::memory::mmu::{MmuView, MMU};
use crate::ppu::pixel::{byte_pair_to_pixels, color_at, PixelSource};
use crate::ppu::PIXEL_COUNT;

verus! {

/// The width and height of the picture of the tile data, in pixels: 20
/// tiles of 8 pixels each way.
pub const TILE_PICTURE_SIDE: usize = 160;

/// The number of tiles in the tile data.
pub const TILE_COUNT: usize = 384;

/// The number of bytes of the picture of the tile data up to its last
/// pixel: 159 full rows and the 32 pixels of the four tiles in the last.
pub const TILE_PICTURE_BYTES: usize = (159 * 160 + 32) * 4;

/// The visible frame: one shade, 0 to 3, per pixel, row by row.
#[derive(Debug)]
pub struct Display {
    pub frame: Vec<u8>,
}

impl View for Display {
    type V = Seq<u8>;

    open spec fn view(&self) -> Seq<u8> {
        self.frame@
    }
}

/// Whether `frame` holds one shade per pixel of the screen.
pub open spec fn is_frame(frame: Seq<u8>) -> bool {
    frame.len() == PIXEL_COUNT && forall|i: int| 0 <= i < frame.len() ==> #[trigger] frame[i] < 4
}

/// The gray level of a shade: 0 is white and 3 is black.
pub open spec fn gray(shade: u8) -> u8 {
    match shade {
        0 => 255,
        1 => 170,
        2 => 85,
        _ => 0,
    }
}

/// The byte `channel` of the RGBA color of a shade: three times the gray
/// level, then full opacity.
pub open spec fn channel(shade: u8, channel: int) -> u8 {
    if channel == 3 {
        255
    } else {
        gray(shade)
    }
}

/// The RGBA picture of a frame: four bytes per pixel, row by row.
pub open spec fn picture(frame: Seq<u8>) -> Seq<u8> {
    Seq::new(frame.len() * 4, |i: int| channel(frame[i / 4], i % 4))
}

/// The color index of the pixel `pixel` of the picture of the tile data:
/// the tiles stand 20 to a row, in the order of their numbers.
pub open spec fn tile_picture_color(mmu: MmuView, pixel: int) -> u8 {
    let row = pixel / 160;
    let column = pixel % 160;
    let tile = (row / 8) * 20 + column / 8;
    let addr = 0x8000 + tile * 16 + (row % 8) * 2;
    color_at(mmu.read(addr as u16), mmu.read((addr + 1) as u16), column % 8)
}

/// Whether the pixel `pixel` of the picture of the tile data lies in a
/// tile that exists.
pub open spec fn in_tile_picture(pixel: int) -> bool {
    0 <= pixel < 160 * 160 && ((pixel / 160) / 8) * 20 + (pixel % 160) / 8 < TILE_COUNT
}

/// The RGBA picture of the tile data, drawn over `before`.
pub open spec fn tile_picture(mmu: MmuView, before: Seq<u8>) -> Seq<u8> {
    Seq::new(
        before.len(),
        |i: int|
            if in_tile_picture(i / 4) {
                channel(tile_picture_color(mmu, i / 4), i % 4)
            } else {
                before[i]
            },
    )
}

fn pixel_color_to_screen_color(color: u8) -> (rgba: [u8; 4])
    requires
        color < 4,
    ensures
        forall|k: int| 0 <= k < 4 ==> #[trigger] rgba@[k] == channel(color, k),
{
    if color == 0 {
        [255, 255, 255, 255]
    } else if color == 1 {
        [170, 170, 170, 255]
    } else if color == 2 {
        [85, 85, 85, 255]
    } else {
        [0, 0, 0, 255]
    }
}

impl Default for Display {
    fn default() -> (display: Display)
        ensures
            display.well_formed(),
            display@ == crate::memory::store::zeros(PIXEL_COUNT as nat),
    {
        Display::new()
    }
}

impl Display {
    /// The frame has one entry per pixel of the screen.
    pub open spec fn well_formed(&self) -> bool {
        self@.len() == PIXEL_COUNT
    }

    /// The display before the first frame: all white.
    pub fn new() -> (display: Display)
        ensures
            display.well_formed(),
            display@ == crate::memory::store::zeros(PIXEL_COUNT as nat),
    {
        Display { frame: crate::memory::store::zeroed(PIXEL_COUNT) }
    }

    /// Makes `frame` the visible frame.
    pub fn push_frame(&mut self, frame: &[u8])
        requires
            old(self).well_formed(),
            frame@.len() == PIXEL_COUNT,
        ensures
            final(self).well_formed(),
            final(self)@ == frame@,
    {
        let mut i: usize = 0;
        while i < PIXEL_COUNT
            invariant
                i <= PIXEL_COUNT,
                self.frame@.len() == PIXEL_COUNT,
                frame@.len() == PIXEL_COUNT,
                forall|k: int| 0 <= k < i ==> self.frame@[k] == frame@[k],
            decreases PIXEL_COUNT - i,
        {
            self.frame[i] = frame[i];
            i = i + 1;
        }
        assert(self.frame@ =~= frame@);
    }

    /// Draws the visible frame into an RGBA frame buffer.
    pub fn draw_into_fb(&self, fb: &mut [u8])
        requires
            is_frame(self@),
            old(fb)@.len() == PIXEL_COUNT * 4,
        ensures
            final(fb)@ == picture(self@),
    {
        let mut i: usize = 0;
        while i < PIXEL_COUNT
            invariant
                i <= PIXEL_COUNT,
                is_frame(self@),
                fb@.len() == PIXEL_COUNT * 4,
                forall|k: int| 0 <= k < 4 * i ==> fb@[k] == #[trigger] picture(self@)[k],
            decreases PIXEL_COUNT - i,
        {
            let rgba = pixel_color_to_screen_color(self.frame[i]);
            fb[4 * i] = rgba[0];
            fb[4 * i + 1] = rgba[1];
            fb[4 * i + 2] = rgba[2];
            fb[4 * i + 3] = rgba[3];
            i = i + 1;
        }
        assert(fb@ =~= picture(self@));
    }

    /// Draws the tile data, 20 tiles to a row, into an RGBA frame buffer
    /// of 160 by 160 pixels.
    pub fn draw_tiles_into_fb(mmu: &MMU, fb: &mut [u8])
        requires
            mmu.well_formed(),
            old(fb)@.len() >= TILE_PICTURE_BYTES,
        ensures
            final(fb)@ == tile_picture(mmu@, old(fb)@),
    {
        let ghost before = fb@;
        let mut pixel: usize = 0;
        while pixel < TILE_PICTURE_SIDE * TILE_PICTURE_SIDE
            invariant
                pixel <= TILE_PICTURE_SIDE * TILE_PICTURE_SIDE,
                mmu.well_formed(),
                fb@.len() == before.len(),
                before.len() >= TILE_PICTURE_BYTES,
                forall|k: int|
                    0 <= k < 4 * pixel && k < before.len() ==> fb@[k] == #[trigger] tile_picture(
                        mmu@,
                        before,
                    )[k],
                forall|k: int| 4 * pixel <= k < before.len() ==> #[trigger] fb@[k] == before[k],
            decreases TILE_PICTURE_SIDE * TILE_PICTURE_SIDE - pixel,
        {
            let row: usize = pixel / TILE_PICTURE_SIDE;
            let column: usize = pixel % TILE_PICTURE_SIDE;
            let tile_id: usize = (row / 8) * 20 + column / 8;
            if tile_id < TILE_COUNT {
                let addr: u16 = (0x8000 + tile_id * 16 + (row % 8) * 2) as u16;
                let low = mmu.read_memory(addr);
                let high = mmu.read_memory(addr + 1);
                let pixels = byte_pair_to_pixels(low, high, PixelSource::BackgroundWindow);
                let screen_color = pixel_color_to_screen_color(pixels[column % 8].color);
                fb[4 * pixel] = screen_color[0];
                fb[4 * pixel + 1] = screen_color[1];
                fb[4 * pixel + 2] = screen_color[2];
                fb[4 * pixel + 3] = screen_color[3];
            }
            pixel = pixel + 1;
        }
        assert(fb@ =~= tile_picture(mmu@, before));
    }
}

} // verus!
