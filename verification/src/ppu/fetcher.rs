//! The fetcher: the reader of background and window tiles.

use vstd::prelude::*;
use super::pixel::{read_tile_pixels, tile_pixels, Pixel, PixelSource};
use crate::memory::mmu::{MmuView, MMU};

verus! {

#[derive(Debug, Clone, Copy, PartialEq, Eq, Structural)]
pub enum FetcherKind {
    Background,
    Window,
}

/// How a tile identifier of a tile map names a tile.
#[derive(Debug, Clone, Copy, PartialEq, Eq, Structural)]
pub enum AddressingMode {
    /// Unsigned, from 0x8000.
    From8000,
    /// Signed, around 0x9000.
    From8800,
}

impl AddressingMode {
    /// The number, counted from 0x8000, of the tile that `tile_id` names.
    pub open spec fn resolve(self, tile_id: u8) -> u16 {
        match self {
            AddressingMode::From8000 => tile_id as u16,
            AddressingMode::From8800 => if tile_id < 128 {
                (tile_id + 256) as u16
            } else {
                tile_id as u16
            },
        }
    }
}

#[derive(Debug, Clone, Copy, PartialEq, Eq, Structural)]
pub struct Fetcher {
    /// The address of the tile map.
    pub map_addr: u16,
    pub addressing_mode: AddressingMode,
    /// The column of the next tile in the map.
    pub tile_x: u8,
    /// The row of the tiles in the map.
    pub tile_y: u8,
    /// The row inside the tiles.
    pub sub_y: u8,
    pub kind: FetcherKind,
}

impl Fetcher {
    /// Every map entry that the fetcher reads from here on lies inside the
    /// address space: the one under the cursors, and those of the 32
    /// columns of the row that it walks around afterwards.
    pub open spec fn well_formed(self) -> bool {
        &&& self.tile_x < 255
        &&& self.map_addr + self.tile_y * 32 + self.tile_x <= 0xFFFF
        &&& self.map_addr + self.tile_y * 32 + 31 <= 0xFFFF
    }

    /// The fetcher of the window at the line `window_scan_line` of the
    /// window.
    pub open spec fn window(
        map_addr: u16,
        addressing_mode: AddressingMode,
        window_scan_line: u8,
    ) -> Fetcher {
        Fetcher {
            map_addr,
            addressing_mode,
            tile_x: 0,
            tile_y: window_scan_line / 8,
            sub_y: window_scan_line % 8,
            kind: FetcherKind::Window,
        }
    }

    /// The fetcher of the background at the screen line `scan_line`,
    /// scrolled by `scroll_x` and `scroll_y`.
    pub open spec fn background(
        map_addr: u16,
        addressing_mode: AddressingMode,
        scroll_x: u8,
        scroll_y: u8,
        scan_line: u8,
    ) -> Fetcher {
        let total_y_scroll = ((scan_line + scroll_y) % 256) as u8;
        Fetcher {
            map_addr,
            addressing_mode,
            tile_x: scroll_x / 8,
            tile_y: total_y_scroll / 8,
            sub_y: total_y_scroll % 8,
            kind: FetcherKind::Background,
        }
    }

    /// The address of the map entry under the cursors.
    pub open spec fn entry_address(self) -> u16 {
        (self.map_addr + self.tile_y * 32 + self.tile_x) as u16
    }

    /// The eight pixels under the cursors.
    pub open spec fn pixels(self, mmu: MmuView) -> Seq<Pixel> {
        tile_pixels(
            mmu,
            self.addressing_mode.resolve(mmu.read(self.entry_address())),
            self.sub_y,
            PixelSource::BackgroundWindow,
        )
    }

    /// The fetcher after a fetch: one tile to the right, around the map.
    pub open spec fn advanced(self) -> Fetcher {
        Fetcher { tile_x: ((self.tile_x + 1) % 32) as u8, ..self }
    }

    pub fn new_window(map_addr: u16, addressing_mode: AddressingMode, window_scan_line: u8) -> (fetcher:
        Fetcher)
        ensures
            fetcher == Fetcher::window(map_addr, addressing_mode, window_scan_line),
            map_addr <= 0xFC00 ==> fetcher.well_formed(),
    {
        let tile_y: u8 = window_scan_line / 8;
        let sub_y: u8 = window_scan_line % 8;

        Fetcher { map_addr, addressing_mode, tile_x: 0, tile_y, sub_y, kind: FetcherKind::Window }
    }

    pub fn new_background(
        map_addr: u16,
        addressing_mode: AddressingMode,
        scroll_x: u8,
        scroll_y: u8,
        scan_line: u8,
    ) -> (fetcher: Fetcher)
        ensures
            fetcher == Fetcher::background(
                map_addr,
                addressing_mode,
                scroll_x,
                scroll_y,
                scan_line,
            ),
            map_addr <= 0xFC00 ==> fetcher.well_formed(),
    {
        let total_y_scroll: u8 = scan_line.wrapping_add(scroll_y);
        let tile_x: u8 = scroll_x / 8;
        let tile_y: u8 = total_y_scroll / 8;
        let sub_y: u8 = total_y_scroll % 8;

        Fetcher {
            map_addr,
            addressing_mode,
            tile_x,
            tile_y,
            sub_y,
            kind: FetcherKind::Background,
        }
    }

    /// Reads the eight pixels under the cursors and moves on to the next
    /// tile.
    pub fn fetch_pixels(&mut self, mmu: &MMU) -> (pixels: [Pixel; 8])
        requires
            old(self).well_formed(),
            mmu.well_formed(),
        ensures
            pixels@ == old(self).pixels(mmu@),
            *final(self) == old(self).advanced(),
            final(self).well_formed(),
            forall|i: int|
                0 <= i < 8 ==> (#[trigger] pixels@[i]).color < 4 && pixels@[i].source
                    == PixelSource::BackgroundWindow,
    {
        let offset: u16 = (self.tile_y as u16) * 32 + (self.tile_x as u16);
        let tile_id = mmu.read_memory(self.map_addr + offset);

        let real_tile_id: u16 = match self.addressing_mode {
            AddressingMode::From8000 => tile_id as u16,
            AddressingMode::From8800 => {
                if tile_id < 128 {
                    tile_id as u16 + 256
                } else {
                    tile_id as u16
                }
            },
        };

        self.tile_x = (self.tile_x + 1) % 32;

        read_tile_pixels(mmu, real_tile_id, self.sub_y, PixelSource::BackgroundWindow)
    }
}

} // verus!
