//! The pixel pipeline of a scanline: the background and object queues,
//! the fetcher that feeds the first, and the objects that feed the
//! second.

use std::collections::VecDeque;
use vstd::prelude::*;
use super::fetcher::{Fetcher, FetcherKind};
use super::oam::{OAMSize, Oam};
use super::pixel::{Pixel, PixelSource};
use super::{
    ControlReg, LCD_CONTROL_REG_ADDR, LCD_SCROLL_X_ADDR, LCD_SCROLL_Y_ADDR,
    LCD_WINDOW_X_POSITION_ADDR, LCD_WINDOW_Y_POSITION_ADDR,
};
use crate::fault::Fault;
use crate::memory::mmu::{MmuView, MMU};

verus! {

/// The number of entries of object attribute memory.
pub const OAM_ENTRIES: u16 = 40;

/// The most objects that a line shows.
pub const OBJECTS_PER_LINE: usize = 10;

pub struct PixelFIFO {
    pub background_window_fetcher: Option<Fetcher>,
    /// The objects selected for the current line.
    pub objects: Vec<Oam>,
    pub oam_size: OAMSize,
    pub background_fifo: VecDeque<Pixel>,
    pub oam_fifo: VecDeque<Pixel>,
    /// The next line of the window, if the window has been shown in this
    /// frame.
    pub window_scan_line: Option<u8>,
    pub current_scan_line: u8,
    pub current_x: u8,
}

/// The state of the pixel pipeline.
pub struct PixelFifoView {
    pub fetcher: Option<Fetcher>,
    pub objects: Seq<Oam>,
    pub oam_size: OAMSize,
    pub background_fifo: Seq<Pixel>,
    pub oam_fifo: Seq<Pixel>,
    pub window_scan_line: Option<u8>,
    pub current_scan_line: u8,
    pub current_x: u8,
}

impl View for PixelFIFO {
    type V = PixelFifoView;

    open spec fn view(&self) -> PixelFifoView {
        PixelFifoView {
            fetcher: self.background_window_fetcher,
            objects: self.objects@,
            oam_size: self.oam_size,
            background_fifo: self.background_fifo@,
            oam_fifo: self.oam_fifo@,
            window_scan_line: self.window_scan_line,
            current_scan_line: self.current_scan_line,
            current_x: self.current_x,
        }
    }
}

/// The LCD control register as memory holds it.
pub open spec fn lcdc(mmu: MmuView) -> ControlReg {
    ControlReg { bits: mmu.read(LCD_CONTROL_REG_ADDR) }
}

/// The placeholder of the object queue: a pixel that shows nothing.
pub open spec fn transparent() -> Pixel {
    Pixel { color: 0, source: PixelSource::OAM { palette: 0, bg_priority: true } }
}

/// The pixel that reaches the screen where the background gives `bg` and
/// the objects give `oam`.
///
/// The background wins where objects are disabled or the object pixel is
/// transparent. Else the object wins if it has priority; else the
/// background wins unless it is color 0.
pub open spec fn chosen(bg: Pixel, oam: Pixel, obj_enable: bool) -> Pixel {
    let behind = match oam.source {
        PixelSource::OAM { bg_priority, .. } => bg_priority,
        PixelSource::BackgroundWindow => false,
    };
    if !obj_enable || oam.color == 0 {
        bg
    } else if !behind {
        oam
    } else if bg.color != 0 {
        bg
    } else {
        oam
    }
}

/// The object queue `fifo` with the pixels of one object laid over its
/// first eight places: a place is taken only where the queue shows
/// nothing yet.
pub open spec fn overlaid(fifo: Seq<Pixel>, pixels: Seq<Pixel>) -> Seq<Pixel> {
    Seq::new(
        fifo.len(),
        |i: int|
            if i < 8 && fifo[i].color == 0 {
                pixels[i]
            } else {
                fifo[i]
            },
    )
}

/// The object queue `fifo` filled up to eight places with placeholders.
pub open spec fn filled_up(fifo: Seq<Pixel>) -> Seq<Pixel> {
    if fifo.len() < 8 {
        fifo + Seq::new((8 - fifo.len()) as nat, |i: int| transparent())
    } else {
        fifo
    }
}

/// The objects selected by a walk over the entries of object attribute
/// memory from entry `index` on, in address order, with `objects`
/// selected already: an entry is selected if it covers `line`, and the
/// walk ends once ten are selected.
pub open spec fn selected_objects(
    objects: Seq<Oam>,
    mmu: MmuView,
    line: u8,
    oam_size: OAMSize,
    index: nat,
) -> Seq<Oam>
    decreases OAM_ENTRIES - index,
{
    if index >= OAM_ENTRIES {
        objects
    } else {
        let entry = Oam::at(mmu, (0xFE00 + 4 * index) as u16);
        let with_entry = if entry.hits(line, oam_size) {
            objects.push(entry)
        } else {
            objects
        };
        if with_entry.len() >= OBJECTS_PER_LINE {
            with_entry
        } else {
            selected_objects(with_entry, mmu, line, oam_size, index + 1)
        }
    }
}

impl PixelFifoView {
    /// The pipeline before the first line.
    pub open spec fn initial() -> PixelFifoView {
        PixelFifoView {
            fetcher: None,
            objects: Seq::empty(),
            oam_size: OAMSize::_8x8,
            background_fifo: Seq::empty(),
            oam_fifo: Seq::empty(),
            window_scan_line: None,
            current_scan_line: 0,
            current_x: 0,
        }
    }

    /// The fetcher is inside its map, every selected object covers the
    /// current line, the background queue holds background pixels and
    /// the object queue object pixels, all with a valid color.
    pub open spec fn well_formed(self) -> bool {
        &&& match self.fetcher {
            Some(fetcher) => fetcher.well_formed(),
            None => true,
        }
        &&& covering(self.objects, self.current_scan_line, self.oam_size)
        &&& background_pixels(self.background_fifo)
        &&& object_pixels(self.oam_fifo)
    }

    pub open spec fn current_kind(self) -> Option<FetcherKind> {
        match self.fetcher {
            Some(fetcher) => Some(fetcher.kind),
            None => None,
        }
    }

    /// The fault of a window that is enabled at a horizontal position
    /// below 7 or equal to 166.
    pub open spec fn window_fault(self, mmu: MmuView) -> Option<Fault> {
        let wx = mmu.read(LCD_WINDOW_X_POSITION_ADDR);
        if lcdc(mmu).bg_window_display_priority() && lcdc(mmu).window_display_enable() && (wx < 7
            || wx == 166) {
            Some(Fault::UnsupportedWindowPosition { wx })
        } else {
            None
        }
    }

    /// The fetcher that the pixel at the current position asks for: none
    /// where the background is switched off; the window where it is
    /// enabled and the position is at or after its top left corner; the
    /// background elsewhere.
    pub open spec fn requested_kind(self, mmu: MmuView) -> Option<FetcherKind> {
        let control = lcdc(mmu);
        if !control.bg_window_display_priority() {
            None
        } else if control.window_display_enable() && self.current_scan_line >= mmu.read(
            LCD_WINDOW_Y_POSITION_ADDR,
        ) && self.current_x >= mmu.read(LCD_WINDOW_X_POSITION_ADDR) - 7 {
            Some(FetcherKind::Window)
        } else {
            Some(FetcherKind::Background)
        }
    }

    /// The pipeline with the fetcher that the current position asks for.
    /// Where that is the fetcher in place, nothing changes. Else a new
    /// fetcher starts and the background queue is emptied; a new window
    /// fetcher uses up one line of the window.
    pub open spec fn matched(self, mmu: MmuView) -> PixelFifoView {
        let control = lcdc(mmu);
        let requested = self.requested_kind(mmu);
        if requested == self.current_kind() {
            self
        } else {
            match requested {
                Some(FetcherKind::Background) => PixelFifoView {
                    fetcher: Some(
                        Fetcher::background(
                            control.background_map(),
                            control.addressing(),
                            mmu.read(LCD_SCROLL_X_ADDR),
                            mmu.read(LCD_SCROLL_Y_ADDR),
                            self.current_scan_line,
                        ),
                    ),
                    background_fifo: Seq::empty(),
                    ..self
                },
                Some(FetcherKind::Window) => {
                    let line = match self.window_scan_line {
                        Some(line) => line,
                        None => 0,
                    };
                    PixelFifoView {
                        fetcher: Some(
                            Fetcher::window(control.window_map(), control.addressing(), line),
                        ),
                        window_scan_line: Some(((line + 1) % 256) as u8),
                        background_fifo: Seq::empty(),
                        ..self
                    }
                },
                None => PixelFifoView { fetcher: None, background_fifo: Seq::empty(), ..self },
            }
        }
    }

    /// The pipeline with the background queue refilled: where a fetcher
    /// is in place and the queue holds fewer than eight pixels, the next
    /// tile row is fetched.
    pub open spec fn refilled(self, mmu: MmuView) -> PixelFifoView {
        match self.fetcher {
            Some(fetcher) => if self.background_fifo.len() < 8 {
                PixelFifoView {
                    fetcher: Some(fetcher.advanced()),
                    background_fifo: self.background_fifo + fetcher.pixels(mmu),
                    ..self
                }
            } else {
                self
            },
            None => self,
        }
    }

    /// The pipeline with the first `count` pixels of the background queue
    /// dropped, or all of them if it holds fewer.
    pub open spec fn dropped(self, count: int) -> PixelFifoView {
        PixelFifoView {
            background_fifo: if count < self.background_fifo.len() {
                self.background_fifo.subrange(count, self.background_fifo.len() as int)
            } else {
                Seq::empty()
            },
            ..self
        }
    }

    /// The row of the selected object `index` that lies on the current
    /// line.
    pub open spec fn object_row(self, index: int) -> u8 {
        (self.current_scan_line + 16 - self.objects[index].y_pos) as u8
    }

    /// The object queue `fifo` with the selected objects from `index`
    /// on laid over it, in the order of their selection: an object is
    /// laid where its left edge is at the current position.
    pub open spec fn with_objects(self, fifo: Seq<Pixel>, mmu: MmuView, index: nat) -> Seq<Pixel>
        decreases self.objects.len() - index,
    {
        if index >= self.objects.len() {
            fifo
        } else {
            let object = self.objects[index as int];
            self.with_objects(
                if self.current_x + 8 == object.x_pos {
                    overlaid(
                        fifo,
                        object.pixels(mmu, self.object_row(index as int), self.oam_size),
                    )
                } else {
                    fifo
                },
                mmu,
                (index + 1) as nat,
            )
        }
    }

    /// The object queue, filled up and with the objects that start at the
    /// current position laid over it.
    pub open spec fn object_fifo(self, mmu: MmuView) -> Seq<Pixel> {
        self.with_objects(filled_up(self.oam_fifo), mmu, 0)
    }

    /// The pipeline at the start of a line: the line is noted and the
    /// queues and the selection are emptied.
    pub open spec fn begun_line(self, scan_line: u8) -> PixelFifoView {
        PixelFifoView {
            current_scan_line: scan_line,
            objects: Seq::empty(),
            background_fifo: Seq::empty(),
            oam_fifo: Seq::empty(),
            ..self
        }
    }

    /// The pipeline at the end of the object search: the object size is
    /// taken from the control register and the first ten objects that
    /// cover the line are selected.
    pub open spec fn searched(self, mmu: MmuView) -> PixelFifoView {
        let oam_size = if lcdc(mmu).obj_size() {
            OAMSize::_8x16
        } else {
            OAMSize::_8x8
        };
        PixelFifoView {
            oam_size,
            objects: selected_objects(Seq::empty(), mmu, self.current_scan_line, oam_size, 0),
            ..self
        }
    }

    /// The pipeline at the start of the pixel transfer: at column 0, with
    /// its fetcher, the background queue filled, and, for the
    /// background, the pixels that fine scrolling hides dropped.
    pub open spec fn begun_transfer(self, mmu: MmuView) -> PixelFifoView {
        let filled = (PixelFifoView { current_x: 0, ..self }).matched(mmu).refilled(mmu);
        if filled.current_kind() == Some(FetcherKind::Background) {
            filled.dropped((mmu.read(LCD_SCROLL_X_ADDR) % 8) as int)
        } else {
            filled
        }
    }

    /// The pipeline just before a pixel leaves it: the fetcher matched
    /// and the background queue refilled.
    pub open spec fn ready(self, mmu: MmuView) -> PixelFifoView {
        self.matched(mmu).refilled(mmu)
    }

    /// The background pixel at the head of a ready pipeline: color 0
    /// where the background is switched off.
    pub open spec fn background_pixel(self) -> Pixel {
        if self.fetcher is Some {
            self.background_fifo[0]
        } else {
            Pixel { color: 0, source: PixelSource::BackgroundWindow }
        }
    }

    /// The pixel that leaves the pipeline at the current position.
    pub open spec fn pixel(self, mmu: MmuView) -> Pixel {
        let ready = self.ready(mmu);
        chosen(
            ready.background_pixel(),
            ready.object_fifo(mmu)[0],
            lcdc(mmu).obj_display_enable(),
        )
    }

    /// The pipeline after a pixel has left it: both queues have lost
    /// their head and the position is one column to the right.
    pub open spec fn after_pixel(self, mmu: MmuView) -> PixelFifoView {
        let ready = self.ready(mmu);
        PixelFifoView {
            background_fifo: if ready.fetcher is Some {
                ready.background_fifo.drop_first()
            } else {
                ready.background_fifo
            },
            oam_fifo: ready.object_fifo(mmu).drop_first(),
            current_x: (self.current_x + 1) as u8,
            ..ready
        }
    }

    /// The pipeline at the end of a line: no fetcher, nothing selected,
    /// nothing queued.
    pub open spec fn ended_line(self) -> PixelFifoView {
        PixelFifoView {
            fetcher: None,
            objects: Seq::empty(),
            background_fifo: Seq::empty(),
            oam_fifo: Seq::empty(),
            ..self
        }
    }

    /// The pipeline at the end of a frame: the window starts over.
    pub open spec fn ended_frame(self) -> PixelFifoView {
        PixelFifoView { window_scan_line: None, ..self }
    }
}

/// Whether every object of `objects` covers `line`.
pub open spec fn covering(objects: Seq<Oam>, line: u8, oam_size: OAMSize) -> bool {
    forall|i: int| 0 <= i < objects.len() ==> (#[trigger] objects[i]).hits(line, oam_size)
}

/// Whether `pixels` are background pixels with a valid color.
pub open spec fn background_pixels(pixels: Seq<Pixel>) -> bool {
    forall|i: int|
        0 <= i < pixels.len() ==> (#[trigger] pixels[i]).color < 4 && pixels[i].source
            == PixelSource::BackgroundWindow
}

/// Whether `pixels` are object pixels with a valid color and palette.
pub open spec fn object_pixels(pixels: Seq<Pixel>) -> bool {
    forall|i: int|
        0 <= i < pixels.len() ==> (#[trigger] pixels[i]).well_formed() && pixels[i].source is OAM
}

proof fn lemma_background_pixels_after(pixels: Seq<Pixel>, from: int)
    requires
        background_pixels(pixels),
        0 <= from <= pixels.len(),
    ensures
        background_pixels(pixels.subrange(from, pixels.len() as int)),
{
    let rest = pixels.subrange(from, pixels.len() as int);
    assert forall|i: int| 0 <= i < rest.len() implies (#[trigger] rest[i]).color < 4
        && rest[i].source == PixelSource::BackgroundWindow by {
        assert(rest[i] == pixels[i + from]);
    }
}

proof fn lemma_background_pixels_joined(first: Seq<Pixel>, second: Seq<Pixel>)
    requires
        background_pixels(first),
        background_pixels(second),
    ensures
        background_pixels(first + second),
{
    let all = first + second;
    assert forall|i: int| 0 <= i < all.len() implies (#[trigger] all[i]).color < 4
        && all[i].source == PixelSource::BackgroundWindow by {
        if i < first.len() {
            assert(all[i] == first[i]);
        } else {
            assert(all[i] == second[i - first.len()]);
        }
    }
}

proof fn lemma_object_pixels_after(pixels: Seq<Pixel>, from: int)
    requires
        object_pixels(pixels),
        0 <= from <= pixels.len(),
    ensures
        object_pixels(pixels.subrange(from, pixels.len() as int)),
{
    let rest = pixels.subrange(from, pixels.len() as int);
    assert forall|i: int| 0 <= i < rest.len() implies (#[trigger] rest[i]).well_formed()
        && rest[i].source is OAM by {
        assert(rest[i] == pixels[i + from]);
    }
}

proof fn lemma_object_pixels_filled_up(pixels: Seq<Pixel>)
    requires
        object_pixels(pixels),
    ensures
        object_pixels(filled_up(pixels)),
        filled_up(pixels).len() >= 8,
{
    let all = filled_up(pixels);
    assert forall|i: int| 0 <= i < all.len() implies (#[trigger] all[i]).well_formed()
        && all[i].source is OAM by {
        if i < pixels.len() {
            assert(all[i] == pixels[i]);
        } else {
            assert(all[i] == transparent());
        }
    }
}

proof fn lemma_object_pixels_overlaid(fifo: Seq<Pixel>, pixels: Seq<Pixel>)
    requires
        object_pixels(fifo),
        object_pixels(pixels),
        pixels.len() == 8,
    ensures
        object_pixels(overlaid(fifo, pixels)),
        overlaid(fifo, pixels).len() == fifo.len(),
{
    let all = overlaid(fifo, pixels);
    assert forall|i: int| 0 <= i < all.len() implies (#[trigger] all[i]).well_formed()
        && all[i].source is OAM by {
        if i < 8 && fifo[i].color == 0 {
            assert(all[i] == pixels[i]);
        } else {
            assert(all[i] == fifo[i]);
        }
    }
}

impl PixelFifoView {
    /// The object queue of a well-formed pipeline holds object pixels
    /// only, and at least eight, once the objects are laid over it.
    proof fn lemma_with_objects(self, fifo: Seq<Pixel>, mmu: MmuView, index: nat)
        requires
            self.well_formed(),
            object_pixels(fifo),
            fifo.len() >= 8,
        ensures
            object_pixels(self.with_objects(fifo, mmu, index)),
            self.with_objects(fifo, mmu, index).len() == fifo.len(),
        decreases self.objects.len() - index,
    {
        if index < self.objects.len() {
            let object = self.objects[index as int];
            if self.current_x + 8 == object.x_pos {
                let pixels = object.pixels(mmu, self.object_row(index as int), self.oam_size);
                lemma_object_row_pixels(object, mmu, self.object_row(index as int), self.oam_size);
                lemma_object_pixels_overlaid(fifo, pixels);
                self.lemma_with_objects(overlaid(fifo, pixels), mmu, (index + 1) as nat);
            } else {
                self.lemma_with_objects(fifo, mmu, (index + 1) as nat);
            }
        }
    }
}

impl PixelFifoView {
    /// What the objects lay over the object queue depends on the objects,
    /// the line, the column and the object size only.
    proof fn lemma_objects_ignore_background(
        self,
        other: PixelFifoView,
        mmu: MmuView,
        fifo: Seq<Pixel>,
        index: nat,
    )
        requires
            self.objects == other.objects,
            self.current_scan_line == other.current_scan_line,
            self.current_x == other.current_x,
            self.oam_size == other.oam_size,
        ensures
            self.with_objects(fifo, mmu, index) == other.with_objects(fifo, mmu, index),
        decreases self.objects.len() - index,
    {
        if index < self.objects.len() {
            let object = self.objects[index as int];
            let next = if self.current_x + 8 == object.x_pos {
                overlaid(fifo, object.pixels(mmu, self.object_row(index as int), self.oam_size))
            } else {
                fifo
            };
            self.lemma_objects_ignore_background(other, mmu, next, (index + 1) as nat);
        }
    }
}

/// The pixels of a row of an object are object pixels.
proof fn lemma_object_row_pixels(object: Oam, mmu: MmuView, in_oam_y: u8, oam_size: OAMSize)
    ensures
        object_pixels(object.pixels(mmu, in_oam_y, oam_size)),
        object.pixels(mmu, in_oam_y, oam_size).len() == 8,
{
    let pixels = object.pixels(mmu, in_oam_y, oam_size);
    assert forall|i: int| 0 <= i < pixels.len() implies (#[trigger] pixels[i]).well_formed()
        && pixels[i].source is OAM by {
        assert(forall|low: u8, high: u8, column: int| #[trigger]
            super::pixel::color_at(low, high, column) < 4);
    }
}


/// Picks the pixel that reaches the screen.
pub fn choose_pixel(bg_pixel: Pixel, oam_pixel: Pixel, obj_enable: bool) -> (pixel: Pixel)
    requires
        bg_pixel.source == PixelSource::BackgroundWindow,
        oam_pixel.source is OAM,
    ensures
        pixel == chosen(bg_pixel, oam_pixel, obj_enable),
{
    let bg_priority = match oam_pixel.source {
        PixelSource::OAM { bg_priority, .. } => bg_priority,
        PixelSource::BackgroundWindow => false,
    };
    if !obj_enable || oam_pixel.color == 0 {
        bg_pixel
    } else if !bg_priority {
        oam_pixel
    } else if bg_pixel.color != 0 {
        bg_pixel
    } else {
        oam_pixel
    }
}

/// Puts `pixel` in the place `index` of `queue`.
fn replace_at(queue: &mut VecDeque<Pixel>, index: usize, pixel: Pixel)
    requires
        index < old(queue)@.len(),
    ensures
        final(queue)@ == old(queue)@.update(index as int, pixel),
{
    let _ = queue.remove(index);
    queue.insert(index, pixel);
    assert(queue@ =~= old(queue)@.update(index as int, pixel));
}

/// Lays the pixels of an object over the first eight places of the
/// object queue.
fn overlay(queue: &mut VecDeque<Pixel>, pixels: &[Pixel; 8])
    requires
        old(queue)@.len() >= 8,
    ensures
        final(queue)@ == overlaid(old(queue)@, pixels@),
{
    let ghost start = queue@;
    let mut i: usize = 0;
    while i < 8
        invariant
            i <= 8,
            queue@.len() == start.len(),
            start.len() >= 8,
            forall|k: int|
                0 <= k < start.len() ==> #[trigger] queue@[k] == if k < i && start[k].color == 0 {
                    pixels@[k]
                } else {
                    start[k]
                },
        decreases 8 - i,
    {
        if queue[i].color == 0 {
            replace_at(queue, i, pixels[i]);
        }
        i = i + 1;
    }
    assert(queue@ =~= overlaid(start, pixels@));
}

impl PixelFIFO {
    pub open spec fn well_formed(&self) -> bool {
        self@.well_formed()
    }

    pub fn new() -> (fifo: PixelFIFO)
        ensures
            fifo@ == PixelFifoView::initial(),
            fifo.well_formed(),
    {
        PixelFIFO {
            background_window_fetcher: None,
            objects: Vec::new(),
            oam_size: OAMSize::_8x8,
            background_fifo: VecDeque::new(),
            oam_fifo: VecDeque::new(),
            window_scan_line: None,
            current_scan_line: 0,
            current_x: 0,
        }
    }

    fn control_reg(&self, mmu: &MMU) -> (reg: ControlReg)
        requires
            mmu.well_formed(),
        ensures
            reg == lcdc(mmu@),
    {
        ControlReg::from_bits_truncate(mmu.read_memory(LCD_CONTROL_REG_ADDR))
    }

    fn current_kind(&self) -> (kind: Option<FetcherKind>)
        ensures
            kind == self@.current_kind(),
    {
        match self.background_window_fetcher {
            Some(fetcher) => Some(fetcher.kind),
            None => None,
        }
    }

    fn current_requested_mode(&self, mmu: &MMU) -> (res: Result<Option<FetcherKind>, Fault>)
        requires
            mmu.well_formed(),
        ensures
            match self@.window_fault(mmu@) {
                Some(fault) => res == Err::<Option<FetcherKind>, Fault>(fault),
                None => res == Ok::<Option<FetcherKind>, Fault>(self@.requested_kind(mmu@)),
            },
    {
        let lcdc = self.control_reg(mmu);
        if lcdc.contains(0) {
            if lcdc.contains(5) {
                let window_y_pos = mmu.read_memory(LCD_WINDOW_Y_POSITION_ADDR);
                let window_x_pos = mmu.read_memory(LCD_WINDOW_X_POSITION_ADDR);
                if window_x_pos < 7 || window_x_pos == 166 {
                    return Err(Fault::UnsupportedWindowPosition { wx: window_x_pos });
                }
                let window_x_pos: u8 = window_x_pos - 7;

                if self.current_scan_line >= window_y_pos && self.current_x >= window_x_pos {
                    Ok(Some(FetcherKind::Window))
                } else {
                    Ok(Some(FetcherKind::Background))
                }
            } else {
                Ok(Some(FetcherKind::Background))
            }
        } else {
            Ok(None)
        }
    }

    fn match_fetcher_mode(&mut self, mmu: &MMU) -> (res: Result<(), Fault>)
        requires
            old(self).well_formed(),
            mmu.well_formed(),
        ensures
            final(self).well_formed(),
            match old(self)@.window_fault(mmu@) {
                Some(fault) => res == Err::<(), Fault>(fault) && final(self)@ == old(self)@,
                None => res == Ok::<(), Fault>(()) && final(self)@ == old(self)@.matched(mmu@),
            },
    {
        let requested_state = match self.current_requested_mode(mmu) {
            Ok(kind) => kind,
            Err(fault) => {
                return Err(fault);
            },
        };
        if requested_state != self.current_kind() {
            let lcdc = self.control_reg(mmu);
            let addressing_mode = lcdc.addressing_mode();

            self.background_window_fetcher = match requested_state {
                Some(FetcherKind::Background) => Some(
                    Fetcher::new_background(
                        lcdc.background_tile_map_addr(),
                        addressing_mode,
                        mmu.read_memory(LCD_SCROLL_X_ADDR),
                        mmu.read_memory(LCD_SCROLL_Y_ADDR),
                        self.current_scan_line,
                    ),
                ),
                Some(FetcherKind::Window) => {
                    let scan_line: u8 = match self.window_scan_line {
                        Some(line) => line,
                        None => 0,
                    };
                    self.window_scan_line = Some(scan_line.wrapping_add(1));

                    Some(Fetcher::new_window(lcdc.window_tile_map_addr(), addressing_mode, scan_line))
                },
                None => None,
            };

            self.background_fifo.clear();
        }
        Ok(())
    }

    fn find_oams(&mut self, mmu: &MMU)
        requires
            old(self).well_formed(),
            mmu.well_formed(),
        ensures
            final(self).well_formed(),
            final(self)@ == old(self)@.searched(mmu@),
    {
        self.oam_size = if self.control_reg(mmu).contains(2) {
            OAMSize::_8x16
        } else {
            OAMSize::_8x8
        };
        self.objects.clear();
        let ghost goal = old(self)@.searched(mmu@);
        let mut index: u16 = 0;
        let mut full: bool = false;
        while index < OAM_ENTRIES && !full
            invariant
                index <= OAM_ENTRIES,
                mmu.well_formed(),
                self.well_formed(),
                self@ == (PixelFifoView { objects: self@.objects, ..goal }),
                full <==> self@.objects.len() >= OBJECTS_PER_LINE,
                if full {
                    self@.objects == goal.objects
                } else {
                    selected_objects(
                        self@.objects,
                        mmu@,
                        self.current_scan_line,
                        self.oam_size,
                        index as nat,
                    ) == goal.objects
                },
            decreases OAM_ENTRIES - index + if full { 0int } else { 1 },
        {
            let oam = Oam::read_from_memory(mmu, 0xFE00 + 4 * index);
            if oam.is_y_hitting(self.current_scan_line, self.oam_size) {
                self.objects.push(oam);
            }
            if self.objects.len() >= OBJECTS_PER_LINE {
                full = true;
            } else {
                index = index + 1;
            }
        }
    }

    /// Starts the line `scan_line`.
    pub fn begin_of_line(&mut self, scan_line: u8)
        requires
            old(self).well_formed(),
        ensures
            final(self).well_formed(),
            final(self)@ == old(self)@.begun_line(scan_line),
    {
        self.current_scan_line = scan_line;
        self.objects.clear();
        self.background_fifo.clear();
        self.oam_fifo.clear();
    }

    /// Selects the objects of the line.
    pub fn end_of_oam_search(&mut self, mmu: &MMU)
        requires
            old(self).well_formed(),
            mmu.well_formed(),
        ensures
            final(self).well_formed(),
            final(self)@ == old(self)@.searched(mmu@),
    {
        self.find_oams(mmu);
    }

    /// Starts the pixel transfer of the line.
    pub fn begin_lcd_transfer(&mut self, mmu: &MMU) -> (res: Result<(), Fault>)
        requires
            old(self).well_formed(),
            mmu.well_formed(),
        ensures
            final(self).well_formed(),
            match (PixelFifoView { current_x: 0, ..old(self)@ }).window_fault(mmu@) {
                Some(fault) => res == Err::<(), Fault>(fault) && final(self)@ == (PixelFifoView {
                    current_x: 0,
                    ..old(self)@
                }),
                None => res == Ok::<(), Fault>(()) && final(self)@ == old(self)@.begun_transfer(
                    mmu@,
                ),
            },
    {
        self.current_x = 0;

        match self.match_fetcher_mode(mmu) {
            Ok(()) => {},
            Err(fault) => {
                return Err(fault);
            },
        }
        self.fill_background_fifo_if_needed(mmu);

        if self.current_kind() == Some(FetcherKind::Background) {
            self.pop_first_pixels(mmu.read_memory(LCD_SCROLL_X_ADDR));
        }
        Ok(())
    }

    fn pop_first_pixels(&mut self, scroll_x: u8)
        requires
            old(self).well_formed(),
        ensures
            final(self).well_formed(),
            final(self)@ == old(self)@.dropped((scroll_x % 8) as int),
    {
        let count: u8 = scroll_x % 8;
        let ghost start = self.background_fifo@;
        let mut popped: u8 = 0;
        assert(self.background_fifo@ =~= old(self)@.dropped(0).background_fifo);
        while popped < count
            invariant
                popped <= count < 8,
                start == old(self)@.background_fifo,
                background_pixels(start),
                self@ == old(self)@.dropped(popped as int),
            decreases count - popped,
        {
            let _ = self.background_fifo.pop_front();
            popped = popped + 1;
            assert(self@.background_fifo =~= old(self)@.dropped(popped as int).background_fifo);
        }
        proof {
            if count < start.len() {
                lemma_background_pixels_after(start, count as int);
            }
        }
    }

    /// Takes the next pixel of the line out of the pipeline.
    pub fn next_pixel(&mut self, mmu: &MMU) -> (res: Result<Pixel, Fault>)
        requires
            old(self).well_formed(),
            mmu.well_formed(),
            old(self).current_x < 248,
        ensures
            final(self).well_formed(),
            match old(self)@.window_fault(mmu@) {
                Some(fault) => res == Err::<Pixel, Fault>(fault) && final(self)@ == old(self)@,
                None => {
                    &&& res == Ok::<Pixel, Fault>(old(self)@.pixel(mmu@))
                    &&& final(self)@ == old(self)@.after_pixel(mmu@)
                    &&& old(self)@.pixel(mmu@).well_formed()
                },
            },
    {
        match self.match_fetcher_mode(mmu) {
            Ok(()) => {},
            Err(fault) => {
                return Err(fault);
            },
        }
        self.fill_background_fifo_if_needed(mmu);
        let ghost ready = self@;
        assert(ready == old(self)@.ready(mmu@));
        let background_pixel = if self.background_window_fetcher.is_some() {
            match self.background_fifo.pop_front() {
                Some(pixel) => {
                    proof {
                        assert(self.background_fifo@ =~= ready.background_fifo.drop_first());
                        lemma_background_pixels_after(ready.background_fifo, 1);
                    }
                    pixel
                },
                None => Pixel { color: 0x00, source: PixelSource::BackgroundWindow },
            }
        } else {
            Pixel { color: 0x00, source: PixelSource::BackgroundWindow }
        };
        assert(background_pixel == ready.background_pixel());

        let ghost middle = self@;
        self.fill_oam_fifo_if_needed(mmu);
        let ghost objects = self.oam_fifo@;
        assert(objects == ready.object_fifo(mmu@)) by {
            ready.lemma_objects_ignore_background(middle, mmu@, filled_up(ready.oam_fifo), 0);
        }
        let oam_pixel = match self.oam_fifo.pop_front() {
            Some(pixel) => {
                proof {
                    assert(self.oam_fifo@ =~= objects.drop_first());
                    lemma_object_pixels_after(objects, 1);
                }
                pixel
            },
            None => Pixel { color: 0, source: PixelSource::OAM { palette: 0, bg_priority: true } },
        };

        self.current_x = self.current_x + 1;
        Ok(choose_pixel(background_pixel, oam_pixel, self.control_reg(mmu).contains(1)))
    }

    /// Ends the line.
    pub fn end_of_line(&mut self)
        ensures
            final(self).well_formed(),
            final(self)@ == old(self)@.ended_line(),
    {
        self.background_window_fetcher = None;
        self.objects.clear();
        self.background_fifo.clear();
        self.oam_fifo.clear();
    }

    /// Ends the frame.
    pub fn end_of_frame(&mut self)
        requires
            old(self).well_formed(),
        ensures
            final(self).well_formed(),
            final(self)@ == old(self)@.ended_frame(),
    {
        self.window_scan_line = None;
    }

    fn fill_background_fifo_if_needed(&mut self, mmu: &MMU)
        requires
            old(self).well_formed(),
            mmu.well_formed(),
        ensures
            final(self).well_formed(),
            final(self)@ == old(self)@.refilled(mmu@),
            final(self)@.fetcher is Some ==> final(self)@.background_fifo.len() >= 8,
    {
        if let Some(mut fetcher) = self.background_window_fetcher {
            if self.background_fifo.len() < 8 {
                let ghost start = self.background_fifo@;
                let pixels = fetcher.fetch_pixels(mmu);
                self.background_window_fetcher = Some(fetcher);
                let mut i: usize = 0;
                while i < 8
                    invariant
                        i <= 8,
                        self.background_fifo@ == start + pixels@.subrange(0, i as int),
                        self@ == (PixelFifoView {
                            background_fifo: self@.background_fifo,
                            fetcher: Some(fetcher),
                            ..old(self)@
                        }),
                    decreases 8 - i,
                {
                    self.background_fifo.push_back(pixels[i]);
                    i = i + 1;
                    assert(self.background_fifo@ =~= start + pixels@.subrange(0, i as int));
                }
                proof {
                    assert(pixels@.subrange(0, 8) =~= pixels@);
                    lemma_background_pixels_joined(start, pixels@);
                }
            }
        }
    }

    fn fill_oam_fifo_if_needed(&mut self, mmu: &MMU)
        requires
            old(self).well_formed(),
            mmu.well_formed(),
            old(self).current_x < 248,
        ensures
            final(self).well_formed(),
            final(self)@ == (PixelFifoView {
                oam_fifo: old(self)@.object_fifo(mmu@),
                ..old(self)@
            }),
            final(self)@.oam_fifo.len() >= 8,
    {
        let ghost start = self.oam_fifo@;
        while self.oam_fifo.len() < 8
            invariant
                self@ == (PixelFifoView { oam_fifo: self@.oam_fifo, ..old(self)@ }),
                start.len() < 8 ==> self.oam_fifo@.len() <= 8 && self.oam_fifo@ == start
                    + Seq::new((self.oam_fifo@.len() - start.len()) as nat, |i: int| transparent()),
                start.len() >= 8 ==> self.oam_fifo@ == start,
                start.len() <= self.oam_fifo@.len(),
            decreases 8 - self.oam_fifo@.len(),
        {
            self.oam_fifo.push_back(
                Pixel { color: 0, source: PixelSource::OAM { palette: 0, bg_priority: true } },
            );
            assert(self.oam_fifo@ =~= start + Seq::new(
                (self.oam_fifo@.len() - start.len()) as nat,
                |i: int| transparent(),
            ));
        }
        proof {
            assert(self.oam_fifo@ =~= start + Seq::new(
                (self.oam_fifo@.len() - start.len()) as nat,
                |i: int| transparent(),
            ));
            assert(self.oam_fifo@ == filled_up(start));
            lemma_object_pixels_filled_up(start);
        }

        let ghost goal = old(self)@.object_fifo(mmu@);
        let ghost before = old(self)@;
        let mut index: usize = 0;
        while index < self.objects.len()
            invariant
                index <= self.objects@.len(),
                mmu.well_formed(),
                before.well_formed(),
                before == old(self)@,
                self.current_x < 248,
                self@ == (PixelFifoView { oam_fifo: self@.oam_fifo, ..before }),
                self.oam_fifo@.len() >= 8,
                object_pixels(self.oam_fifo@),
                before.with_objects(self.oam_fifo@, mmu@, index as nat) == goal,
            decreases self.objects@.len() - index,
        {
            let oam = self.objects[index];
            assert(before.objects[index as int].hits(self.current_scan_line, self.oam_size));
            if self.current_x + 8 == oam.x_pos {
                let in_oam_y: u8 = (self.current_scan_line as u16 + 16 - oam.y_pos as u16) as u8;
                let pixels = oam.get_pixels(mmu, in_oam_y, self.oam_size);
                proof {
                    lemma_object_row_pixels(oam, mmu@, in_oam_y, self.oam_size);
                    lemma_object_pixels_overlaid(self.oam_fifo@, pixels@);
                }
                overlay(&mut self.oam_fifo, &pixels);
            }
            index = index + 1;
        }
    }
}

} // verus!
