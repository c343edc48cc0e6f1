//! The picture processing unit.

pub mod fetcher;
pub mod laws;
pub mod oam;
pub mod pixel;
pub mod pixel_fifo;

use vstd::prelude::*;
use crate::bits::{bit_set, test_bit};
use crate::display::{is_frame, Display};
use crate::fault::Fault;
use crate::interrupt::IntKind;
use crate::memory::mmu::{MmuView, MMU};
use crate::memory::store::{zeroed, zeros};
use fetcher::AddressingMode;
use pixel_fifo::{PixelFIFO, PixelFifoView};

verus! {

pub const SCREEN_WIDTH: u8 = 160;

pub const SCREEN_HEIGHT: u8 = 144;

pub const PIXEL_COUNT: usize = 160 * 144;

pub const SCAN_LINE_COUNT: u8 = 154;

pub const DOT_PER_LINE_COUNT: u32 = 456;

pub const LCD_CONTROL_REG_ADDR: u16 = 0xFF40;

pub const LCD_STATUS_REG_ADDR: u16 = 0xFF41;

pub const LCD_SCROLL_Y_ADDR: u16 = 0xFF42;

pub const LCD_SCROLL_X_ADDR: u16 = 0xFF43;

pub const LCD_LY_ADDR: u16 = 0xFF44;

pub const LCD_LYC_ADDR: u16 = 0xFF45;

pub const BG_PALETTE_DATA_ADDR: u16 = 0xFF47;

pub const OAM0_PALETTE_DATA_ADDR: u16 = 0xFF48;

pub const OAM1_PALETTE_DATA_ADDR: u16 = 0xFF49;

pub const LCD_WINDOW_Y_POSITION_ADDR: u16 = 0xFF4A;

pub const LCD_WINDOW_X_POSITION_ADDR: u16 = 0xFF4B;

/// The LCD control register.
#[derive(Debug, Clone, Copy, PartialEq, Eq, Structural)]
pub struct ControlReg {
    pub bits: u8,
}

impl ControlReg {
    /// Bit 7.
    pub open spec fn display_enable(self) -> bool {
        bit_set(self.bits, 7)
    }

    /// Bit 6: the window uses the tile map at 0x9C00.
    pub open spec fn window_tile_map_display_select(self) -> bool {
        bit_set(self.bits, 6)
    }

    /// Bit 5.
    pub open spec fn window_display_enable(self) -> bool {
        bit_set(self.bits, 5)
    }

    /// Bit 4: tile identifiers count from 0x8000.
    pub open spec fn bg_window_tile_data_select(self) -> bool {
        bit_set(self.bits, 4)
    }

    /// Bit 3: the background uses the tile map at 0x9C00.
    pub open spec fn bg_tile_map_display_select(self) -> bool {
        bit_set(self.bits, 3)
    }

    /// Bit 2: objects are sixteen rows tall.
    pub open spec fn obj_size(self) -> bool {
        bit_set(self.bits, 2)
    }

    /// Bit 1.
    pub open spec fn obj_display_enable(self) -> bool {
        bit_set(self.bits, 1)
    }

    /// Bit 0: the background and window are drawn at all.
    pub open spec fn bg_window_display_priority(self) -> bool {
        bit_set(self.bits, 0)
    }

    pub open spec fn background_map(self) -> u16 {
        if self.bg_tile_map_display_select() {
            0x9C00
        } else {
            0x9800
        }
    }

    pub open spec fn window_map(self) -> u16 {
        if self.window_tile_map_display_select() {
            0x9C00
        } else {
            0x9800
        }
    }

    pub open spec fn addressing(self) -> AddressingMode {
        if self.bg_window_tile_data_select() {
            AddressingMode::From8000
        } else {
            AddressingMode::From8800
        }
    }

    pub fn from_bits_truncate(bits: u8) -> (reg: ControlReg)
        ensures
            reg == (ControlReg { bits }),
    {
        ControlReg { bits }
    }

    /// Whether bit `bit` of the register is set.
    pub fn contains(&self, bit: u8) -> (set: bool)
        requires
            bit < 8,
        ensures
            set == bit_set(self.bits, bit),
    {
        test_bit(self.bits, bit)
    }

    pub fn background_tile_map_addr(&self) -> (addr: u16)
        ensures
            addr == self.background_map(),
            addr == 0x9800 || addr == 0x9C00,
    {
        if self.contains(3) {
            0x9C00
        } else {
            0x9800
        }
    }

    pub fn window_tile_map_addr(&self) -> (addr: u16)
        ensures
            addr == self.window_map(),
            addr == 0x9800 || addr == 0x9C00,
    {
        if self.contains(6) {
            0x9C00
        } else {
            0x9800
        }
    }

    pub fn addressing_mode(&self) -> (mode: AddressingMode)
        ensures
            mode == self.addressing(),
    {
        if self.contains(4) {
            AddressingMode::From8000
        } else {
            AddressingMode::From8800
        }
    }
}

/// The four modes that the status register reports.
#[derive(Debug, Clone, Copy, PartialEq, Eq, Structural)]
pub enum Mode {
    HBlank,
    VBlank,
    OAMSearch,
    LCDTransfer,
}

impl Mode {
    /// The number of the mode in the two low bits of the status
    /// register.
    pub open spec fn number(self) -> u8 {
        match self {
            Mode::HBlank => 0,
            Mode::VBlank => 1,
            Mode::OAMSearch => 2,
            Mode::LCDTransfer => 3,
        }
    }

    pub fn bits(self) -> (number: u8)
        ensures
            number == self.number(),
    {
        match self {
            Mode::HBlank => 0,
            Mode::VBlank => 1,
            Mode::OAMSearch => 2,
            Mode::LCDTransfer => 3,
        }
    }
}

/// What the unit does at a dot.
#[derive(Debug, Clone, Copy, PartialEq, Eq, Structural)]
pub enum PPUState {
    OAMSearchBegin,
    OAMSearch,
    OAMSearchEnd,
    TransferInit,
    Transfer { x: u8 },
    PostTransfer,
    HBlankInit,
    HBlank,
    VBlankInit,
    VBlank,
}

impl PPUState {
    /// The state at dot `dot` of line `scan_line`.
    ///
    /// On the 144 visible lines: the object search at dots 0 to 79, the
    /// start of the transfer at dot 80, one pixel at each of the dots 81
    /// to 240, idle dots to 251, and the horizontal blank from dot 252.
    /// The ten lines after them are the vertical blank, which starts at
    /// dot 0 of line 144.
    pub open spec fn at(dot: u32, scan_line: u8) -> PPUState {
        if scan_line < SCREEN_HEIGHT {
            if dot == 0 {
                PPUState::OAMSearchBegin
            } else if dot <= 78 {
                PPUState::OAMSearch
            } else if dot == 79 {
                PPUState::OAMSearchEnd
            } else if dot == 80 {
                PPUState::TransferInit
            } else if dot <= 240 {
                PPUState::Transfer { x: (dot - 81) as u8 }
            } else if dot <= 251 {
                PPUState::PostTransfer
            } else if dot == 252 {
                PPUState::HBlankInit
            } else {
                PPUState::HBlank
            }
        } else if scan_line == SCREEN_HEIGHT && dot == 0 {
            PPUState::VBlankInit
        } else {
            PPUState::VBlank
        }
    }

    pub open spec fn mode_of(self) -> Mode {
        match self {
            PPUState::OAMSearchBegin => Mode::OAMSearch,
            PPUState::OAMSearch => Mode::OAMSearch,
            PPUState::OAMSearchEnd => Mode::OAMSearch,
            PPUState::TransferInit => Mode::LCDTransfer,
            PPUState::Transfer { .. } => Mode::LCDTransfer,
            PPUState::PostTransfer => Mode::LCDTransfer,
            PPUState::HBlankInit => Mode::HBlank,
            PPUState::HBlank => Mode::HBlank,
            PPUState::VBlankInit => Mode::VBlank,
            PPUState::VBlank => Mode::VBlank,
        }
    }

    pub fn current_state(dot: u32, scan_line: u8) -> (state: PPUState)
        requires
            scan_line < SCAN_LINE_COUNT,
            dot < DOT_PER_LINE_COUNT,
        ensures
            state == PPUState::at(dot, scan_line),
    {
        if scan_line < SCREEN_HEIGHT {
            if dot == 0 {
                PPUState::OAMSearchBegin
            } else if dot <= 78 {
                PPUState::OAMSearch
            } else if dot == 79 {
                PPUState::OAMSearchEnd
            } else if dot == 80 {
                PPUState::TransferInit
            } else if dot <= 240 {
                PPUState::Transfer { x: (dot - 81) as u8 }
            } else if dot <= 251 {
                PPUState::PostTransfer
            } else if dot == 252 {
                PPUState::HBlankInit
            } else {
                PPUState::HBlank
            }
        } else if scan_line == SCREEN_HEIGHT && dot == 0 {
            PPUState::VBlankInit
        } else {
            PPUState::VBlank
        }
    }

    pub fn mode(&self) -> (mode: Mode)
        ensures
            mode == self.mode_of(),
    {
        match self {
            PPUState::OAMSearchBegin => Mode::OAMSearch,
            PPUState::OAMSearch => Mode::OAMSearch,
            PPUState::OAMSearchEnd => Mode::OAMSearch,
            PPUState::TransferInit => Mode::LCDTransfer,
            PPUState::Transfer { .. } => Mode::LCDTransfer,
            PPUState::PostTransfer => Mode::LCDTransfer,
            PPUState::HBlankInit => Mode::HBlank,
            PPUState::HBlank => Mode::HBlank,
            PPUState::VBlankInit => Mode::VBlank,
            PPUState::VBlank => Mode::VBlank,
        }
    }
}

pub struct PPU {
    pub scan_line: u8,
    pub dot_in_line: u32,
    pub state: PPUState,
    /// Whether the condition of the status interrupt held at the last
    /// dot.
    pub int_cond_met: bool,
    /// The frame that is being drawn: one shade per pixel.
    pub frame: Vec<u8>,
    pub pixel_fifo: PixelFIFO,
}

/// The state of the unit.
pub struct PpuView {
    pub scan_line: u8,
    pub dot_in_line: u32,
    pub state: PPUState,
    pub int_cond_met: bool,
    pub frame: Seq<u8>,
    pub pixel_fifo: PixelFifoView,
}

impl View for PPU {
    type V = PpuView;

    open spec fn view(&self) -> PpuView {
        PpuView {
            scan_line: self.scan_line,
            dot_in_line: self.dot_in_line,
            state: self.state,
            int_cond_met: self.int_cond_met,
            frame: self.frame@,
            pixel_fifo: self.pixel_fifo@,
        }
    }
}

/// The states that a dot leaves, and the fault that it met, if any.
pub struct PpuOutcome {
    pub ppu: PpuView,
    pub mmu: MmuView,
    pub display: Seq<u8>,
    pub fault: Option<Fault>,
}

/// The status register after an update: its three low bits are the
/// coincidence of the line with the compare register and the mode; the
/// others are kept.
pub open spec fn status_byte(old_status: u8, coincidence: bool, mode: Mode) -> u8 {
    (old_status - old_status % 8 + (if coincidence { 4int } else { 0 }) + mode.number()) as u8
}

/// Whether the status register `status` asks for the status interrupt:
/// an enable bit is set and its condition holds. Bit 6 goes with the
/// coincidence bit, bit 5 with the object search, bit 4 with the
/// vertical blank and bit 3 with the horizontal blank.
pub open spec fn status_condition(status: u8) -> bool {
    ||| bit_set(status, 6) && bit_set(status, 2)
    ||| bit_set(status, 5) && status % 4 == 2
    ||| bit_set(status, 4) && status % 4 == 1
    ||| bit_set(status, 3) && status % 4 == 0
}

/// The number of dots of a frame.
pub open spec fn frame_dots() -> int {
    70224
}

impl PpuView {
    /// The unit at power-on: at the first dot of the first line, with a
    /// blank frame.
    pub open spec fn initial() -> PpuView {
        PpuView {
            scan_line: 0,
            dot_in_line: 0,
            state: PPUState::OAMSearchBegin,
            int_cond_met: false,
            frame: zeros(PIXEL_COUNT as nat),
            pixel_fifo: PixelFifoView::initial(),
        }
    }

    /// The position is inside the frame and the state is that of the
    /// position.
    pub open spec fn placed(self) -> bool {
        &&& self.scan_line < SCAN_LINE_COUNT
        &&& self.dot_in_line < DOT_PER_LINE_COUNT
        &&& self.state == PPUState::at(self.dot_in_line, self.scan_line)
    }

    /// The unit is placed, the frame holds shades, and during the
    /// transfer the pipeline is at the column that the dot stands for.
    pub open spec fn well_formed(self) -> bool {
        &&& self.placed()
        &&& is_frame(self.frame)
        &&& self.pixel_fifo.well_formed()
        &&& match self.state {
            PPUState::Transfer { x } => self.pixel_fifo.current_x == x,
            _ => true,
        }
    }

    /// The number of the dot in its frame.
    pub open spec fn position(self) -> int {
        self.scan_line * 456 + self.dot_in_line
    }

    /// The memory after the status and line registers have been brought
    /// up to date.
    pub open spec fn registers_updated(self, mmu: MmuView) -> MmuView {
        mmu.write(
            LCD_STATUS_REG_ADDR,
            status_byte(
                mmu.read(LCD_STATUS_REG_ADDR),
                self.scan_line == mmu.read(LCD_LYC_ADDR),
                self.state.mode_of(),
            ),
        ).write(LCD_LY_ADDR, self.scan_line)
    }

    /// The memory after the status interrupt has been looked at: it is
    /// raised when its condition holds and did not hold at the last dot.
    pub open spec fn status_checked(self, mmu: MmuView) -> MmuView {
        if !self.int_cond_met && status_condition(mmu.read(LCD_STATUS_REG_ADDR)) {
            MmuView {
                interrupt_controller: mmu.interrupt_controller.raise(IntKind::LcdStat),
                ..mmu
            }
        } else {
            mmu
        }
    }

    /// The work of the dot on the line: what the state asks of the pixel
    /// pipeline, the frame and the interrupt controller. `mmu` is the
    /// memory after the registers have been updated and the status
    /// interrupt looked at.
    pub open spec fn worked(self, mmu: MmuView, display: Seq<u8>) -> PpuOutcome {
        let fifo = self.pixel_fifo;
        match self.state {
            PPUState::OAMSearchBegin => PpuOutcome {
                ppu: PpuView { pixel_fifo: fifo.begun_line(self.scan_line), ..self },
                mmu,
                display,
                fault: None,
            },
            PPUState::OAMSearchEnd => PpuOutcome {
                ppu: PpuView { pixel_fifo: fifo.searched(mmu), ..self },
                mmu,
                display,
                fault: None,
            },
            PPUState::TransferInit => {
                let at_start = PixelFifoView { current_x: 0, ..fifo };
                match at_start.window_fault(mmu) {
                    Some(fault) => PpuOutcome {
                        ppu: PpuView { pixel_fifo: at_start, ..self },
                        mmu,
                        display,
                        fault: Some(fault),
                    },
                    None => PpuOutcome {
                        ppu: PpuView { pixel_fifo: fifo.begun_transfer(mmu), ..self },
                        mmu,
                        display,
                        fault: None,
                    },
                }
            },
            PPUState::Transfer { x } => match fifo.window_fault(mmu) {
                Some(fault) => PpuOutcome { ppu: self, mmu, display, fault: Some(fault) },
                None => PpuOutcome {
                    ppu: PpuView {
                        pixel_fifo: fifo.after_pixel(mmu),
                        frame: self.frame.update(
                            self.scan_line * SCREEN_WIDTH + x,
                            fifo.pixel(mmu).shade(mmu),
                        ),
                        ..self
                    },
                    mmu,
                    display,
                    fault: None,
                },
            },
            PPUState::HBlankInit => PpuOutcome {
                ppu: PpuView { pixel_fifo: fifo.ended_line(), ..self },
                mmu,
                display,
                fault: None,
            },
            PPUState::VBlankInit => PpuOutcome {
                ppu: PpuView { pixel_fifo: fifo.ended_frame(), ..self },
                mmu: MmuView {
                    interrupt_controller: mmu.interrupt_controller.raise(IntKind::VBlank),
                    ..mmu
                },
                display,
                fault: None,
            },
            _ => PpuOutcome { ppu: self, mmu, display, fault: None },
        }
    }

    /// The states after the unit has moved on to the next dot: the next
    /// dot of the line, or the first dot of the next line, of which the
    /// line register is told. After line 153 comes line 0.
    pub open spec fn moved_on(self, mmu: MmuView) -> (PpuView, MmuView) {
        if self.dot_in_line + 1 == DOT_PER_LINE_COUNT {
            let line: u8 = if self.scan_line + 1 == SCAN_LINE_COUNT {
                0
            } else {
                (self.scan_line + 1) as u8
            };
            (
                PpuView { dot_in_line: 0, scan_line: line, state: PPUState::at(0, line), ..self },
                mmu.write(LCD_LY_ADDR, line),
            )
        } else {
            (
                PpuView {
                    dot_in_line: (self.dot_in_line + 1) as u32,
                    state: PPUState::at((self.dot_in_line + 1) as u32, self.scan_line),
                    ..self
                },
                mmu,
            )
        }
    }

    /// One dot.
    ///
    /// The status and line registers are updated and the status
    /// interrupt looked at. At the first dot of a frame the frame drawn
    /// so far becomes the visible one and a blank one is begun. Then the
    /// work of the dot is done, and the unit moves on to the next dot,
    /// unless the work met a fault.
    #[verifier::opaque]
    pub open spec fn cycle(self, mmu: MmuView, display: Seq<u8>) -> PpuOutcome {
        let updated = self.registers_updated(mmu);
        let checked = self.status_checked(updated);
        let seen = PpuView {
            int_cond_met: status_condition(updated.read(LCD_STATUS_REG_ADDR)),
            ..self
        };
        let framed = if self.dot_in_line == 0 && self.scan_line == 0 {
            PpuView { frame: zeros(PIXEL_COUNT as nat), ..seen }
        } else {
            seen
        };
        let shown = if self.dot_in_line == 0 && self.scan_line == 0 {
            self.frame
        } else {
            display
        };
        let work = framed.worked(checked, shown);
        if work.fault is Some {
            work
        } else {
            let (ppu, mmu) = work.ppu.moved_on(work.mmu);
            PpuOutcome { ppu, mmu, ..work }
        }
    }

    /// `count` dots, or as many as go by before a fault.
    pub open spec fn cycles(self, mmu: MmuView, display: Seq<u8>, count: nat) -> PpuOutcome
        decreases count,
    {
        if count == 0 {
            PpuOutcome { ppu: self, mmu, display, fault: None }
        } else {
            let first = self.cycle(mmu, display);
            if first.fault is Some {
                first
            } else {
                first.ppu.cycles(first.mmu, first.display, (count - 1) as nat)
            }
        }
    }
}

/// Whether the states and the result are what `expected` says.
pub open spec fn is_ppu_outcome(
    ppu: PpuView,
    mmu: MmuView,
    display: Seq<u8>,
    res: Result<(), Fault>,
    expected: PpuOutcome,
) -> bool {
    &&& ppu == expected.ppu
    &&& mmu == expected.mmu
    &&& display == expected.display
    &&& res == match expected.fault {
        Some(fault) => Err::<(), Fault>(fault),
        None => Ok(()),
    }
}

impl PPU {
    pub open spec fn well_formed(&self) -> bool {
        self@.well_formed()
    }

    pub fn new() -> (ppu: PPU)
        ensures
            ppu@ == PpuView::initial(),
            ppu.well_formed(),
    {
        PPU {
            scan_line: 0,
            dot_in_line: 0,
            state: PPUState::OAMSearchBegin,
            int_cond_met: false,
            frame: zeroed(PIXEL_COUNT),
            pixel_fifo: PixelFIFO::new(),
        }
    }

    fn update_registers(&mut self, mmu: &mut MMU)
        requires
            old(mmu).well_formed(),
        ensures
            final(mmu).well_formed(),
            final(mmu)@ == old(self)@.registers_updated(old(mmu)@),
            final(self)@ == old(self)@,
    {
        reveal(MmuView::write);
        let coincidence = self.scan_line == mmu.read_memory(LCD_LYC_ADDR);
        let coincidence_bit: u8 = if coincidence { 4 } else { 0 };
        let updated_part: u8 = coincidence_bit + self.state.mode().bits();
        let old_reg = mmu.read_memory(LCD_STATUS_REG_ADDR);
        let _ = mmu.write_memory(LCD_STATUS_REG_ADDR, old_reg - old_reg % 8 + updated_part);
        let _ = mmu.write_memory(LCD_LY_ADDR, self.scan_line);
    }

    fn maybe_trigger_stat_int(&mut self, mmu: &mut MMU)
        requires
            old(mmu).well_formed(),
        ensures
            final(mmu).well_formed(),
            final(mmu)@ == old(self)@.status_checked(old(mmu)@),
            final(self)@ == (PpuView {
                int_cond_met: status_condition(old(mmu)@.read(LCD_STATUS_REG_ADDR)),
                ..old(self)@
            }),
    {
        let stat_value = mmu.read_memory(LCD_STATUS_REG_ADDR);
        let mode: u8 = stat_value % 4;
        let new_int_cond_met = (test_bit(stat_value, 6) && test_bit(stat_value, 2)) || (test_bit(
            stat_value,
            5,
        ) && mode == 2) || (test_bit(stat_value, 4) && mode == 1) || (test_bit(stat_value, 3)
            && mode == 0);

        if !self.int_cond_met && new_int_cond_met {
            mmu.interrupt_controller.trigger_lcd_stat_int();
        }
        self.int_cond_met = new_int_cond_met;
    }

    fn next_dot(&mut self, mmu: &mut MMU)
        requires
            old(mmu).well_formed(),
            old(self).scan_line < SCAN_LINE_COUNT,
            old(self).dot_in_line < DOT_PER_LINE_COUNT,
        ensures
            final(mmu).well_formed(),
            (final(self)@, final(mmu)@) == old(self)@.moved_on(old(mmu)@),
    {
        reveal(MmuView::write);
        self.dot_in_line = self.dot_in_line + 1;

        if self.dot_in_line == DOT_PER_LINE_COUNT {
            self.dot_in_line = 0;
            self.scan_line = self.scan_line + 1;
            if self.scan_line == SCAN_LINE_COUNT {
                self.scan_line = 0;
            }
            let _ = mmu.write_memory(LCD_LY_ADDR, self.scan_line);
        }
        self.state = PPUState::current_state(self.dot_in_line, self.scan_line);
    }

    fn clear_frame(&mut self, display: &mut Display)
        requires
            is_frame(old(self)@.frame),
            old(display).well_formed(),
        ensures
            final(display).well_formed(),
            is_frame(final(display)@),
            final(display)@ == old(self)@.frame,
            final(self)@ == (PpuView { frame: zeros(PIXEL_COUNT as nat), ..old(self)@ }),
    {
        display.push_frame(self.frame.as_slice());

        let mut i: usize = 0;
        while i < PIXEL_COUNT
            invariant
                i <= PIXEL_COUNT,
                self.frame@.len() == PIXEL_COUNT,
                forall|k: int| 0 <= k < i ==> self.frame@[k] == 0,
                self@ == (PpuView { frame: self@.frame, ..old(self)@ }),
            decreases PIXEL_COUNT - i,
        {
            self.frame[i] = 0;
            i = i + 1;
        }
        assert(self.frame@ =~= zeros(PIXEL_COUNT as nat));
    }

    /// Does the work of the dot on the line.
    fn work(&mut self, mmu: &mut MMU) -> (res: Result<(), Fault>)
        requires
            old(self).well_formed(),
            old(mmu).well_formed(),
        ensures
            final(mmu).well_formed(),
            forall|display: Seq<u8>|
                is_ppu_outcome(
                    final(self)@,
                    final(mmu)@,
                    display,
                    res,
                    #[trigger] old(self)@.worked(old(mmu)@, display),
                ),
            final(self)@.scan_line == old(self)@.scan_line,
            final(self)@.dot_in_line == old(self)@.dot_in_line,
            final(self)@.state == old(self)@.state,
            is_frame(final(self)@.frame),
            final(self)@.pixel_fifo.well_formed(),
            res is Ok ==> match old(self)@.state {
                PPUState::TransferInit => final(self)@.pixel_fifo.current_x == 0,
                PPUState::Transfer { x } => final(self)@.pixel_fifo.current_x == x + 1,
                _ => true,
            },
    {
        match self.state {
            PPUState::OAMSearchBegin => {
                self.pixel_fifo.begin_of_line(self.scan_line);
                Ok(())
            },
            PPUState::OAMSearch => Ok(()),
            PPUState::OAMSearchEnd => {
                self.pixel_fifo.end_of_oam_search(mmu);
                Ok(())
            },
            PPUState::TransferInit => self.pixel_fifo.begin_lcd_transfer(mmu),
            PPUState::Transfer { x } => {
                let pixel = match self.pixel_fifo.next_pixel(mmu) {
                    Ok(pixel) => pixel,
                    Err(fault) => {
                        return Err(fault);
                    },
                };
                let offset: usize = (self.scan_line as usize) * (SCREEN_WIDTH as usize) + (
                x as usize);
                let actual_color = pixel.through_palette(mmu);
                self.frame[offset] = actual_color;
                Ok(())
            },
            PPUState::PostTransfer => Ok(()),
            PPUState::HBlankInit => {
                self.pixel_fifo.end_of_line();
                Ok(())
            },
            PPUState::HBlank => Ok(()),
            PPUState::VBlankInit => {
                mmu.interrupt_controller.trigger_vblank_int();
                self.pixel_fifo.end_of_frame();
                Ok(())
            },
            PPUState::VBlank => Ok(()),
        }
    }

    /// Runs the unit for one dot.
    pub fn cycle(&mut self, mmu: &mut MMU, display: &mut Display) -> (res: Result<(), Fault>)
        requires
            old(self).well_formed(),
            old(mmu).well_formed(),
            old(display).well_formed(),
        ensures
            final(self).well_formed(),
            final(mmu).well_formed(),
            final(display).well_formed(),
            is_frame(old(display)@) ==> is_frame(final(display)@),
            is_ppu_outcome(
                final(self)@,
                final(mmu)@,
                final(display)@,
                res,
                old(self)@.cycle(old(mmu)@, old(display)@),
            ),
    {
        reveal(PpuView::cycle);
        self.update_registers(mmu);
        self.maybe_trigger_stat_int(mmu);

        if self.dot_in_line == 0 && self.scan_line == 0 {
            self.clear_frame(display);
        }
        match self.work(mmu) {
            Ok(()) => {},
            Err(fault) => {
                return Err(fault);
            },
        }
        self.next_dot(mmu);
        Ok(())
    }

    /// Runs the unit for the four dots of a machine cycle.
    pub fn step(&mut self, mmu: &mut MMU, display: &mut Display) -> (res: Result<(), Fault>)
        requires
            old(self).well_formed(),
            old(mmu).well_formed(),
            old(display).well_formed(),
        ensures
            final(self).well_formed(),
            final(mmu).well_formed(),
            final(display).well_formed(),
            is_frame(old(display)@) ==> is_frame(final(display)@),
            is_ppu_outcome(
                final(self)@,
                final(mmu)@,
                final(display)@,
                res,
                old(self)@.cycles(old(mmu)@, old(display)@, 4),
            ),
    {
        let mut done: u8 = 0;
        while done < 4
            invariant
                done <= 4,
                self.well_formed(),
                mmu.well_formed(),
                display.well_formed(),
                is_frame(old(display)@) ==> is_frame(display@),
                self@.cycles(mmu@, display@, (4 - done) as nat) == old(self)@.cycles(
                    old(mmu)@,
                    old(display)@,
                    4,
                ),
            decreases 4 - done,
        {
            match self.cycle(mmu, display) {
                Ok(()) => {},
                Err(fault) => {
                    return Err(fault);
                },
            }
            done = done + 1;
        }
        Ok(())
    }
}

} // verus!
