//! What holds of every frame.

use vstd::prelude::*;
use super::{frame_dots, PpuView, LCD_LY_ADDR, SCAN_LINE_COUNT};
use crate::driver::EmulatorView;
use crate::interrupt::IntKind;
use crate::memory::mmu::MmuView;

verus! {

/// The position in the frame at which the vertical blank starts: the
/// first dot of line 144.
pub open spec fn vblank_position() -> int {
    65664
}

/// The line of the position `position` of a frame.
pub open spec fn line_at(position: int) -> int {
    position / 456
}

/// The position `dots` dots after `position`, around the frame.
pub open spec fn position_after(position: int, dots: int) -> int {
    (position + dots) % frame_dots()
}

/// Every dot that meets no fault moves the unit to the next position of
/// the frame, and after position 70223 comes position 0. The line
/// register then reads the line of the new position. The vertical blank
/// interrupt is raised by the dot at the first position of line 144 and
/// by no other.
pub proof fn law_dot_moves_to_next_position(ppu: PpuView, mmu: MmuView, display: Seq<u8>)
    requires
        ppu.placed(),
        mmu.well_formed(),
        ppu.cycle(mmu, display).fault is None,
    ensures
        ({
            let after = ppu.cycle(mmu, display);
            let before_work = ppu.status_checked(ppu.registers_updated(mmu));
            &&& after.ppu.placed()
            &&& after.ppu.position() == position_after(ppu.position(), 1)
            &&& after.ppu.scan_line == line_at(after.ppu.position())
            &&& after.mmu.read(LCD_LY_ADDR) == after.ppu.scan_line
            &&& after.mmu.interrupt_controller == if ppu.position() == vblank_position() {
                before_work.interrupt_controller.raise(IntKind::VBlank)
            } else {
                before_work.interrupt_controller
            }
        }),
{
    reveal(PpuView::cycle);
    reveal(MmuView::write);
    reveal(MmuView::read);
    lemma_dot_position(ppu, mmu, display);
    let updated = ppu.registers_updated(mmu);
    let checked = ppu.status_checked(updated);
    assert(updated.read(LCD_LY_ADDR) == ppu.scan_line);
    assert(checked.read(LCD_LY_ADDR) == ppu.scan_line);
    assert(checked.well_formed());
}

/// A dot that meets no fault moves the unit to the next position.
proof fn lemma_dot_position(ppu: PpuView, mmu: MmuView, display: Seq<u8>)
    requires
        ppu.placed(),
        ppu.cycle(mmu, display).fault is None,
    ensures
        ppu.cycle(mmu, display).ppu.placed(),
        ppu.cycle(mmu, display).ppu.position() == position_after(ppu.position(), 1),
        ppu.cycle(mmu, display).ppu.scan_line == line_at(ppu.cycle(mmu, display).ppu.position()),
{
    reveal(PpuView::cycle);
}

/// The lines of a frame come in order: the line of the next position is
/// the same line or the next one, and line 0 comes after line 153.
pub proof fn law_lines_in_order(position: int)
    requires
        0 <= position < frame_dots(),
    ensures
        0 <= line_at(position) < SCAN_LINE_COUNT,
        line_at(position_after(position, 1)) == if position % 456 == 455 {
            (line_at(position) + 1) % 154
        } else {
            line_at(position)
        },
{
}

/// Among any 70224 consecutive dots, one and only one is at the position
/// where the vertical blank starts, and for every line one and only one
/// is at the first position of that line: a frame passes through every
/// line once and raises the vertical blank interrupt once.
pub proof fn law_each_line_once_per_frame(start: int, line: int, dots: int)
    requires
        0 <= start < frame_dots(),
        0 <= line < SCAN_LINE_COUNT,
        0 <= dots < frame_dots(),
    ensures
        position_after(start, dots) == line * 456 <==> dots == position_after(
            line * 456 - start,
            0,
        ),
        position_after(start, dots) == vblank_position() <==> dots == position_after(
            vblank_position() - start,
            0,
        ),
{
}

/// A machine cycle that meets no fault moves the picture processing
/// unit four positions on, whatever the CPU does meanwhile.
pub proof fn law_machine_cycle_is_four_dots(machine: EmulatorView)
    requires
        machine.ppu.placed(),
        machine.mmu.well_formed(),
        machine.cycle().fault is None,
    ensures
        machine.cycle().machine.ppu.placed(),
        machine.cycle().machine.ppu.position() == position_after(machine.ppu.position(), 4),
{
    let computed = crate::cpu::semantics::step(machine.cpu, machine.mmu.tick());
    lemma_dots_move(machine.ppu, computed.mmu, machine.display, 4);
}

/// `count` dots that meet no fault move the unit `count` positions on.
pub proof fn lemma_dots_move(ppu: PpuView, mmu: MmuView, display: Seq<u8>, count: nat)
    requires
        ppu.placed(),
        ppu.cycles(mmu, display, count).fault is None,
    ensures
        ppu.cycles(mmu, display, count).ppu.placed(),
        ppu.cycles(mmu, display, count).ppu.position() == position_after(
            ppu.position(),
            count as int,
        ),
    decreases count,
{
    if count > 0 {
        let first = ppu.cycle(mmu, display);
        lemma_dot_position(ppu, mmu, display);
        lemma_dots_move(first.ppu, first.mmu, first.display, (count - 1) as nat);
    }
}

} // verus!
