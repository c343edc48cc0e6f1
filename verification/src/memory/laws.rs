//! What holds of the address space whatever the program does.

use vstd::prelude::*;
use super::dma::{DMAInfo, DMA_LENGTH};
use super::mmu::{MmuView, OAM_SIZE};
use super::LCD_OAM_DMA_ADDR;

verus! {

/// Echo RAM. For every address in 0xE000..0xFDFF, a byte written there is
/// read back 0x2000 below, and a byte written 0x2000 below is read back
/// there.
pub proof fn law_echo_ram_aliases_work_ram(mmu: MmuView, addr: u16, value: u8)
    requires
        mmu.well_formed(),
        0xE000 <= addr <= 0xFDFF,
    ensures
        mmu.write(addr, value).read((addr - 0x2000) as u16) == value,
        mmu.write((addr - 0x2000) as u16, value).read(addr) == value,
        mmu.write(addr, value) == mmu.write((addr - 0x2000) as u16, value),
{
    reveal(MmuView::write);
    reveal(MmuView::read);
}

/// The unusable region. For every address in 0xFEA0..0xFEFF a read gives
/// 0xFF in every state, and a write changes nothing, so that no earlier
/// write can show in a read.
pub proof fn law_unusable_region_reads_ff(mmu: MmuView, addr: u16, value: u8)
    requires
        0xFEA0 <= addr <= 0xFEFF,
    ensures
        mmu.read(addr) == 0xFF,
        mmu.write(addr, value) == mmu,
        mmu.write_fault(addr, value) is None,
{
    reveal(MmuView::write);
    reveal(MmuView::read);
}

/// A write never makes the state ill-formed, and what it leaves in the
/// internal memories is read back.
pub proof fn law_write_then_read(mmu: MmuView, addr: u16, value: u8)
    requires
        mmu.well_formed(),
        0x8000 <= addr < 0xA000 || 0xC000 <= addr < 0xFEA0 || 0xFF80 <= addr,
    ensures
        mmu.write(addr, value).well_formed(),
        mmu.write(addr, value).read(addr) == value,
{
    reveal(MmuView::write);
    reveal(MmuView::read);
}

/// Once the boot ROM is unmounted, no write mounts it again.
pub proof fn law_boot_rom_stays_unmounted(mmu: MmuView, addr: u16, value: u8)
    requires
        mmu.well_formed(),
        !mmu.boot_rom_mounted(),
    ensures
        !mmu.write(addr, value).boot_rom_mounted(),
        !mmu.tick().boot_rom_mounted(),
{
    reveal(MmuView::write);
    reveal(MmuView::read);
}

/// While a transfer counts down, only the countdown changes: no read
/// gives another byte.
proof fn lemma_countdown_keeps_memory(mmu: MmuView, cycles: nat)
    requires
        mmu.well_formed(),
        mmu.waiting_dma is Some,
        cycles < mmu.waiting_dma.unwrap().timer,
    ensures
        mmu.ticks(cycles) == (MmuView {
            waiting_dma: Some(
                DMAInfo {
                    timer: (mmu.waiting_dma.unwrap().timer - cycles) as u8,
                    ..mmu.waiting_dma.unwrap()
                },
            ),
            ..mmu
        }),
    decreases cycles,
{
    if cycles > 0 {
        lemma_countdown_keeps_memory(mmu.tick(), (cycles - 1) as nat);
    }
}

/// Running `first` cycles and then `second` more is running them all.
proof fn lemma_ticks_add(mmu: MmuView, first: nat, second: nat)
    ensures
        mmu.ticks(first + second) == mmu.ticks(first).ticks(second),
    decreases first,
{
    if first > 0 {
        lemma_ticks_add(mmu.tick(), (first - 1) as nat, second);
    }
}

/// OAM DMA. When no transfer is waiting, a write of `high` to the DMA
/// register followed by 160 machine cycles leaves in OAM, byte for byte,
/// what the 160 addresses from `high * 256` held when the transfer
/// started, and no transfer waiting. The write itself changes no byte
/// but that of the DMA register.
pub proof fn law_oam_dma_copies_source(mmu: MmuView, high: u8)
    requires
        mmu.well_formed(),
        mmu.waiting_dma is None,
    ensures
        ({
            let started = mmu.write(LCD_OAM_DMA_ADDR, high);
            let done = started.ticks(DMA_LENGTH as nat);
            &&& done.waiting_dma is None
            &&& done.well_formed()
            &&& forall|i: int|
                0 <= i < OAM_SIZE ==> #[trigger] done.read((0xFE00 + i) as u16) == started.read(
                    (high * 256 + i) as u16,
                )
            &&& forall|addr: u16|
                addr != LCD_OAM_DMA_ADDR ==> #[trigger] started.read(addr) == mmu.read(addr)
        }),
{
    reveal(MmuView::write);
    reveal(MmuView::read);
    let started = mmu.write(LCD_OAM_DMA_ADDR, high);
    let last = started.ticks((DMA_LENGTH - 1) as nat);
    lemma_countdown_keeps_memory(started, (DMA_LENGTH - 1) as nat);
    lemma_ticks_add(started, (DMA_LENGTH - 1) as nat, 1);
    assert(last.ticks(1) == last.tick()) by {
        reveal_with_fuel(MmuView::ticks, 2);
    }
    let done = started.ticks(DMA_LENGTH as nat);
    assert(done.oam == last.dma_source(high));
    assert forall|i: int| 0 <= i < OAM_SIZE implies #[trigger] done.read((0xFE00 + i) as u16)
        == started.read((high * 256 + i) as u16) by {
        assert(last.read((high * 256 + i) as u16) == started.read((high * 256 + i) as u16));
    }
}

} // verus!
