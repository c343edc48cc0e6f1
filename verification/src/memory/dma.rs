//! The countdown of an OAM DMA transfer.

use vstd::prelude::*;

verus! {

/// The number of machine cycles that a transfer takes, one per byte.
pub const DMA_LENGTH: u8 = 0xA0;

/// A transfer that has been requested and not yet carried out.
#[derive(Debug, Clone, Copy, PartialEq, Eq, Structural)]
pub struct DMAInfo {
    /// The high byte of the source address.
    pub high_byte_addr: u8,
    /// Machine cycles left before the copy.
    pub timer: u8,
}

impl DMAInfo {
    pub fn new(high_byte_addr: u8) -> (dma: DMAInfo)
        ensures
            dma == (DMAInfo { high_byte_addr, timer: DMA_LENGTH }),
    {
        DMAInfo { high_byte_addr, timer: DMA_LENGTH }
    }

    /// Counts one machine cycle and tells whether the transfer is due.
    pub fn tick(&mut self) -> (due: bool)
        requires
            old(self).timer > 0,
        ensures
            *final(self) == (DMAInfo { timer: (old(self).timer - 1) as u8, ..*old(self) }),
            due == (old(self).timer == 1),
    {
        self.timer = self.timer - 1;
        self.timer == 0
    }
}

} // verus!
