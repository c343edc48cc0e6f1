//! The clock driver: CPU and picture processing unit in lockstep over
//! one memory.

use vstd::prelude::*;
use crate::cpu::semantics::step;
use crate::cpu::{CpuView, CPU};
use crate::display::{is_frame, Display};
use crate::fault::{CartridgeError, Fault};
use crate::interrupt::InterruptController;
use crate::memory::mmu::{MmuView, BOOTSTRAP_ROM_SIZE, MMU};
use crate::memory::{build_mbc, cartridge_error};
use crate::ppu::{PpuView, PPU};
use crate::serial::SerialBuffer;

verus! {

/// The address at which a cartridge starts when no boot ROM runs first.
pub const CARTRIDGE_ENTRY: u16 = 0x0100;

/// A whole machine.
pub struct Emulator {
    pub cpu: CPU,
    pub ppu: PPU,
    pub mmu: MMU,
    pub display: Display,
}

/// The state of a whole machine.
pub struct EmulatorView {
    pub cpu: CpuView,
    pub ppu: PpuView,
    pub mmu: MmuView,
    pub display: Seq<u8>,
}

impl View for Emulator {
    type V = EmulatorView;

    open spec fn view(&self) -> EmulatorView {
        EmulatorView { cpu: self.cpu@, ppu: self.ppu@, mmu: self.mmu@, display: self.display@ }
    }
}

/// The machine after a machine cycle, and the fault that stopped it, if
/// any.
pub struct MachineOutcome {
    pub machine: EmulatorView,
    pub fault: Option<Fault>,
}

impl EmulatorView {
    /// The machine at power-on with the cartridge of the accepted image
    /// `rom` in it. With a boot ROM, the CPU starts at address 0 with the
    /// boot ROM mounted; without one, the boot ROM is unmounted and the
    /// CPU starts at the entry point of the cartridge.
    pub open spec fn power_on(rom: Seq<u8>, bootstrap: Option<Seq<u8>>) -> EmulatorView {
        let mmu = MmuView::initial(
            crate::memory::cartridge_of(rom),
            InterruptController::initial(),
            Seq::empty(),
        );
        EmulatorView {
            cpu: CpuView::initial().with_pc(
                if bootstrap is Some {
                    0
                } else {
                    CARTRIDGE_ENTRY
                },
            ),
            ppu: PpuView::initial(),
            mmu: match bootstrap {
                Some(image) => mmu.with_boot_rom(image),
                None => mmu.write(crate::memory::BOOTSTRAP_ROM_MOUNT_CONTROL_ADDR, 1),
            },
            display: crate::memory::store::zeros(crate::ppu::PIXEL_COUNT as nat),
        }
    }

    pub open spec fn well_formed(self) -> bool {
        self.ppu.well_formed() && self.mmu.well_formed() && is_frame(self.display)
    }

    /// One machine cycle: the OAM DMA counts, the CPU carries out one
    /// micro-operation, and the picture processing unit runs for four
    /// dots. A fault ends the cycle where it is met.
    pub open spec fn cycle(self) -> MachineOutcome {
        let computed = step(self.cpu, self.mmu.tick());
        if computed.fault is Some {
            MachineOutcome {
                machine: EmulatorView { cpu: computed.cpu, mmu: computed.mmu, ..self },
                fault: computed.fault,
            }
        } else {
            let drawn = self.ppu.cycles(computed.mmu, self.display, 4);
            MachineOutcome {
                machine: EmulatorView {
                    cpu: computed.cpu,
                    ppu: drawn.ppu,
                    mmu: drawn.mmu,
                    display: drawn.display,
                },
                fault: drawn.fault,
            }
        }
    }
}

impl EmulatorView {
    /// `count` machine cycles, or as many as go by before a fault.
    pub open spec fn run(self, count: nat) -> MachineOutcome
        decreases count,
    {
        if count == 0 {
            MachineOutcome { machine: self, fault: None }
        } else {
            let first = self.cycle();
            if first.fault is Some {
                first
            } else {
                first.machine.run((count - 1) as nat)
            }
        }
    }
}

impl Emulator {
    pub open spec fn well_formed(&self) -> bool {
        self@.well_formed()
    }

    /// The machine at power-on with the cartridge `rom` in it, and with
    /// the boot ROM `bootstrap` if there is one.
    pub fn new(rom: &[u8], bootstrap: Option<&[u8]>) -> (res: Result<Emulator, CartridgeError>)
        requires
            match bootstrap {
                Some(image) => image@.len() <= BOOTSTRAP_ROM_SIZE,
                None => true,
            },
        ensures
            match res {
                Ok(emulator) => {
                    &&& cartridge_error(rom@) is None
                    &&& emulator.well_formed()
                    &&& emulator@ == EmulatorView::power_on(
                        rom@,
                        match bootstrap {
                            Some(image) => Some(image@),
                            None => None,
                        },
                    )
                },
                Err(error) => cartridge_error(rom@) == Some(error),
            },
    {
        let mbc = match build_mbc(rom) {
            Ok(mbc) => mbc,
            Err(error) => {
                return Err(error);
            },
        };
        let mut mmu = MMU::new(mbc, InterruptController::new(), SerialBuffer::new());
        let mut cpu = CPU::new();
        match bootstrap {
            Some(image) => {
                mmu.write_bootstrap_rom(image);
            },
            None => {
                mmu.unmount_bootstrap_rom();
                cpu.pc = CARTRIDGE_ENTRY;
            },
        }
        Ok(Emulator { cpu, ppu: PPU::new(), mmu, display: Display::new() })
    }

    /// Runs the machine for one machine cycle.
    pub fn cycle(&mut self) -> (res: Result<(), Fault>)
        requires
            old(self).well_formed(),
        ensures
            final(self).well_formed(),
            final(self)@ == old(self)@.cycle().machine,
            res == match old(self)@.cycle().fault {
                Some(fault) => Err::<(), Fault>(fault),
                None => Ok(()),
            },
    {
        self.mmu.tick();
        match self.cpu.step(&mut self.mmu) {
            Ok(()) => {},
            Err(fault) => {
                return Err(fault);
            },
        }
        self.ppu.step(&mut self.mmu, &mut self.display)
    }

    /// Runs the machine for `count` machine cycles, or until a fault.
    pub fn run(&mut self, count: u32) -> (res: Result<(), Fault>)
        requires
            old(self).well_formed(),
        ensures
            final(self).well_formed(),
            final(self)@ == old(self)@.run(count as nat).machine,
            res == match old(self)@.run(count as nat).fault {
                Some(fault) => Err::<(), Fault>(fault),
                None => Ok(()),
            },
    {
        let mut done: u32 = 0;
        while done < count
            invariant
                done <= count,
                self.well_formed(),
                self@.run((count - done) as nat) == old(self)@.run(count as nat),
            decreases count - done,
        {
            match self.cycle() {
                Ok(()) => {},
                Err(fault) => {
                    return Err(fault);
                },
            }
            done = done + 1;
        }
        Ok(())
    }
}

} // verus!
