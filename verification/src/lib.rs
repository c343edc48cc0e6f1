//! The core of a Game Boy (DMG) emulator: CPU, memory management unit,
//! picture processing unit, and the interrupt and timer controller that
//! ties them together.

pub mod bits;
pub mod interrupt;
pub mod memory;
pub mod ppu;
pub mod serial;
pub mod cpu;
pub mod display;
pub mod driver;
pub mod fault;

pub use cpu::CPU;
pub use memory::mmu::MMU;
pub use memory::Memory;
pub use ppu::{PPU, SCREEN_HEIGHT, SCREEN_WIDTH};
