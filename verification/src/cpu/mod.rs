//! The CPU: registers, instruction decoding and the micro-operation
//! pipeline.

pub mod alu;
pub mod cycles;
pub mod decode;
pub mod execute;
pub mod flags;
pub mod instruction;
pub mod laws;
pub mod micro_op;
pub mod register;
pub mod semantics;

use std::collections::VecDeque;
use vstd::prelude::*;
use crate::bits::{combine, high_byte, joined, low_byte};
use crate::fault::Fault;
use crate::memory::mmu::MMU;
use decode::advanced;
use flags::Flags;
use instruction::Instruction;
use micro_op::{models, MicroOp, MicroOpModel};
use register::{Register16, Register8, Registers};

verus! {

pub struct CPU {
    pub reg_a: u8,
    pub reg_b: u8,
    pub reg_c: u8,
    pub reg_d: u8,
    pub reg_e: u8,
    pub reg_h: u8,
    pub reg_l: u8,
    pub flags: Flags,
    pub sp: u16,
    pub pc: u16,
    /// The micro-operations that are left of the current instruction or
    /// interrupt service.
    pub pipeline: VecDeque<MicroOp>,
    pub halted: bool,
    pub stoped: bool,
}

/// The state of the CPU.
pub struct CpuView {
    pub regs: Registers,
    pub pipeline: Seq<MicroOpModel>,
    pub halted: bool,
    pub stopped: bool,
}

impl View for CPU {
    type V = CpuView;

    open spec fn view(&self) -> CpuView {
        CpuView {
            regs: Registers {
                a: self.reg_a,
                b: self.reg_b,
                c: self.reg_c,
                d: self.reg_d,
                e: self.reg_e,
                h: self.reg_h,
                l: self.reg_l,
                flags: self.flags,
                sp: self.sp,
                pc: self.pc,
            },
            pipeline: models(self.pipeline@),
            halted: self.halted,
            stopped: self.stoped,
        }
    }
}

impl CpuView {
    /// The CPU at power-on: every register zero, nothing queued, running.
    pub open spec fn initial() -> CpuView {
        CpuView {
            regs: Registers {
                a: 0,
                b: 0,
                c: 0,
                d: 0,
                e: 0,
                h: 0,
                l: 0,
                flags: Flags::none(),
                sp: 0,
                pc: 0,
            },
            pipeline: Seq::empty(),
            halted: false,
            stopped: false,
        }
    }

    pub open spec fn with_regs(self, regs: Registers) -> CpuView {
        CpuView { regs, ..self }
    }

    pub open spec fn with_pc(self, pc: u16) -> CpuView {
        CpuView { regs: Registers { pc, ..self.regs }, ..self }
    }
}

impl CPU {
    pub fn new() -> (cpu: CPU)
        ensures
            cpu@ == CpuView::initial(),
    {
        let cpu = CPU {
            reg_a: 0,
            reg_b: 0,
            reg_c: 0,
            reg_d: 0,
            reg_e: 0,
            reg_h: 0,
            reg_l: 0,
            sp: 0,
            pc: 0,
            flags: Flags::empty(),
            pipeline: VecDeque::new(),
            halted: false,
            stoped: false,
        };
        assert(cpu@.pipeline =~= Seq::empty());
        cpu
    }

    pub fn load_reg8(&self, reg: Register8) -> (value: u8)
        ensures
            value == self@.regs.load8(reg),
    {
        match reg {
            Register8::A => self.reg_a,
            Register8::B => self.reg_b,
            Register8::C => self.reg_c,
            Register8::D => self.reg_d,
            Register8::E => self.reg_e,
            Register8::H => self.reg_h,
            Register8::L => self.reg_l,
            Register8::SPHigh => high_byte(self.sp),
            Register8::SPLow => low_byte(self.sp),
            Register8::PCHigh => high_byte(self.pc),
            Register8::PCLow => low_byte(self.pc),
            Register8::Flags => self.flags.bits(),
        }
    }

    pub fn store_reg8(&mut self, reg: Register8, value: u8)
        ensures
            final(self)@ == old(self)@.with_regs(old(self)@.regs.store8(reg, value)),
    {
        match reg {
            Register8::A => self.reg_a = value,
            Register8::B => self.reg_b = value,
            Register8::C => self.reg_c = value,
            Register8::D => self.reg_d = value,
            Register8::E => self.reg_e = value,
            Register8::H => self.reg_h = value,
            Register8::L => self.reg_l = value,
            Register8::SPHigh => {
                self.sp = combine(value, low_byte(self.sp));
            },
            Register8::SPLow => {
                self.sp = combine(high_byte(self.sp), value);
            },
            Register8::PCHigh => {
                self.pc = combine(value, low_byte(self.pc));
            },
            Register8::PCLow => {
                self.pc = combine(high_byte(self.pc), value);
            },
            Register8::Flags => self.flags = Flags::from_bits_truncate(value),
        }
    }

    pub fn load_reg16(&self, reg: Register16) -> (value: u16)
        ensures
            value == self@.regs.load16(reg),
    {
        match reg {
            Register16::AF => combine(self.reg_a, self.flags.bits()),
            Register16::BC => combine(self.reg_b, self.reg_c),
            Register16::DE => combine(self.reg_d, self.reg_e),
            Register16::HL => combine(self.reg_h, self.reg_l),
            Register16::SP => self.sp,
            Register16::PC => self.pc,
        }
    }

    pub fn store_reg16(&mut self, reg: Register16, value: u16)
        ensures
            final(self)@ == old(self)@.with_regs(old(self)@.regs.store16(reg, value)),
    {
        match reg {
            Register16::AF => {
                self.reg_a = high_byte(value);
                self.flags = Flags::from_bits_truncate(low_byte(value));
            },
            Register16::BC => {
                self.reg_b = high_byte(value);
                self.reg_c = low_byte(value);
            },
            Register16::DE => {
                self.reg_d = high_byte(value);
                self.reg_e = low_byte(value);
            },
            Register16::HL => {
                self.reg_h = high_byte(value);
                self.reg_l = low_byte(value);
            },
            Register16::SP => self.sp = value,
            Register16::PC => self.pc = value,
        }
    }

    /// Reads the byte at `PC` and moves `PC` past it.
    pub fn fetch_and_advance(&mut self, mmu: &MMU) -> (byte: u8)
        requires
            mmu.well_formed(),
        ensures
            byte == mmu@.read(old(self).pc),
            final(self)@ == old(self)@.with_pc(advanced(old(self).pc, 1)),
    {
        let byte = mmu.read_memory(self.pc);
        self.pc = self.pc.wrapping_add(1);
        byte
    }

    /// Reads the 16-bit value at `PC`, low byte first, and moves `PC`
    /// past it.
    pub fn fetch_and_advance_u16(&mut self, mmu: &MMU) -> (value: u16)
        requires
            mmu.well_formed(),
        ensures
            value == joined(mmu@.read(advanced(old(self).pc, 1)), mmu@.read(old(self).pc)),
            final(self)@ == old(self)@.with_pc(advanced(old(self).pc, 2)),
    {
        let low = self.fetch_and_advance(mmu);
        let high = self.fetch_and_advance(mmu);
        combine(high, low)
    }

    /// Decodes the instruction at `PC` and moves `PC` past it.
    pub fn fetch_and_decode(&mut self, mmu: &MMU) -> (res: Result<Instruction, Fault>)
        requires
            mmu.well_formed(),
        ensures
            decode::decoded(*old(self), *final(self), mmu@, old(self).pc, res),
    {
        decode::decode_instruction(self, mmu)
    }

    /// Whether no micro-operation is queued.
    pub fn is_pipeline_empty(&self) -> (empty: bool)
        ensures
            empty == (self@.pipeline.len() == 0),
    {
        self.pipeline.len() == 0
    }
}

} // verus!
