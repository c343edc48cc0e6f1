//! The machine cycle of the CPU, carried out.

use vstd::prelude::*;
use super::decode::advanced;
use super::alu::{
    add_a, add_hl, add_signed_offset, and_a, decimal_adjust, decrement, increment, or_a,
    rotate_left_op, rotate_left_through_carry_op, rotate_right_op, rotate_right_through_carry_op,
    shift_left_op, shift_right_arithmetic_op, shift_right_logical_op, sub_a, swap_op, xor_a, Alu8,
};
use super::flags::Flags;
use super::instruction::{JumpCondition, PrePostOperation};
use super::micro_op::{models, Destination8Bits, MicroOp, Reg8OrIndirect, Source8bits};
use super::register::{Register16, Register8, Registers};
use super::semantics::{
    execute, execute_arithmetic, execute_bits, execute_control, execute_plain, execute_transfer,
    fetch, is_outcome, modified, poll_interrupts, prepared, service_ops, source_value, step,
    stepped, store_target, target_value,
};
use super::{CpuView, CPU};
use crate::bits::{lower_bit, raise_bit, test_bit};
use crate::fault::Fault;
use crate::memory::mmu::MMU;

verus! {

/// The model of a queue with one more micro-operation at its end.
proof fn lemma_models_push(ops: Seq<MicroOp>, op: MicroOp)
    ensures
        models(ops.push(op)) == models(ops).push(op.model()),
{
    assert(models(ops.push(op)) =~= models(ops).push(op.model()));
}

/// The model of two queues joined.
proof fn lemma_models_concat(first: Seq<MicroOp>, second: Seq<MicroOp>)
    ensures
        models(first + second) == models(first) + models(second),
{
    assert(models(first + second) =~= models(first) + models(second));
}

/// The model of a part of a queue.
proof fn lemma_models_subrange(ops: Seq<MicroOp>, from: int, to: int)
    requires
        0 <= from <= to <= ops.len(),
    ensures
        models(ops.subrange(from, to)) == models(ops).subrange(from, to),
{
    assert(models(ops.subrange(from, to)) =~= models(ops).subrange(from, to));
}

/// The address after `value`.
fn successor(value: u16) -> (next: u16)
    ensures
        next == advanced(value, 1),
{
    value.wrapping_add(1)
}

/// The address before `value`.
fn predecessor(value: u16) -> (previous: u16)
    ensures
        previous == advanced(value, -1),
{
    value.wrapping_sub(1)
}

impl CPU {
    /// Puts `ops` at the end of the queue.
    fn enqueue(&mut self, ops: Vec<MicroOp>)
        ensures
            final(self)@ == (CpuView {
                pipeline: old(self)@.pipeline + models(ops@),
                ..old(self)@
            }),
    {
        let ghost before = self@;
        let ghost all = ops@;
        let mut ops = ops;
        proof {
            assert(models(self.pipeline@) + models(ops@) =~= before.pipeline + models(all));
        }
        while ops.len() > 0
            invariant
                self@ == (CpuView { pipeline: self@.pipeline, ..before }),
                self@.pipeline + models(ops@) == before.pipeline + models(all),
            decreases ops@.len(),
        {
            let ghost queue = self.pipeline@;
            let ghost rest = ops@;
            let op = ops.remove(0);
            self.pipeline.push_back(op);
            proof {
                lemma_models_push(queue, op);
                assert(models(queue).push(op.model()) + models(ops@) =~= models(queue) + models(
                    rest,
                ));
            }
        }
        proof {
            assert(self@.pipeline + models(ops@) =~= self@.pipeline);
        }
    }

    /// Puts `ops` at the head of the queue.
    fn prepend(&mut self, ops: Vec<MicroOp>)
        ensures
            final(self)@ == (CpuView {
                pipeline: models(ops@) + old(self)@.pipeline,
                ..old(self)@
            }),
    {
        let ghost before = self@;
        let ghost all = ops@;
        let mut ops = ops;
        proof {
            assert(models(ops@) + self@.pipeline =~= models(all) + before.pipeline);
        }
        while ops.len() > 0
            invariant
                self@ == (CpuView { pipeline: self@.pipeline, ..before }),
                models(ops@) + self@.pipeline == models(all) + before.pipeline,
            decreases ops@.len(),
        {
            let ghost queue = self.pipeline@;
            let ghost rest = ops@;
            let popped = ops.pop();
            match popped {
                Some(op) => {
                    self.pipeline.push_front(op);
                    proof {
                        lemma_models_concat(seq![op], queue);
                        assert(models(seq![op]) =~= seq![op.model()]);
                        assert(models(ops@) + (seq![op.model()] + models(queue)) =~= models(rest)
                            + models(queue));
                    }
                },
                None => {},
            }
        }
        proof {
            assert(models(ops@) + self@.pipeline =~= self@.pipeline);
        }
    }

    fn set_flags(&mut self, flags: Flags)
        ensures
            final(self)@ == old(self)@.with_regs(Registers { flags, ..old(self)@.regs }),
    {
        self.flags = flags;
    }

    fn run_pre_post_op(&mut self, reg16: Register16, op: Option<PrePostOperation>)
        ensures
            final(self)@ == old(self)@.with_regs(stepped(old(self)@.regs, reg16, op)),
    {
        match op {
            Some(PrePostOperation::Dec) => {
                let value = predecessor(self.load_reg16(reg16));
                self.store_reg16(reg16, value)
            },
            Some(PrePostOperation::Inc) => {
                let value = successor(self.load_reg16(reg16));
                self.store_reg16(reg16, value)
            },
            None => {},
        }
    }

    fn source_8bits_to_value(&self, mmu: &MMU, src: Source8bits) -> (value: u8)
        requires
            mmu.well_formed(),
        ensures
            value == source_value(self@.regs, mmu@, src),
    {
        match src {
            Source8bits::Register(reg) => self.load_reg8(reg),
            Source8bits::Literal(lit) => lit,
            Source8bits::Indirect(addr) => mmu.read_memory(self.load_reg16(addr)),
            Source8bits::Address(addr) => mmu.read_memory(addr),
            Source8bits::ZeroPageOffsetReg8(offset) => mmu.read_memory(
                0xFF00 + self.load_reg8(offset) as u16,
            ),
        }
    }

    fn load_reg8_or_indirect(&self, mmu: &MMU, op: Reg8OrIndirect) -> (value: u8)
        requires
            mmu.well_formed(),
        ensures
            value == target_value(self@.regs, mmu@, op),
    {
        match op {
            Reg8OrIndirect::Reg8(reg) => self.load_reg8(reg),
            Reg8OrIndirect::Indirect(addr) => mmu.read_memory(self.load_reg16(addr)),
        }
    }

    fn store_reg8_or_indirect(&mut self, mmu: &mut MMU, op: Reg8OrIndirect, value: u8) -> (res:
        Result<(), Fault>)
        requires
            old(mmu).well_formed(),
        ensures
            final(mmu).well_formed(),
            is_outcome(
                final(self)@,
                final(mmu)@,
                res,
                store_target(old(self)@, old(mmu)@, op, value),
            ),
    {
        match op {
            Reg8OrIndirect::Reg8(reg) => {
                self.store_reg8(reg, value);
                Ok(())
            },
            Reg8OrIndirect::Indirect(addr) => mmu.write_memory(self.load_reg16(addr), value),
        }
    }

    /// Stores the value of `result` in `target` and leaves its flags.
    fn apply(&mut self, mmu: &mut MMU, target: Reg8OrIndirect, result: Alu8) -> (res: Result<
        (),
        Fault,
    >)
        requires
            old(mmu).well_formed(),
        ensures
            final(mmu).well_formed(),
            is_outcome(
                final(self)@,
                final(mmu)@,
                res,
                modified(old(self)@, old(mmu)@, target, result),
            ),
    {
        let res = self.store_reg8_or_indirect(mmu, target, result.value);
        self.set_flags(result.flags);
        res
    }

    /// Leaves `result` in `A` and the flags.
    fn accumulate(&mut self, result: Alu8)
        ensures
            final(self)@ == old(self)@.with_regs(
                Registers { a: result.value, flags: result.flags, ..old(self)@.regs },
            ),
    {
        self.reg_a = result.value;
        self.flags = result.flags;
    }

    /// Polls the interrupt controller.
    fn handle_interrupts(&mut self, mmu: &mut MMU)
        requires
            old(mmu).well_formed(),
        ensures
            final(mmu).well_formed(),
            is_outcome(
                final(self)@,
                final(mmu)@,
                Ok(()),
                poll_interrupts(old(self)@, old(mmu)@),
            ),
    {
        if mmu.interrupt_controller.handle_new_interrupt() {
            self.halted = false;
            self.stoped = false;
        }
        if let Some(kind) = mmu.interrupt_controller.is_interrupt_waiting() {
            mmu.interrupt_controller.acknowledge_interrupt(kind);
            let addr = kind.handler_address();
            let micro_ops = vec![
                MicroOp::NOP,
                MicroOp::NOP,
                MicroOp::WriteMem {
                    addr: Register16::SP,
                    reg: Register8::PCHigh,
                    pre_op: Some(PrePostOperation::Dec),
                    post_op: None,
                },
                MicroOp::WriteMem {
                    addr: Register16::SP,
                    reg: Register8::PCLow,
                    pre_op: Some(PrePostOperation::Dec),
                    post_op: None,
                },
                MicroOp::LoadReg16Lit { reg: Register16::PC, literal: addr },
            ];
            proof {
                assert(models(micro_ops@) =~= service_ops(kind));
            }
            self.enqueue(micro_ops);
        }
    }

    /// Decodes the instruction at `PC` and queues its micro-operations.
    fn decode_next_instruction(&mut self, mmu: &MMU) -> (res: Result<(), Fault>)
        requires
            mmu.well_formed(),
        ensures
            is_outcome(final(self)@, mmu@, res, fetch(old(self)@, mmu@)),
    {
        match self.fetch_and_decode(mmu) {
            Ok(instruction) => {
                self.enqueue(instruction.to_micro_ops());
                Ok(())
            },
            Err(fault) => Err(fault),
        }
    }

    /// Advances the timers and makes sure that the queue holds what the
    /// CPU has to do next.
    fn prepare(&mut self, mmu: &mut MMU) -> (res: Result<(), Fault>)
        requires
            old(mmu).well_formed(),
        ensures
            final(mmu).well_formed(),
            is_outcome(final(self)@, final(mmu)@, res, prepared(old(self)@, old(mmu)@)),
    {
        reveal(prepared);
        if !self.stoped {
            mmu.interrupt_controller.timer_step(4);
        }
        if self.pipeline.len() == 0 {
            self.handle_interrupts(mmu);
        }
        if self.pipeline.len() == 0 && !self.halted && !self.stoped {
            self.decode_next_instruction(mmu)
        } else {
            Ok(())
        }
    }

    /// Runs the CPU for one machine cycle.
    pub fn step(&mut self, mmu: &mut MMU) -> (res: Result<(), Fault>)
        requires
            old(mmu).well_formed(),
        ensures
            final(mmu).well_formed(),
            is_outcome(final(self)@, final(mmu)@, res, step(old(self)@, old(mmu)@)),
            final(self)@.regs.load8(Register8::Flags) % 16 == 0,
    {
        match self.prepare(mmu) {
            Ok(()) => {},
            Err(fault) => {
                return Err(fault);
            },
        }
        let ghost queue = self.pipeline@;
        match self.pipeline.pop_front() {
            Some(micro_op) => {
                proof {
                    lemma_models_subrange(queue, 1, queue.len() as int);
                    assert(models(queue).subrange(1, queue.len() as int) =~= models(
                        queue,
                    ).drop_first());
                }
                self.execute(mmu, micro_op)
            },
            None => Ok(()),
        }
    }

    /// Carries out a micro-operation that has been taken off the queue.
    fn execute(&mut self, mmu: &mut MMU, micro_op: MicroOp) -> (res: Result<(), Fault>)
        requires
            old(mmu).well_formed(),
        ensures
            final(mmu).well_formed(),
            is_outcome(
                final(self)@,
                final(mmu)@,
                res,
                execute(old(self)@, old(mmu)@, micro_op.model()),
            ),
    {
        match micro_op {
            MicroOp::CheckFlags { condition, true_ops, false_ops } => {
                let cond_true = match condition {
                    JumpCondition::NonZero => !self.flags.zero,
                    JumpCondition::Zero => self.flags.zero,
                    JumpCondition::NonCarry => !self.flags.carry,
                    JumpCondition::Carry => self.flags.carry,
                };
                proof {
                    let model = micro_op.model();
                    assert(model->taken =~= models(true_ops@));
                    assert(model->skipped =~= models(false_ops@));
                }
                if cond_true {
                    self.prepend(true_ops);
                } else {
                    self.prepend(false_ops);
                }
                Ok(())
            },
            MicroOp::NOP
            | MicroOp::Move8Bits { .. }
            | MicroOp::Move16Bits { .. }
            | MicroOp::LoadReg16Lit { .. }
            | MicroOp::WriteMem { .. }
            | MicroOp::WriteMemZeroPage { .. }
            | MicroOp::ReadMem { .. }
            | MicroOp::IncReg16 { .. }
            | MicroOp::DecReg16 { .. } => self.execute_transfer(mmu, &micro_op),
            MicroOp::AndA { .. }
            | MicroOp::OrA { .. }
            | MicroOp::XorA { .. }
            | MicroOp::AddA { .. }
            | MicroOp::AdcA { .. }
            | MicroOp::SubA { .. }
            | MicroOp::SbcA { .. }
            | MicroOp::CompareA { .. }
            | MicroOp::AddHL { .. }
            | MicroOp::AddOffsetToReg16IntoReg16 { .. }
            | MicroOp::DAA
            | MicroOp::ComplementA
            | MicroOp::Inc { .. }
            | MicroOp::Dec { .. } => self.execute_arithmetic(mmu, &micro_op),
            MicroOp::BitTest { .. }
            | MicroOp::ResetBit { .. }
            | MicroOp::SetBit { .. }
            | MicroOp::RotateLeftThroughCarry { .. }
            | MicroOp::RotateRightThroughCarry { .. }
            | MicroOp::RotateLeft { .. }
            | MicroOp::RotateRight { .. }
            | MicroOp::ShiftLeftIntoCarry { .. }
            | MicroOp::ShiftRightWithZeroIntoCarry { .. }
            | MicroOp::ShiftRightWithSignIntoCarry { .. }
            | MicroOp::SwapReg8 { .. } => self.execute_bits(mmu, &micro_op),
            MicroOp::SetCarryFlag
            | MicroOp::ComplementCarryFlag
            | MicroOp::EnableInterrupts
            | MicroOp::DisableInterrupts
            | MicroOp::Halt
            | MicroOp::Stop => self.execute_control(mmu, &micro_op),
        }
    }

    /// Loads, stores and 16-bit counting.
    fn execute_transfer(&mut self, mmu: &mut MMU, micro_op: &MicroOp) -> (res: Result<(), Fault>)
        requires
            old(mmu).well_formed(),
            micro_op.is_transfer(),
        ensures
            final(mmu).well_formed(),
            is_outcome(
                final(self)@,
                final(mmu)@,
                res,
                execute_plain(old(self)@, old(mmu)@, *micro_op),
            ),
    {
        reveal(execute_transfer);
        match micro_op {
            MicroOp::Move8Bits { destination, source } => {
                let value = self.source_8bits_to_value(mmu, *source);
                match destination {
                    Destination8Bits::Register(reg) => {
                        self.store_reg8(*reg, value);
                        Ok(())
                    },
                    Destination8Bits::Indirect(addr) => mmu.write_memory(
                        self.load_reg16(*addr),
                        value,
                    ),
                    Destination8Bits::Address(addr) => mmu.write_memory(*addr, value),
                }
            },
            MicroOp::Move16Bits { destination, source } => {
                let value = self.load_reg16(*source);
                self.store_reg16(*destination, value);
                Ok(())
            },
            MicroOp::LoadReg16Lit { reg, literal } => {
                self.store_reg16(*reg, *literal);
                Ok(())
            },
            MicroOp::WriteMem { addr, reg, pre_op, post_op } => {
                self.run_pre_post_op(*addr, *pre_op);
                let addr_value = self.load_reg16(*addr);
                let res = mmu.write_memory(addr_value, self.load_reg8(*reg));
                self.run_pre_post_op(*addr, *post_op);
                res
            },
            MicroOp::WriteMemZeroPage { reg_offset, reg } => {
                let addr_value: u16 = 0xFF00 + self.load_reg8(*reg_offset) as u16;
                mmu.write_memory(addr_value, self.load_reg8(*reg))
            },
            MicroOp::ReadMem { reg, addr, post_op } => {
                let addr_value = self.load_reg16(*addr);
                let mem_value = mmu.read_memory(addr_value);
                self.store_reg8(*reg, mem_value);
                self.run_pre_post_op(*addr, *post_op);
                Ok(())
            },
            MicroOp::IncReg16 { reg } => {
                self.run_pre_post_op(*reg, Some(PrePostOperation::Inc));
                Ok(())
            },
            MicroOp::DecReg16 { reg } => {
                self.run_pre_post_op(*reg, Some(PrePostOperation::Dec));
                Ok(())
            },
            _ => Ok(()),
        }
    }

    /// Arithmetic and logic.
    fn execute_arithmetic(&mut self, mmu: &mut MMU, micro_op: &MicroOp) -> (res: Result<
        (),
        Fault,
    >)
        requires
            old(mmu).well_formed(),
            micro_op.is_arithmetic(),
        ensures
            final(mmu).well_formed(),
            is_outcome(
                final(self)@,
                final(mmu)@,
                res,
                execute_plain(old(self)@, old(mmu)@, *micro_op),
            ),
    {
        reveal(execute_arithmetic);
        match micro_op {
            MicroOp::AndA { rhs } => {
                let value = self.source_8bits_to_value(mmu, *rhs);
                self.accumulate(and_a(self.reg_a, value));
                Ok(())
            },
            MicroOp::OrA { rhs } => {
                let value = self.source_8bits_to_value(mmu, *rhs);
                self.accumulate(or_a(self.reg_a, value));
                Ok(())
            },
            MicroOp::XorA { rhs } => {
                let value = self.source_8bits_to_value(mmu, *rhs);
                self.accumulate(xor_a(self.reg_a, value));
                Ok(())
            },
            MicroOp::AddA { rhs } => {
                let value = self.source_8bits_to_value(mmu, *rhs);
                self.accumulate(add_a(self.reg_a, value, false));
                Ok(())
            },
            MicroOp::AdcA { rhs } => {
                let value = self.source_8bits_to_value(mmu, *rhs);
                self.accumulate(add_a(self.reg_a, value, self.flags.carry));
                Ok(())
            },
            MicroOp::SubA { rhs } => {
                let value = self.source_8bits_to_value(mmu, *rhs);
                self.accumulate(sub_a(self.reg_a, value, false));
                Ok(())
            },
            MicroOp::SbcA { rhs } => {
                let value = self.source_8bits_to_value(mmu, *rhs);
                self.accumulate(sub_a(self.reg_a, value, self.flags.carry));
                Ok(())
            },
            MicroOp::CompareA { rhs } => {
                let value = self.source_8bits_to_value(mmu, *rhs);
                self.set_flags(sub_a(self.reg_a, value, false).flags);
                Ok(())
            },
            MicroOp::AddHL { rhs } => {
                let hl_value = self.load_reg16(Register16::HL);
                let rhs_value = self.load_reg16(*rhs);
                let sum = add_hl(hl_value, rhs_value, self.flags);
                self.store_reg16(Register16::HL, sum.value);
                self.set_flags(sum.flags);
                Ok(())
            },
            MicroOp::AddOffsetToReg16IntoReg16 { dest, rhs, offset, update_flags } => {
                let value = self.load_reg16(*rhs);
                let sum = add_signed_offset(value, *offset);
                self.store_reg16(*dest, sum.value);
                if *update_flags {
                    self.set_flags(sum.flags);
                }
                Ok(())
            },
            MicroOp::DAA => {
                self.accumulate(decimal_adjust(self.reg_a, self.flags));
                Ok(())
            },
            MicroOp::ComplementA => {
                self.reg_a = 0xFF - self.reg_a;
                self.flags.negative = true;
                self.flags.half_carry = true;
                Ok(())
            },
            MicroOp::Inc { reg } => {
                let value = self.load_reg8_or_indirect(mmu, *reg);
                self.apply(mmu, *reg, increment(value, self.flags))
            },
            MicroOp::Dec { reg } => {
                let value = self.load_reg8_or_indirect(mmu, *reg);
                self.apply(mmu, *reg, decrement(value, self.flags))
            },
            _ => Ok(()),
        }
    }

    /// Single bits, rotations and shifts.
    fn execute_bits(&mut self, mmu: &mut MMU, micro_op: &MicroOp) -> (res: Result<(), Fault>)
        requires
            old(mmu).well_formed(),
            micro_op.is_bits(),
        ensures
            final(mmu).well_formed(),
            is_outcome(
                final(self)@,
                final(mmu)@,
                res,
                execute_plain(old(self)@, old(mmu)@, *micro_op),
            ),
    {
        reveal(execute_bits);
        match micro_op {
            MicroOp::BitTest { reg, bit } => {
                let value = self.load_reg8_or_indirect(mmu, *reg);
                let is_set = *bit < 8 && test_bit(value, *bit);
                self.set_flags(
                    Flags {
                        zero: !is_set,
                        negative: false,
                        half_carry: true,
                        carry: self.flags.carry,
                    },
                );
                Ok(())
            },
            MicroOp::ResetBit { reg, bit } => {
                let value = self.load_reg8_or_indirect(mmu, *reg);
                let res: u8 = if *bit < 8 { lower_bit(value, *bit) } else { value };
                self.store_reg8_or_indirect(mmu, *reg, res)
            },
            MicroOp::SetBit { reg, bit } => {
                let value = self.load_reg8_or_indirect(mmu, *reg);
                let res: u8 = if *bit < 8 { raise_bit(value, *bit) } else { value };
                self.store_reg8_or_indirect(mmu, *reg, res)
            },
            MicroOp::RotateLeftThroughCarry { reg, set_zero } => {
                let value = self.load_reg8_or_indirect(mmu, *reg);
                self.apply(mmu, *reg, rotate_left_through_carry_op(value, self.flags, *set_zero))
            },
            MicroOp::RotateRightThroughCarry { reg, set_zero } => {
                let value = self.load_reg8_or_indirect(mmu, *reg);
                self.apply(mmu, *reg, rotate_right_through_carry_op(value, self.flags, *set_zero))
            },
            MicroOp::RotateLeft { reg, set_zero } => {
                let value = self.load_reg8_or_indirect(mmu, *reg);
                self.apply(mmu, *reg, rotate_left_op(value, *set_zero))
            },
            MicroOp::RotateRight { reg, set_zero } => {
                let value = self.load_reg8_or_indirect(mmu, *reg);
                self.apply(mmu, *reg, rotate_right_op(value, *set_zero))
            },
            MicroOp::ShiftLeftIntoCarry { reg } => {
                let value = self.load_reg8_or_indirect(mmu, *reg);
                self.apply(mmu, *reg, shift_left_op(value))
            },
            MicroOp::ShiftRightWithZeroIntoCarry { reg } => {
                let value = self.load_reg8_or_indirect(mmu, *reg);
                self.apply(mmu, *reg, shift_right_logical_op(value))
            },
            MicroOp::ShiftRightWithSignIntoCarry { reg } => {
                let value = self.load_reg8_or_indirect(mmu, *reg);
                self.apply(mmu, *reg, shift_right_arithmetic_op(value))
            },
            MicroOp::SwapReg8 { reg } => {
                let value = self.load_reg8_or_indirect(mmu, *reg);
                self.apply(mmu, *reg, swap_op(value))
            },
            _ => Ok(()),
        }
    }

    /// The carry flag, the master interrupt enable, HALT and STOP.
    fn execute_control(&mut self, mmu: &mut MMU, micro_op: &MicroOp) -> (res: Result<(), Fault>)
        requires
            old(mmu).well_formed(),
            !micro_op.is_transfer() && !micro_op.is_arithmetic() && !micro_op.is_bits()
                && !(micro_op is CheckFlags),
        ensures
            final(mmu).well_formed(),
            is_outcome(
                final(self)@,
                final(mmu)@,
                res,
                execute_plain(old(self)@, old(mmu)@, *micro_op),
            ),
    {
        reveal(execute_control);
        match micro_op {
            MicroOp::SetCarryFlag => {
                self.set_flags(
                    Flags {
                        zero: self.flags.zero,
                        negative: false,
                        half_carry: false,
                        carry: true,
                    },
                );
            },
            MicroOp::ComplementCarryFlag => {
                self.set_flags(
                    Flags {
                        zero: self.flags.zero,
                        negative: false,
                        half_carry: false,
                        carry: !self.flags.carry,
                    },
                );
            },
            MicroOp::EnableInterrupts => {
                mmu.interrupt_controller.master_enable = true;
            },
            MicroOp::DisableInterrupts => {
                mmu.interrupt_controller.master_enable = false;
            },
            MicroOp::Halt => {
                self.halted = true;
            },
            MicroOp::Stop => {
                self.stoped = true;
            },
            _ => {},
        }
        Ok(())
    }
}

} // verus!
