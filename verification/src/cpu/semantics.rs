//! What the CPU does in one machine cycle, as a function from its state
//! and the state of memory to the next states.

use vstd::prelude::*;
use super::alu::{
    add16, add8, add_offset, and8, daa, dec8, inc8, or8, rotate_left, rotate_left_through_carry,
    rotate_right, rotate_right_through_carry, shift_left, shift_right_arithmetic,
    shift_right_logical, sub8, swap, xor8, Alu8,
};
use super::decode::{advanced, decode_at, instruction_length};
use super::flags::Flags;
use super::instruction::{call_ops, JumpCondition, PrePostOperation};
use super::micro_op::{
    delayed, plain, Destination8Bits, MicroOp, MicroOpModel, Reg8OrIndirect, Source8bits,
};
use super::register::{Register16, Registers};
use super::CpuView;
use crate::bits::{bit_set, lowered, raised};
use crate::fault::Fault;
use crate::interrupt::{IntKind, InterruptController};
use crate::memory::mmu::MmuView;

verus! {

/// The states that a step leaves, and the fault that it met, if any.
pub struct Outcome {
    pub cpu: CpuView,
    pub mmu: MmuView,
    pub fault: Option<Fault>,
}

/// The outcome of a step that met no fault.
pub open spec fn fine(cpu: CpuView, mmu: MmuView) -> Outcome {
    Outcome { cpu, mmu, fault: None }
}

/// The outcome of a step that wrote `value` at `addr`.
pub open spec fn written(cpu: CpuView, mmu: MmuView, addr: u16, value: u8) -> Outcome {
    Outcome { cpu, mmu: mmu.write(addr, value), fault: mmu.write_fault(addr, value) }
}

/// The value of an 8-bit operand.
pub open spec fn source_value(regs: Registers, mmu: MmuView, source: Source8bits) -> u8 {
    match source {
        Source8bits::Register(reg) => regs.load8(reg),
        Source8bits::Literal(literal) => literal,
        Source8bits::Indirect(addr) => mmu.read(regs.load16(addr)),
        Source8bits::Address(addr) => mmu.read(addr),
        Source8bits::ZeroPageOffsetReg8(offset) => mmu.read((0xFF00 + regs.load8(offset)) as u16),
    }
}

/// The value of a register or of the byte that a register pair points at.
pub open spec fn target_value(regs: Registers, mmu: MmuView, target: Reg8OrIndirect) -> u8 {
    match target {
        Reg8OrIndirect::Reg8(reg) => regs.load8(reg),
        Reg8OrIndirect::Indirect(addr) => mmu.read(regs.load16(addr)),
    }
}

/// The outcome of storing `value` in a register or in the byte that a
/// register pair points at.
pub open spec fn store_target(
    cpu: CpuView,
    mmu: MmuView,
    target: Reg8OrIndirect,
    value: u8,
) -> Outcome {
    match target {
        Reg8OrIndirect::Reg8(reg) => fine(cpu.with_regs(cpu.regs.store8(reg, value)), mmu),
        Reg8OrIndirect::Indirect(addr) => written(cpu, mmu, cpu.regs.load16(addr), value),
    }
}

/// The outcome of an operation that puts `result.value` back where its
/// operand came from and leaves `result.flags`.
pub open spec fn modified(
    cpu: CpuView,
    mmu: MmuView,
    target: Reg8OrIndirect,
    result: Alu8,
) -> Outcome {
    let stored = store_target(cpu, mmu, target, result.value);
    Outcome {
        cpu: stored.cpu.with_regs(Registers { flags: result.flags, ..stored.cpu.regs }),
        ..stored
    }
}

/// The outcome of an operation that leaves `result` in `A` and the flags.
pub open spec fn accumulated(cpu: CpuView, mmu: MmuView, result: Alu8) -> Outcome {
    fine(cpu.with_regs(Registers { a: result.value, flags: result.flags, ..cpu.regs }), mmu)
}

/// The registers after a register pair has been stepped up or down, or
/// left alone. The flags are never touched.
pub open spec fn stepped(regs: Registers, reg: Register16, op: Option<PrePostOperation>) -> Registers {
    match op {
        Some(PrePostOperation::Inc) => regs.store16(reg, advanced(regs.load16(reg), 1)),
        Some(PrePostOperation::Dec) => regs.store16(reg, advanced(regs.load16(reg), -1)),
        None => regs,
    }
}

pub open spec fn condition_holds(flags: Flags, condition: JumpCondition) -> bool {
    match condition {
        JumpCondition::NonZero => !flags.zero,
        JumpCondition::Zero => flags.zero,
        JumpCondition::NonCarry => !flags.carry,
        JumpCondition::Carry => flags.carry,
    }
}

/// The memory with the master interrupt enable set to `enabled`.
pub open spec fn with_master_enable(mmu: MmuView, enabled: bool) -> MmuView {
    MmuView {
        interrupt_controller: InterruptController {
            master_enable: enabled,
            ..mmu.interrupt_controller
        },
        ..mmu
    }
}

/// The outcome of a load, a store or a 16-bit count.
#[verifier::opaque]
pub open spec fn execute_transfer(cpu: CpuView, mmu: MmuView, op: MicroOp) -> Outcome {
    let regs = cpu.regs;
    match op {
        MicroOp::NOP => fine(cpu, mmu),
        MicroOp::Move8Bits { destination, source } => {
            let value = source_value(regs, mmu, source);
            match destination {
                Destination8Bits::Register(reg) => fine(
                    cpu.with_regs(regs.store8(reg, value)),
                    mmu,
                ),
                Destination8Bits::Indirect(addr) => written(cpu, mmu, regs.load16(addr), value),
                Destination8Bits::Address(addr) => written(cpu, mmu, addr, value),
            }
        },
        MicroOp::Move16Bits { destination, source } => fine(
            cpu.with_regs(regs.store16(destination, regs.load16(source))),
            mmu,
        ),
        MicroOp::LoadReg16Lit { reg, literal } => fine(
            cpu.with_regs(regs.store16(reg, literal)),
            mmu,
        ),
        MicroOp::WriteMem { addr, reg, pre_op, post_op } => {
            let before = stepped(regs, addr, pre_op);
            let stored = written(cpu, mmu, before.load16(addr), before.load8(reg));
            Outcome { cpu: cpu.with_regs(stepped(before, addr, post_op)), ..stored }
        },
        MicroOp::WriteMemZeroPage { reg_offset, reg } => written(
            cpu,
            mmu,
            (0xFF00 + regs.load8(reg_offset)) as u16,
            regs.load8(reg),
        ),
        MicroOp::ReadMem { reg, addr, post_op } => fine(
            cpu.with_regs(
                stepped(regs.store8(reg, mmu.read(regs.load16(addr))), addr, post_op),
            ),
            mmu,
        ),
        MicroOp::IncReg16 { reg } => fine(
            cpu.with_regs(stepped(regs, reg, Some(PrePostOperation::Inc))),
            mmu,
        ),
        MicroOp::DecReg16 { reg } => fine(
            cpu.with_regs(stepped(regs, reg, Some(PrePostOperation::Dec))),
            mmu,
        ),
        _ => fine(cpu, mmu),
    }
}

/// The outcome of an arithmetic or logic operation.
#[verifier::opaque]
pub open spec fn execute_arithmetic(cpu: CpuView, mmu: MmuView, op: MicroOp) -> Outcome {
    let regs = cpu.regs;
    match op {
        MicroOp::AndA { rhs } => accumulated(cpu, mmu, and8(regs.a, source_value(regs, mmu, rhs))),
        MicroOp::OrA { rhs } => accumulated(cpu, mmu, or8(regs.a, source_value(regs, mmu, rhs))),
        MicroOp::XorA { rhs } => accumulated(cpu, mmu, xor8(regs.a, source_value(regs, mmu, rhs))),
        MicroOp::AddA { rhs } => accumulated(
            cpu,
            mmu,
            add8(regs.a, source_value(regs, mmu, rhs), false),
        ),
        MicroOp::AdcA { rhs } => accumulated(
            cpu,
            mmu,
            add8(regs.a, source_value(regs, mmu, rhs), regs.flags.carry),
        ),
        MicroOp::SubA { rhs } => accumulated(
            cpu,
            mmu,
            sub8(regs.a, source_value(regs, mmu, rhs), false),
        ),
        MicroOp::SbcA { rhs } => accumulated(
            cpu,
            mmu,
            sub8(regs.a, source_value(regs, mmu, rhs), regs.flags.carry),
        ),
        MicroOp::CompareA { rhs } => fine(
            cpu.with_regs(
                Registers {
                    flags: sub8(regs.a, source_value(regs, mmu, rhs), false).flags,
                    ..regs
                },
            ),
            mmu,
        ),
        MicroOp::AddHL { rhs } => {
            let sum = add16(regs.load16(Register16::HL), regs.load16(rhs), regs.flags);
            fine(
                cpu.with_regs(
                    Registers { flags: sum.flags, ..regs.store16(Register16::HL, sum.value) },
                ),
                mmu,
            )
        },
        MicroOp::AddOffsetToReg16IntoReg16 { dest, rhs, offset, update_flags } => {
            let sum = add_offset(regs.load16(rhs), offset);
            let stored = regs.store16(dest, sum.value);
            fine(
                cpu.with_regs(
                    if update_flags {
                        Registers { flags: sum.flags, ..stored }
                    } else {
                        stored
                    },
                ),
                mmu,
            )
        },
        MicroOp::DAA => accumulated(cpu, mmu, daa(regs.a, regs.flags)),
        MicroOp::ComplementA => fine(
            cpu.with_regs(
                Registers {
                    a: (255 - regs.a) as u8,
                    flags: Flags { negative: true, half_carry: true, ..regs.flags },
                    ..regs
                },
            ),
            mmu,
        ),
        MicroOp::Inc { reg } => modified(
            cpu,
            mmu,
            reg,
            inc8(target_value(regs, mmu, reg), regs.flags),
        ),
        MicroOp::Dec { reg } => modified(
            cpu,
            mmu,
            reg,
            dec8(target_value(regs, mmu, reg), regs.flags),
        ),
        _ => fine(cpu, mmu),
    }
}

/// The outcome of a bit operation, a rotation or a shift.
#[verifier::opaque]
pub open spec fn execute_bits(cpu: CpuView, mmu: MmuView, op: MicroOp) -> Outcome {
    let regs = cpu.regs;
    match op {
        MicroOp::BitTest { reg, bit } => fine(
            cpu.with_regs(
                Registers {
                    flags: Flags {
                        zero: !bit_set(target_value(regs, mmu, reg), bit),
                        negative: false,
                        half_carry: true,
                        carry: regs.flags.carry,
                    },
                    ..regs
                },
            ),
            mmu,
        ),
        MicroOp::ResetBit { reg, bit } => {
            let value = target_value(regs, mmu, reg);
            store_target(cpu, mmu, reg, if bit < 8 { lowered(value, bit) } else { value })
        },
        MicroOp::SetBit { reg, bit } => {
            let value = target_value(regs, mmu, reg);
            store_target(cpu, mmu, reg, if bit < 8 { raised(value, bit) } else { value })
        },
        MicroOp::RotateLeftThroughCarry { reg, set_zero } => modified(
            cpu,
            mmu,
            reg,
            rotate_left_through_carry(target_value(regs, mmu, reg), regs.flags, set_zero),
        ),
        MicroOp::RotateRightThroughCarry { reg, set_zero } => modified(
            cpu,
            mmu,
            reg,
            rotate_right_through_carry(target_value(regs, mmu, reg), regs.flags, set_zero),
        ),
        MicroOp::RotateLeft { reg, set_zero } => modified(
            cpu,
            mmu,
            reg,
            rotate_left(target_value(regs, mmu, reg), set_zero),
        ),
        MicroOp::RotateRight { reg, set_zero } => modified(
            cpu,
            mmu,
            reg,
            rotate_right(target_value(regs, mmu, reg), set_zero),
        ),
        MicroOp::ShiftLeftIntoCarry { reg } => modified(
            cpu,
            mmu,
            reg,
            shift_left(target_value(regs, mmu, reg)),
        ),
        MicroOp::ShiftRightWithZeroIntoCarry { reg } => modified(
            cpu,
            mmu,
            reg,
            shift_right_logical(target_value(regs, mmu, reg)),
        ),
        MicroOp::ShiftRightWithSignIntoCarry { reg } => modified(
            cpu,
            mmu,
            reg,
            shift_right_arithmetic(target_value(regs, mmu, reg)),
        ),
        MicroOp::SwapReg8 { reg } => modified(cpu, mmu, reg, swap(target_value(regs, mmu, reg))),
        _ => fine(cpu, mmu),
    }
}

/// The outcome of an operation on the carry flag, the master interrupt enable, HALT or STOP.
#[verifier::opaque]
pub open spec fn execute_control(cpu: CpuView, mmu: MmuView, op: MicroOp) -> Outcome {
    let regs = cpu.regs;
    match op {
        MicroOp::SetCarryFlag => fine(
            cpu.with_regs(
                Registers {
                    flags: Flags { negative: false, half_carry: false, carry: true, ..regs.flags },
                    ..regs
                },
            ),
            mmu,
        ),
        MicroOp::ComplementCarryFlag => fine(
            cpu.with_regs(
                Registers {
                    flags: Flags {
                        negative: false,
                        half_carry: false,
                        carry: !regs.flags.carry,
                        ..regs.flags
                    },
                    ..regs
                },
            ),
            mmu,
        ),
        MicroOp::EnableInterrupts => fine(cpu, with_master_enable(mmu, true)),
        MicroOp::DisableInterrupts => fine(cpu, with_master_enable(mmu, false)),
        MicroOp::Halt => fine(CpuView { halted: true, ..cpu }, mmu),
        MicroOp::Stop => fine(CpuView { stopped: true, ..cpu }, mmu),

        _ => fine(cpu, mmu),
    }
}

/// The outcome of a micro-operation that does not branch.
pub open spec fn execute_plain(cpu: CpuView, mmu: MmuView, op: MicroOp) -> Outcome {
    if op.is_transfer() {
        execute_transfer(cpu, mmu, op)
    } else if op.is_arithmetic() {
        execute_arithmetic(cpu, mmu, op)
    } else if op.is_bits() {
        execute_bits(cpu, mmu, op)
    } else {
        execute_control(cpu, mmu, op)
    }
}

/// The outcome of the micro-operation `op`, taken off the queue of `cpu`
/// already. A branch puts one of its two sequences at the head of the
/// queue and changes nothing else.
pub open spec fn execute(cpu: CpuView, mmu: MmuView, op: MicroOpModel) -> Outcome {
    match op {
        MicroOpModel::Plain(plain_op) => execute_plain(cpu, mmu, plain_op),
        MicroOpModel::Branch { condition, taken, skipped } => fine(
            CpuView {
                pipeline: if condition_holds(cpu.regs.flags, condition) {
                    taken + cpu.pipeline
                } else {
                    skipped + cpu.pipeline
                },
                ..cpu
            },
            mmu,
        ),
    }
}

/// The five machine cycles of an interrupt service: two idle ones, the
/// push of `PC`, high byte first, and the jump to the handler.
pub open spec fn service_ops(kind: IntKind) -> Seq<MicroOpModel> {
    delayed(2, plain(call_ops(kind.vector())))
}

/// The states after the CPU has looked at the interrupt controller. An
/// interrupt raised since the last look wakes a halted or stopped CPU.
/// A pending interrupt is acknowledged and its service queued.
pub open spec fn poll_interrupts(cpu: CpuView, mmu: MmuView) -> Outcome {
    let itc = mmu.interrupt_controller;
    let seen = InterruptController { new_int_waiting: false, ..itc };
    let awake = if itc.new_int_waiting {
        CpuView { halted: false, stopped: false, ..cpu }
    } else {
        cpu
    };
    match seen.pending() {
        Some(kind) => fine(
            CpuView { pipeline: awake.pipeline + service_ops(kind), ..awake },
            MmuView { interrupt_controller: seen.acknowledge(kind), ..mmu },
        ),
        None => fine(awake, MmuView { interrupt_controller: seen, ..mmu }),
    }
}

/// The state after the instruction at `PC` has been decoded and queued,
/// or the fault of a byte that encodes none.
pub open spec fn fetch(cpu: CpuView, mmu: MmuView) -> Outcome {
    let pc = cpu.regs.pc;
    match decode_at(mmu, pc) {
        Some(instruction) => fine(
            CpuView {
                pipeline: cpu.pipeline + instruction.micro_ops(),
                ..cpu.with_pc(advanced(pc, instruction_length(mmu.read(pc))))
            },
            mmu,
        ),
        None => Outcome {
            cpu: cpu.with_pc(advanced(pc, 1)),
            mmu,
            fault: Some(Fault::UnknownOpcode { opcode: mmu.read(pc), pc }),
        },
    }
}

/// The memory after the timers have run for the four T-cycles of a
/// machine cycle. A stopped CPU freezes them.
pub open spec fn clocked(cpu: CpuView, mmu: MmuView) -> MmuView {
    if cpu.stopped {
        mmu
    } else {
        MmuView { interrupt_controller: mmu.interrupt_controller.advance(4), ..mmu }
    }
}

/// The states at the point where the CPU takes a micro-operation off
/// its queue: the timers have advanced; if the queue was empty, the
/// interrupt controller has been polled; and if it was still empty and
/// the CPU neither halted nor stopped, the next instruction has been
/// decoded and queued.
#[verifier::opaque]
pub open spec fn prepared(cpu: CpuView, mmu: MmuView) -> Outcome {
    let ticked = clocked(cpu, mmu);
    let polled = if cpu.pipeline.len() == 0 {
        poll_interrupts(cpu, ticked)
    } else {
        fine(cpu, ticked)
    };
    if polled.cpu.pipeline.len() == 0 && !polled.cpu.halted && !polled.cpu.stopped {
        fetch(polled.cpu, polled.mmu)
    } else {
        polled
    }
}

/// One machine cycle of the CPU: the queue is prepared, and the
/// micro-operation at its head, if there is one, is taken off and
/// carried out.
pub open spec fn step(cpu: CpuView, mmu: MmuView) -> Outcome {
    let ready = prepared(cpu, mmu);
    if ready.fault is Some || ready.cpu.pipeline.len() == 0 {
        ready
    } else {
        execute(
            CpuView { pipeline: ready.cpu.pipeline.drop_first(), ..ready.cpu },
            ready.mmu,
            ready.cpu.pipeline[0],
        )
    }
}

/// Whether the states `cpu` and `mmu` and the result `res` are what
/// `expected` says.
pub open spec fn is_outcome(
    cpu: CpuView,
    mmu: MmuView,
    res: Result<(), Fault>,
    expected: Outcome,
) -> bool {
    &&& cpu == expected.cpu
    &&& mmu == expected.mmu
    &&& res == match expected.fault {
        Some(fault) => Err::<(), Fault>(fault),
        None => Ok(()),
    }
}

} // verus!
