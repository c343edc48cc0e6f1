//! Whole instructions, machine cycle by machine cycle: where `PC` stands
//! once the CPU has decoded an instruction and stepped until its queue is
//! empty again, with the timers running all the while.

use vstd::prelude::*;
use super::decode::{advanced, decode_at, instruction_length};
use super::instruction::{
    branch, call_ops, jump_ops, only, pop_op, push_op, return_ops, Instruction, JumpCondition,
};
use super::laws::{
    all_avoid_pc, avoids_pc, cycles, jump_target, law_control_flow_timing,
    law_decoded_instructions_spare_pc, law_one_micro_op_per_cycle, lemma_avoiding_keeps_pc,
    lemma_expansion_is_quiet, lemma_jump_micro_ops, lemma_plain_is_quiet, lemma_pop_pc,
    lemma_push, quiet,
};
use super::micro_op::{delayed, jump_relative_op, plain, MicroOp, MicroOpModel};
use super::register::{Register16, Register8, Registers};
use super::semantics::{
    clocked, condition_holds, execute, execute_plain, execute_transfer, execute_arithmetic, fetch,
    fine, poll_interrupts, prepared, step, Outcome,
};
use super::CpuView;
use crate::bits::joined;
use crate::memory::mmu::MmuView;

verus! {

/// The outcome of machine cycles repeated until the queue is empty, a
/// fault is met, or `fuel` cycles are done; one cycle is done in any
/// case, if there is fuel for it.
pub open spec fn until_idle(cpu: CpuView, mmu: MmuView, fuel: nat) -> Outcome
    decreases fuel,
{
    if fuel == 0 {
        fine(cpu, mmu)
    } else {
        let next = step(cpu, mmu);
        if next.fault is Some || next.cpu.pipeline.len() == 0 {
            next
        } else {
            until_idle(next.cpu, next.mmu, (fuel - 1) as nat)
        }
    }
}

/// The memory after the timers have run for one machine cycle.
pub open spec fn ticked(mmu: MmuView) -> MmuView {
    MmuView { interrupt_controller: mmu.interrupt_controller.advance(4), ..mmu }
}

/// The memory after the timers have run for `cycles` machine cycles.
pub open spec fn aged(mmu: MmuView, cycles: nat) -> MmuView
    decreases cycles,
{
    if cycles == 0 {
        mmu
    } else {
        ticked(aged(mmu, (cycles - 1) as nat))
    }
}

/// The memory in which a CPU with an empty queue decodes: the timers
/// have run for one machine cycle and the interrupt controller has been
/// polled.
pub open spec fn decoding_memory(cpu: CpuView, mmu: MmuView) -> MmuView {
    poll_interrupts(cpu, ticked(mmu)).mmu
}

/// Whether the CPU, with its queue empty, decodes an instruction in its
/// next machine cycle: it is neither halted nor stopped, the poll of the
/// interrupt controller finds nothing to service, and the bytes at `PC`
/// encode an instruction.
pub open spec fn decodes(cpu: CpuView, mmu: MmuView) -> bool {
    &&& cpu.pipeline.len() == 0
    &&& !cpu.halted
    &&& !cpu.stopped
    &&& poll_interrupts(cpu, ticked(mmu)).cpu.pipeline.len() == 0
    &&& decode_at(decoding_memory(cpu, mmu), cpu.regs.pc) is Some
}

/// The instruction that the CPU decodes in its next machine cycle.
pub open spec fn next_instruction(cpu: CpuView, mmu: MmuView) -> Instruction {
    decode_at(decoding_memory(cpu, mmu), cpu.regs.pc).unwrap()
}

/// The address that two pops read from the stack, low byte first, where
/// the first pop is carried out in the machine cycle after `mmu`.
pub open spec fn popped_address(mmu: MmuView, sp: u16) -> u16 {
    joined(ticked(ticked(mmu)).read(advanced(sp, 1)), ticked(mmu).read(sp))
}

/// Where a jump decoded in `mmu` continues: a return at the address that
/// the stack holds when its pops read it, the others where
/// [`jump_target`] says. `regs` are the registers after the decoding.
pub open spec fn target(instruction: Instruction, regs: Registers, mmu: MmuView) -> u16 {
    match instruction {
        Instruction::Return { condition: None } => popped_address(aged(mmu, 1), regs.sp),
        Instruction::Return { condition: Some(_) } => popped_address(aged(mmu, 2), regs.sp),
        Instruction::ReturnInterrupt => popped_address(mmu, regs.sp),
        _ => jump_target(instruction, regs, mmu),
    }
}

/// A machine cycle on a queue that is not empty.
proof fn lemma_cycle(cpu: CpuView, mmu: MmuView, fuel: nat)
    requires
        fuel > 0,
        cpu.pipeline.len() > 0,
    ensures
        ({
            let next = execute(
                CpuView { pipeline: cpu.pipeline.drop_first(), ..cpu },
                clocked(cpu, mmu),
                cpu.pipeline[0],
            );
            until_idle(cpu, mmu, fuel) == if next.fault is Some || next.cpu.pipeline.len() == 0 {
                next
            } else {
                until_idle(next.cpu, next.mmu, (fuel - 1) as nat)
            }
        }),
{
    law_one_micro_op_per_cycle(cpu, mmu);
}

/// Timers that run one cycle more.
proof fn lemma_aged_more(mmu: MmuView, cycles: nat)
    ensures
        aged(ticked(mmu), cycles) == aged(mmu, cycles + 1),
    decreases cycles,
{
    assert(aged(mmu, cycles + 1) == ticked(aged(mmu, cycles)));
    if cycles > 0 {
        lemma_aged_more(mmu, (cycles - 1) as nat);
        assert(aged(ticked(mmu), cycles) == ticked(aged(ticked(mmu), (cycles - 1) as nat)));
    } else {
        assert(aged(mmu, 0) == mmu);
        assert(aged(ticked(mmu), 0) == ticked(mmu));
    }
}

/// Idle cycles in front of a queue let the timers run and change nothing
/// else.
proof fn lemma_idle(cpu: CpuView, mmu: MmuView, fuel: nat, cycles: nat, rest: Seq<MicroOpModel>)
    requires
        cpu.pipeline == delayed(cycles, rest),
        rest.len() > 0,
        fuel >= cycles,
        !cpu.stopped,
    ensures
        until_idle(cpu, mmu, fuel) == until_idle(
            CpuView { pipeline: rest, ..cpu },
            aged(mmu, cycles),
            (fuel - cycles) as nat,
        ),
    decreases cycles,
{
    if cycles == 0 {
        assert(delayed(0, rest) =~= rest);
        assert(cpu == CpuView { pipeline: rest, ..cpu });
    } else {
        let next = CpuView { pipeline: cpu.pipeline.drop_first(), ..cpu };
        assert(cpu.pipeline[0] == MicroOpModel::Plain(MicroOp::NOP));
        assert(next.pipeline =~= delayed((cycles - 1) as nat, rest));
        assert(execute(next, ticked(mmu), cpu.pipeline[0]) == fine(next, ticked(mmu))) by {
            reveal(execute_transfer);
        }
        lemma_cycle(cpu, mmu, fuel);
        lemma_idle(next, ticked(mmu), (fuel - 1) as nat, (cycles - 1) as nat, rest);
        lemma_aged_more(mmu, (cycles - 1) as nat);
    }
}

/// Machine cycles on a quiet queue leave `PC` alone and, given the fuel
/// and no fault, empty the queue.
proof fn lemma_quiet(cpu: CpuView, mmu: MmuView, fuel: nat)
    requires
        quiet(cpu.pipeline),
        cpu.pipeline.len() > 0,
        fuel >= cpu.pipeline.len(),
    ensures
        until_idle(cpu, mmu, fuel).cpu.regs.pc == cpu.regs.pc,
        until_idle(cpu, mmu, fuel).fault is None ==> until_idle(
            cpu,
            mmu,
            fuel,
        ).cpu.pipeline.len() == 0,
    decreases fuel,
{
    let head = cpu.pipeline[0];
    let rest = CpuView { pipeline: cpu.pipeline.drop_first(), ..cpu };
    assert(head is Plain && avoids_pc(head->Plain_0));
    lemma_cycle(cpu, mmu, fuel);
    lemma_avoiding_keeps_pc(rest, clocked(cpu, mmu), head->Plain_0);
    let next = execute(rest, clocked(cpu, mmu), head);
    assert forall|i: int| 0 <= i < rest.pipeline.len() implies (#[trigger] rest.pipeline[i])
        is Plain && avoids_pc(rest.pipeline[i]->Plain_0) by {
        assert(rest.pipeline[i] == cpu.pipeline[i + 1]);
    }
    if next.fault is None && next.cpu.pipeline.len() > 0 {
        lemma_quiet(next.cpu, next.mmu, (fuel - 1) as nat);
    }
}

/// The two loads of an absolute jump, cycle by cycle.
proof fn lemma_jump(cpu: CpuView, mmu: MmuView, fuel: nat, addr: u16)
    requires
        fuel >= 2,
        cpu.pipeline == plain(jump_ops(addr)),
    ensures
        until_idle(cpu, mmu, fuel) == fine(
            CpuView {
                pipeline: Seq::empty(),
                ..cpu.with_regs(Registers { pc: addr, ..cpu.regs })
            },
            clocked(cpu, clocked(cpu, mmu)),
        ),
{
    let low = (addr % 256) as u8;
    let high = (addr / 256) as u8;
    let first = CpuView { pipeline: cpu.pipeline.drop_first(), ..cpu };
    lemma_cycle(cpu, mmu, fuel);
    lemma_jump_micro_ops(first, clocked(cpu, mmu), low, Register8::PCLow, addr);
    let after_first = execute_plain(first, clocked(cpu, mmu), cpu.pipeline[0]->Plain_0);
    assert(after_first.cpu.pipeline =~= plain(jump_ops(addr)).drop_first());
    lemma_cycle(after_first.cpu, after_first.mmu, (fuel - 1) as nat);
    let second = CpuView { pipeline: after_first.cpu.pipeline.drop_first(), ..after_first.cpu };
    lemma_jump_micro_ops(second, clocked(cpu, after_first.mmu), high, Register8::PCHigh, addr);
    let after_second = execute_plain(
        second,
        clocked(cpu, after_first.mmu),
        after_first.cpu.pipeline[0]->Plain_0,
    );
    assert(after_second.cpu.pipeline =~= Seq::<MicroOpModel>::empty());
    assert(after_second.cpu.regs == Registers { pc: addr, ..cpu.regs });
}

/// The pushes and the jump of a call, cycle by cycle.
proof fn lemma_call(cpu: CpuView, mmu: MmuView, fuel: nat, addr: u16)
    requires
        fuel >= 3,
        cpu.pipeline == plain(call_ops(addr)),
        until_idle(cpu, mmu, fuel).fault is None,
    ensures
        until_idle(cpu, mmu, fuel).cpu.regs.pc == addr,
        until_idle(cpu, mmu, fuel).cpu.regs.sp == advanced(cpu.regs.sp, -2),
        until_idle(cpu, mmu, fuel).cpu.pipeline.len() == 0,
{
    let first = CpuView { pipeline: cpu.pipeline.drop_first(), ..cpu };
    assert(cpu.pipeline[0] == MicroOpModel::Plain(push_op(Register8::PCHigh)));
    lemma_cycle(cpu, mmu, fuel);
    lemma_push(first, clocked(cpu, mmu), Register8::PCHigh);
    let after_first = execute_plain(first, clocked(cpu, mmu), push_op(Register8::PCHigh));
    assert(after_first.cpu.pipeline =~= plain(call_ops(addr)).drop_first());
    assert(after_first.cpu.pipeline[0] == MicroOpModel::Plain(push_op(Register8::PCLow)));
    lemma_cycle(after_first.cpu, after_first.mmu, (fuel - 1) as nat);
    let second = CpuView { pipeline: after_first.cpu.pipeline.drop_first(), ..after_first.cpu };
    let second_mmu = clocked(after_first.cpu, after_first.mmu);
    lemma_push(second, second_mmu, Register8::PCLow);
    let after_second = execute_plain(second, second_mmu, push_op(Register8::PCLow));
    assert(after_second.cpu.pipeline =~= plain(call_ops(addr)).drop_first().drop_first());
    lemma_cycle(after_second.cpu, after_second.mmu, (fuel - 2) as nat);
    let third = CpuView { pipeline: after_second.cpu.pipeline.drop_first(), ..after_second.cpu };
    let third_mmu = clocked(after_second.cpu, after_second.mmu);
    lemma_jump_micro_ops(third, third_mmu, 0, Register8::A, addr);
    let after_third = execute_plain(third, third_mmu, after_second.cpu.pipeline[0]->Plain_0);
    assert(after_third.cpu.pipeline.len() == 0);
}

/// The two pops of a return, with the micro-operations `tail` behind
/// them that do not write `PC`, cycle by cycle.
proof fn lemma_return(cpu: CpuView, mmu: MmuView, fuel: nat, tail: Seq<MicroOp>)
    requires
        fuel >= 2 + tail.len(),
        cpu.pipeline == plain(return_ops() + tail),
        all_avoid_pc(tail),
        !cpu.stopped,
    ensures
        until_idle(cpu, mmu, fuel).cpu.regs.pc == popped_address(mmu, cpu.regs.sp),
        until_idle(cpu, mmu, fuel).fault is None ==> until_idle(
            cpu,
            mmu,
            fuel,
        ).cpu.pipeline.len() == 0,
{
    let ops = return_ops() + tail;
    let first = CpuView { pipeline: cpu.pipeline.drop_first(), ..cpu };
    assert(cpu.pipeline[0] == MicroOpModel::Plain(pop_op(Register8::PCLow)));
    lemma_cycle(cpu, mmu, fuel);
    lemma_pop_pc(first, ticked(mmu));
    let after_first = execute_plain(first, ticked(mmu), pop_op(Register8::PCLow));
    assert(after_first.cpu.pipeline =~= plain(ops).drop_first());
    assert(after_first.cpu.pipeline[0] == MicroOpModel::Plain(pop_op(Register8::PCHigh)));
    lemma_cycle(after_first.cpu, ticked(mmu), (fuel - 1) as nat);
    let second = CpuView { pipeline: after_first.cpu.pipeline.drop_first(), ..after_first.cpu };
    lemma_pop_pc(second, ticked(ticked(mmu)));
    let after_second = execute_plain(second, ticked(ticked(mmu)), pop_op(Register8::PCHigh));
    assert(after_second.cpu.pipeline =~= plain(tail));
    assert(after_second.cpu.regs.pc == popped_address(mmu, cpu.regs.sp));
    lemma_plain_is_quiet(tail);
    if tail.len() > 0 {
        lemma_quiet(after_second.cpu, after_second.mmu, (fuel - 2) as nat);
    }
}

/// A branch, cycle by cycle: the chosen micro-operations are carried out
/// from the next machine cycle on.
proof fn lemma_branch(
    cpu: CpuView,
    mmu: MmuView,
    fuel: nat,
    condition: JumpCondition,
    taken: Seq<MicroOp>,
    skipped: Seq<MicroOp>,
)
    requires
        fuel > 0,
        cpu.pipeline == branch(condition, taken, skipped),
        !cpu.stopped,
    ensures
        ({
            let chosen = if condition_holds(cpu.regs.flags, condition) {
                plain(taken)
            } else {
                plain(skipped)
            };
            until_idle(cpu, mmu, fuel) == if chosen.len() == 0 {
                fine(CpuView { pipeline: chosen, ..cpu }, ticked(mmu))
            } else {
                until_idle(CpuView { pipeline: chosen, ..cpu }, ticked(mmu), (fuel - 1) as nat)
            }
        }),
{
    let rest = cpu.pipeline.drop_first();
    assert(rest =~= Seq::<MicroOpModel>::empty());
    assert(plain(taken) + rest =~= plain(taken));
    assert(plain(skipped) + rest =~= plain(skipped));
    lemma_cycle(cpu, mmu, fuel);
}

/// A single micro-operation that writes `PC`, in its machine cycle.
proof fn lemma_single(cpu: CpuView, mmu: MmuView, offset: i8, reg: Register16)
    ensures
        execute_plain(cpu, mmu, jump_relative_op(offset)) == fine(
            cpu.with_regs(Registers { pc: advanced(cpu.regs.pc, offset as int), ..cpu.regs }),
            mmu,
        ),
        execute_plain(cpu, mmu, MicroOp::Move16Bits { destination: Register16::PC, source: reg })
            == fine(cpu.with_regs(Registers { pc: cpu.regs.load16(reg), ..cpu.regs }), mmu),
{
    reveal(execute_transfer);
    reveal(execute_arithmetic);
}

/// The first machine cycle of an instruction: the CPU decodes it, moves
/// `PC` behind it, and carries out the first of its micro-operations in
/// the memory in which it decoded.
proof fn lemma_first_cycle(cpu: CpuView, mmu: MmuView, fuel: nat)
    requires
        decodes(cpu, mmu),
        fuel > 0,
    ensures
        ({
            let memory = decoding_memory(cpu, mmu);
            let ops = next_instruction(cpu, mmu).micro_ops();
            let behind = cpu.with_pc(
                advanced(cpu.regs.pc, instruction_length(memory.read(cpu.regs.pc))),
            );
            let next = execute(CpuView { pipeline: ops.drop_first(), ..behind }, memory, ops[0]);
            ops.len() > 0 ==> until_idle(cpu, mmu, fuel) == if next.fault is Some
                || next.cpu.pipeline.len() == 0 {
                next
            } else {
                until_idle(next.cpu, next.mmu, (fuel - 1) as nat)
            }
        }),
{
    reveal(prepared);
    let memory = decoding_memory(cpu, mmu);
    let ops = next_instruction(cpu, mmu).micro_ops();
    let polled = poll_interrupts(cpu, ticked(mmu));
    assert(polled.cpu == cpu);
    assert(fetch(cpu, memory).cpu.pipeline =~= ops);
}

/// The machine cycles of an instruction that starts with idle cycles, up
/// to the first micro-operation that is not idle.
proof fn lemma_start(cpu: CpuView, mmu: MmuView, fuel: nat, idle: nat, rest: Seq<MicroOpModel>)
    requires
        decodes(cpu, mmu),
        next_instruction(cpu, mmu).micro_ops() == delayed(idle, rest),
        idle > 0,
        rest.len() > 0,
        fuel >= idle,
    ensures
        until_idle(cpu, mmu, fuel) == until_idle(
            CpuView {
                pipeline: rest,
                ..cpu.with_pc(
                    advanced(
                        cpu.regs.pc,
                        instruction_length(decoding_memory(cpu, mmu).read(cpu.regs.pc)),
                    ),
                )
            },
            aged(decoding_memory(cpu, mmu), (idle - 1) as nat),
            (fuel - idle) as nat,
        ),
{
    let memory = decoding_memory(cpu, mmu);
    let ops = delayed(idle, rest);
    let behind = cpu.with_pc(advanced(cpu.regs.pc, instruction_length(memory.read(cpu.regs.pc))));
    let next = CpuView { pipeline: ops.drop_first(), ..behind };
    lemma_first_cycle(cpu, mmu, fuel);
    assert(ops[0] == MicroOpModel::Plain(MicroOp::NOP));
    assert(next.pipeline =~= delayed((idle - 1) as nat, rest));
    assert(execute(next, memory, ops[0]) == fine(next, memory)) by {
        reveal(execute_transfer);
    }
    lemma_idle(next, memory, (fuel - 1) as nat, (idle - 1) as nat, rest);
}

/// An instruction that does not jump, cycle by cycle.
proof fn lemma_no_jump(cpu: CpuView, mmu: MmuView, fuel: nat)
    requires
        decodes(cpu, mmu),
        !next_instruction(cpu, mmu).is_control(),
        next_instruction(cpu, mmu).micro_ops().len() > 0,
        fuel >= next_instruction(cpu, mmu).micro_ops().len(),
    ensures
        until_idle(cpu, mmu, fuel).cpu.regs.pc == advanced(
            cpu.regs.pc,
            instruction_length(decoding_memory(cpu, mmu).read(cpu.regs.pc)),
        ),
        until_idle(cpu, mmu, fuel).fault is None ==> until_idle(
            cpu,
            mmu,
            fuel,
        ).cpu.pipeline.len() == 0,
{
    let memory = decoding_memory(cpu, mmu);
    let pc = cpu.regs.pc;
    let instruction = next_instruction(cpu, mmu);
    let ops = instruction.micro_ops();
    law_decoded_instructions_spare_pc(
        memory.read(pc),
        memory.read(advanced(pc, 1)),
        memory.read(advanced(pc, 2)),
    );
    lemma_expansion_is_quiet(instruction);
    lemma_first_cycle(cpu, mmu, fuel);
    let behind = cpu.with_pc(advanced(pc, instruction_length(memory.read(pc))));
    let rest = CpuView { pipeline: ops.drop_first(), ..behind };
    assert(ops[0] is Plain && avoids_pc(ops[0]->Plain_0));
    lemma_avoiding_keeps_pc(rest, memory, ops[0]->Plain_0);
    let next = execute(rest, memory, ops[0]);
    assert forall|i: int| 0 <= i < rest.pipeline.len() implies (#[trigger] rest.pipeline[i])
        is Plain && avoids_pc(rest.pipeline[i]->Plain_0) by {
        assert(rest.pipeline[i] == ops[i + 1]);
    }
    if next.fault is None && next.cpu.pipeline.len() > 0 {
        lemma_quiet(next.cpu, next.mmu, (fuel - 1) as nat);
    }
}

proof fn lemma_transfer_takes_cycles(instruction: Instruction)
    requires
        instruction.is_transfer(),
    ensures
        instruction.micro_ops().len() > 0,
{
}

proof fn lemma_accumulator_takes_cycles(instruction: Instruction)
    requires
        instruction.is_accumulator(),
    ensures
        instruction.micro_ops().len() > 0,
{
}

proof fn lemma_counting_takes_cycles(instruction: Instruction)
    requires
        instruction.is_counting(),
    ensures
        instruction.micro_ops().len() > 0,
{
}

proof fn lemma_bits_takes_cycles(instruction: Instruction)
    requires
        instruction.is_bits(),
    ensures
        instruction.micro_ops().len() > 0,
{
}

proof fn lemma_rotation_takes_cycles(instruction: Instruction)
    requires
        instruction.is_rotation(),
    ensures
        instruction.micro_ops().len() > 0,
{
}

proof fn lemma_shift_takes_cycles(instruction: Instruction)
    requires
        instruction.is_shift(),
    ensures
        instruction.micro_ops().len() > 0,
{
}

/// Every instruction that is no jump takes at least one machine cycle.
proof fn lemma_takes_cycles(instruction: Instruction)
    requires
        !instruction.is_control(),
    ensures
        instruction.micro_ops().len() > 0,
{
    if instruction.is_transfer() {
        lemma_transfer_takes_cycles(instruction);
    } else if instruction.is_accumulator() {
        lemma_accumulator_takes_cycles(instruction);
    } else if instruction.is_counting() {
        lemma_counting_takes_cycles(instruction);
    } else if instruction.is_bits() {
        lemma_bits_takes_cycles(instruction);
    } else if instruction.is_rotation() {
        lemma_rotation_takes_cycles(instruction);
    } else {
        lemma_shift_takes_cycles(instruction);
    }
}

/// A conditional call whose condition fails.
proof fn lemma_call_not_taken(cpu: CpuView, mmu: MmuView, fuel: nat, cond: JumpCondition, addr: u16)
    requires
        decodes(cpu, mmu),
        next_instruction(cpu, mmu) == (Instruction::CallAddr { condition: Some(cond), addr }),
        !condition_holds(cpu.regs.flags, cond),
        fuel >= 3,
    ensures
        until_idle(cpu, mmu, fuel).cpu.regs.pc == address_behind(cpu, mmu),
        until_idle(cpu, mmu, fuel).fault is None ==> until_idle(cpu, mmu, fuel).cpu.pipeline.len() == 0,
{
    let memory = decoding_memory(cpu, mmu);
    let behind = cpu.with_pc(address_behind(cpu, mmu));
    assert(aged(memory, 0) == memory);
    let rest = branch(cond, call_ops(addr), seq![]);
    lemma_start(cpu, mmu, fuel, 2, rest);
    lemma_branch(
        CpuView { pipeline: rest, ..behind },
        aged(memory, 1),
        (fuel - 2) as nat,
        cond,
        call_ops(addr),
        seq![],
    );
}

/// A conditional return whose condition fails.
proof fn lemma_return_not_taken(cpu: CpuView, mmu: MmuView, fuel: nat, cond: JumpCondition)
    requires
        decodes(cpu, mmu),
        next_instruction(cpu, mmu) == (Instruction::Return { condition: Some(cond) }),
        !condition_holds(cpu.regs.flags, cond),
        fuel >= 2,
    ensures
        until_idle(cpu, mmu, fuel).cpu.regs.pc == address_behind(cpu, mmu),
        until_idle(cpu, mmu, fuel).fault is None ==> until_idle(cpu, mmu, fuel).cpu.pipeline.len() == 0,
{
    let memory = decoding_memory(cpu, mmu);
    let behind = cpu.with_pc(address_behind(cpu, mmu));
    assert(aged(memory, 0) == memory);
    let taken = seq![MicroOp::NOP] + return_ops();
    let rest = branch(cond, taken, seq![]);
    lemma_start(cpu, mmu, fuel, 1, rest);
    lemma_branch(CpuView { pipeline: rest, ..behind }, memory, (fuel - 1) as nat, cond, taken, seq![]);
}

/// A conditional relative jump whose condition fails.
proof fn lemma_relative_not_taken(cpu: CpuView, mmu: MmuView, fuel: nat, cond: JumpCondition, offset: i8)
    requires
        decodes(cpu, mmu),
        next_instruction(cpu, mmu) == (Instruction::JumpRelative { condition: Some(cond), offset }),
        !condition_holds(cpu.regs.flags, cond),
        fuel >= 2,
    ensures
        until_idle(cpu, mmu, fuel).cpu.regs.pc == address_behind(cpu, mmu),
        until_idle(cpu, mmu, fuel).fault is None ==> until_idle(cpu, mmu, fuel).cpu.pipeline.len() == 0,
{
    let memory = decoding_memory(cpu, mmu);
    let behind = cpu.with_pc(address_behind(cpu, mmu));
    assert(aged(memory, 0) == memory);
    let taken = seq![jump_relative_op(offset)];
    let rest = branch(cond, taken, seq![]);
    lemma_start(cpu, mmu, fuel, 1, rest);
    lemma_branch(CpuView { pipeline: rest, ..behind }, memory, (fuel - 1) as nat, cond, taken, seq![]);
}

/// A conditional absolute jump whose condition fails.
proof fn lemma_absolute_not_taken(cpu: CpuView, mmu: MmuView, fuel: nat, cond: JumpCondition, addr: u16)
    requires
        decodes(cpu, mmu),
        next_instruction(cpu, mmu) == (Instruction::JumpAbsolute { condition: Some(cond), addr }),
        !condition_holds(cpu.regs.flags, cond),
        fuel >= 3,
    ensures
        until_idle(cpu, mmu, fuel).cpu.regs.pc == address_behind(cpu, mmu),
        until_idle(cpu, mmu, fuel).fault is None ==> until_idle(cpu, mmu, fuel).cpu.pipeline.len() == 0,
{
    let memory = decoding_memory(cpu, mmu);
    let behind = cpu.with_pc(address_behind(cpu, mmu));
    assert(aged(memory, 0) == memory);
    let skipped = seq![MicroOp::NOP];
    let rest = branch(cond, jump_ops(addr), skipped);
    lemma_start(cpu, mmu, fuel, 1, rest);
    lemma_branch(
        CpuView { pipeline: rest, ..behind },
        memory,
        (fuel - 1) as nat,
        cond,
        jump_ops(addr),
        skipped,
    );
    lemma_plain_is_quiet(skipped);
    lemma_quiet(CpuView { pipeline: plain(skipped), ..behind }, ticked(memory), (fuel - 2) as nat);
}

/// An absolute jump without a condition.
proof fn lemma_absolute(cpu: CpuView, mmu: MmuView, fuel: nat, addr: u16)
    requires
        decodes(cpu, mmu),
        next_instruction(cpu, mmu) == (Instruction::JumpAbsolute { condition: None, addr }),
        fuel >= 4,
    ensures
        until_idle(cpu, mmu, fuel).cpu.regs.pc == addr,
        until_idle(cpu, mmu, fuel).fault is None,
        until_idle(cpu, mmu, fuel).cpu.pipeline.len() == 0,
{
    let memory = decoding_memory(cpu, mmu);
    let behind = cpu.with_pc(address_behind(cpu, mmu));
    assert(aged(memory, 0) == memory);
    let rest = plain(jump_ops(addr));
    lemma_start(cpu, mmu, fuel, 2, rest);
    lemma_jump(CpuView { pipeline: rest, ..behind }, aged(memory, 1), (fuel - 2) as nat, addr);
}

/// A conditional absolute jump whose condition holds.
proof fn lemma_absolute_taken(cpu: CpuView, mmu: MmuView, fuel: nat, cond: JumpCondition, addr: u16)
    requires
        decodes(cpu, mmu),
        next_instruction(cpu, mmu) == (Instruction::JumpAbsolute { condition: Some(cond), addr }),
        condition_holds(cpu.regs.flags, cond),
        fuel >= 4,
    ensures
        until_idle(cpu, mmu, fuel).cpu.regs.pc == addr,
        until_idle(cpu, mmu, fuel).fault is None,
        until_idle(cpu, mmu, fuel).cpu.pipeline.len() == 0,
{
    let memory = decoding_memory(cpu, mmu);
    let behind = cpu.with_pc(address_behind(cpu, mmu));
    assert(aged(memory, 0) == memory);
    let skipped = seq![MicroOp::NOP];
    let rest = branch(cond, jump_ops(addr), skipped);
    lemma_start(cpu, mmu, fuel, 1, rest);
    lemma_branch(
        CpuView { pipeline: rest, ..behind },
        memory,
        (fuel - 1) as nat,
        cond,
        jump_ops(addr),
        skipped,
    );
    lemma_jump(
        CpuView { pipeline: plain(jump_ops(addr)), ..behind },
        ticked(memory),
        (fuel - 2) as nat,
        addr,
    );
}

/// A relative jump without a condition.
proof fn lemma_relative(cpu: CpuView, mmu: MmuView, fuel: nat, offset: i8)
    requires
        decodes(cpu, mmu),
        next_instruction(cpu, mmu) == (Instruction::JumpRelative { condition: None, offset }),
        fuel >= 3,
    ensures
        until_idle(cpu, mmu, fuel).cpu.regs.pc == advanced(address_behind(cpu, mmu), offset as int),
        until_idle(cpu, mmu, fuel).fault is None,
        until_idle(cpu, mmu, fuel).cpu.pipeline.len() == 0,
{
    let memory = decoding_memory(cpu, mmu);
    let behind = cpu.with_pc(address_behind(cpu, mmu));
    assert(aged(memory, 0) == memory);
    let rest = only(jump_relative_op(offset));
    lemma_start(cpu, mmu, fuel, 2, rest);
    let at_jump = CpuView { pipeline: rest, ..behind };
    lemma_cycle(at_jump, aged(memory, 1), (fuel - 2) as nat);
    lemma_single(
        CpuView { pipeline: rest.drop_first(), ..behind },
        ticked(aged(memory, 1)),
        offset,
        Register16::HL,
    );
}

/// A conditional relative jump whose condition holds.
proof fn lemma_relative_taken(cpu: CpuView, mmu: MmuView, fuel: nat, cond: JumpCondition, offset: i8)
    requires
        decodes(cpu, mmu),
        next_instruction(cpu, mmu) == (Instruction::JumpRelative { condition: Some(cond), offset }),
        condition_holds(cpu.regs.flags, cond),
        fuel >= 3,
    ensures
        until_idle(cpu, mmu, fuel).cpu.regs.pc == advanced(address_behind(cpu, mmu), offset as int),
        until_idle(cpu, mmu, fuel).fault is None,
        until_idle(cpu, mmu, fuel).cpu.pipeline.len() == 0,
{
    let memory = decoding_memory(cpu, mmu);
    let behind = cpu.with_pc(address_behind(cpu, mmu));
    assert(aged(memory, 0) == memory);
    let taken = seq![jump_relative_op(offset)];
    let rest = branch(cond, taken, seq![]);
    lemma_start(cpu, mmu, fuel, 1, rest);
    lemma_branch(CpuView { pipeline: rest, ..behind }, memory, (fuel - 1) as nat, cond, taken, seq![]);
    assert(plain(taken) =~= only(jump_relative_op(offset)));
    let at_jump = CpuView { pipeline: plain(taken), ..behind };
    lemma_cycle(at_jump, ticked(memory), (fuel - 2) as nat);
    lemma_single(
        CpuView { pipeline: plain(taken).drop_first(), ..behind },
        ticked(ticked(memory)),
        offset,
        Register16::HL,
    );
}

/// A jump to the value of a register pair.
proof fn lemma_register_jump(cpu: CpuView, mmu: MmuView, fuel: nat, reg: Register16)
    requires
        decodes(cpu, mmu),
        next_instruction(cpu, mmu) == (Instruction::JumpRegister16 { reg }),
        fuel >= 1,
    ensures
        until_idle(cpu, mmu, fuel).cpu.regs.pc == cpu.with_pc(address_behind(cpu, mmu)).regs.load16(reg),
        until_idle(cpu, mmu, fuel).fault is None,
        until_idle(cpu, mmu, fuel).cpu.pipeline.len() == 0,
{
    let memory = decoding_memory(cpu, mmu);
    let behind = cpu.with_pc(address_behind(cpu, mmu));
    assert(aged(memory, 0) == memory);
    let ops = only(MicroOp::Move16Bits { destination: Register16::PC, source: reg });
    lemma_first_cycle(cpu, mmu, fuel);
    lemma_single(CpuView { pipeline: ops.drop_first(), ..behind }, memory, 0, reg);
}

/// A call without a condition that meets no fault.
proof fn lemma_call_always(cpu: CpuView, mmu: MmuView, fuel: nat, addr: u16)
    requires
        decodes(cpu, mmu),
        next_instruction(cpu, mmu) == (Instruction::CallAddr { condition: None, addr }),
        fuel >= 6,
        until_idle(cpu, mmu, fuel).fault is None,
    ensures
        until_idle(cpu, mmu, fuel).cpu.regs.pc == addr,
        until_idle(cpu, mmu, fuel).cpu.regs.sp == advanced(cpu.regs.sp, -2),
        until_idle(cpu, mmu, fuel).cpu.pipeline.len() == 0,
{
    let memory = decoding_memory(cpu, mmu);
    let behind = cpu.with_pc(address_behind(cpu, mmu));
    assert(aged(memory, 0) == memory);
    let rest = plain(call_ops(addr));
    lemma_start(cpu, mmu, fuel, 3, rest);
    lemma_call(CpuView { pipeline: rest, ..behind }, aged(memory, 2), (fuel - 3) as nat, addr);
}

/// A conditional call whose condition holds and that meets no fault.
proof fn lemma_call_taken(cpu: CpuView, mmu: MmuView, fuel: nat, cond: JumpCondition, addr: u16)
    requires
        decodes(cpu, mmu),
        next_instruction(cpu, mmu) == (Instruction::CallAddr { condition: Some(cond), addr }),
        condition_holds(cpu.regs.flags, cond),
        fuel >= 6,
        until_idle(cpu, mmu, fuel).fault is None,
    ensures
        until_idle(cpu, mmu, fuel).cpu.regs.pc == addr,
        until_idle(cpu, mmu, fuel).cpu.regs.sp == advanced(cpu.regs.sp, -2),
        until_idle(cpu, mmu, fuel).cpu.pipeline.len() == 0,
{
    let memory = decoding_memory(cpu, mmu);
    let behind = cpu.with_pc(address_behind(cpu, mmu));
    assert(aged(memory, 0) == memory);
    let rest = branch(cond, call_ops(addr), seq![]);
    lemma_start(cpu, mmu, fuel, 2, rest);
    lemma_branch(
        CpuView { pipeline: rest, ..behind },
        aged(memory, 1),
        (fuel - 2) as nat,
        cond,
        call_ops(addr),
        seq![],
    );
    lemma_call(
        CpuView { pipeline: plain(call_ops(addr)), ..behind },
        ticked(aged(memory, 1)),
        (fuel - 3) as nat,
        addr,
    );
}

/// A restart that meets no fault.
proof fn lemma_restart(cpu: CpuView, mmu: MmuView, fuel: nat, addr: u16)
    requires
        decodes(cpu, mmu),
        next_instruction(cpu, mmu) == (Instruction::Reset { offset: addr }),
        fuel >= 4,
        until_idle(cpu, mmu, fuel).fault is None,
    ensures
        until_idle(cpu, mmu, fuel).cpu.regs.pc == addr,
        until_idle(cpu, mmu, fuel).cpu.regs.sp == advanced(cpu.regs.sp, -2),
        until_idle(cpu, mmu, fuel).cpu.pipeline.len() == 0,
{
    let memory = decoding_memory(cpu, mmu);
    let behind = cpu.with_pc(address_behind(cpu, mmu));
    assert(aged(memory, 0) == memory);
    let rest = plain(call_ops(addr));
    lemma_start(cpu, mmu, fuel, 1, rest);
    lemma_call(CpuView { pipeline: rest, ..behind }, memory, (fuel - 1) as nat, addr);
}

/// A return without a condition.
proof fn lemma_return_always(cpu: CpuView, mmu: MmuView, fuel: nat)
    requires
        decodes(cpu, mmu),
        next_instruction(cpu, mmu) == (Instruction::Return { condition: None }),
        fuel >= 4,
    ensures
        until_idle(cpu, mmu, fuel).cpu.regs.pc == popped_address(aged(decoding_memory(cpu, mmu), 1), cpu.regs.sp),
        until_idle(cpu, mmu, fuel).fault is None ==> until_idle(cpu, mmu, fuel).cpu.pipeline.len() == 0,
{
    let memory = decoding_memory(cpu, mmu);
    let behind = cpu.with_pc(address_behind(cpu, mmu));
    assert(aged(memory, 0) == memory);
    let none = Seq::<MicroOp>::empty();
    assert(return_ops() + none =~= return_ops());
    let rest = plain(return_ops());
    lemma_start(cpu, mmu, fuel, 2, rest);
    lemma_return(CpuView { pipeline: rest, ..behind }, aged(memory, 1), (fuel - 2) as nat, none);
}

/// A conditional return whose condition holds.
proof fn lemma_return_taken(cpu: CpuView, mmu: MmuView, fuel: nat, cond: JumpCondition)
    requires
        decodes(cpu, mmu),
        next_instruction(cpu, mmu) == (Instruction::Return { condition: Some(cond) }),
        condition_holds(cpu.regs.flags, cond),
        fuel >= 5,
    ensures
        until_idle(cpu, mmu, fuel).cpu.regs.pc == popped_address(aged(decoding_memory(cpu, mmu), 2), cpu.regs.sp),
        until_idle(cpu, mmu, fuel).fault is None ==> until_idle(cpu, mmu, fuel).cpu.pipeline.len() == 0,
{
    let memory = decoding_memory(cpu, mmu);
    let behind = cpu.with_pc(address_behind(cpu, mmu));
    assert(aged(memory, 0) == memory);
    let none = Seq::<MicroOp>::empty();
    assert(return_ops() + none =~= return_ops());
    let taken = seq![MicroOp::NOP] + return_ops();
    let rest = branch(cond, taken, seq![]);
    lemma_start(cpu, mmu, fuel, 1, rest);
    lemma_branch(CpuView { pipeline: rest, ..behind }, memory, (fuel - 1) as nat, cond, taken, seq![]);
    let pops = plain(return_ops());
    assert(plain(taken) =~= delayed(1, pops));
    lemma_idle(CpuView { pipeline: plain(taken), ..behind }, ticked(memory), (fuel - 2) as nat, 1, pops);
    lemma_aged_more(memory, 1);
    lemma_return(CpuView { pipeline: pops, ..behind }, aged(memory, 2), (fuel - 3) as nat, none);
}

/// A return from an interrupt.
proof fn lemma_return_from_interrupt(cpu: CpuView, mmu: MmuView, fuel: nat)
    requires
        decodes(cpu, mmu),
        next_instruction(cpu, mmu) == (Instruction::ReturnInterrupt),
        fuel >= 4,
    ensures
        until_idle(cpu, mmu, fuel).cpu.regs.pc == popped_address(aged(decoding_memory(cpu, mmu), 0), cpu.regs.sp),
        until_idle(cpu, mmu, fuel).fault is None ==> until_idle(cpu, mmu, fuel).cpu.pipeline.len() == 0,
{
    let memory = decoding_memory(cpu, mmu);
    let behind = cpu.with_pc(address_behind(cpu, mmu));
    assert(aged(memory, 0) == memory);
    let tail = seq![MicroOp::EnableInterrupts];
    let ops = return_ops().push(MicroOp::EnableInterrupts);
    assert(ops =~= return_ops() + tail);
    let rest = plain(ops);
    lemma_start(cpu, mmu, fuel, 1, rest);
    lemma_return(CpuView { pipeline: rest, ..behind }, memory, (fuel - 1) as nat, tail);
}

/// A jump, call, return or restart, cycle by cycle.
proof fn lemma_control(cpu: CpuView, mmu: MmuView, fuel: nat)
    requires
        decodes(cpu, mmu),
        next_instruction(cpu, mmu).is_control(),
        fuel >= cycles(
            next_instruction(cpu, mmu),
            next_instruction(cpu, mmu).jumps(cpu.regs.flags),
        ),
        until_idle(cpu, mmu, fuel).fault is None,
    ensures
        until_idle(cpu, mmu, fuel).cpu.pipeline.len() == 0,
        until_idle(cpu, mmu, fuel).cpu.regs.pc == if next_instruction(cpu, mmu).jumps(
            cpu.regs.flags,
        ) {
            target(
                next_instruction(cpu, mmu),
                cpu.with_pc(address_behind(cpu, mmu)).regs,
                decoding_memory(cpu, mmu),
            )
        } else {
            address_behind(cpu, mmu)
        },
{
    let flags = cpu.regs.flags;
    assert(aged(decoding_memory(cpu, mmu), 0) == decoding_memory(cpu, mmu));
    match next_instruction(cpu, mmu) {
        Instruction::JumpAbsolute { condition: None, addr } => {
            law_control_flow_timing(JumpCondition::Zero, addr, 0);
            lemma_absolute(cpu, mmu, fuel, addr);
        },
        Instruction::JumpAbsolute { condition: Some(cond), addr } => {
            law_control_flow_timing(cond, addr, 0);
            if condition_holds(flags, cond) {
                lemma_absolute_taken(cpu, mmu, fuel, cond, addr);
            } else {
                lemma_absolute_not_taken(cpu, mmu, fuel, cond, addr);
            }
        },
        Instruction::JumpRelative { condition: None, offset } => {
            law_control_flow_timing(JumpCondition::Zero, 0, offset);
            lemma_relative(cpu, mmu, fuel, offset);
        },
        Instruction::JumpRelative { condition: Some(cond), offset } => {
            law_control_flow_timing(cond, 0, offset);
            if condition_holds(flags, cond) {
                lemma_relative_taken(cpu, mmu, fuel, cond, offset);
            } else {
                lemma_relative_not_taken(cpu, mmu, fuel, cond, offset);
            }
        },
        Instruction::JumpRegister16 { reg } => {
            assert(cycles(Instruction::JumpRegister16 { reg }, true) == 1);
            lemma_register_jump(cpu, mmu, fuel, reg);
        },
        Instruction::CallAddr { condition: None, addr } => {
            law_control_flow_timing(JumpCondition::Zero, addr, 0);
            lemma_call_always(cpu, mmu, fuel, addr);
        },
        Instruction::CallAddr { condition: Some(cond), addr } => {
            law_control_flow_timing(cond, addr, 0);
            if condition_holds(flags, cond) {
                lemma_call_taken(cpu, mmu, fuel, cond, addr);
            } else {
                lemma_call_not_taken(cpu, mmu, fuel, cond, addr);
            }
        },
        Instruction::Reset { offset } => {
            law_control_flow_timing(JumpCondition::Zero, offset, 0);
            lemma_restart(cpu, mmu, fuel, offset);
        },
        Instruction::Return { condition: None } => {
            law_control_flow_timing(JumpCondition::Zero, 0, 0);
            lemma_return_always(cpu, mmu, fuel);
        },
        Instruction::Return { condition: Some(cond) } => {
            law_control_flow_timing(cond, 0, 0);
            if condition_holds(flags, cond) {
                lemma_return_taken(cpu, mmu, fuel, cond);
            } else {
                lemma_return_not_taken(cpu, mmu, fuel, cond);
            }
        },
        Instruction::ReturnInterrupt => {
            law_control_flow_timing(JumpCondition::Zero, 0, 0);
            lemma_return_from_interrupt(cpu, mmu, fuel);
        },
        _ => {},
    }
}

/// The address behind the instruction that the CPU decodes in its next
/// machine cycle.
pub open spec fn address_behind(cpu: CpuView, mmu: MmuView) -> u16 {
    advanced(cpu.regs.pc, instruction_length(decoding_memory(cpu, mmu).read(cpu.regs.pc)))
}

/// The program counter after an instruction. Let the CPU, with its queue
/// empty, decode an instruction in its next machine cycle, and let
/// machine cycles follow, timers running, until the queue is empty
/// again, without a fault. Then the queue is empty after as many cycles
/// as the instruction takes, and `PC` stands behind the instruction if
/// it did not jump, and at the target of the jump if it did: at the
/// address that a jump, call or restart names, at the offset of a
/// relative jump from behind it, at the value of `HL`, or at the address
/// that a return pops.
pub proof fn law_pc_after_instruction(cpu: CpuView, mmu: MmuView, fuel: nat)
    requires
        decodes(cpu, mmu),
        fuel >= cycles(
            next_instruction(cpu, mmu),
            next_instruction(cpu, mmu).jumps(cpu.regs.flags),
        ),
        until_idle(cpu, mmu, fuel).fault is None,
    ensures
        until_idle(cpu, mmu, fuel).cpu.pipeline.len() == 0,
        until_idle(cpu, mmu, fuel).cpu.regs.pc == if next_instruction(cpu, mmu).jumps(
            cpu.regs.flags,
        ) {
            target(
                next_instruction(cpu, mmu),
                cpu.with_pc(address_behind(cpu, mmu)).regs,
                decoding_memory(cpu, mmu),
            )
        } else {
            address_behind(cpu, mmu)
        },
{
    let memory = decoding_memory(cpu, mmu);
    let pc = cpu.regs.pc;
    let instruction = next_instruction(cpu, mmu);
    if !instruction.is_control() {
        law_decoded_instructions_spare_pc(
            memory.read(pc),
            memory.read(advanced(pc, 1)),
            memory.read(advanced(pc, 2)),
        );
        lemma_expansion_is_quiet(instruction);
        lemma_takes_cycles(instruction);
        let ops = instruction.micro_ops();
        assert(ops.last() == ops[ops.len() - 1]);
        assert(ops[ops.len() - 1] is Plain);
        lemma_no_jump(cpu, mmu, fuel);
    } else {
        lemma_control(cpu, mmu, fuel);
    }
}

/// The program counter and jumps, over machine cycles. Under the
/// conditions of [`law_pc_after_instruction`], `PC` has advanced by the
/// length of the instruction if and only if the instruction did not
/// jump. A jump to the address right behind itself is left out: it
/// cannot be told from no jump.
pub proof fn law_pc_advances_iff_no_jump_taken(cpu: CpuView, mmu: MmuView, fuel: nat)
    requires
        decodes(cpu, mmu),
        fuel >= cycles(
            next_instruction(cpu, mmu),
            next_instruction(cpu, mmu).jumps(cpu.regs.flags),
        ),
        until_idle(cpu, mmu, fuel).fault is None,
        next_instruction(cpu, mmu).jumps(cpu.regs.flags) ==> target(
            next_instruction(cpu, mmu),
            cpu.with_pc(address_behind(cpu, mmu)).regs,
            decoding_memory(cpu, mmu),
        ) != address_behind(cpu, mmu),
    ensures
        until_idle(cpu, mmu, fuel).cpu.regs.pc == address_behind(cpu, mmu)
            <==> !next_instruction(cpu, mmu).jumps(cpu.regs.flags),
{
    law_pc_after_instruction(cpu, mmu, fuel);
}

} // verus!
