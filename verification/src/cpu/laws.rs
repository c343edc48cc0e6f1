//! What holds of every instruction and every micro-operation.

use vstd::prelude::*;
use super::decode::{advanced, decode, decode_at, instruction_length};
use super::flags::Flags;
use super::instruction::{only, Instruction, JumpCondition, PrePostOperation};
use super::micro_op::{
    delayed, plain, Destination8Bits, MicroOp, MicroOpModel, Reg8OrIndirect, Source8bits,
};
use super::register::{Register16, Register8, Registers};
use super::semantics::{
    condition_holds, execute, execute_arithmetic, execute_bits, execute_control, execute_plain,
    execute_transfer, fetch, fine, step, target_value, Outcome,
};
use super::CpuView;
use crate::bits::bit_set;
use crate::memory::mmu::MmuView;

verus! {

/// A byte without a remainder modulo 16 has no bit in its low nibble.
proof fn lemma_low_nibble(byte: u8)
    by (bit_vector)
    requires
        byte % 16 == 0,
    ensures
        byte & 0x0F == 0,
{
}

/// The low nibble of `F` is zero after every machine cycle, whatever the
/// CPU did in it, and after every micro-operation.
pub proof fn law_flags_low_nibble_is_zero(cpu: CpuView, mmu: MmuView, op: MicroOpModel)
    ensures
        step(cpu, mmu).cpu.regs.load8(Register8::Flags) & 0x0F == 0,
        execute(cpu, mmu, op).cpu.regs.load8(Register8::Flags) & 0x0F == 0,
        step(cpu, mmu).cpu.regs.load16(Register16::AF) % 16 == 0,
{
    lemma_low_nibble(step(cpu, mmu).cpu.regs.load8(Register8::Flags));
    lemma_low_nibble(execute(cpu, mmu, op).cpu.regs.load8(Register8::Flags));
}

/// The bit test `BIT b, r`: Z is set if and only if bit `b` of the
/// operand is 0, N is cleared, H is set, and C is unchanged. Nothing else
/// changes, and no fault is met.
pub proof fn law_bit_test(cpu: CpuView, mmu: MmuView, target: Reg8OrIndirect, bit: u8)
    requires
        bit < 8,
    ensures
        ({
            let after = execute_plain(cpu, mmu, MicroOp::BitTest { reg: target, bit });
            let flags = after.cpu.regs.flags;
            &&& flags.zero <==> !bit_set(target_value(cpu.regs, mmu, target), bit)
            &&& !flags.negative
            &&& flags.half_carry
            &&& flags.carry == cpu.regs.flags.carry
            &&& after.cpu == cpu.with_regs(Registers { flags, ..cpu.regs })
            &&& after.mmu == mmu
            &&& after.fault is None
        }),
{
    reveal(execute_bits);
}

/// The instruction `BIT b, r` on a register is one idle cycle and the
/// bit test; on `(HL)` it is two idle cycles and the bit test.
pub proof fn law_bit_test_expansion(reg: Register8, addr: Register16, bit: u8)
    ensures
        (Instruction::BitTest { reg, bit }).micro_ops() == delayed(
            1,
            only(MicroOp::BitTest { reg: Reg8OrIndirect::Reg8(reg), bit }),
        ),
        (Instruction::BitTestIndirect { addr, bit }).micro_ops() == delayed(
            2,
            only(MicroOp::BitTest { reg: Reg8OrIndirect::Indirect(addr), bit }),
        ),
{
}

/// The 16-bit increments and decrements of `BC`, `DE`, `HL` and `SP`
/// never touch the flags, and they wrap around.
pub proof fn law_16_bit_counting_keeps_flags(cpu: CpuView, mmu: MmuView, reg: Register16)
    requires
        reg != Register16::AF,
    ensures
        execute_plain(cpu, mmu, MicroOp::IncReg16 { reg }).cpu.regs.flags == cpu.regs.flags,
        execute_plain(cpu, mmu, MicroOp::DecReg16 { reg }).cpu.regs.flags == cpu.regs.flags,
        execute_plain(cpu, mmu, MicroOp::IncReg16 { reg }).cpu.regs.load16(reg) == advanced(
            cpu.regs.load16(reg),
            1,
        ),
        execute_plain(cpu, mmu, MicroOp::DecReg16 { reg }).cpu.regs.load16(reg) == advanced(
            cpu.regs.load16(reg),
            -1,
        ),
{
    reveal(execute_transfer);
}

/// The number of machine cycles of an instruction whose condition, if it
/// has one, holds or does not hold.
pub open spec fn cycles(instruction: Instruction, condition_met: bool) -> nat {
    let ops = instruction.micro_ops();
    match ops.last() {
        MicroOpModel::Branch { taken, skipped, .. } => if condition_met {
            ops.len() + taken.len()
        } else {
            ops.len() + skipped.len()
        },
        MicroOpModel::Plain(_) => ops.len(),
    }
}

/// The timing of jumps, calls and returns: an absolute jump takes 4
/// machine cycles and 3 when its condition fails; a relative jump 3 and
/// 2; a call 6 and 3; a return 4, or 5 and 2 with a condition; a return
/// from interrupt 4; a restart 4; a jump to `HL` 1.
pub proof fn law_control_flow_timing(condition: JumpCondition, addr: u16, offset: i8)
    ensures
        cycles(Instruction::JumpAbsolute { condition: None, addr }, true) == 4,
        cycles(Instruction::JumpAbsolute { condition: Some(condition), addr }, true) == 4,
        cycles(Instruction::JumpAbsolute { condition: Some(condition), addr }, false) == 3,
        cycles(Instruction::JumpRelative { condition: None, offset }, true) == 3,
        cycles(Instruction::JumpRelative { condition: Some(condition), offset }, true) == 3,
        cycles(Instruction::JumpRelative { condition: Some(condition), offset }, false) == 2,
        cycles(Instruction::CallAddr { condition: None, addr }, true) == 6,
        cycles(Instruction::CallAddr { condition: Some(condition), addr }, true) == 6,
        cycles(Instruction::CallAddr { condition: Some(condition), addr }, false) == 3,
        cycles(Instruction::Return { condition: None }, true) == 4,
        cycles(Instruction::Return { condition: Some(condition) }, true) == 5,
        cycles(Instruction::Return { condition: Some(condition) }, false) == 2,
        cycles(Instruction::ReturnInterrupt, true) == 4,
        cycles(Instruction::Reset { offset: addr }, true) == 4,
        cycles(Instruction::JumpRegister16 { reg: Register16::HL }, true) == 1,
{
}

/// The timing of loads: between registers 1 machine cycle; of a literal
/// 2; through `(HL)` 2; of a literal to `(HL)` 3; from and to the high
/// page 3, or 2 through `C`; from and to an absolute address 4; of a
/// 16-bit literal 3; of `SP` to memory 5; a push 4 and a pop 3.
pub proof fn law_load_timing(
    reg: Register8,
    src: Register8,
    pair: Register16,
    literal: u8,
    wide: u16,
    addr: u16,
)
    ensures
        cycles(Instruction::Move { dest: reg, src }, true) == 1,
        cycles(Instruction::LoadLiteralIntoReg8 { reg, literal }, true) == 2,
        cycles(
            Instruction::ReadIndirectToReg8 { reg, addr: Register16::HL, post_op: None },
            true,
        ) == 2,
        cycles(
            Instruction::WriteReg8ValueAtIndirect { addr: Register16::HL, reg, post_op: None },
            true,
        ) == 2,
        cycles(Instruction::WriteLiteralAtIndirect { addr: Register16::HL, literal }, true) == 3,
        cycles(
            Instruction::ReadZeroPageOffsetLiteralToReg8 { lit_offset: literal, reg },
            true,
        ) == 3,
        cycles(
            Instruction::WriteReg8ValueAtZeroPageOffsetLiteral { lit_offset: literal, reg },
            true,
        ) == 3,
        cycles(Instruction::ReadZeroPageOffsetReg8ToReg8 { offset: src, reg }, true) == 2,
        cycles(Instruction::WriteReg8ValueAtZeroPageOffsetReg8 { reg_offset: src, reg }, true)
            == 2,
        cycles(Instruction::ReadAtAddressToReg8 { reg, addr }, true) == 4,
        cycles(Instruction::WriteReg8ValueAtAddress { addr, reg }, true) == 4,
        cycles(Instruction::LoadLiteralIntoReg16 { reg: pair, literal: wide }, true) == 3,
        cycles(Instruction::WriteReg16ValueAtAddress { addr, reg: pair }, true) == 5,
        cycles(Instruction::PushReg16 { reg: pair }, true) == 4,
        cycles(Instruction::PopReg16 { reg: pair }, true) == 3,
{
}

/// One micro-operation per machine cycle. While the queue is not empty,
/// a machine cycle lets the timers run, unless the CPU is stopped, and
/// carries out the micro-operation at the head of the queue: nothing is
/// polled and nothing decoded.
pub proof fn law_one_micro_op_per_cycle(cpu: CpuView, mmu: MmuView)
    requires
        cpu.pipeline.len() > 0,
    ensures
        step(cpu, mmu) == execute(
            CpuView { pipeline: cpu.pipeline.drop_first(), ..cpu },
            super::semantics::clocked(cpu, mmu),
            cpu.pipeline[0],
        ),
{
    reveal(super::semantics::prepared);
}

/// The outcome of carrying out the queue of `cpu` one micro-operation
/// after the other, until it is empty, a fault is met, or `fuel`
/// micro-operations are done. Timers and interrupts do not run.
pub open spec fn drained(cpu: CpuView, mmu: MmuView, fuel: nat) -> Outcome
    decreases fuel,
{
    if fuel == 0 || cpu.pipeline.len() == 0 {
        fine(cpu, mmu)
    } else {
        let next = execute(
            CpuView { pipeline: cpu.pipeline.drop_first(), ..cpu },
            mmu,
            cpu.pipeline[0],
        );
        if next.fault is Some {
            next
        } else {
            drained(next.cpu, next.mmu, (fuel - 1) as nat)
        }
    }
}

/// Whether an 8-bit register is half of `PC`.
pub open spec fn half_of_pc(reg: Register8) -> bool {
    reg == Register8::PCHigh || reg == Register8::PCLow
}

/// Whether a micro-operation names `PC` nowhere that it writes.
pub open spec fn avoids_pc(op: MicroOp) -> bool {
    match op {
        MicroOp::Move8Bits { destination: Destination8Bits::Register(reg), .. } => !half_of_pc(
            reg,
        ),
        MicroOp::Move16Bits { destination, .. } => destination != Register16::PC,
        MicroOp::LoadReg16Lit { reg, .. } => reg != Register16::PC,
        MicroOp::AddOffsetToReg16IntoReg16 { dest, .. } => dest != Register16::PC,
        MicroOp::WriteMem { addr, .. } => addr != Register16::PC,
        MicroOp::ReadMem { reg, addr, .. } => !half_of_pc(reg) && addr != Register16::PC,
        MicroOp::IncReg16 { reg } => reg != Register16::PC,
        MicroOp::DecReg16 { reg } => reg != Register16::PC,
        MicroOp::ResetBit { reg: Reg8OrIndirect::Reg8(reg), .. } => !half_of_pc(reg),
        MicroOp::SetBit { reg: Reg8OrIndirect::Reg8(reg), .. } => !half_of_pc(reg),
        MicroOp::Inc { reg: Reg8OrIndirect::Reg8(reg) } => !half_of_pc(reg),
        MicroOp::Dec { reg: Reg8OrIndirect::Reg8(reg) } => !half_of_pc(reg),
        MicroOp::RotateLeftThroughCarry { reg: Reg8OrIndirect::Reg8(reg), .. } => !half_of_pc(
            reg,
        ),
        MicroOp::RotateRightThroughCarry { reg: Reg8OrIndirect::Reg8(reg), .. } => !half_of_pc(
            reg,
        ),
        MicroOp::RotateLeft { reg: Reg8OrIndirect::Reg8(reg), .. } => !half_of_pc(reg),
        MicroOp::RotateRight { reg: Reg8OrIndirect::Reg8(reg), .. } => !half_of_pc(reg),
        MicroOp::ShiftLeftIntoCarry { reg: Reg8OrIndirect::Reg8(reg) } => !half_of_pc(reg),
        MicroOp::ShiftRightWithZeroIntoCarry { reg: Reg8OrIndirect::Reg8(reg) } => !half_of_pc(
            reg,
        ),
        MicroOp::ShiftRightWithSignIntoCarry { reg: Reg8OrIndirect::Reg8(reg) } => !half_of_pc(
            reg,
        ),
        MicroOp::SwapReg8 { reg: Reg8OrIndirect::Reg8(reg) } => !half_of_pc(reg),
        _ => true,
    }
}

/// Whether a queue holds nothing but micro-operations that do not branch
/// and do not write `PC`.
pub open spec fn quiet(ops: Seq<MicroOpModel>) -> bool {
    forall|i: int|
        0 <= i < ops.len() ==> (#[trigger] ops[i]) is Plain && avoids_pc(ops[i]->Plain_0)
}

impl Instruction {
    /// Whether the instruction, carried out under `flags`, continues
    /// somewhere else than behind itself: it is a jump, and its
    /// condition, if it has one, holds.
    pub open spec fn jumps(self, flags: Flags) -> bool {
        match self {
            Instruction::JumpAbsolute { condition: Some(condition), .. } => condition_holds(
                flags,
                condition,
            ),
            Instruction::JumpRelative { condition: Some(condition), .. } => condition_holds(
                flags,
                condition,
            ),
            Instruction::CallAddr { condition: Some(condition), .. } => condition_holds(
                flags,
                condition,
            ),
            Instruction::Return { condition: Some(condition) } => condition_holds(flags, condition),
            _ => self.is_control(),
        }
    }

    /// Whether the instruction names `PC` in none of its operands. The
    /// decoder produces no other.
    pub open spec fn spares_pc(self) -> bool {
        match self {
            Instruction::Move { dest, .. } => !half_of_pc(dest),
            Instruction::Move16Bits { dest, .. } => dest != Register16::PC,
            Instruction::LoadLiteralIntoReg8 { reg, .. } => !half_of_pc(reg),
            Instruction::LoadLiteralIntoReg16 { reg, .. } => reg != Register16::PC,
            Instruction::LoadAddressOffsetIntoReg16 { dest, .. } => dest != Register16::PC,
            Instruction::AddOffsetToReg16 { reg, .. } => reg != Register16::PC,
            Instruction::WriteReg8ValueAtIndirect { addr, .. } => addr != Register16::PC,
            Instruction::ReadIndirectToReg8 { reg, addr, .. } => !half_of_pc(reg) && addr
                != Register16::PC,
            Instruction::ReadAtAddressToReg8 { reg, .. } => !half_of_pc(reg),
            Instruction::ReadZeroPageOffsetLiteralToReg8 { reg, .. } => !half_of_pc(reg),
            Instruction::ReadZeroPageOffsetReg8ToReg8 { reg, .. } => !half_of_pc(reg),
            Instruction::PopReg16 { reg } => reg != Register16::PC,
            Instruction::ResetBit { reg, .. } => !half_of_pc(reg),
            Instruction::SetBit { reg, .. } => !half_of_pc(reg),
            Instruction::IncReg16 { reg } => reg != Register16::PC,
            Instruction::IncReg8 { reg } => !half_of_pc(reg),
            Instruction::DecReg16 { reg } => reg != Register16::PC,
            Instruction::DecReg8 { reg } => !half_of_pc(reg),
            Instruction::RotateLeftThroughCarry { reg } => !half_of_pc(reg),
            Instruction::RotateRightThroughCarry { reg } => !half_of_pc(reg),
            Instruction::RotateLeft { reg } => !half_of_pc(reg),
            Instruction::RotateRight { reg } => !half_of_pc(reg),
            Instruction::ShiftLeftIntoCarry { reg } => !half_of_pc(reg),
            Instruction::ShiftRightWithZeroIntoCarry { reg } => !half_of_pc(reg),
            Instruction::ShiftRightWithSignIntoCarry { reg } => !half_of_pc(reg),
            Instruction::SwapReg8 { reg } => !half_of_pc(reg),
            _ => true,
        }
    }
}

/// Loads, stores and 16-bit counting that avoid `PC` leave it alone.
proof fn lemma_transfers_keep_pc(cpu: CpuView, mmu: MmuView, op: MicroOp)
    requires
        avoids_pc(op),
        op.is_transfer(),
    ensures
        execute_plain(cpu, mmu, op).cpu.regs.pc == cpu.regs.pc,
        execute_plain(cpu, mmu, op).cpu.pipeline == cpu.pipeline,
{
    reveal(execute_transfer);
}

/// Arithmetic and logic that avoid `PC` leave it alone.
proof fn lemma_arithmetic_keeps_pc(cpu: CpuView, mmu: MmuView, op: MicroOp)
    requires
        avoids_pc(op),
        op.is_arithmetic(),
    ensures
        execute_plain(cpu, mmu, op).cpu.regs.pc == cpu.regs.pc,
        execute_plain(cpu, mmu, op).cpu.pipeline == cpu.pipeline,
{
    reveal(execute_arithmetic);
}

/// Whether an operand is not a half of `PC`.
pub open spec fn target_avoids_pc(target: Reg8OrIndirect) -> bool {
    match target {
        Reg8OrIndirect::Reg8(reg) => !half_of_pc(reg),
        Reg8OrIndirect::Indirect(_) => true,
    }
}

/// A result stored in an operand that is not a half of `PC` leaves `PC`
/// and the queue alone.
proof fn lemma_modified_keeps_pc(
    cpu: CpuView,
    mmu: MmuView,
    target: Reg8OrIndirect,
    result: super::alu::Alu8,
)
    requires
        target_avoids_pc(target),
    ensures
        super::semantics::modified(cpu, mmu, target, result).cpu.regs.pc == cpu.regs.pc,
        super::semantics::modified(cpu, mmu, target, result).cpu.pipeline == cpu.pipeline,
        super::semantics::store_target(cpu, mmu, target, result.value).cpu.regs.pc
            == cpu.regs.pc,
        super::semantics::store_target(cpu, mmu, target, result.value).cpu.pipeline
            == cpu.pipeline,
{
}

/// Bit operations, rotations and shifts that avoid `PC` leave it alone.
proof fn lemma_bits_keep_pc(cpu: CpuView, mmu: MmuView, op: MicroOp)
    requires
        avoids_pc(op),
        op.is_bits(),
    ensures
        execute_plain(cpu, mmu, op).cpu.regs.pc == cpu.regs.pc,
        execute_plain(cpu, mmu, op).cpu.pipeline == cpu.pipeline,
{
    assert forall|target: Reg8OrIndirect, result: super::alu::Alu8|
        target_avoids_pc(target) implies (#[trigger] super::semantics::modified(
        cpu,
        mmu,
        target,
        result,
    )).cpu.regs.pc == cpu.regs.pc && super::semantics::modified(
        cpu,
        mmu,
        target,
        result,
    ).cpu.pipeline == cpu.pipeline by {
        lemma_modified_keeps_pc(cpu, mmu, target, result);
    }
    assert forall|target: Reg8OrIndirect, value: u8|
        target_avoids_pc(target) implies (#[trigger] super::semantics::store_target(
        cpu,
        mmu,
        target,
        value,
    )).cpu.regs.pc == cpu.regs.pc && super::semantics::store_target(
        cpu,
        mmu,
        target,
        value,
    ).cpu.pipeline == cpu.pipeline by {
        lemma_modified_keeps_pc(
            cpu,
            mmu,
            target,
            super::alu::Alu8 { value, flags: cpu.regs.flags },
        );
    }
    match op {
        MicroOp::BitTest { .. } => {
            reveal(execute_bits);
        },
        MicroOp::ResetBit { reg, .. } => {
            assert(target_avoids_pc(reg));
            reveal(execute_bits);
        },
        MicroOp::SetBit { reg, .. } => {
            assert(target_avoids_pc(reg));
            reveal(execute_bits);
        },
        MicroOp::RotateLeftThroughCarry { reg, .. } => {
            assert(target_avoids_pc(reg));
            reveal(execute_bits);
        },
        MicroOp::RotateRightThroughCarry { reg, .. } => {
            assert(target_avoids_pc(reg));
            reveal(execute_bits);
        },
        MicroOp::RotateLeft { reg, .. } => {
            assert(target_avoids_pc(reg));
            reveal(execute_bits);
        },
        MicroOp::RotateRight { reg, .. } => {
            assert(target_avoids_pc(reg));
            reveal(execute_bits);
        },
        MicroOp::ShiftLeftIntoCarry { reg } => {
            assert(target_avoids_pc(reg));
            reveal(execute_bits);
        },
        MicroOp::ShiftRightWithZeroIntoCarry { reg } => {
            assert(target_avoids_pc(reg));
            reveal(execute_bits);
        },
        MicroOp::ShiftRightWithSignIntoCarry { reg } => {
            assert(target_avoids_pc(reg));
            reveal(execute_bits);
        },
        MicroOp::SwapReg8 { reg } => {
            assert(target_avoids_pc(reg));
            reveal(execute_bits);
        },
        _ => {},
    }
}

/// A micro-operation that avoids `PC` leaves it alone, and leaves the
/// queue alone.
pub(crate) proof fn lemma_avoiding_keeps_pc(cpu: CpuView, mmu: MmuView, op: MicroOp)
    requires
        avoids_pc(op),
    ensures
        execute_plain(cpu, mmu, op).cpu.regs.pc == cpu.regs.pc,
        execute_plain(cpu, mmu, op).cpu.pipeline == cpu.pipeline,
{
    if op.is_transfer() {
        lemma_transfers_keep_pc(cpu, mmu, op);
    } else if op.is_arithmetic() {
        lemma_arithmetic_keeps_pc(cpu, mmu, op);
    } else if op.is_bits() {
        lemma_bits_keep_pc(cpu, mmu, op);
    } else {
        reveal(execute_control);
    }
}

/// Carrying out a quiet queue leaves `PC` alone.
proof fn lemma_quiet_queue_keeps_pc(cpu: CpuView, mmu: MmuView, fuel: nat)
    requires
        quiet(cpu.pipeline),
    ensures
        drained(cpu, mmu, fuel).cpu.regs.pc == cpu.regs.pc,
    decreases fuel,
{
    if fuel > 0 && cpu.pipeline.len() > 0 {
        let head = cpu.pipeline[0];
        let rest = CpuView { pipeline: cpu.pipeline.drop_first(), ..cpu };
        assert(head is Plain && avoids_pc(head->Plain_0));
        lemma_avoiding_keeps_pc(rest, mmu, head->Plain_0);
        let next = execute(rest, mmu, head);
        assert forall|i: int| 0 <= i < rest.pipeline.len() implies (#[trigger] rest.pipeline[i])
            is Plain && avoids_pc(rest.pipeline[i]->Plain_0) by {
            assert(rest.pipeline[i] == cpu.pipeline[i + 1]);
        }
        if next.fault is None {
            lemma_quiet_queue_keeps_pc(next.cpu, next.mmu, (fuel - 1) as nat);
        }
    }
}

/// Idle cycles in front of a quiet queue keep it quiet.
proof fn lemma_delayed_is_quiet(cycles: nat, ops: Seq<MicroOpModel>)
    requires
        quiet(ops),
    ensures
        quiet(delayed(cycles, ops)),
{
    let all = delayed(cycles, ops);
    assert forall|i: int| 0 <= i < all.len() implies (#[trigger] all[i]) is Plain && avoids_pc(
        all[i]->Plain_0,
    ) by {
        if i >= cycles {
            assert(all[i] == ops[i - cycles]);
        }
    }
}

/// A single micro-operation that avoids `PC` is a quiet queue.
proof fn lemma_only_is_quiet(op: MicroOp)
    requires
        avoids_pc(op),
    ensures
        quiet(only(op)),
{
}

/// Whether every micro-operation of `ops` avoids `PC`.
pub open spec fn all_avoid_pc(ops: Seq<MicroOp>) -> bool {
    forall|i: int| 0 <= i < ops.len() ==> avoids_pc(#[trigger] ops[i])
}

/// Micro-operations that avoid `PC` are a quiet queue.
pub(crate) proof fn lemma_plain_is_quiet(ops: Seq<MicroOp>)
    requires
        all_avoid_pc(ops),
    ensures
        quiet(plain(ops)),
{
}

/// What the lemmas above say, for every queue at once.
proof fn lemma_quiet_queues()
    ensures
        forall|op: MicroOp| avoids_pc(op) ==> quiet(#[trigger] only(op)),
        forall|ops: Seq<MicroOp>| all_avoid_pc(ops) ==> quiet(#[trigger] plain(ops)),
        forall|cycles: nat, ops: Seq<MicroOpModel>|
            quiet(ops) ==> quiet(#[trigger] delayed(cycles, ops)),
{
    assert forall|op: MicroOp| avoids_pc(op) implies quiet(#[trigger] only(op)) by {
        lemma_only_is_quiet(op);
    }
    assert forall|ops: Seq<MicroOp>| all_avoid_pc(ops) implies quiet(#[trigger] plain(ops)) by {
        lemma_plain_is_quiet(ops);
    }
    assert forall|cycles: nat, ops: Seq<MicroOpModel>| quiet(ops) implies quiet(
        #[trigger] delayed(cycles, ops),
    ) by {
        lemma_delayed_is_quiet(cycles, ops);
    }
}

proof fn lemma_transfer_is_quiet(instruction: Instruction)
    requires
        instruction.spares_pc(),
        instruction.is_transfer(),
    ensures
        quiet(instruction.micro_ops()),
{
    lemma_quiet_queues();
}

proof fn lemma_accumulator_is_quiet(instruction: Instruction)
    requires
        instruction.spares_pc(),
        instruction.is_accumulator(),
    ensures
        quiet(instruction.micro_ops()),
{
    lemma_quiet_queues();
}

proof fn lemma_counting_is_quiet(instruction: Instruction)
    requires
        instruction.spares_pc(),
        instruction.is_counting(),
    ensures
        quiet(instruction.micro_ops()),
{
    lemma_quiet_queues();
}

proof fn lemma_bits_is_quiet(instruction: Instruction)
    requires
        instruction.spares_pc(),
        instruction.is_bits(),
    ensures
        quiet(instruction.micro_ops()),
{
    lemma_quiet_queues();
}

proof fn lemma_rotation_is_quiet(instruction: Instruction)
    requires
        instruction.spares_pc(),
        instruction.is_rotation(),
    ensures
        quiet(instruction.micro_ops()),
{
    lemma_quiet_queues();
}

proof fn lemma_shift_is_quiet(instruction: Instruction)
    requires
        instruction.spares_pc(),
        instruction.is_shift(),
    ensures
        quiet(instruction.micro_ops()),
{
    lemma_quiet_queues();
}

/// The expansion of an instruction that is no jump and spares `PC` is a
/// quiet queue.
pub(crate) proof fn lemma_expansion_is_quiet(instruction: Instruction)
    requires
        instruction.spares_pc(),
        !instruction.is_control(),
    ensures
        quiet(instruction.micro_ops()),
{
    if instruction.is_transfer() {
        lemma_transfer_is_quiet(instruction);
    } else if instruction.is_accumulator() {
        lemma_accumulator_is_quiet(instruction);
    } else if instruction.is_counting() {
        lemma_counting_is_quiet(instruction);
    } else if instruction.is_bits() {
        lemma_bits_is_quiet(instruction);
    } else if instruction.is_rotation() {
        lemma_rotation_is_quiet(instruction);
    } else {
        lemma_shift_is_quiet(instruction);
    }
}

proof fn lemma_operands_spare_pc(index: u8)
    ensures
        match super::decode::operand(index) {
            Reg8OrIndirect::Reg8(reg) => !half_of_pc(reg),
            Reg8OrIndirect::Indirect(addr) => addr == Register16::HL,
        },
        super::decode::register_pair(index) != Register16::PC,
        super::decode::stack_pair(index) != Register16::PC,
        super::decode::pointer(index) != Register16::PC,
{
}

proof fn lemma_block0_spares_pc(y: u8, z: u8, b1: u8, b2: u8)
    ensures
        super::decode::decode_block0(y, z, b1, b2).spares_pc(),
        super::decode::decode_block0(y, z, b1, b2).well_formed(),
{
    lemma_operands_spare_pc(y);
    lemma_operands_spare_pc(y / 2);
}

proof fn lemma_block1_spares_pc(y: u8, z: u8)
    ensures
        super::decode::decode_block1(y, z).spares_pc(),
        super::decode::decode_block1(y, z).well_formed(),
{
    lemma_operands_spare_pc(y);
    lemma_operands_spare_pc(z);
}

proof fn lemma_accumulator_spares_pc(kind: u8, rhs: Source8bits)
    ensures
        super::decode::accumulator_instruction(kind, rhs).spares_pc(),
        super::decode::accumulator_instruction(kind, rhs).well_formed(),
{
}

proof fn lemma_prefixed_spares_pc(opcode: u8)
    ensures
        super::decode::decode_prefixed(opcode).spares_pc(),
        super::decode::decode_prefixed(opcode).well_formed(),
{
    lemma_operands_spare_pc(opcode % 8);
}

proof fn lemma_block3_spares_pc(y: u8, z: u8, b1: u8, b2: u8)
    ensures
        match super::decode::decode_block3(y, z, b1, b2) {
            Some(instruction) => instruction.spares_pc() && instruction.well_formed(),
            None => true,
        },
{
    lemma_operands_spare_pc(y / 2);
    lemma_prefixed_spares_pc(b1);
    lemma_accumulator_spares_pc(y, Source8bits::Literal(b1));
}

/// The decoder produces no instruction that names `PC` in an operand,
/// and none that splits `PC` into halves.
pub proof fn law_decoded_instructions_spare_pc(opcode: u8, b1: u8, b2: u8)
    ensures
        match decode(opcode, b1, b2) {
            Some(instruction) => instruction.spares_pc() && instruction.well_formed(),
            None => true,
        },
{
    let x = opcode / 64;
    let y = (opcode / 8) % 8;
    let z = opcode % 8;
    if x == 0 {
        lemma_block0_spares_pc(y, z, b1, b2);
    } else if x == 1 {
        lemma_block1_spares_pc(y, z);
    } else if x == 2 {
        lemma_accumulator_spares_pc(y, super::decode::as_source(super::decode::operand(z)));
    } else {
        lemma_block3_spares_pc(y, z, b1, b2);
    }
}

/// Carrying out a queue that starts with `cycles` idle cycles: the idle
/// cycles change nothing but the queue.
proof fn lemma_idle_cycles(cpu: CpuView, mmu: MmuView, fuel: nat, cycles: nat, rest: Seq<MicroOpModel>)
    requires
        cpu.pipeline == delayed(cycles, rest),
    ensures
        drained(cpu, mmu, fuel) == if fuel <= cycles {
            fine(CpuView { pipeline: delayed((cycles - fuel) as nat, rest), ..cpu }, mmu)
        } else {
            drained(CpuView { pipeline: rest, ..cpu }, mmu, (fuel - cycles) as nat)
        },
    decreases cycles,
{
    if cycles == 0 {
        assert(delayed(0, rest) =~= rest);
        assert(cpu == CpuView { pipeline: rest, ..cpu });
        if fuel == 0 {
        }
    } else if fuel == 0 {
        assert(cpu == CpuView { pipeline: delayed(cycles, rest), ..cpu });
    } else {
        let next = CpuView { pipeline: cpu.pipeline.drop_first(), ..cpu };
        assert(cpu.pipeline[0] == MicroOpModel::Plain(MicroOp::NOP));
        assert(next.pipeline =~= delayed((cycles - 1) as nat, rest));
        assert(execute(next, mmu, cpu.pipeline[0]) == fine(next, mmu)) by {
            reveal(execute_transfer);
        }
        lemma_idle_cycles(next, mmu, (fuel - 1) as nat, (cycles - 1) as nat, rest);
    }
}

/// Carrying out a conditional jump, call or return whose condition does
/// not hold leaves `PC` alone.
proof fn lemma_failed_condition_keeps_pc(
    cpu: CpuView,
    mmu: MmuView,
    fuel: nat,
    instruction: Instruction,
)
    requires
        instruction.is_control(),
        !instruction.jumps(cpu.regs.flags),
        cpu.pipeline == instruction.micro_ops(),
    ensures
        drained(cpu, mmu, fuel).cpu.regs.pc == cpu.regs.pc,
{
    let (cycles, rest): (nat, Seq<MicroOpModel>) = match instruction {
        Instruction::CallAddr { condition: Some(cond), addr } => (
            2,
            super::instruction::branch(cond, super::instruction::call_ops(addr), seq![]),
        ),
        Instruction::Return { condition: Some(cond) } => (
            1,
            super::instruction::branch(
                cond,
                seq![MicroOp::NOP] + super::instruction::return_ops(),
                seq![],
            ),
        ),
        Instruction::JumpRelative { condition: Some(cond), offset } => (
            1,
            super::instruction::branch(
                cond,
                seq![super::micro_op::jump_relative_op(offset)],
                seq![],
            ),
        ),
        Instruction::JumpAbsolute { condition: Some(cond), addr } => (
            1,
            super::instruction::branch(
                cond,
                super::instruction::jump_ops(addr),
                seq![MicroOp::NOP],
            ),
        ),
        _ => (0, Seq::empty()),
    };
    assert(cpu.pipeline == delayed(cycles, rest));
    lemma_idle_cycles(cpu, mmu, fuel, cycles, rest);
    if fuel > cycles {
        let at_branch = CpuView { pipeline: rest, ..cpu };
        let after_branch = execute(
            CpuView { pipeline: rest.drop_first(), ..at_branch },
            mmu,
            rest[0],
        );
        assert(rest.drop_first() =~= Seq::<MicroOpModel>::empty());
        assert(quiet(after_branch.cpu.pipeline)) by {
            assert(forall|ops: Seq<MicroOpModel>| ops + Seq::<MicroOpModel>::empty() =~= ops);
        }
        lemma_quiet_queue_keeps_pc(after_branch.cpu, after_branch.mmu, (fuel - cycles - 1) as nat);
    }
}

/// The program counter without a jump. When the CPU decodes an
/// instruction that does not jump (no jump, call, return or restart, or
/// one whose condition fails) and carries out its micro-operations,
/// `PC` stands behind the instruction from the decoding on: it has
/// advanced by the length of the instruction, and no micro-operation
/// moves it.
pub proof fn law_pc_advances_by_length(cpu: CpuView, mmu: MmuView, fuel: nat)
    requires
        cpu.pipeline.len() == 0,
        decode_at(mmu, cpu.regs.pc) is Some,
        !decode_at(mmu, cpu.regs.pc).unwrap().jumps(cpu.regs.flags),
    ensures
        drained(fetch(cpu, mmu).cpu, fetch(cpu, mmu).mmu, fuel).cpu.regs.pc == advanced(
            cpu.regs.pc,
            instruction_length(mmu.read(cpu.regs.pc)),
        ),
{
    let pc = cpu.regs.pc;
    let instruction = decode_at(mmu, pc).unwrap();
    let fetched = fetch(cpu, mmu);
    law_decoded_instructions_spare_pc(
        mmu.read(pc),
        mmu.read(advanced(pc, 1)),
        mmu.read(advanced(pc, 2)),
    );
    assert(fetched.cpu.pipeline =~= instruction.micro_ops());
    if instruction.is_control() {
        lemma_failed_condition_keeps_pc(fetched.cpu, fetched.mmu, fuel, instruction);
    } else {
        lemma_expansion_is_quiet(instruction);
        lemma_quiet_queue_keeps_pc(fetched.cpu, fetched.mmu, fuel);
    }
}

/// Where a jump continues. `regs` are the registers after the jump has
/// been decoded, so that `PC` stands behind it: a relative jump counts
/// from there, a return takes the address on top of the stack, and the
/// others name their target.
pub open spec fn jump_target(instruction: Instruction, regs: Registers, mmu: MmuView) -> u16 {
    match instruction {
        Instruction::JumpAbsolute { addr, .. } => addr,
        Instruction::JumpRelative { offset, .. } => advanced(regs.pc, offset as int),
        Instruction::CallAddr { addr, .. } => addr,
        Instruction::Reset { offset } => offset,
        Instruction::JumpRegister16 { reg } => regs.load16(reg),
        Instruction::Return { .. } => mmu.read_u16(regs.sp),
        Instruction::ReturnInterrupt => mmu.read_u16(regs.sp),
        _ => regs.pc,
    }
}

/// Carrying out a queue of plain micro-operations that meet no fault,
/// one by one.
proof fn lemma_drain_one(cpu: CpuView, mmu: MmuView, fuel: nat)
    requires
        fuel > 0,
        cpu.pipeline.len() > 0,
        cpu.pipeline[0] is Plain,
    ensures
        ({
            let next = execute_plain(
                CpuView { pipeline: cpu.pipeline.drop_first(), ..cpu },
                mmu,
                cpu.pipeline[0]->Plain_0,
            );
            drained(cpu, mmu, fuel) == if next.fault is Some {
                next
            } else {
                drained(next.cpu, next.mmu, (fuel - 1) as nat)
            }
        }),
{
}

/// What the micro-operations of jumps, calls and returns do.
pub(crate) proof fn lemma_jump_micro_ops(cpu: CpuView, mmu: MmuView, literal: u8, reg: Register8, addr: u16)
    ensures
        execute_plain(cpu, mmu, super::micro_op::load_literal_op(literal, reg)) == fine(
            cpu.with_regs(cpu.regs.store8(reg, literal)),
            mmu,
        ),
        execute_plain(cpu, mmu, MicroOp::LoadReg16Lit { reg: Register16::PC, literal: addr })
            == fine(cpu.with_regs(Registers { pc: addr, ..cpu.regs }), mmu),
{
    reveal(execute_transfer);
}

/// The jump at the end of an absolute jump.
proof fn lemma_jump_ops(cpu: CpuView, mmu: MmuView, fuel: nat, addr: u16)
    requires
        fuel >= 2,
        cpu.pipeline == plain(super::instruction::jump_ops(addr)),
    ensures
        drained(cpu, mmu, fuel).cpu.regs.pc == addr,
{
    let low = (addr % 256) as u8;
    let high = (addr / 256) as u8;
    let first = CpuView { pipeline: cpu.pipeline.drop_first(), ..cpu };
    lemma_drain_one(cpu, mmu, fuel);
    lemma_jump_micro_ops(first, mmu, low, Register8::PCLow, addr);
    let after_first = execute_plain(first, mmu, cpu.pipeline[0]->Plain_0);
    assert(after_first.cpu.pipeline =~= plain(super::instruction::jump_ops(addr)).drop_first());
    lemma_drain_one(after_first.cpu, after_first.mmu, (fuel - 1) as nat);
    let second = CpuView { pipeline: after_first.cpu.pipeline.drop_first(), ..after_first.cpu };
    lemma_jump_micro_ops(second, mmu, high, Register8::PCHigh, addr);
    let after_second = execute_plain(second, after_first.mmu, after_first.cpu.pipeline[0]->Plain_0);
    assert(after_second.cpu.pipeline.len() == 0);
}

/// What the push of a half of `PC` does: `SP` goes down by one, the half
/// is written where `SP` then points, and nothing else changes.
pub(crate) proof fn lemma_push(cpu: CpuView, mmu: MmuView, reg: Register8)
    requires
        half_of_pc(reg),
    ensures
        execute_plain(cpu, mmu, super::instruction::push_op(reg)).cpu == cpu.with_regs(
            Registers { sp: advanced(cpu.regs.sp, -1), ..cpu.regs },
        ),
        execute_plain(cpu, mmu, super::instruction::push_op(reg)).mmu == mmu.write(
            advanced(cpu.regs.sp, -1),
            cpu.regs.load8(reg),
        ),
{
    let lowered = super::semantics::stepped(
        cpu.regs,
        Register16::SP,
        Some(PrePostOperation::Dec),
    );
    assert(execute_plain(cpu, mmu, super::instruction::push_op(reg)) == (Outcome {
        cpu: cpu.with_regs(super::semantics::stepped(lowered, Register16::SP, None)),
        ..super::semantics::written(cpu, mmu, lowered.load16(Register16::SP), lowered.load8(reg))
    })) by {
        reveal(execute_transfer);
    }
}

/// The memory after `PC` has been pushed from `regs`: its high byte is
/// written below `SP`, and its low byte below that.
pub open spec fn pushed_pc(regs: Registers, mmu: MmuView) -> MmuView {
    mmu.write(advanced(regs.sp, -1), (regs.pc / 256) as u8).write(
        advanced(regs.sp, -2),
        (regs.pc % 256) as u8,
    )
}

/// The push of `PC` and the jump of a call, a restart or an interrupt
/// service.
proof fn lemma_call_ops(cpu: CpuView, mmu: MmuView, fuel: nat, addr: u16)
    requires
        fuel >= 3,
        cpu.pipeline == plain(super::instruction::call_ops(addr)),
        drained(cpu, mmu, fuel).fault is None,
    ensures
        drained(cpu, mmu, fuel).cpu.regs.pc == addr,
        drained(cpu, mmu, fuel).cpu.regs.sp == advanced(cpu.regs.sp, -2),
        drained(cpu, mmu, fuel).cpu.pipeline.len() == 0,
        drained(cpu, mmu, fuel).mmu == pushed_pc(cpu.regs, mmu),
{
    let first = CpuView { pipeline: cpu.pipeline.drop_first(), ..cpu };
    assert(cpu.pipeline[0] == MicroOpModel::Plain(super::instruction::push_op(Register8::PCHigh)));
    lemma_drain_one(cpu, mmu, fuel);
    lemma_push(first, mmu, Register8::PCHigh);
    let after_first = execute_plain(first, mmu, super::instruction::push_op(Register8::PCHigh));
    assert(after_first.cpu.pipeline =~= plain(super::instruction::call_ops(addr)).drop_first());
    assert(after_first.cpu.pipeline[0] == MicroOpModel::Plain(
        super::instruction::push_op(Register8::PCLow),
    ));
    lemma_drain_one(after_first.cpu, after_first.mmu, (fuel - 1) as nat);
    let second = CpuView { pipeline: after_first.cpu.pipeline.drop_first(), ..after_first.cpu };
    lemma_push(second, after_first.mmu, Register8::PCLow);
    let after_second = execute_plain(
        second,
        after_first.mmu,
        super::instruction::push_op(Register8::PCLow),
    );
    assert(after_second.cpu.pipeline =~= plain(
        super::instruction::call_ops(addr),
    ).drop_first().drop_first());
    assert(after_second.mmu == pushed_pc(cpu.regs, mmu));
    lemma_drain_one(after_second.cpu, after_second.mmu, (fuel - 2) as nat);
    let third = CpuView { pipeline: after_second.cpu.pipeline.drop_first(), ..after_second.cpu };
    lemma_jump_micro_ops(third, after_second.mmu, 0, Register8::A, addr);
    let after_third = execute_plain(third, after_second.mmu, after_second.cpu.pipeline[0]->Plain_0);
    assert(after_third.cpu.pipeline.len() == 0);
}

/// What stores to the halves of `PC` and a step of `SP` leave in `PC`
/// and `SP`.
proof fn lemma_pc_halves(regs: Registers, value: u8)
    ensures
        regs.store8(Register8::PCLow, value).pc % 256 == value,
        regs.store8(Register8::PCLow, value).sp == regs.sp,
        regs.store8(Register8::PCHigh, value).pc == crate::bits::joined(
            value,
            (regs.pc % 256) as u8,
        ),
        super::semantics::stepped(regs, Register16::SP, Some(PrePostOperation::Inc)).pc
            == regs.pc,
        super::semantics::stepped(regs, Register16::SP, Some(PrePostOperation::Inc)).sp
            == advanced(regs.sp, 1),
{
}

/// What the two pops of a return do to `PC` and `SP`.
pub(crate) proof fn lemma_pop_pc(cpu: CpuView, mmu: MmuView)
    ensures
        ({
            let low = execute_plain(cpu, mmu, super::instruction::pop_op(Register8::PCLow));
            &&& low.fault is None
            &&& low.mmu == mmu
            &&& low.cpu.pipeline == cpu.pipeline
            &&& low.cpu.stopped == cpu.stopped
            &&& low.cpu.regs.flags == cpu.regs.flags
            &&& low.cpu.regs.sp == advanced(cpu.regs.sp, 1)
            &&& low.cpu.regs.pc % 256 == mmu.read(cpu.regs.sp)
        }),
        ({
            let high = execute_plain(cpu, mmu, super::instruction::pop_op(Register8::PCHigh));
            &&& high.fault is None
            &&& high.mmu == mmu
            &&& high.cpu.pipeline == cpu.pipeline
            &&& high.cpu.stopped == cpu.stopped
            &&& high.cpu.regs.pc == crate::bits::joined(
                mmu.read(cpu.regs.sp),
                (cpu.regs.pc % 256) as u8,
            )
        }),
{
    let value = mmu.read(cpu.regs.sp);
    let low = cpu.regs.store8(Register8::PCLow, value);
    let high = cpu.regs.store8(Register8::PCHigh, value);
    let step = Some(PrePostOperation::Inc);
    assert(execute_plain(cpu, mmu, super::instruction::pop_op(Register8::PCLow)) == fine(
        cpu.with_regs(super::semantics::stepped(low, Register16::SP, step)),
        mmu,
    )) by {
        reveal(execute_transfer);
    }
    assert(execute_plain(cpu, mmu, super::instruction::pop_op(Register8::PCHigh)) == fine(
        cpu.with_regs(super::semantics::stepped(high, Register16::SP, step)),
        mmu,
    )) by {
        reveal(execute_transfer);
    }
    lemma_pc_halves(cpu.regs, value);
    lemma_pc_halves(low, value);
    lemma_pc_halves(high, value);
}

/// The pops of `PC` of a return, with the micro-operations `tail` behind
/// them that do not write `PC`.
#[verifier::rlimit(40)]
proof fn lemma_return_ops(cpu: CpuView, mmu: MmuView, fuel: nat, tail: Seq<MicroOp>)
    requires
        fuel >= 2 + tail.len(),
        cpu.pipeline == plain(super::instruction::return_ops() + tail),
        all_avoid_pc(tail),
    ensures
        drained(cpu, mmu, fuel).cpu.regs.pc == mmu.read_u16(cpu.regs.sp),
{
    let ops = super::instruction::return_ops() + tail;
    let first = CpuView { pipeline: cpu.pipeline.drop_first(), ..cpu };
    assert(cpu.pipeline[0] == MicroOpModel::Plain(super::instruction::pop_op(Register8::PCLow)));
    lemma_drain_one(cpu, mmu, fuel);
    lemma_pop_pc(first, mmu);
    let after_first = execute_plain(first, mmu, super::instruction::pop_op(Register8::PCLow));
    assert(after_first.cpu.pipeline =~= plain(ops).drop_first());
    assert(after_first.cpu.pipeline[0] == MicroOpModel::Plain(
        super::instruction::pop_op(Register8::PCHigh),
    ));
    lemma_drain_one(after_first.cpu, mmu, (fuel - 1) as nat);
    let second = CpuView { pipeline: after_first.cpu.pipeline.drop_first(), ..after_first.cpu };
    lemma_pop_pc(second, mmu);
    let after_second = execute_plain(second, mmu, super::instruction::pop_op(Register8::PCHigh));
    assert(after_second.cpu.pipeline =~= plain(tail));
    assert(after_second.cpu.regs.pc == mmu.read_u16(cpu.regs.sp));
    lemma_plain_is_quiet(tail);
    lemma_quiet_queue_keeps_pc(after_second.cpu, mmu, (fuel - 2) as nat);
}

/// Carrying out a branch whose branches hold plain micro-operations.
proof fn lemma_branch(
    cpu: CpuView,
    mmu: MmuView,
    fuel: nat,
    condition: JumpCondition,
    taken: Seq<MicroOp>,
    skipped: Seq<MicroOp>,
)
    requires
        fuel > 0,
        cpu.pipeline == super::instruction::branch(condition, taken, skipped),
    ensures
        drained(cpu, mmu, fuel) == drained(
            CpuView {
                pipeline: if condition_holds(cpu.regs.flags, condition) {
                    plain(taken)
                } else {
                    plain(skipped)
                },
                ..cpu
            },
            mmu,
            (fuel - 1) as nat,
        ),
{
    let rest = cpu.pipeline.drop_first();
    assert(rest =~= Seq::<MicroOpModel>::empty());
    assert(plain(taken) + rest =~= plain(taken));
    assert(plain(skipped) + rest =~= plain(skipped));
}

/// Carrying out a single micro-operation that writes `PC`.
proof fn lemma_single_jump(cpu: CpuView, mmu: MmuView, fuel: nat, offset: i8, reg: Register16)
    requires
        fuel > 0,
    ensures
        cpu.pipeline == only(super::micro_op::jump_relative_op(offset)) ==> drained(
            cpu,
            mmu,
            fuel,
        ).cpu.regs.pc == advanced(cpu.regs.pc, offset as int),
        cpu.pipeline == only(MicroOp::Move16Bits { destination: Register16::PC, source: reg })
            ==> drained(cpu, mmu, fuel).cpu.regs.pc == cpu.regs.load16(reg),
{
    let rest = CpuView { pipeline: cpu.pipeline.drop_first(), ..cpu };
    if cpu.pipeline == only(super::micro_op::jump_relative_op(offset)) || cpu.pipeline == only(
        MicroOp::Move16Bits { destination: Register16::PC, source: reg },
    ) {
        lemma_drain_one(cpu, mmu, fuel);
        assert(rest.pipeline.len() == 0);
        assert(execute_plain(rest, mmu, super::micro_op::jump_relative_op(offset)).cpu
            == rest.with_regs(
            Registers { pc: advanced(rest.regs.pc, offset as int), ..rest.regs },
        ) && execute_plain(
            rest,
            mmu,
            MicroOp::Move16Bits { destination: Register16::PC, source: reg },
        ).cpu == rest.with_regs(Registers { pc: rest.regs.load16(reg), ..rest.regs })) by {
            reveal(execute_transfer);
            reveal(execute_arithmetic);
        }
    }
}

/// Absolute and relative jumps that are taken continue at their target.
proof fn lemma_jumps_reach_target(cpu: CpuView, mmu: MmuView, fuel: nat, instruction: Instruction)
    requires
        instruction is JumpAbsolute || instruction is JumpRelative
            || instruction is JumpRegister16,
        instruction.jumps(cpu.regs.flags),
        cpu.pipeline == instruction.micro_ops(),
        fuel >= 6,
    ensures
        drained(cpu, mmu, fuel).cpu.regs.pc == jump_target(instruction, cpu.regs, mmu),
{
    match instruction {
        Instruction::JumpAbsolute { condition: None, addr } => {
            let rest = plain(super::instruction::jump_ops(addr));
            lemma_idle_cycles(cpu, mmu, fuel, 2, rest);
            lemma_jump_ops(CpuView { pipeline: rest, ..cpu }, mmu, (fuel - 2) as nat, addr);
        },
        Instruction::JumpAbsolute { condition: Some(cond), addr } => {
            let rest = super::instruction::branch(
                cond,
                super::instruction::jump_ops(addr),
                seq![MicroOp::NOP],
            );
            lemma_idle_cycles(cpu, mmu, fuel, 1, rest);
            let at_branch = CpuView { pipeline: rest, ..cpu };
            lemma_branch(
                at_branch,
                mmu,
                (fuel - 1) as nat,
                cond,
                super::instruction::jump_ops(addr),
                seq![MicroOp::NOP],
            );
            lemma_jump_ops(
                CpuView { pipeline: plain(super::instruction::jump_ops(addr)), ..cpu },
                mmu,
                (fuel - 2) as nat,
                addr,
            );
        },
        Instruction::JumpRelative { condition: None, offset } => {
            let rest = only(super::micro_op::jump_relative_op(offset));
            lemma_idle_cycles(cpu, mmu, fuel, 2, rest);
            lemma_single_jump(
                CpuView { pipeline: rest, ..cpu },
                mmu,
                (fuel - 2) as nat,
                offset,
                Register16::HL,
            );
        },
        Instruction::JumpRelative { condition: Some(cond), offset } => {
            let taken = seq![super::micro_op::jump_relative_op(offset)];
            let rest = super::instruction::branch(cond, taken, seq![]);
            lemma_idle_cycles(cpu, mmu, fuel, 1, rest);
            lemma_branch(
                CpuView { pipeline: rest, ..cpu },
                mmu,
                (fuel - 1) as nat,
                cond,
                taken,
                seq![],
            );
            assert(plain(taken) =~= only(super::micro_op::jump_relative_op(offset)));
            lemma_single_jump(
                CpuView { pipeline: plain(taken), ..cpu },
                mmu,
                (fuel - 2) as nat,
                offset,
                Register16::HL,
            );
        },
        Instruction::JumpRegister16 { reg } => {
            lemma_single_jump(cpu, mmu, fuel, 0, reg);
        },
        _ => {},
    }
}

/// Calls and restarts that are taken and meet no fault continue at
/// their target.
proof fn lemma_calls_reach_target(cpu: CpuView, mmu: MmuView, fuel: nat, instruction: Instruction)
    requires
        instruction is CallAddr || instruction is Reset,
        instruction.jumps(cpu.regs.flags),
        cpu.pipeline == instruction.micro_ops(),
        fuel >= 6,
        drained(cpu, mmu, fuel).fault is None,
    ensures
        drained(cpu, mmu, fuel).cpu.regs.pc == jump_target(instruction, cpu.regs, mmu),
        drained(cpu, mmu, fuel).cpu.regs.sp == advanced(cpu.regs.sp, -2),
        drained(cpu, mmu, fuel).mmu == pushed_pc(cpu.regs, mmu),
{
    match instruction {
        Instruction::CallAddr { condition: None, addr } => {
            let rest = plain(super::instruction::call_ops(addr));
            lemma_idle_cycles(cpu, mmu, fuel, 3, rest);
            lemma_call_ops(CpuView { pipeline: rest, ..cpu }, mmu, (fuel - 3) as nat, addr);
        },
        Instruction::CallAddr { condition: Some(cond), addr } => {
            let taken = super::instruction::call_ops(addr);
            let rest = super::instruction::branch(cond, taken, seq![]);
            lemma_idle_cycles(cpu, mmu, fuel, 2, rest);
            lemma_branch(
                CpuView { pipeline: rest, ..cpu },
                mmu,
                (fuel - 2) as nat,
                cond,
                taken,
                seq![],
            );
            lemma_call_ops(
                CpuView { pipeline: plain(taken), ..cpu },
                mmu,
                (fuel - 3) as nat,
                addr,
            );
        },
        Instruction::Reset { offset } => {
            let rest = plain(super::instruction::call_ops(offset));
            lemma_idle_cycles(cpu, mmu, fuel, 1, rest);
            lemma_call_ops(CpuView { pipeline: rest, ..cpu }, mmu, (fuel - 1) as nat, offset);
        },
        _ => {},
    }
}

/// Returns that are taken continue at the address on top of the stack.
proof fn lemma_returns_reach_target(
    cpu: CpuView,
    mmu: MmuView,
    fuel: nat,
    instruction: Instruction,
)
    requires
        instruction is Return || instruction is ReturnInterrupt,
        instruction.jumps(cpu.regs.flags),
        cpu.pipeline == instruction.micro_ops(),
        fuel >= 6,
    ensures
        drained(cpu, mmu, fuel).cpu.regs.pc == jump_target(instruction, cpu.regs, mmu),
{
    let none = Seq::<MicroOp>::empty();
    assert(super::instruction::return_ops() + none =~= super::instruction::return_ops());
    match instruction {
        Instruction::Return { condition: None } => {
            let rest = plain(super::instruction::return_ops());
            lemma_idle_cycles(cpu, mmu, fuel, 2, rest);
            lemma_return_ops(CpuView { pipeline: rest, ..cpu }, mmu, (fuel - 2) as nat, none);
        },
        Instruction::Return { condition: Some(cond) } => {
            let taken = seq![MicroOp::NOP] + super::instruction::return_ops();
            let rest = super::instruction::branch(cond, taken, seq![]);
            lemma_idle_cycles(cpu, mmu, fuel, 1, rest);
            lemma_branch(
                CpuView { pipeline: rest, ..cpu },
                mmu,
                (fuel - 1) as nat,
                cond,
                taken,
                seq![],
            );
            let pops = plain(super::instruction::return_ops());
            assert(plain(taken) =~= delayed(1, pops));
            lemma_idle_cycles(
                CpuView { pipeline: plain(taken), ..cpu },
                mmu,
                (fuel - 2) as nat,
                1,
                pops,
            );
            lemma_return_ops(CpuView { pipeline: pops, ..cpu }, mmu, (fuel - 3) as nat, none);
        },
        Instruction::ReturnInterrupt => {
            let tail = seq![MicroOp::EnableInterrupts];
            let ops = super::instruction::return_ops().push(MicroOp::EnableInterrupts);
            assert(ops =~= super::instruction::return_ops() + tail);
            let rest = plain(ops);
            lemma_idle_cycles(cpu, mmu, fuel, 1, rest);
            lemma_return_ops(CpuView { pipeline: rest, ..cpu }, mmu, (fuel - 1) as nat, tail);
        },
        _ => {},
    }
}

/// The program counter after a jump. When the CPU decodes a jump, call,
/// return or restart whose condition, if it has one, holds, and carries
/// out all its micro-operations without a fault, `PC` stands at the
/// target of the jump.
pub proof fn law_jump_continues_at_target(cpu: CpuView, mmu: MmuView, fuel: nat)
    requires
        cpu.pipeline.len() == 0,
        decode_at(mmu, cpu.regs.pc) is Some,
        decode_at(mmu, cpu.regs.pc).unwrap().jumps(cpu.regs.flags),
        fuel >= 6,
        drained(fetch(cpu, mmu).cpu, fetch(cpu, mmu).mmu, fuel).fault is None,
    ensures
        drained(fetch(cpu, mmu).cpu, fetch(cpu, mmu).mmu, fuel).cpu.regs.pc == jump_target(
            decode_at(mmu, cpu.regs.pc).unwrap(),
            fetch(cpu, mmu).cpu.regs,
            mmu,
        ),
{
    let instruction = decode_at(mmu, cpu.regs.pc).unwrap();
    let fetched = fetch(cpu, mmu);
    assert(fetched.cpu.pipeline =~= instruction.micro_ops());
    if instruction is CallAddr || instruction is Reset {
        lemma_calls_reach_target(fetched.cpu, fetched.mmu, fuel, instruction);
    } else if instruction is Return || instruction is ReturnInterrupt {
        lemma_returns_reach_target(fetched.cpu, fetched.mmu, fuel, instruction);
    } else {
        lemma_jumps_reach_target(fetched.cpu, fetched.mmu, fuel, instruction);
    }
}

/// The program counter and jumps. When the CPU decodes an instruction
/// and carries out all its micro-operations without a fault, `PC` has
/// advanced by the length of the instruction if and only if the
/// instruction did not jump. A jump to the address right behind itself
/// is left out: it cannot be told from no jump.
pub proof fn law_pc_advances_iff_no_jump(cpu: CpuView, mmu: MmuView, fuel: nat)
    requires
        cpu.pipeline.len() == 0,
        decode_at(mmu, cpu.regs.pc) is Some,
        fuel >= 6,
        drained(fetch(cpu, mmu).cpu, fetch(cpu, mmu).mmu, fuel).fault is None,
        decode_at(mmu, cpu.regs.pc).unwrap().jumps(cpu.regs.flags) ==> jump_target(
            decode_at(mmu, cpu.regs.pc).unwrap(),
            fetch(cpu, mmu).cpu.regs,
            mmu,
        ) != advanced(cpu.regs.pc, instruction_length(mmu.read(cpu.regs.pc))),
    ensures
        drained(fetch(cpu, mmu).cpu, fetch(cpu, mmu).mmu, fuel).cpu.regs.pc == advanced(
            cpu.regs.pc,
            instruction_length(mmu.read(cpu.regs.pc)),
        ) <==> !decode_at(mmu, cpu.regs.pc).unwrap().jumps(cpu.regs.flags),
{
    if decode_at(mmu, cpu.regs.pc).unwrap().jumps(cpu.regs.flags) {
        law_jump_continues_at_target(cpu, mmu, fuel);
    } else {
        law_pc_advances_by_length(cpu, mmu, fuel);
    }
}

/// Calls. A call or restart that is taken and meets no fault pushes the
/// address behind itself, high byte first, lowers `SP` by two and
/// continues at its target.
pub proof fn law_call_pushes_return_address(cpu: CpuView, mmu: MmuView, fuel: nat)
    requires
        cpu.pipeline.len() == 0,
        decode_at(mmu, cpu.regs.pc) is Some,
        decode_at(mmu, cpu.regs.pc).unwrap() is CallAddr || decode_at(
            mmu,
            cpu.regs.pc,
        ).unwrap() is Reset,
        decode_at(mmu, cpu.regs.pc).unwrap().jumps(cpu.regs.flags),
        fuel >= 6,
        drained(fetch(cpu, mmu).cpu, fetch(cpu, mmu).mmu, fuel).fault is None,
    ensures
        ({
            let fetched = fetch(cpu, mmu);
            let called = drained(fetched.cpu, fetched.mmu, fuel);
            &&& fetched.cpu.regs.pc == advanced(
                cpu.regs.pc,
                instruction_length(mmu.read(cpu.regs.pc)),
            )
            &&& called.mmu == pushed_pc(fetched.cpu.regs, mmu)
            &&& called.cpu.regs.sp == advanced(cpu.regs.sp, -2)
            &&& called.cpu.regs.pc == jump_target(
                decode_at(mmu, cpu.regs.pc).unwrap(),
                fetched.cpu.regs,
                mmu,
            )
        }),
{
    let instruction = decode_at(mmu, cpu.regs.pc).unwrap();
    let fetched = fetch(cpu, mmu);
    assert(fetched.cpu.pipeline =~= instruction.micro_ops());
    lemma_calls_reach_target(fetched.cpu, fetched.mmu, fuel, instruction);
}

/// Interrupt service. When the CPU polls the controller with an empty
/// queue and an interrupt is pending, the interrupt is acknowledged: its
/// flag is cleared and interrupts are disabled. Five machine cycles are
/// queued; once they are carried out without a fault, `PC` has been
/// pushed, so that `SP` is two lower, and `PC` stands at the vector of
/// the interrupt.
pub proof fn law_interrupt_service(cpu: CpuView, mmu: MmuView, kind: crate::interrupt::IntKind, fuel: nat)
    requires
        cpu.pipeline.len() == 0,
        (crate::interrupt::InterruptController {
            new_int_waiting: false,
            ..mmu.interrupt_controller
        }).pending() == Some(kind),
        fuel >= 5,
        drained(
            super::semantics::poll_interrupts(cpu, mmu).cpu,
            super::semantics::poll_interrupts(cpu, mmu).mmu,
            fuel,
        ).fault is None,
    ensures
        ({
            let polled = super::semantics::poll_interrupts(cpu, mmu);
            let served = drained(polled.cpu, polled.mmu, fuel);
            &&& polled.cpu.pipeline.len() == 5
            &&& !polled.mmu.interrupt_controller.master_enable
            &&& !bit_set(polled.mmu.interrupt_controller.interrupt_flag, kind.position())
            &&& served.cpu.pipeline.len() == 0
            &&& served.cpu.regs.pc == kind.vector()
            &&& served.cpu.regs.sp == advanced(cpu.regs.sp, -2)
            &&& served.mmu == pushed_pc(cpu.regs, polled.mmu)
        }),
{
    let polled = super::semantics::poll_interrupts(cpu, mmu);
    let rest = plain(super::instruction::call_ops(kind.vector()));
    assert(polled.cpu.pipeline =~= delayed(2, rest));
    lemma_idle_cycles(polled.cpu, polled.mmu, fuel, 2, rest);
    lemma_call_ops(
        CpuView { pipeline: rest, ..polled.cpu },
        polled.mmu,
        (fuel - 2) as nat,
        kind.vector(),
    );
}

/// The rotations of the accumulator, `RLCA`, `RRCA`, `RLA` and `RRA`,
/// always clear Z; the rotations and shifts of the prefixed table set it
/// from the result. All of them clear N and H.
pub proof fn law_rotations_and_zero(cpu: CpuView, mmu: MmuView, target: Reg8OrIndirect)
    ensures
        ({
            let a = Reg8OrIndirect::Reg8(Register8::A);
            let rlca = execute_plain(cpu, mmu, MicroOp::RotateLeft { reg: a, set_zero: false });
            let rrca = execute_plain(cpu, mmu, MicroOp::RotateRight { reg: a, set_zero: false });
            let rla = execute_plain(
                cpu,
                mmu,
                MicroOp::RotateLeftThroughCarry { reg: a, set_zero: false },
            );
            let rra = execute_plain(
                cpu,
                mmu,
                MicroOp::RotateRightThroughCarry { reg: a, set_zero: false },
            );
            &&& rlca.cpu.regs.flags == Flags { carry: cpu.regs.a >= 128, ..Flags::none() }
            &&& rrca.cpu.regs.flags == Flags { carry: cpu.regs.a % 2 == 1, ..Flags::none() }
            &&& rla.cpu.regs.flags == Flags { carry: cpu.regs.a >= 128, ..Flags::none() }
            &&& rra.cpu.regs.flags == Flags { carry: cpu.regs.a % 2 == 1, ..Flags::none() }
        }),
        ({
            let value = target_value(cpu.regs, mmu, target);
            let rlc = execute_plain(cpu, mmu, MicroOp::RotateLeft { reg: target, set_zero: true });
            let sla = execute_plain(cpu, mmu, MicroOp::ShiftLeftIntoCarry { reg: target });
            let srl = execute_plain(cpu, mmu, MicroOp::ShiftRightWithZeroIntoCarry { reg: target });
            &&& rlc.cpu.regs.flags == Flags { zero: value == 0, carry: value >= 128, ..Flags::none() }
            &&& sla.cpu.regs.flags == Flags {
                zero: value % 128 == 0,
                carry: value >= 128,
                ..Flags::none()
            }
            &&& srl.cpu.regs.flags == Flags {
                zero: value / 2 == 0,
                carry: value % 2 == 1,
                ..Flags::none()
            }
        }),
{
    reveal(execute_bits);
}

/// Idle cycles change nothing. Where the queue holds `cycles` idle
/// cycles and then `rest`, carrying it out is carrying out `rest` with
/// the fuel that the idle cycles leave; where the fuel ends first, only
/// the queue has changed.
pub proof fn law_idle_cycles_change_nothing(
    cpu: CpuView,
    mmu: MmuView,
    fuel: nat,
    cycles: nat,
    rest: Seq<MicroOpModel>,
)
    requires
        cpu.pipeline == delayed(cycles, rest),
    ensures
        drained(cpu, mmu, fuel) == if fuel <= cycles {
            fine(CpuView { pipeline: delayed((cycles - fuel) as nat, rest), ..cpu }, mmu)
        } else {
            drained(CpuView { pipeline: rest, ..cpu }, mmu, (fuel - cycles) as nat)
        },
{
    lemma_idle_cycles(cpu, mmu, fuel, cycles, rest);
}

/// A register pair loaded half by half holds the value whose halves
/// were loaded.
proof fn lemma_pair_from_halves(regs: Registers, reg: Register16, literal: u16)
    requires
        reg == Register16::BC || reg == Register16::DE || reg == Register16::HL || reg
            == Register16::SP,
    ensures
        regs.store8(reg.low(), (literal % 256) as u8).store8(reg.high(), (literal / 256) as u8)
            == regs.store16(reg, literal),
{
}

/// The load of a 16-bit literal. Once the three machine cycles of
/// `LD rr, nn` are carried out, the register pair holds the literal, and
/// nothing else has changed: not the flags, not memory, not `PC`.
pub proof fn law_load_pair_literal(cpu: CpuView, mmu: MmuView, reg: Register16, literal: u16)
    requires
        reg == Register16::BC || reg == Register16::DE || reg == Register16::HL || reg
            == Register16::SP,
        cpu.pipeline == (Instruction::LoadLiteralIntoReg16 { reg, literal }).micro_ops(),
    ensures
        drained(cpu, mmu, 3) == fine(
            CpuView { pipeline: Seq::empty(), ..cpu.with_regs(cpu.regs.store16(reg, literal)) },
            mmu,
        ),
{
    let low = (literal % 256) as u8;
    let high = (literal / 256) as u8;
    let low_op = super::micro_op::load_literal_op(low, reg.low());
    let high_op = super::micro_op::load_literal_op(high, reg.high());
    let rest = plain(seq![low_op, high_op]);
    lemma_idle_cycles(cpu, mmu, 3, 1, rest);
    let start = CpuView { pipeline: rest, ..cpu };
    let first = CpuView { pipeline: rest.drop_first(), ..cpu };
    assert(rest[0] == MicroOpModel::Plain(low_op));
    lemma_drain_one(start, mmu, 2);
    lemma_jump_micro_ops(first, mmu, low, reg.low(), 0);
    let after_first = fine(first.with_regs(cpu.regs.store8(reg.low(), low)), mmu);
    assert(execute_plain(first, mmu, low_op) == after_first);
    assert(after_first.cpu.pipeline =~= seq![MicroOpModel::Plain(high_op)]);
    lemma_drain_one(after_first.cpu, mmu, 1);
    let second = CpuView { pipeline: after_first.cpu.pipeline.drop_first(), ..after_first.cpu };
    lemma_jump_micro_ops(second, mmu, high, reg.high(), 0);
    let after_second = fine(second.with_regs(second.regs.store8(reg.high(), high)), mmu);
    assert(execute_plain(second, mmu, high_op) == after_second);
    assert(after_second.cpu.pipeline =~= Seq::<MicroOpModel>::empty());
    lemma_pair_from_halves(cpu.regs, reg, literal);
    assert(after_second.cpu == CpuView {
        pipeline: Seq::empty(),
        ..cpu.with_regs(cpu.regs.store16(reg, literal))
    });
}

} // verus!
