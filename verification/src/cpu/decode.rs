//! The instruction decoder: from the bytes at `PC` to an instruction.
//!
//! An opcode is read as three fields: `x`, its two high bits; `y`, the
//! three bits below them; and `z`, its three low bits. `y` is further
//! split into `p`, its two high bits, and `q`, its low bit.

use vstd::prelude::*;
use super::alu::{signed, to_signed};
use super::instruction::{Instruction, JumpCondition, PrePostOperation};
use super::micro_op::{Reg8OrIndirect, Source8bits};
use super::register::{Register16, Register8};
use super::CPU;
use crate::bits::joined;
use crate::fault::Fault;
use crate::memory::mmu::{MmuView, MMU};

verus! {

/// The operand that the three-bit field `index` names: a register, or
/// the byte at `(HL)` for 6.
pub open spec fn operand(index: u8) -> Reg8OrIndirect {
    match index {
        0 => Reg8OrIndirect::Reg8(Register8::B),
        1 => Reg8OrIndirect::Reg8(Register8::C),
        2 => Reg8OrIndirect::Reg8(Register8::D),
        3 => Reg8OrIndirect::Reg8(Register8::E),
        4 => Reg8OrIndirect::Reg8(Register8::H),
        5 => Reg8OrIndirect::Reg8(Register8::L),
        6 => Reg8OrIndirect::Indirect(Register16::HL),
        _ => Reg8OrIndirect::Reg8(Register8::A),
    }
}

/// The register pair that the two-bit field `index` names in loads and
/// 16-bit arithmetic.
pub open spec fn register_pair(index: u8) -> Register16 {
    match index {
        0 => Register16::BC,
        1 => Register16::DE,
        2 => Register16::HL,
        _ => Register16::SP,
    }
}

/// The register pair that the two-bit field `index` names in pushes and
/// pops.
pub open spec fn stack_pair(index: u8) -> Register16 {
    match index {
        0 => Register16::BC,
        1 => Register16::DE,
        2 => Register16::HL,
        _ => Register16::AF,
    }
}

/// The condition that the two-bit field `index` names.
pub open spec fn condition(index: u8) -> JumpCondition {
    match index {
        0 => JumpCondition::NonZero,
        1 => JumpCondition::Zero,
        2 => JumpCondition::NonCarry,
        _ => JumpCondition::Carry,
    }
}

/// The address register of the loads between `A` and `(BC)`, `(DE)`,
/// `(HL+)` and `(HL-)`.
pub open spec fn pointer(index: u8) -> Register16 {
    match index {
        0 => Register16::BC,
        1 => Register16::DE,
        _ => Register16::HL,
    }
}

/// What those loads do to the address register afterwards.
pub open spec fn pointer_step(index: u8) -> Option<PrePostOperation> {
    match index {
        2 => Some(PrePostOperation::Inc),
        3 => Some(PrePostOperation::Dec),
        _ => None,
    }
}

/// The 8-bit arithmetic or logic instruction of kind `kind` (ADD, ADC,
/// SUB, SBC, AND, XOR, OR, CP, in this order) on `rhs`.
pub open spec fn accumulator_instruction(kind: u8, rhs: Source8bits) -> Instruction {
    match rhs {
        Source8bits::Register(reg) => match kind {
            0 => Instruction::AddAWithReg8 { reg },
            1 => Instruction::AdcAWithReg8 { reg },
            2 => Instruction::SubAWithReg8 { reg },
            3 => Instruction::SbcAWithReg8 { reg },
            4 => Instruction::AndAWithReg8 { reg },
            5 => Instruction::XorAWithReg8 { reg },
            6 => Instruction::OrAWithReg8 { reg },
            _ => Instruction::CompareAWithReg { reg },
        },
        Source8bits::Literal(literal) => match kind {
            0 => Instruction::AddAWithLiteral { literal },
            1 => Instruction::AdcAWithLiteral { literal },
            2 => Instruction::SubAWithLiteral { literal },
            3 => Instruction::SbcAWithLiteral { literal },
            4 => Instruction::AndAWithLiteral { literal },
            5 => Instruction::XorAWithLiteral { literal },
            6 => Instruction::OrAWithLiteral { literal },
            _ => Instruction::CompareAWithLiteral { literal },
        },
        _ => match kind {
            0 => Instruction::AddAWithIndirect { addr: Register16::HL },
            1 => Instruction::AdcAWithIndirect { addr: Register16::HL },
            2 => Instruction::SubAWithIndirect { addr: Register16::HL },
            3 => Instruction::SbcAWithIndirect { addr: Register16::HL },
            4 => Instruction::AndAWithIndirect { addr: Register16::HL },
            5 => Instruction::XorAWithIndirect { addr: Register16::HL },
            6 => Instruction::OrAWithIndirect { addr: Register16::HL },
            _ => Instruction::CompareAWithIndirect { addr: Register16::HL },
        },
    }
}

/// An operand of the opcode table as a source of 8-bit arithmetic.
pub open spec fn as_source(target: Reg8OrIndirect) -> Source8bits {
    match target {
        Reg8OrIndirect::Reg8(reg) => Source8bits::Register(reg),
        Reg8OrIndirect::Indirect(addr) => Source8bits::Indirect(addr),
    }
}

/// The rotation or shift of kind `kind` (RLC, RRC, RL, RR, SLA, SRA,
/// SWAP, SRL, in this order) on `target`.
pub open spec fn rotation_instruction(kind: u8, target: Reg8OrIndirect) -> Instruction {
    match target {
        Reg8OrIndirect::Reg8(reg) => match kind {
            0 => Instruction::RotateLeft { reg },
            1 => Instruction::RotateRight { reg },
            2 => Instruction::RotateLeftThroughCarry { reg },
            3 => Instruction::RotateRightThroughCarry { reg },
            4 => Instruction::ShiftLeftIntoCarry { reg },
            5 => Instruction::ShiftRightWithSignIntoCarry { reg },
            6 => Instruction::SwapReg8 { reg },
            _ => Instruction::ShiftRightWithZeroIntoCarry { reg },
        },
        Reg8OrIndirect::Indirect(addr) => match kind {
            0 => Instruction::RotateLeftWithIndirect { addr },
            1 => Instruction::RotateRightWithIndirect { addr },
            2 => Instruction::RotateLeftThroughCarryWithIndirect { addr },
            3 => Instruction::RotateRightThroughCarryWithIndirect { addr },
            4 => Instruction::ShiftLeftIntoCarryWithIndirect { addr },
            5 => Instruction::ShiftRightWithSignIntoCarryWithIndirect { addr },
            6 => Instruction::SwapIndirect { addr },
            _ => Instruction::ShiftRightWithZeroIntoCarryWithIndirect { addr },
        },
    }
}

/// The instruction that follows the prefix 0xCB: a rotation or shift for
/// `x` = 0, and a test, a reset or a set of bit `y` for `x` = 1, 2, 3.
pub open spec fn decode_prefixed(opcode: u8) -> Instruction {
    let x = opcode / 64;
    let y = (opcode / 8) % 8;
    let target = operand(opcode % 8);
    if x == 0 {
        rotation_instruction(y, target)
    } else {
        match target {
            Reg8OrIndirect::Reg8(reg) => if x == 1 {
                Instruction::BitTest { reg, bit: y }
            } else if x == 2 {
                Instruction::ResetBit { reg, bit: y }
            } else {
                Instruction::SetBit { reg, bit: y }
            },
            Reg8OrIndirect::Indirect(addr) => if x == 1 {
                Instruction::BitTestIndirect { addr, bit: y }
            } else if x == 2 {
                Instruction::ResetBitIndirect { addr, bit: y }
            } else {
                Instruction::SetBitIndirect { addr, bit: y }
            },
        }
    }
}

/// The instruction with `x` = 0: relative jumps, 16-bit loads and
/// arithmetic, loads through a register pair, increments and decrements,
/// loads of a literal, and the operations on `A` and the flags.
pub open spec fn decode_block0(y: u8, z: u8, b1: u8, b2: u8) -> Instruction {
    let p = y / 2;
    let q = y % 2;
    if z == 0 {
        if y == 0 {
            Instruction::NOP
        } else if y == 1 {
            Instruction::WriteReg16ValueAtAddress { addr: joined(b2, b1), reg: Register16::SP }
        } else if y == 2 {
            Instruction::Stop
        } else if y == 3 {
            Instruction::JumpRelative { condition: None, offset: signed(b1) }
        } else {
            Instruction::JumpRelative { condition: Some(condition((y - 4) as u8)), offset: signed(b1) }
        }
    } else if z == 1 {
        if q == 0 {
            Instruction::LoadLiteralIntoReg16 { reg: register_pair(p), literal: joined(b2, b1) }
        } else {
            Instruction::AddHLWithReg { reg: register_pair(p) }
        }
    } else if z == 2 {
        if q == 0 {
            Instruction::WriteReg8ValueAtIndirect {
                addr: pointer(p),
                reg: Register8::A,
                post_op: pointer_step(p),
            }
        } else {
            Instruction::ReadIndirectToReg8 {
                reg: Register8::A,
                addr: pointer(p),
                post_op: pointer_step(p),
            }
        }
    } else if z == 3 {
        if q == 0 {
            Instruction::IncReg16 { reg: register_pair(p) }
        } else {
            Instruction::DecReg16 { reg: register_pair(p) }
        }
    } else if z == 4 {
        match operand(y) {
            Reg8OrIndirect::Reg8(reg) => Instruction::IncReg8 { reg },
            Reg8OrIndirect::Indirect(addr) => Instruction::IncIndirect { addr },
        }
    } else if z == 5 {
        match operand(y) {
            Reg8OrIndirect::Reg8(reg) => Instruction::DecReg8 { reg },
            Reg8OrIndirect::Indirect(addr) => Instruction::DecIndirect { addr },
        }
    } else if z == 6 {
        match operand(y) {
            Reg8OrIndirect::Reg8(reg) => Instruction::LoadLiteralIntoReg8 { reg, literal: b1 },
            Reg8OrIndirect::Indirect(addr) => Instruction::WriteLiteralAtIndirect {
                addr,
                literal: b1,
            },
        }
    } else {
        match y {
            0 => Instruction::RotateLeftA,
            1 => Instruction::RotateRightA,
            2 => Instruction::RotateLeftThroughCarryA,
            3 => Instruction::RotateRightThroughCarryA,
            4 => Instruction::DAA,
            5 => Instruction::ComplementA,
            6 => Instruction::SetCarryFlag,
            _ => Instruction::ComplementCarryFlag,
        }
    }
}

/// The instruction with `x` = 1: a load between two operands, and HALT in
/// the place of the load from `(HL)` to `(HL)`.
pub open spec fn decode_block1(y: u8, z: u8) -> Instruction {
    match operand(y) {
        Reg8OrIndirect::Reg8(dest) => match operand(z) {
            Reg8OrIndirect::Reg8(src) => Instruction::Move { dest, src },
            Reg8OrIndirect::Indirect(addr) => Instruction::ReadIndirectToReg8 {
                reg: dest,
                addr,
                post_op: None,
            },
        },
        Reg8OrIndirect::Indirect(addr) => match operand(z) {
            Reg8OrIndirect::Reg8(src) => Instruction::WriteReg8ValueAtIndirect {
                addr,
                reg: src,
                post_op: None,
            },
            Reg8OrIndirect::Indirect(_) => Instruction::Halt,
        },
    }
}

/// The instruction with `x` = 3, if there is one: returns, jumps, calls
/// and restarts, pushes and pops, loads from and to the high page and
/// absolute addresses, arithmetic with a literal, and the prefix 0xCB.
pub open spec fn decode_block3(y: u8, z: u8, b1: u8, b2: u8) -> Option<Instruction> {
    let p = y / 2;
    let q = y % 2;
    if z == 0 {
        Some(
            if y < 4 {
                Instruction::Return { condition: Some(condition(y)) }
            } else if y == 4 {
                Instruction::WriteReg8ValueAtZeroPageOffsetLiteral {
                    lit_offset: b1,
                    reg: Register8::A,
                }
            } else if y == 5 {
                Instruction::AddOffsetToReg16 { reg: Register16::SP, offset: signed(b1) }
            } else if y == 6 {
                Instruction::ReadZeroPageOffsetLiteralToReg8 { lit_offset: b1, reg: Register8::A }
            } else {
                Instruction::LoadAddressOffsetIntoReg16 {
                    dest: Register16::HL,
                    base: Register16::SP,
                    offset: signed(b1),
                }
            },
        )
    } else if z == 1 {
        Some(
            if q == 0 {
                Instruction::PopReg16 { reg: stack_pair(p) }
            } else if p == 0 {
                Instruction::Return { condition: None }
            } else if p == 1 {
                Instruction::ReturnInterrupt
            } else if p == 2 {
                Instruction::JumpRegister16 { reg: Register16::HL }
            } else {
                Instruction::Move16Bits { dest: Register16::SP, src: Register16::HL }
            },
        )
    } else if z == 2 {
        Some(
            if y < 4 {
                Instruction::JumpAbsolute { condition: Some(condition(y)), addr: joined(b2, b1) }
            } else if y == 4 {
                Instruction::WriteReg8ValueAtZeroPageOffsetReg8 {
                    reg_offset: Register8::C,
                    reg: Register8::A,
                }
            } else if y == 5 {
                Instruction::WriteReg8ValueAtAddress { addr: joined(b2, b1), reg: Register8::A }
            } else if y == 6 {
                Instruction::ReadZeroPageOffsetReg8ToReg8 {
                    offset: Register8::C,
                    reg: Register8::A,
                }
            } else {
                Instruction::ReadAtAddressToReg8 { addr: joined(b2, b1), reg: Register8::A }
            },
        )
    } else if z == 3 {
        if y == 0 {
            Some(Instruction::JumpAbsolute { condition: None, addr: joined(b2, b1) })
        } else if y == 1 {
            Some(decode_prefixed(b1))
        } else if y == 6 {
            Some(Instruction::DisableInterrupts)
        } else if y == 7 {
            Some(Instruction::EnableInterrupts)
        } else {
            None
        }
    } else if z == 4 {
        if y < 4 {
            Some(Instruction::CallAddr { condition: Some(condition(y)), addr: joined(b2, b1) })
        } else {
            None
        }
    } else if z == 5 {
        if q == 0 {
            Some(Instruction::PushReg16 { reg: stack_pair(p) })
        } else if p == 0 {
            Some(Instruction::CallAddr { condition: None, addr: joined(b2, b1) })
        } else {
            None
        }
    } else if z == 6 {
        Some(accumulator_instruction(y, Source8bits::Literal(b1)))
    } else {
        Some(Instruction::Reset { offset: (y * 8) as u16 })
    }
}

/// The instruction that `opcode` encodes when it is followed by the bytes
/// `b1` and `b2`, if it encodes one. Eleven opcodes encode none.
pub open spec fn decode(opcode: u8, b1: u8, b2: u8) -> Option<Instruction> {
    let x = opcode / 64;
    let y = (opcode / 8) % 8;
    let z = opcode % 8;
    if x == 0 {
        Some(decode_block0(y, z, b1, b2))
    } else if x == 1 {
        Some(decode_block1(y, z))
    } else if x == 2 {
        Some(accumulator_instruction(y, as_source(operand(z))))
    } else {
        decode_block3(y, z, b1, b2)
    }
}

/// The number of operand bytes that follow `opcode`. The second byte of
/// a prefixed instruction and the byte that follows STOP count as
/// operands. An opcode that encodes nothing has none.
pub open spec fn operand_bytes(opcode: u8) -> int {
    let x = opcode / 64;
    let y = (opcode / 8) % 8;
    let z = opcode % 8;
    if x == 0 {
        if z == 0 {
            if y == 0 {
                0
            } else if y == 1 {
                2
            } else {
                1
            }
        } else if z == 1 {
            if y % 2 == 0 {
                2
            } else {
                0
            }
        } else if z == 6 {
            1
        } else {
            0
        }
    } else if x == 3 {
        if z == 0 {
            if y >= 4 {
                1
            } else {
                0
            }
        } else if z == 2 {
            if y < 4 || y == 5 || y == 7 {
                2
            } else {
                0
            }
        } else if z == 3 {
            if y == 0 {
                2
            } else if y == 1 {
                1
            } else {
                0
            }
        } else if z == 4 {
            if y < 4 {
                2
            } else {
                0
            }
        } else if z == 5 {
            if y == 1 {
                2
            } else {
                0
            }
        } else if z == 6 {
            1
        } else {
            0
        }
    } else {
        0
    }
}

/// The length of the instruction that starts with `opcode`, in bytes.
pub open spec fn instruction_length(opcode: u8) -> int {
    1 + operand_bytes(opcode)
}

/// The address `distance` bytes after `pc`, in the 16-bit address space.
pub open spec fn advanced(pc: u16, distance: int) -> u16 {
    ((pc + distance) % 0x10000) as u16
}

/// The instruction that memory holds at `pc`, if the bytes there encode
/// one.
pub open spec fn decode_at(mmu: MmuView, pc: u16) -> Option<Instruction> {
    decode(mmu.read(pc), mmu.read(advanced(pc, 1)), mmu.read(advanced(pc, 2)))
}


/// What the decoder owes at `at`: the instruction that the bytes there
/// encode, with `PC` moved past it and nothing else changed; or, where
/// the first byte encodes nothing, the fault that names it, with `PC`
/// moved past that byte.
pub open spec fn decoded(
    before: CPU,
    after: CPU,
    mmu: MmuView,
    at: u16,
    res: Result<Instruction, Fault>,
) -> bool {
    let opcode = mmu.read(at);
    match decode_at(mmu, at) {
        Some(instruction) => {
            &&& res == Ok::<Instruction, Fault>(instruction)
            &&& instruction.well_formed()
            &&& after@ == before@.with_pc(advanced(at, instruction_length(opcode)))
        },
        None => {
            &&& res == Err::<Instruction, Fault>(Fault::UnknownOpcode { opcode, pc: at })
            &&& after@ == before@.with_pc(advanced(at, 1))
        },
    }
}

/// Decodes the instruction at `PC` and moves `PC` past it.
pub fn decode_instruction(cpu: &mut CPU, mmu: &MMU) -> (res: Result<Instruction, Fault>)
    requires
        mmu.well_formed(),
    ensures
        decoded(*old(cpu), *final(cpu), mmu@, old(cpu).pc, res),
{
    let pc = cpu.pc;
    let opcode = cpu.fetch_and_advance(mmu);
    if opcode < 0x40 {
        decode_low(cpu, mmu, opcode, pc)
    } else if opcode < 0x80 {
        decode_moves(cpu, mmu, opcode, pc)
    } else if opcode < 0xC0 {
        decode_arithmetic(cpu, mmu, opcode, pc)
    } else if opcode == 0xCB {
        let sub_opcode = cpu.fetch_and_advance(mmu);
        Ok(decode_after_prefix(sub_opcode))
    } else {
        decode_high(cpu, mmu, opcode, pc)
    }
}

/// Decodes the byte that follows the prefix 0xCB.
fn decode_after_prefix(opcode: u8) -> (instruction: Instruction)
    ensures
        instruction == decode_prefixed(opcode),
        instruction.well_formed(),
{
    if opcode < 0x40 {
        decode_rotation(opcode)
    } else if opcode < 0x80 {
        decode_bit_test(opcode)
    } else if opcode < 0xC0 {
        decode_reset_bit(opcode)
    } else {
        decode_set_bit(opcode)
    }
}

/// The operand and the parity of the bit number that the low nibble of a
/// prefixed opcode encodes.
fn decode_reg_bit_ops(reg_opcode: u8) -> (res: (Reg8OrIndirect, u8))
    requires
        reg_opcode < 16,
    ensures
        res.0 == operand(reg_opcode % 8),
        res.1 == reg_opcode / 8,
{
    match reg_opcode {
        0x0 => (Reg8OrIndirect::Reg8(Register8::B), 0),
        0x1 => (Reg8OrIndirect::Reg8(Register8::C), 0),
        0x2 => (Reg8OrIndirect::Reg8(Register8::D), 0),
        0x3 => (Reg8OrIndirect::Reg8(Register8::E), 0),
        0x4 => (Reg8OrIndirect::Reg8(Register8::H), 0),
        0x5 => (Reg8OrIndirect::Reg8(Register8::L), 0),
        0x6 => (Reg8OrIndirect::Indirect(Register16::HL), 0),
        0x7 => (Reg8OrIndirect::Reg8(Register8::A), 0),
        0x8 => (Reg8OrIndirect::Reg8(Register8::B), 1),
        0x9 => (Reg8OrIndirect::Reg8(Register8::C), 1),
        0xA => (Reg8OrIndirect::Reg8(Register8::D), 1),
        0xB => (Reg8OrIndirect::Reg8(Register8::E), 1),
        0xC => (Reg8OrIndirect::Reg8(Register8::H), 1),
        0xD => (Reg8OrIndirect::Reg8(Register8::L), 1),
        0xE => (Reg8OrIndirect::Indirect(Register16::HL), 1),
        _ => (Reg8OrIndirect::Reg8(Register8::A), 1),
    }
}

fn decode_bit_test(opcode: u8) -> (instruction: Instruction)
    requires
        0x40 <= opcode < 0x80,
    ensures
        instruction == decode_prefixed(opcode),
{
    let bit_opcode: u8 = opcode / 16;
    let reg_opcode: u8 = opcode % 16;

    let (reg, offset) = decode_reg_bit_ops(reg_opcode);
    let bit: u8 = (bit_opcode - 0x4) * 2 + offset;

    match reg {
        Reg8OrIndirect::Reg8(reg) => Instruction::BitTest { reg, bit },
        Reg8OrIndirect::Indirect(addr) => Instruction::BitTestIndirect { addr, bit },
    }
}

fn decode_reset_bit(opcode: u8) -> (instruction: Instruction)
    requires
        0x80 <= opcode < 0xC0,
    ensures
        instruction == decode_prefixed(opcode),
{
    let bit_opcode: u8 = opcode / 16;
    let reg_opcode: u8 = opcode % 16;

    let (reg, offset) = decode_reg_bit_ops(reg_opcode);
    let bit: u8 = (bit_opcode - 0x8) * 2 + offset;

    match reg {
        Reg8OrIndirect::Reg8(reg) => Instruction::ResetBit { reg, bit },
        Reg8OrIndirect::Indirect(addr) => Instruction::ResetBitIndirect { addr, bit },
    }
}

fn decode_set_bit(opcode: u8) -> (instruction: Instruction)
    requires
        0xC0 <= opcode,
    ensures
        instruction == decode_prefixed(opcode),
{
    let bit_opcode: u8 = opcode / 16;
    let reg_opcode: u8 = opcode % 16;

    let (reg, offset) = decode_reg_bit_ops(reg_opcode);
    let bit: u8 = (bit_opcode - 0xC) * 2 + offset;

    match reg {
        Reg8OrIndirect::Reg8(reg) => Instruction::SetBit { reg, bit },
        Reg8OrIndirect::Indirect(addr) => Instruction::SetBitIndirect { addr, bit },
    }
}

/// Decodes an opcode below 0x40.
fn decode_low(cpu: &mut CPU, mmu: &MMU, opcode: u8, at: u16) -> (res: Result<Instruction, Fault>)
    requires
        mmu.well_formed(),
        opcode <= 0x3F,
        opcode == mmu@.read(at),
        old(cpu).pc == advanced(at, 1),
    ensures
        decoded(*old(cpu), *final(cpu), mmu@, at, res),
{
    Ok(
    match opcode {
        0x00 => Instruction::NOP,
        0x01 => Instruction::LoadLiteralIntoReg16 {
            reg: Register16::BC,
            literal: cpu.fetch_and_advance_u16(mmu),
        },
        0x02 => Instruction::WriteReg8ValueAtIndirect {
            reg: Register8::A,
            addr: Register16::BC,
            post_op: None,
        },
        0x03 => Instruction::IncReg16 {
            reg: Register16::BC,
        },
        0x04 => Instruction::IncReg8 { reg: Register8::B },
        0x05 => Instruction::DecReg8 { reg: Register8::B },
        0x06 => Instruction::LoadLiteralIntoReg8 {
            reg: Register8::B,
            literal: cpu.fetch_and_advance(mmu),
        },
        0x07 => Instruction::RotateLeftA,
        0x08 => Instruction::WriteReg16ValueAtAddress {
            addr: cpu.fetch_and_advance_u16(mmu),
            reg: Register16::SP,
        },
        0x09 => Instruction::AddHLWithReg {
            reg: Register16::BC,
        },
        0x0A => Instruction::ReadIndirectToReg8 {
            addr: Register16::BC,
            reg: Register8::A,
            post_op: None,
        },
        0x0B => Instruction::DecReg16 {
            reg: Register16::BC,
        },
        0x0C => Instruction::IncReg8 { reg: Register8::C },
        0x0D => Instruction::DecReg8 { reg: Register8::C },
        0x0E => Instruction::LoadLiteralIntoReg8 {
            reg: Register8::C,
            literal: cpu.fetch_and_advance(mmu),
        },
        0x0F => Instruction::RotateRightA,
        0x10 => {
            cpu.fetch_and_advance(mmu);
            Instruction::Stop
        },
        0x11 => Instruction::LoadLiteralIntoReg16 {
            reg: Register16::DE,
            literal: cpu.fetch_and_advance_u16(mmu),
        },
        0x12 => Instruction::WriteReg8ValueAtIndirect {
            addr: Register16::DE,
            reg: Register8::A,
            post_op: None,
        },
        0x13 => Instruction::IncReg16 {
            reg: Register16::DE,
        },
        0x14 => Instruction::IncReg8 { reg: Register8::D },
        0x15 => Instruction::DecReg8 { reg: Register8::D },
        0x16 => Instruction::LoadLiteralIntoReg8 {
            reg: Register8::D,
            literal: cpu.fetch_and_advance(mmu),
        },
        0x17 => Instruction::RotateLeftThroughCarryA,
        0x18 => Instruction::JumpRelative {
            condition: None,
            offset: to_signed(cpu.fetch_and_advance(mmu)),
        },
        0x19 => Instruction::AddHLWithReg {
            reg: Register16::DE,
        },
        0x1A => Instruction::ReadIndirectToReg8 {
            addr: Register16::DE,
            reg: Register8::A,
            post_op: None,
        },
        0x1B => Instruction::DecReg16 {
            reg: Register16::DE,
        },
        0x1C => Instruction::IncReg8 { reg: Register8::E },
        0x1D => Instruction::DecReg8 { reg: Register8::E },
        0x1E => Instruction::LoadLiteralIntoReg8 {
            reg: Register8::E,
            literal: cpu.fetch_and_advance(mmu),
        },
        0x1F => Instruction::RotateRightThroughCarryA,
        0x20 => Instruction::JumpRelative {
            condition: Some(JumpCondition::NonZero),
            offset: to_signed(cpu.fetch_and_advance(mmu)),
        },
        0x21 => Instruction::LoadLiteralIntoReg16 {
            reg: Register16::HL,
            literal: cpu.fetch_and_advance_u16(mmu),
        },
        0x22 => Instruction::WriteReg8ValueAtIndirect {
            addr: Register16::HL,
            reg: Register8::A,
            post_op: Some(PrePostOperation::Inc),
        },
        0x23 => Instruction::IncReg16 {
            reg: Register16::HL,
        },
        0x24 => Instruction::IncReg8 { reg: Register8::H },
        0x25 => Instruction::DecReg8 { reg: Register8::H },
        0x26 => Instruction::LoadLiteralIntoReg8 {
            reg: Register8::H,
            literal: cpu.fetch_and_advance(mmu),
        },
        0x27 => Instruction::DAA,
        0x28 => Instruction::JumpRelative {
            condition: Some(JumpCondition::Zero),
            offset: to_signed(cpu.fetch_and_advance(mmu)),
        },
        0x29 => Instruction::AddHLWithReg {
            reg: Register16::HL,
        },
        0x2A => Instruction::ReadIndirectToReg8 {
            reg: Register8::A,
            addr: Register16::HL,
            post_op: Some(PrePostOperation::Inc),
        },
        0x2B => Instruction::DecReg16 {
            reg: Register16::HL,
        },
        0x2C => Instruction::IncReg8 { reg: Register8::L },
        0x2D => Instruction::DecReg8 { reg: Register8::L },
        0x2E => Instruction::LoadLiteralIntoReg8 {
            reg: Register8::L,
            literal: cpu.fetch_and_advance(mmu),
        },
        0x2F => Instruction::ComplementA,
        0x30 => Instruction::JumpRelative {
            condition: Some(JumpCondition::NonCarry),
            offset: to_signed(cpu.fetch_and_advance(mmu)),
        },
        0x31 => Instruction::LoadLiteralIntoReg16 {
            reg: Register16::SP,
            literal: cpu.fetch_and_advance_u16(mmu),
        },
        0x32 => Instruction::WriteReg8ValueAtIndirect {
            addr: Register16::HL,
            reg: Register8::A,
            post_op: Some(PrePostOperation::Dec),
        },
        0x33 => Instruction::IncReg16 {
            reg: Register16::SP,
        },
        0x34 => Instruction::IncIndirect {
            addr: Register16::HL,
        },
        0x35 => Instruction::DecIndirect {
            addr: Register16::HL,
        },
        0x36 => Instruction::WriteLiteralAtIndirect {
            addr: Register16::HL,
            literal: cpu.fetch_and_advance(mmu),
        },
        0x37 => Instruction::SetCarryFlag,
        0x38 => Instruction::JumpRelative {
            condition: Some(JumpCondition::Carry),
            offset: to_signed(cpu.fetch_and_advance(mmu)),
        },
        0x39 => Instruction::AddHLWithReg {
            reg: Register16::SP,
        },
        0x3A => Instruction::ReadIndirectToReg8 {
            addr: Register16::HL,
            reg: Register8::A,
            post_op: Some(PrePostOperation::Dec),
        },
        0x3B => Instruction::DecReg16 {
            reg: Register16::SP,
        },
        0x3C => Instruction::IncReg8 { reg: Register8::A },
        0x3D => Instruction::DecReg8 { reg: Register8::A },
        0x3E => Instruction::LoadLiteralIntoReg8 {
            reg: Register8::A,
            literal: cpu.fetch_and_advance(mmu),
        },
        0x3F => Instruction::ComplementCarryFlag,
        _ => {
            return Err(Fault::UnknownOpcode { opcode, pc: at });
        },
    })
}

/// Decodes an opcode of the load block, 0x40..0x7F.
fn decode_moves(cpu: &mut CPU, mmu: &MMU, opcode: u8, at: u16) -> (res: Result<Instruction, Fault>)
    requires
        mmu.well_formed(),
        0x40 <= opcode <= 0x7F,
        opcode == mmu@.read(at),
        old(cpu).pc == advanced(at, 1),
    ensures
        decoded(*old(cpu), *final(cpu), mmu@, at, res),
{
    Ok(
    match opcode {
        0x40 => Instruction::Move {
            dest: Register8::B,
            src: Register8::B,
        },
        0x41 => Instruction::Move {
            dest: Register8::B,
            src: Register8::C,
        },
        0x42 => Instruction::Move {
            dest: Register8::B,
            src: Register8::D,
        },
        0x43 => Instruction::Move {
            dest: Register8::B,
            src: Register8::E,
        },
        0x44 => Instruction::Move {
            dest: Register8::B,
            src: Register8::H,
        },
        0x45 => Instruction::Move {
            dest: Register8::B,
            src: Register8::L,
        },
        0x46 => Instruction::ReadIndirectToReg8 {
            reg: Register8::B,
            addr: Register16::HL,
            post_op: None,
        },
        0x47 => Instruction::Move {
            dest: Register8::B,
            src: Register8::A,
        },
        0x48 => Instruction::Move {
            dest: Register8::C,
            src: Register8::B,
        },
        0x49 => Instruction::Move {
            dest: Register8::C,
            src: Register8::C,
        },
        0x4A => Instruction::Move {
            dest: Register8::C,
            src: Register8::D,
        },
        0x4B => Instruction::Move {
            dest: Register8::C,
            src: Register8::E,
        },
        0x4C => Instruction::Move {
            dest: Register8::C,
            src: Register8::H,
        },
        0x4D => Instruction::Move {
            dest: Register8::C,
            src: Register8::L,
        },
        0x4E => Instruction::ReadIndirectToReg8 {
            reg: Register8::C,
            addr: Register16::HL,
            post_op: None,
        },
        0x4F => Instruction::Move {
            dest: Register8::C,
            src: Register8::A,
        },
        0x50 => Instruction::Move {
            dest: Register8::D,
            src: Register8::B,
        },
        0x51 => Instruction::Move {
            dest: Register8::D,
            src: Register8::C,
        },
        0x52 => Instruction::Move {
            dest: Register8::D,
            src: Register8::D,
        },
        0x53 => Instruction::Move {
            dest: Register8::D,
            src: Register8::E,
        },
        0x54 => Instruction::Move {
            dest: Register8::D,
            src: Register8::H,
        },
        0x55 => Instruction::Move {
            dest: Register8::D,
            src: Register8::L,
        },
        0x56 => Instruction::ReadIndirectToReg8 {
            reg: Register8::D,
            addr: Register16::HL,
            post_op: None,
        },
        0x57 => Instruction::Move {
            dest: Register8::D,
            src: Register8::A,
        },
        0x58 => Instruction::Move {
            dest: Register8::E,
            src: Register8::B,
        },
        0x59 => Instruction::Move {
            dest: Register8::E,
            src: Register8::C,
        },
        0x5A => Instruction::Move {
            dest: Register8::E,
            src: Register8::D,
        },
        0x5B => Instruction::Move {
            dest: Register8::E,
            src: Register8::E,
        },
        0x5C => Instruction::Move {
            dest: Register8::E,
            src: Register8::H,
        },
        0x5D => Instruction::Move {
            dest: Register8::E,
            src: Register8::L,
        },
        0x5E => Instruction::ReadIndirectToReg8 {
            reg: Register8::E,
            addr: Register16::HL,
            post_op: None,
        },
        0x5F => Instruction::Move {
            dest: Register8::E,
            src: Register8::A,
        },
        0x60 => Instruction::Move {
            dest: Register8::H,
            src: Register8::B,
        },
        0x61 => Instruction::Move {
            dest: Register8::H,
            src: Register8::C,
        },
        0x62 => Instruction::Move {
            dest: Register8::H,
            src: Register8::D,
        },
        0x63 => Instruction::Move {
            dest: Register8::H,
            src: Register8::E,
        },
        0x64 => Instruction::Move {
            dest: Register8::H,
            src: Register8::H,
        },
        0x65 => Instruction::Move {
            dest: Register8::H,
            src: Register8::L,
        },
        0x66 => Instruction::ReadIndirectToReg8 {
            addr: Register16::HL,
            reg: Register8::H,
            post_op: None,
        },
        0x67 => Instruction::Move {
            dest: Register8::H,
            src: Register8::A,
        },
        0x68 => Instruction::Move {
            dest: Register8::L,
            src: Register8::B,
        },
        0x69 => Instruction::Move {
            dest: Register8::L,
            src: Register8::C,
        },
        0x6A => Instruction::Move {
            dest: Register8::L,
            src: Register8::D,
        },
        0x6B => Instruction::Move {
            dest: Register8::L,
            src: Register8::E,
        },
        0x6C => Instruction::Move {
            dest: Register8::L,
            src: Register8::H,
        },
        0x6D => Instruction::Move {
            dest: Register8::L,
            src: Register8::L,
        },
        0x6E => Instruction::ReadIndirectToReg8 {
            addr: Register16::HL,
            reg: Register8::L,
            post_op: None,
        },
        0x6F => Instruction::Move {
            dest: Register8::L,
            src: Register8::A,
        },
        0x70 => Instruction::WriteReg8ValueAtIndirect {
            addr: Register16::HL,
            reg: Register8::B,
            post_op: None,
        },
        0x71 => Instruction::WriteReg8ValueAtIndirect {
            addr: Register16::HL,
            reg: Register8::C,
            post_op: None,
        },
        0x72 => Instruction::WriteReg8ValueAtIndirect {
            addr: Register16::HL,
            reg: Register8::D,
            post_op: None,
        },
        0x73 => Instruction::WriteReg8ValueAtIndirect {
            addr: Register16::HL,
            reg: Register8::E,
            post_op: None,
        },
        0x74 => Instruction::WriteReg8ValueAtIndirect {
            addr: Register16::HL,
            reg: Register8::H,
            post_op: None,
        },
        0x75 => Instruction::WriteReg8ValueAtIndirect {
            addr: Register16::HL,
            reg: Register8::L,
            post_op: None,
        },
        0x76 => Instruction::Halt,
        0x77 => Instruction::WriteReg8ValueAtIndirect {
            addr: Register16::HL,
            reg: Register8::A,
            post_op: None,
        },
        0x78 => Instruction::Move {
            dest: Register8::A,
            src: Register8::B,
        },
        0x79 => Instruction::Move {
            dest: Register8::A,
            src: Register8::C,
        },
        0x7A => Instruction::Move {
            dest: Register8::A,
            src: Register8::D,
        },
        0x7B => Instruction::Move {
            dest: Register8::A,
            src: Register8::E,
        },
        0x7C => Instruction::Move {
            dest: Register8::A,
            src: Register8::H,
        },
        0x7D => Instruction::Move {
            dest: Register8::A,
            src: Register8::L,
        },
        0x7E => Instruction::ReadIndirectToReg8 {
            reg: Register8::A,
            addr: Register16::HL,
            post_op: None,
        },
        0x7F => Instruction::Move {
            dest: Register8::A,
            src: Register8::A,
        },
        _ => {
            return Err(Fault::UnknownOpcode { opcode, pc: at });
        },
    })
}

/// Decodes an opcode of the arithmetic block, 0x80..0xBF.
fn decode_arithmetic(cpu: &mut CPU, mmu: &MMU, opcode: u8, at: u16) -> (res: Result<Instruction, Fault>)
    requires
        mmu.well_formed(),
        0x80 <= opcode <= 0xBF,
        opcode == mmu@.read(at),
        old(cpu).pc == advanced(at, 1),
    ensures
        decoded(*old(cpu), *final(cpu), mmu@, at, res),
{
    Ok(
    match opcode {
        0x80 => Instruction::AddAWithReg8 { reg: Register8::B },
        0x81 => Instruction::AddAWithReg8 { reg: Register8::C },
        0x82 => Instruction::AddAWithReg8 { reg: Register8::D },
        0x83 => Instruction::AddAWithReg8 { reg: Register8::E },
        0x84 => Instruction::AddAWithReg8 { reg: Register8::H },
        0x85 => Instruction::AddAWithReg8 { reg: Register8::L },
        0x86 => Instruction::AddAWithIndirect {
            addr: Register16::HL,
        },
        0x87 => Instruction::AddAWithReg8 { reg: Register8::A },
        0x88 => Instruction::AdcAWithReg8 { reg: Register8::B },
        0x89 => Instruction::AdcAWithReg8 { reg: Register8::C },
        0x8A => Instruction::AdcAWithReg8 { reg: Register8::D },
        0x8B => Instruction::AdcAWithReg8 { reg: Register8::E },
        0x8C => Instruction::AdcAWithReg8 { reg: Register8::H },
        0x8D => Instruction::AdcAWithReg8 { reg: Register8::L },
        0x8E => Instruction::AdcAWithIndirect {
            addr: Register16::HL,
        },
        0x8F => Instruction::AdcAWithReg8 { reg: Register8::A },
        0x90 => Instruction::SubAWithReg8 { reg: Register8::B },
        0x91 => Instruction::SubAWithReg8 { reg: Register8::C },
        0x92 => Instruction::SubAWithReg8 { reg: Register8::D },
        0x93 => Instruction::SubAWithReg8 { reg: Register8::E },
        0x94 => Instruction::SubAWithReg8 { reg: Register8::H },
        0x95 => Instruction::SubAWithReg8 { reg: Register8::L },
        0x96 => Instruction::SubAWithIndirect {
            addr: Register16::HL,
        },
        0x97 => Instruction::SubAWithReg8 { reg: Register8::A },
        0x98 => Instruction::SbcAWithReg8 { reg: Register8::B },
        0x99 => Instruction::SbcAWithReg8 { reg: Register8::C },
        0x9A => Instruction::SbcAWithReg8 { reg: Register8::D },
        0x9B => Instruction::SbcAWithReg8 { reg: Register8::E },
        0x9C => Instruction::SbcAWithReg8 { reg: Register8::H },
        0x9D => Instruction::SbcAWithReg8 { reg: Register8::L },
        0x9E => Instruction::SbcAWithIndirect {
            addr: Register16::HL,
        },
        0x9F => Instruction::SbcAWithReg8 { reg: Register8::A },
        0xA0 => Instruction::AndAWithReg8 { reg: Register8::B },
        0xA1 => Instruction::AndAWithReg8 { reg: Register8::C },
        0xA2 => Instruction::AndAWithReg8 { reg: Register8::D },
        0xA3 => Instruction::AndAWithReg8 { reg: Register8::E },
        0xA4 => Instruction::AndAWithReg8 { reg: Register8::H },
        0xA5 => Instruction::AndAWithReg8 { reg: Register8::L },
        0xA6 => Instruction::AndAWithIndirect {
            addr: Register16::HL,
        },
        0xA7 => Instruction::AndAWithReg8 { reg: Register8::A },
        0xA8 => Instruction::XorAWithReg8 { reg: Register8::B },
        0xA9 => Instruction::XorAWithReg8 { reg: Register8::C },
        0xAA => Instruction::XorAWithReg8 { reg: Register8::D },
        0xAB => Instruction::XorAWithReg8 { reg: Register8::E },
        0xAC => Instruction::XorAWithReg8 { reg: Register8::H },
        0xAD => Instruction::XorAWithReg8 { reg: Register8::L },
        0xAE => Instruction::XorAWithIndirect {
            addr: Register16::HL,
        },
        0xAF => Instruction::XorAWithReg8 { reg: Register8::A },
        0xB0 => Instruction::OrAWithReg8 { reg: Register8::B },
        0xB1 => Instruction::OrAWithReg8 { reg: Register8::C },
        0xB2 => Instruction::OrAWithReg8 { reg: Register8::D },
        0xB3 => Instruction::OrAWithReg8 { reg: Register8::E },
        0xB4 => Instruction::OrAWithReg8 { reg: Register8::H },
        0xB5 => Instruction::OrAWithReg8 { reg: Register8::L },
        0xB6 => Instruction::OrAWithIndirect {
            addr: Register16::HL,
        },
        0xB7 => Instruction::OrAWithReg8 { reg: Register8::A },
        0xB8 => Instruction::CompareAWithReg { reg: Register8::B },
        0xB9 => Instruction::CompareAWithReg { reg: Register8::C },
        0xBA => Instruction::CompareAWithReg { reg: Register8::D },
        0xBB => Instruction::CompareAWithReg { reg: Register8::E },
        0xBC => Instruction::CompareAWithReg { reg: Register8::H },
        0xBD => Instruction::CompareAWithReg { reg: Register8::L },
        0xBE => Instruction::CompareAWithIndirect {
            addr: Register16::HL,
        },
        0xBF => Instruction::CompareAWithReg { reg: Register8::A },
        _ => {
            return Err(Fault::UnknownOpcode { opcode, pc: at });
        },
    })
}

/// Decodes an opcode from 0xC0 on, the prefix 0xCB excepted.
fn decode_high(cpu: &mut CPU, mmu: &MMU, opcode: u8, at: u16) -> (res: Result<Instruction, Fault>)
    requires
        mmu.well_formed(),
        0xC0 <= opcode <= 0xFF,
        opcode != 0xCB,
        opcode == mmu@.read(at),
        old(cpu).pc == advanced(at, 1),
    ensures
        decoded(*old(cpu), *final(cpu), mmu@, at, res),
{
    Ok(
    match opcode {
        0xC0 => Instruction::Return {
            condition: Some(JumpCondition::NonZero),
        },
        0xC1 => Instruction::PopReg16 {
            reg: Register16::BC,
        },
        0xC2 => Instruction::JumpAbsolute {
            condition: Some(JumpCondition::NonZero),
            addr: cpu.fetch_and_advance_u16(mmu),
        },
        0xC3 => Instruction::JumpAbsolute {
            condition: None,
            addr: cpu.fetch_and_advance_u16(mmu),
        },
        0xC4 => Instruction::CallAddr {
            condition: Some(JumpCondition::NonZero),
            addr: cpu.fetch_and_advance_u16(mmu),
        },
        0xC5 => Instruction::PushReg16 {
            reg: Register16::BC,
        },
        0xC6 => Instruction::AddAWithLiteral {
            literal: cpu.fetch_and_advance(mmu),
        },
        0xC7 => Instruction::Reset { offset: 0x00 },
        0xC8 => Instruction::Return {
            condition: Some(JumpCondition::Zero),
        },
        0xC9 => Instruction::Return { condition: None },
        0xCA => Instruction::JumpAbsolute {
            condition: Some(JumpCondition::Zero),
            addr: cpu.fetch_and_advance_u16(mmu),
        },
        0xCC => Instruction::CallAddr {
            condition: Some(JumpCondition::Zero),
            addr: cpu.fetch_and_advance_u16(mmu),
        },
        0xCD => Instruction::CallAddr {
            condition: None,
            addr: cpu.fetch_and_advance_u16(mmu),
        },
        0xCE => Instruction::AdcAWithLiteral {
            literal: cpu.fetch_and_advance(mmu),
        },
        0xCF => Instruction::Reset { offset: 0x08 },
        0xD0 => Instruction::Return {
            condition: Some(JumpCondition::NonCarry),
        },
        0xD1 => Instruction::PopReg16 {
            reg: Register16::DE,
        },
        0xD2 => Instruction::JumpAbsolute {
            condition: Some(JumpCondition::NonCarry),
            addr: cpu.fetch_and_advance_u16(mmu),
        },
        0xD4 => Instruction::CallAddr {
            condition: Some(JumpCondition::NonCarry),
            addr: cpu.fetch_and_advance_u16(mmu),
        },
        0xD5 => Instruction::PushReg16 {
            reg: Register16::DE,
        },
        0xD6 => Instruction::SubAWithLiteral {
            literal: cpu.fetch_and_advance(mmu),
        },
        0xD7 => Instruction::Reset { offset: 0x10 },
        0xD8 => Instruction::Return {
            condition: Some(JumpCondition::Carry),
        },
        0xD9 => Instruction::ReturnInterrupt,
        0xDA => Instruction::JumpAbsolute {
            condition: Some(JumpCondition::Carry),
            addr: cpu.fetch_and_advance_u16(mmu),
        },
        0xDC => Instruction::CallAddr {
            condition: Some(JumpCondition::Carry),
            addr: cpu.fetch_and_advance_u16(mmu),
        },
        0xDE => Instruction::SbcAWithLiteral {
            literal: cpu.fetch_and_advance(mmu),
        },
        0xDF => Instruction::Reset { offset: 0x18 },
        0xE0 => Instruction::WriteReg8ValueAtZeroPageOffsetLiteral {
            lit_offset: cpu.fetch_and_advance(mmu),
            reg: Register8::A,
        },
        0xE1 => Instruction::PopReg16 {
            reg: Register16::HL,
        },
        0xE2 => Instruction::WriteReg8ValueAtZeroPageOffsetReg8 {
            reg_offset: Register8::C,
            reg: Register8::A,
        },
        0xE5 => Instruction::PushReg16 {
            reg: Register16::HL,
        },
        0xE6 => Instruction::AndAWithLiteral {
            literal: cpu.fetch_and_advance(mmu),
        },
        0xE7 => Instruction::Reset { offset: 0x20 },
        0xE8 => Instruction::AddOffsetToReg16 {
            reg: Register16::SP,
            offset: to_signed(cpu.fetch_and_advance(mmu)),
        },
        0xE9 => Instruction::JumpRegister16 {
            reg: Register16::HL,
        },
        0xEA => Instruction::WriteReg8ValueAtAddress {
            addr: cpu.fetch_and_advance_u16(mmu),
            reg: Register8::A,
        },
        0xEE => Instruction::XorAWithLiteral {
            literal: cpu.fetch_and_advance(mmu),
        },
        0xEF => Instruction::Reset { offset: 0x28 },
        0xF0 => Instruction::ReadZeroPageOffsetLiteralToReg8 {
            reg: Register8::A,
            lit_offset: cpu.fetch_and_advance(mmu),
        },
        0xF1 => Instruction::PopReg16 {
            reg: Register16::AF,
        },
        0xF2 => Instruction::ReadZeroPageOffsetReg8ToReg8 {
            offset: Register8::C,
            reg: Register8::A,
        },
        0xF3 => Instruction::DisableInterrupts,
        0xF5 => Instruction::PushReg16 {
            reg: Register16::AF,
        },
        0xF6 => Instruction::OrAWithLiteral {
            literal: cpu.fetch_and_advance(mmu),
        },
        0xF7 => Instruction::Reset { offset: 0x30 },
        0xF8 => Instruction::LoadAddressOffsetIntoReg16 {
            dest: Register16::HL,
            base: Register16::SP,
            offset: to_signed(cpu.fetch_and_advance(mmu)),
        },
        0xF9 => Instruction::Move16Bits {
            dest: Register16::SP,
            src: Register16::HL,
        },
        0xFA => Instruction::ReadAtAddressToReg8 {
            addr: cpu.fetch_and_advance_u16(mmu),
            reg: Register8::A,
        },
        0xFB => Instruction::EnableInterrupts,
        0xFE => Instruction::CompareAWithLiteral {
            literal: cpu.fetch_and_advance(mmu),
        },
        0xFF => Instruction::Reset { offset: 0x38 },
        _ => {
            return Err(Fault::UnknownOpcode { opcode, pc: at });
        },
    })
}

/// Decodes the rotation or shift that follows the prefix 0xCB.
fn decode_rotation(opcode: u8) -> (instruction: Instruction)
    requires
        opcode < 0x40,
    ensures
        instruction == decode_prefixed(opcode),
{
    match opcode {
        0x00 => Instruction::RotateLeft { reg: Register8::B },
        0x01 => Instruction::RotateLeft { reg: Register8::C },
        0x02 => Instruction::RotateLeft { reg: Register8::D },
        0x03 => Instruction::RotateLeft { reg: Register8::E },
        0x04 => Instruction::RotateLeft { reg: Register8::H },
        0x05 => Instruction::RotateLeft { reg: Register8::L },
        0x06 => Instruction::RotateLeftWithIndirect {
            addr: Register16::HL,
        },
        0x07 => Instruction::RotateLeft { reg: Register8::A },
        0x08 => Instruction::RotateRight { reg: Register8::B },
        0x09 => Instruction::RotateRight { reg: Register8::C },
        0x0A => Instruction::RotateRight { reg: Register8::D },
        0x0B => Instruction::RotateRight { reg: Register8::E },
        0x0C => Instruction::RotateRight { reg: Register8::H },
        0x0D => Instruction::RotateRight { reg: Register8::L },
        0x0E => Instruction::RotateRightWithIndirect {
            addr: Register16::HL,
        },
        0x0F => Instruction::RotateRight { reg: Register8::A },
        0x10 => Instruction::RotateLeftThroughCarry { reg: Register8::B },
        0x11 => Instruction::RotateLeftThroughCarry { reg: Register8::C },
        0x12 => Instruction::RotateLeftThroughCarry { reg: Register8::D },
        0x13 => Instruction::RotateLeftThroughCarry { reg: Register8::E },
        0x14 => Instruction::RotateLeftThroughCarry { reg: Register8::H },
        0x15 => Instruction::RotateLeftThroughCarry { reg: Register8::L },
        0x16 => Instruction::RotateLeftThroughCarryWithIndirect {
            addr: Register16::HL,
        },
        0x17 => Instruction::RotateLeftThroughCarry { reg: Register8::A },
        0x18 => Instruction::RotateRightThroughCarry { reg: Register8::B },
        0x19 => Instruction::RotateRightThroughCarry { reg: Register8::C },
        0x1A => Instruction::RotateRightThroughCarry { reg: Register8::D },
        0x1B => Instruction::RotateRightThroughCarry { reg: Register8::E },
        0x1C => Instruction::RotateRightThroughCarry { reg: Register8::H },
        0x1D => Instruction::RotateRightThroughCarry { reg: Register8::L },
        0x1E => Instruction::RotateRightThroughCarryWithIndirect {
            addr: Register16::HL,
        },
        0x1F => Instruction::RotateRightThroughCarry { reg: Register8::A },
        0x20 => Instruction::ShiftLeftIntoCarry { reg: Register8::B },
        0x21 => Instruction::ShiftLeftIntoCarry { reg: Register8::C },
        0x22 => Instruction::ShiftLeftIntoCarry { reg: Register8::D },
        0x23 => Instruction::ShiftLeftIntoCarry { reg: Register8::E },
        0x24 => Instruction::ShiftLeftIntoCarry { reg: Register8::H },
        0x25 => Instruction::ShiftLeftIntoCarry { reg: Register8::L },
        0x26 => Instruction::ShiftLeftIntoCarryWithIndirect {
            addr: Register16::HL,
        },
        0x27 => Instruction::ShiftLeftIntoCarry { reg: Register8::A },
        0x28 => Instruction::ShiftRightWithSignIntoCarry { reg: Register8::B },
        0x29 => Instruction::ShiftRightWithSignIntoCarry { reg: Register8::C },
        0x2A => Instruction::ShiftRightWithSignIntoCarry { reg: Register8::D },
        0x2B => Instruction::ShiftRightWithSignIntoCarry { reg: Register8::E },
        0x2C => Instruction::ShiftRightWithSignIntoCarry { reg: Register8::H },
        0x2D => Instruction::ShiftRightWithSignIntoCarry { reg: Register8::L },
        0x2E => Instruction::ShiftRightWithSignIntoCarryWithIndirect {
            addr: Register16::HL,
        },
        0x2F => Instruction::ShiftRightWithSignIntoCarry { reg: Register8::A },
        0x30 => Instruction::SwapReg8 { reg: Register8::B },
        0x31 => Instruction::SwapReg8 { reg: Register8::C },
        0x32 => Instruction::SwapReg8 { reg: Register8::D },
        0x33 => Instruction::SwapReg8 { reg: Register8::E },
        0x34 => Instruction::SwapReg8 { reg: Register8::H },
        0x35 => Instruction::SwapReg8 { reg: Register8::L },
        0x36 => Instruction::SwapIndirect {
            addr: Register16::HL,
        },
        0x37 => Instruction::SwapReg8 { reg: Register8::A },
        0x38 => Instruction::ShiftRightWithZeroIntoCarry { reg: Register8::B },
        0x39 => Instruction::ShiftRightWithZeroIntoCarry { reg: Register8::C },
        0x3A => Instruction::ShiftRightWithZeroIntoCarry { reg: Register8::D },
        0x3B => Instruction::ShiftRightWithZeroIntoCarry { reg: Register8::E },
        0x3C => Instruction::ShiftRightWithZeroIntoCarry { reg: Register8::H },
        0x3D => Instruction::ShiftRightWithZeroIntoCarry { reg: Register8::L },
        0x3E => Instruction::ShiftRightWithZeroIntoCarryWithIndirect {
            addr: Register16::HL,
        },
        0x3F => Instruction::ShiftRightWithZeroIntoCarry { reg: Register8::A },
        _ => Instruction::NOP,
    }
}

} // verus!
