//! Instructions and their expansion into micro-operations.

use vstd::prelude::*;
use super::micro_op::{
    delayed, jump_relative, jump_relative_op, load_literal_into_reg8, load_literal_op, models,
    move_micro_op, move_op, plain, Destination8Bits, MicroOp, MicroOpModel, Reg8OrIndirect,
    Source8bits,
};
use super::register::{Register16, Register8};

verus! {

/// A decoded instruction with its operands.
#[allow(inconsistent_fields)]
#[derive(Debug, Clone, Copy, PartialEq, Eq, Structural)]
pub enum Instruction {
    NOP,
    Move {
        dest: Register8,
        src: Register8,
    },
    Move16Bits {
        dest: Register16,
        src: Register16,
    },
    LoadLiteralIntoReg8 {
        reg: Register8,
        literal: u8,
    },
    LoadLiteralIntoReg16 {
        reg: Register16,
        literal: u16,
    },
    LoadAddressOffsetIntoReg16 {
        dest: Register16,
        base: Register16,
        offset: i8,
    },
    AndAWithReg8 {
        reg: Register8,
    },
    AndAWithLiteral {
        literal: u8,
    },
    AndAWithIndirect {
        addr: Register16,
    },
    OrAWithReg8 {
        reg: Register8,
    },
    OrAWithIndirect {
        addr: Register16,
    },
    OrAWithLiteral {
        literal: u8,
    },
    XorAWithReg8 {
        reg: Register8,
    },
    XorAWithIndirect {
        addr: Register16,
    },
    XorAWithLiteral {
        literal: u8,
    },
    AddAWithReg8 {
        reg: Register8,
    },
    AddAWithLiteral {
        literal: u8,
    },
    AddAWithIndirect {
        addr: Register16,
    },
    AddHLWithReg {
        reg: Register16,
    },
    AddOffsetToReg16 {
        reg: Register16,
        offset: i8,
    },
    AdcAWithReg8 {
        reg: Register8,
    },
    AdcAWithLiteral {
        literal: u8,
    },
    AdcAWithIndirect {
        addr: Register16,
    },
    SubAWithReg8 {
        reg: Register8,
    },
    SubAWithLiteral {
        literal: u8,
    },
    SubAWithIndirect {
        addr: Register16,
    },
    SbcAWithReg8 {
        reg: Register8,
    },
    SbcAWithLiteral {
        literal: u8,
    },
    SbcAWithIndirect {
        addr: Register16,
    },
    DAA,
    ComplementA,
    WriteReg8ValueAtAddress {
        addr: u16,
        reg: Register8,
    },
    WriteReg16ValueAtAddress {
        addr: u16,
        reg: Register16,
    },
    WriteLiteralAtIndirect {
        addr: Register16,
        literal: u8,
    },
    WriteReg8ValueAtIndirect {
        addr: Register16,
        reg: Register8,
        post_op: Option<PrePostOperation>,
    },
    WriteReg8ValueAtZeroPageOffsetReg8 {
        reg_offset: Register8,
        reg: Register8,
    },
    WriteReg8ValueAtZeroPageOffsetLiteral {
        lit_offset: u8,
        reg: Register8,
    },
    ReadIndirectToReg8 {
        reg: Register8,
        addr: Register16,
        post_op: Option<PrePostOperation>,
    },
    ReadAtAddressToReg8 {
        reg: Register8,
        addr: u16,
    },
    ReadZeroPageOffsetLiteralToReg8 {
        lit_offset: u8,
        reg: Register8,
    },
    ReadZeroPageOffsetReg8ToReg8 {
        offset: Register8,
        reg: Register8,
    },
    PushReg16 {
        reg: Register16,
    },
    PopReg16 {
        reg: Register16,
    },
    BitTest {
        reg: Register8,
        bit: u8,
    },
    BitTestIndirect {
        addr: Register16,
        bit: u8,
    },
    ResetBit {
        reg: Register8,
        bit: u8,
    },
    ResetBitIndirect {
        addr: Register16,
        bit: u8,
    },
    SetBit {
        reg: Register8,
        bit: u8,
    },
    SetBitIndirect {
        addr: Register16,
        bit: u8,
    },
    CallAddr {
        condition: Option<JumpCondition>,
        addr: u16,
    },
    Return {
        condition: Option<JumpCondition>,
    },
    ReturnInterrupt,
    JumpRelative {
        condition: Option<JumpCondition>,
        offset: i8,
    },
    JumpAbsolute {
        condition: Option<JumpCondition>,
        addr: u16,
    },
    JumpRegister16 {
        reg: Register16,
    },
    Reset {
        offset: u16,
    },
    IncReg16 {
        reg: Register16,
    },
    IncReg8 {
        reg: Register8,
    },
    IncIndirect {
        addr: Register16,
    },
    DecReg16 {
        reg: Register16,
    },
    DecReg8 {
        reg: Register8,
    },
    DecIndirect {
        addr: Register16,
    },
    CompareAWithLiteral {
        literal: u8,
    },
    CompareAWithReg {
        reg: Register8,
    },
    CompareAWithIndirect {
        addr: Register16,
    },
    RotateLeftThroughCarryA,
    RotateLeftThroughCarry {
        reg: Register8,
    },
    RotateLeftThroughCarryWithIndirect {
        addr: Register16,
    },
    RotateRightThroughCarryA,
    RotateRightThroughCarry {
        reg: Register8,
    },
    RotateRightThroughCarryWithIndirect {
        addr: Register16,
    },
    RotateLeftA,
    RotateLeft {
        reg: Register8,
    },
    RotateLeftWithIndirect {
        addr: Register16,
    },
    RotateRightA,
    RotateRight {
        reg: Register8,
    },
    RotateRightWithIndirect {
        addr: Register16,
    },
    ShiftLeftIntoCarry {
        reg: Register8,
    },
    ShiftLeftIntoCarryWithIndirect {
        addr: Register16,
    },
    ShiftRightWithZeroIntoCarry {
        reg: Register8,
    },
    ShiftRightWithZeroIntoCarryWithIndirect {
        addr: Register16,
    },
    ShiftRightWithSignIntoCarry {
        reg: Register8,
    },
    ShiftRightWithSignIntoCarryWithIndirect {
        addr: Register16,
    },
    SwapReg8 {
        reg: Register8,
    },
    SwapIndirect {
        addr: Register16,
    },
    SetCarryFlag,
    ComplementCarryFlag,
    EnableInterrupts,
    DisableInterrupts,
    Halt,
    Stop,
}

/// The condition of a conditional jump, call or return.
#[derive(Debug, Clone, Copy, PartialEq, Eq, Structural)]
pub enum JumpCondition {
    NonZero,
    Zero,
    NonCarry,
    Carry,
}

/// A step applied to the address register of a memory access.
#[derive(Debug, Clone, Copy, PartialEq, Eq, Structural)]
pub enum PrePostOperation {
    Dec,
    Inc,
}

/// The write of `reg` to the stack: `SP` goes down by one, then the byte
/// is stored at `SP`.
pub open spec fn push_op(reg: Register8) -> MicroOp {
    MicroOp::WriteMem {
        addr: Register16::SP,
        reg,
        pre_op: Some(PrePostOperation::Dec),
        post_op: None,
    }
}

/// The read of `reg` from the stack: the byte at `SP` is loaded, then
/// `SP` goes up by one.
pub open spec fn pop_op(reg: Register8) -> MicroOp {
    MicroOp::ReadMem { reg, addr: Register16::SP, post_op: Some(PrePostOperation::Inc) }
}

/// Pushes `PC`, high byte first, and continues at `addr`.
pub open spec fn call_ops(addr: u16) -> Seq<MicroOp> {
    seq![
        push_op(Register8::PCHigh),
        push_op(Register8::PCLow),
        MicroOp::LoadReg16Lit { reg: Register16::PC, literal: addr },
    ]
}

/// Pops `PC`, low byte first.
pub open spec fn return_ops() -> Seq<MicroOp> {
    seq![pop_op(Register8::PCLow), pop_op(Register8::PCHigh)]
}

/// Loads `addr` into `PC`, low byte first.
pub open spec fn jump_ops(addr: u16) -> Seq<MicroOp> {
    seq![
        load_literal_op((addr % 256) as u8, Register8::PCLow),
        load_literal_op((addr / 256) as u8, Register8::PCHigh),
    ]
}

/// A single `CheckFlags` whose branches hold plain micro-operations.
pub open spec fn branch(
    condition: JumpCondition,
    taken: Seq<MicroOp>,
    skipped: Seq<MicroOp>,
) -> Seq<MicroOpModel> {
    seq![MicroOpModel::Branch { condition, taken: plain(taken), skipped: plain(skipped) }]
}

/// One plain micro-operation.
pub open spec fn only(op: MicroOp) -> Seq<MicroOpModel> {
    seq![MicroOpModel::Plain(op)]
}

impl Instruction {
    /// Whether every 16-bit register that the expansion splits into
    /// halves can be split. The decoder only produces such instructions.
    pub open spec fn well_formed(self) -> bool {
        match self {
            Instruction::LoadLiteralIntoReg16 { reg, .. } => reg.splits(),
            Instruction::WriteReg16ValueAtAddress { reg, .. } => reg.splits(),
            Instruction::PushReg16 { reg } => reg.splits(),
            Instruction::PopReg16 { reg } => reg.splits(),
            _ => true,
        }
    }

    /// The micro-operations of the instruction: one per machine cycle.
    /// The idle cycles stand for the fetch of the opcode and operands and
    /// for internal delays; the work is done by the micro-operations
    /// that follow them.
    pub open spec fn micro_ops(self) -> Seq<MicroOpModel> {
        match self {
            Instruction::NOP => only(MicroOp::NOP),
            Instruction::Move { dest, src } => only(move_op(dest, src)),
            Instruction::Move16Bits { dest, src } => delayed(
                1,
                only(MicroOp::Move16Bits { destination: dest, source: src }),
            ),
            Instruction::LoadLiteralIntoReg8 { reg, literal } => delayed(
                1,
                only(load_literal_op(literal, reg)),
            ),
            Instruction::LoadLiteralIntoReg16 { reg, literal } => delayed(
                1,
                plain(
                    seq![
                        load_literal_op((literal % 256) as u8, reg.low()),
                        load_literal_op((literal / 256) as u8, reg.high()),
                    ],
                ),
            ),
            Instruction::LoadAddressOffsetIntoReg16 { dest, base, offset } => delayed(
                2,
                only(
                    MicroOp::AddOffsetToReg16IntoReg16 {
                        dest,
                        rhs: base,
                        offset,
                        update_flags: true,
                    },
                ),
            ),
            Instruction::AndAWithReg8 { reg } => only(
                MicroOp::AndA { rhs: Source8bits::Register(reg) },
            ),
            Instruction::AndAWithLiteral { literal } => delayed(
                1,
                only(MicroOp::AndA { rhs: Source8bits::Literal(literal) }),
            ),
            Instruction::AndAWithIndirect { addr } => delayed(
                1,
                only(MicroOp::AndA { rhs: Source8bits::Indirect(addr) }),
            ),
            Instruction::OrAWithReg8 { reg } => only(
                MicroOp::OrA { rhs: Source8bits::Register(reg) },
            ),
            Instruction::OrAWithLiteral { literal } => delayed(
                1,
                only(MicroOp::OrA { rhs: Source8bits::Literal(literal) }),
            ),
            Instruction::OrAWithIndirect { addr } => delayed(
                1,
                only(MicroOp::OrA { rhs: Source8bits::Indirect(addr) }),
            ),
            Instruction::XorAWithReg8 { reg } => only(
                MicroOp::XorA { rhs: Source8bits::Register(reg) },
            ),
            Instruction::XorAWithLiteral { literal } => delayed(
                1,
                only(MicroOp::XorA { rhs: Source8bits::Literal(literal) }),
            ),
            Instruction::XorAWithIndirect { addr } => delayed(
                1,
                only(MicroOp::XorA { rhs: Source8bits::Indirect(addr) }),
            ),
            Instruction::AddAWithReg8 { reg } => only(
                MicroOp::AddA { rhs: Source8bits::Register(reg) },
            ),
            Instruction::AddAWithLiteral { literal } => delayed(
                1,
                only(MicroOp::AddA { rhs: Source8bits::Literal(literal) }),
            ),
            Instruction::AddAWithIndirect { addr } => delayed(
                1,
                only(MicroOp::AddA { rhs: Source8bits::Indirect(addr) }),
            ),
            Instruction::AddHLWithReg { reg } => delayed(1, only(MicroOp::AddHL { rhs: reg })),
            Instruction::AddOffsetToReg16 { reg, offset } => delayed(
                3,
                only(
                    MicroOp::AddOffsetToReg16IntoReg16 {
                        dest: reg,
                        rhs: reg,
                        offset,
                        update_flags: true,
                    },
                ),
            ),
            Instruction::AdcAWithReg8 { reg } => only(
                MicroOp::AdcA { rhs: Source8bits::Register(reg) },
            ),
            Instruction::AdcAWithLiteral { literal } => delayed(
                1,
                only(MicroOp::AdcA { rhs: Source8bits::Literal(literal) }),
            ),
            Instruction::AdcAWithIndirect { addr } => delayed(
                1,
                only(MicroOp::AdcA { rhs: Source8bits::Indirect(addr) }),
            ),
            Instruction::SubAWithReg8 { reg } => only(
                MicroOp::SubA { rhs: Source8bits::Register(reg) },
            ),
            Instruction::SubAWithLiteral { literal } => delayed(
                1,
                only(MicroOp::SubA { rhs: Source8bits::Literal(literal) }),
            ),
            Instruction::SubAWithIndirect { addr } => delayed(
                1,
                only(MicroOp::SubA { rhs: Source8bits::Indirect(addr) }),
            ),
            Instruction::SbcAWithReg8 { reg } => only(
                MicroOp::SbcA { rhs: Source8bits::Register(reg) },
            ),
            Instruction::SbcAWithLiteral { literal } => delayed(
                1,
                only(MicroOp::SbcA { rhs: Source8bits::Literal(literal) }),
            ),
            Instruction::SbcAWithIndirect { addr } => delayed(
                1,
                only(MicroOp::SbcA { rhs: Source8bits::Indirect(addr) }),
            ),
            Instruction::DAA => only(MicroOp::DAA),
            Instruction::ComplementA => only(MicroOp::ComplementA),
            Instruction::WriteReg8ValueAtAddress { addr, reg } => delayed(
                3,
                only(
                    MicroOp::Move8Bits {
                        destination: Destination8Bits::Address(addr),
                        source: Source8bits::Register(reg),
                    },
                ),
            ),
            Instruction::WriteReg16ValueAtAddress { addr, reg } => delayed(
                3,
                plain(
                    seq![
                        MicroOp::Move8Bits {
                            destination: Destination8Bits::Address(addr),
                            source: Source8bits::Register(reg.low()),
                        },
                        MicroOp::Move8Bits {
                            destination: Destination8Bits::Address(addr.wrapping_add(1)),
                            source: Source8bits::Register(reg.high()),
                        },
                    ],
                ),
            ),
            Instruction::WriteLiteralAtIndirect { addr, literal } => delayed(
                2,
                only(
                    MicroOp::Move8Bits {
                        destination: Destination8Bits::Indirect(addr),
                        source: Source8bits::Literal(literal),
                    },
                ),
            ),
            Instruction::WriteReg8ValueAtIndirect { addr, reg, post_op } => delayed(
                1,
                only(MicroOp::WriteMem { addr, reg, pre_op: None, post_op }),
            ),
            Instruction::WriteReg8ValueAtZeroPageOffsetReg8 { reg_offset, reg } => delayed(
                1,
                only(MicroOp::WriteMemZeroPage { reg_offset, reg }),
            ),
            Instruction::WriteReg8ValueAtZeroPageOffsetLiteral { lit_offset, reg } => delayed(
                2,
                only(
                    MicroOp::Move8Bits {
                        destination: Destination8Bits::Address((0xFF00 + lit_offset) as u16),
                        source: Source8bits::Register(reg),
                    },
                ),
            ),
            Instruction::ReadIndirectToReg8 { reg, addr, post_op } => delayed(
                1,
                only(MicroOp::ReadMem { reg, addr, post_op }),
            ),
            Instruction::ReadAtAddressToReg8 { reg, addr } => delayed(
                3,
                only(
                    MicroOp::Move8Bits {
                        destination: Destination8Bits::Register(reg),
                        source: Source8bits::Address(addr),
                    },
                ),
            ),
            Instruction::ReadZeroPageOffsetLiteralToReg8 { lit_offset, reg } => delayed(
                2,
                only(
                    MicroOp::Move8Bits {
                        destination: Destination8Bits::Register(reg),
                        source: Source8bits::Address((0xFF00 + lit_offset) as u16),
                    },
                ),
            ),
            Instruction::ReadZeroPageOffsetReg8ToReg8 { offset, reg } => delayed(
                1,
                only(
                    MicroOp::Move8Bits {
                        destination: Destination8Bits::Register(reg),
                        source: Source8bits::ZeroPageOffsetReg8(offset),
                    },
                ),
            ),
            Instruction::PushReg16 { reg } => delayed(
                2,
                plain(seq![push_op(reg.high()), push_op(reg.low())]),
            ),
            Instruction::PopReg16 { reg } => delayed(
                1,
                plain(seq![pop_op(reg.low()), pop_op(reg.high())]),
            ),
            Instruction::BitTest { reg, bit } => delayed(
                1,
                only(MicroOp::BitTest { reg: Reg8OrIndirect::Reg8(reg), bit }),
            ),
            Instruction::BitTestIndirect { addr, bit } => delayed(
                2,
                only(MicroOp::BitTest { reg: Reg8OrIndirect::Indirect(addr), bit }),
            ),
            Instruction::ResetBit { reg, bit } => delayed(
                1,
                only(MicroOp::ResetBit { reg: Reg8OrIndirect::Reg8(reg), bit }),
            ),
            Instruction::ResetBitIndirect { addr, bit } => delayed(
                3,
                only(MicroOp::ResetBit { reg: Reg8OrIndirect::Indirect(addr), bit }),
            ),
            Instruction::SetBit { reg, bit } => delayed(
                1,
                only(MicroOp::SetBit { reg: Reg8OrIndirect::Reg8(reg), bit }),
            ),
            Instruction::SetBitIndirect { addr, bit } => delayed(
                3,
                only(MicroOp::SetBit { reg: Reg8OrIndirect::Indirect(addr), bit }),
            ),
            Instruction::CallAddr { condition, addr } => match condition {
                Some(cond) => delayed(2, branch(cond, call_ops(addr), seq![])),
                None => delayed(3, plain(call_ops(addr))),
            },
            Instruction::Return { condition } => match condition {
                Some(cond) => delayed(
                    1,
                    branch(cond, seq![MicroOp::NOP] + return_ops(), seq![]),
                ),
                None => delayed(2, plain(return_ops())),
            },
            Instruction::ReturnInterrupt => delayed(
                1,
                plain(return_ops().push(MicroOp::EnableInterrupts)),
            ),
            Instruction::JumpRelative { condition, offset } => match condition {
                Some(cond) => delayed(1, branch(cond, seq![jump_relative_op(offset)], seq![])),
                None => delayed(2, only(jump_relative_op(offset))),
            },
            Instruction::JumpAbsolute { condition, addr } => match condition {
                Some(cond) => delayed(1, branch(cond, jump_ops(addr), seq![MicroOp::NOP])),
                None => delayed(2, plain(jump_ops(addr))),
            },
            Instruction::JumpRegister16 { reg } => only(
                MicroOp::Move16Bits { destination: Register16::PC, source: reg },
            ),
            Instruction::Reset { offset } => delayed(1, plain(call_ops(offset))),
            Instruction::IncReg16 { reg } => delayed(1, only(MicroOp::IncReg16 { reg })),
            Instruction::IncReg8 { reg } => only(MicroOp::Inc { reg: Reg8OrIndirect::Reg8(reg) }),
            Instruction::IncIndirect { addr } => delayed(
                2,
                only(MicroOp::Inc { reg: Reg8OrIndirect::Indirect(addr) }),
            ),
            Instruction::DecReg16 { reg } => delayed(1, only(MicroOp::DecReg16 { reg })),
            Instruction::DecReg8 { reg } => only(MicroOp::Dec { reg: Reg8OrIndirect::Reg8(reg) }),
            Instruction::DecIndirect { addr } => delayed(
                2,
                only(MicroOp::Dec { reg: Reg8OrIndirect::Indirect(addr) }),
            ),
            Instruction::CompareAWithLiteral { literal } => delayed(
                1,
                only(MicroOp::CompareA { rhs: Source8bits::Literal(literal) }),
            ),
            Instruction::CompareAWithReg { reg } => only(
                MicroOp::CompareA { rhs: Source8bits::Register(reg) },
            ),
            Instruction::CompareAWithIndirect { addr } => delayed(
                1,
                only(MicroOp::CompareA { rhs: Source8bits::Indirect(addr) }),
            ),
            Instruction::RotateLeftThroughCarryA => only(
                MicroOp::RotateLeftThroughCarry {
                    reg: Reg8OrIndirect::Reg8(Register8::A),
                    set_zero: false,
                },
            ),
            Instruction::RotateLeftThroughCarry { reg } => delayed(
                1,
                only(
                    MicroOp::RotateLeftThroughCarry {
                        reg: Reg8OrIndirect::Reg8(reg),
                        set_zero: true,
                    },
                ),
            ),
            Instruction::RotateLeftThroughCarryWithIndirect { addr } => delayed(
                3,
                only(
                    MicroOp::RotateLeftThroughCarry {
                        reg: Reg8OrIndirect::Indirect(addr),
                        set_zero: true,
                    },
                ),
            ),
            Instruction::RotateRightThroughCarryA => only(
                MicroOp::RotateRightThroughCarry {
                    reg: Reg8OrIndirect::Reg8(Register8::A),
                    set_zero: false,
                },
            ),
            Instruction::RotateRightThroughCarry { reg } => delayed(
                1,
                only(
                    MicroOp::RotateRightThroughCarry {
                        reg: Reg8OrIndirect::Reg8(reg),
                        set_zero: true,
                    },
                ),
            ),
            Instruction::RotateRightThroughCarryWithIndirect { addr } => delayed(
                3,
                only(
                    MicroOp::RotateRightThroughCarry {
                        reg: Reg8OrIndirect::Indirect(addr),
                        set_zero: true,
                    },
                ),
            ),
            Instruction::RotateLeftA => only(
                MicroOp::RotateLeft { reg: Reg8OrIndirect::Reg8(Register8::A), set_zero: false },
            ),
            Instruction::RotateLeft { reg } => delayed(
                1,
                only(MicroOp::RotateLeft { reg: Reg8OrIndirect::Reg8(reg), set_zero: true }),
            ),
            Instruction::RotateLeftWithIndirect { addr } => delayed(
                3,
                only(MicroOp::RotateLeft { reg: Reg8OrIndirect::Indirect(addr), set_zero: true }),
            ),
            Instruction::RotateRightA => only(
                MicroOp::RotateRight { reg: Reg8OrIndirect::Reg8(Register8::A), set_zero: false },
            ),
            Instruction::RotateRight { reg } => delayed(
                1,
                only(MicroOp::RotateRight { reg: Reg8OrIndirect::Reg8(reg), set_zero: true }),
            ),
            Instruction::RotateRightWithIndirect { addr } => delayed(
                3,
                only(MicroOp::RotateRight { reg: Reg8OrIndirect::Indirect(addr), set_zero: true }),
            ),
            Instruction::ShiftLeftIntoCarry { reg } => delayed(
                1,
                only(MicroOp::ShiftLeftIntoCarry { reg: Reg8OrIndirect::Reg8(reg) }),
            ),
            Instruction::ShiftLeftIntoCarryWithIndirect { addr } => delayed(
                3,
                only(MicroOp::ShiftLeftIntoCarry { reg: Reg8OrIndirect::Indirect(addr) }),
            ),
            Instruction::ShiftRightWithZeroIntoCarry { reg } => delayed(
                1,
                only(MicroOp::ShiftRightWithZeroIntoCarry { reg: Reg8OrIndirect::Reg8(reg) }),
            ),
            Instruction::ShiftRightWithZeroIntoCarryWithIndirect { addr } => delayed(
                3,
                only(MicroOp::ShiftRightWithZeroIntoCarry { reg: Reg8OrIndirect::Indirect(addr) }),
            ),
            Instruction::ShiftRightWithSignIntoCarry { reg } => delayed(
                1,
                only(MicroOp::ShiftRightWithSignIntoCarry { reg: Reg8OrIndirect::Reg8(reg) }),
            ),
            Instruction::ShiftRightWithSignIntoCarryWithIndirect { addr } => delayed(
                3,
                only(MicroOp::ShiftRightWithSignIntoCarry { reg: Reg8OrIndirect::Indirect(addr) }),
            ),
            Instruction::SwapReg8 { reg } => delayed(
                1,
                only(MicroOp::SwapReg8 { reg: Reg8OrIndirect::Reg8(reg) }),
            ),
            Instruction::SwapIndirect { addr } => delayed(
                3,
                only(MicroOp::SwapReg8 { reg: Reg8OrIndirect::Indirect(addr) }),
            ),
            Instruction::SetCarryFlag => only(MicroOp::SetCarryFlag),
            Instruction::ComplementCarryFlag => only(MicroOp::ComplementCarryFlag),
            Instruction::EnableInterrupts => only(MicroOp::EnableInterrupts),
            Instruction::DisableInterrupts => only(MicroOp::DisableInterrupts),
            Instruction::Halt => only(MicroOp::Halt),
            Instruction::Stop => only(MicroOp::Stop),
        }
    }

    /// Whether the instruction belongs to the loads, stores, moves and stack transfers.
    pub open spec fn is_transfer(self) -> bool {
        self is Move
        || self is Move16Bits
        || self is LoadLiteralIntoReg8
        || self is LoadLiteralIntoReg16
        || self is LoadAddressOffsetIntoReg16
        || self is WriteReg8ValueAtAddress
        || self is WriteReg16ValueAtAddress
        || self is WriteLiteralAtIndirect
        || self is WriteReg8ValueAtIndirect
        || self is WriteReg8ValueAtZeroPageOffsetReg8
        || self is WriteReg8ValueAtZeroPageOffsetLiteral
        || self is ReadZeroPageOffsetLiteralToReg8
        || self is ReadZeroPageOffsetReg8ToReg8
        || self is ReadAtAddressToReg8
        || self is ReadIndirectToReg8
        || self is PushReg16
        || self is PopReg16
    }

    /// Whether the instruction belongs to the 8-bit arithmetic and logic on `A`.
    pub open spec fn is_accumulator(self) -> bool {
        self is AndAWithReg8
        || self is AndAWithLiteral
        || self is AndAWithIndirect
        || self is OrAWithReg8
        || self is OrAWithIndirect
        || self is OrAWithLiteral
        || self is XorAWithReg8
        || self is XorAWithIndirect
        || self is XorAWithLiteral
        || self is AddAWithReg8
        || self is AddAWithIndirect
        || self is AddAWithLiteral
        || self is AdcAWithReg8
        || self is AdcAWithLiteral
        || self is AdcAWithIndirect
        || self is SubAWithReg8
        || self is SubAWithLiteral
        || self is SubAWithIndirect
        || self is SbcAWithReg8
        || self is SbcAWithLiteral
        || self is SbcAWithIndirect
        || self is CompareAWithLiteral
        || self is CompareAWithReg
        || self is CompareAWithIndirect
    }

    /// Whether the instruction belongs to the increments, decrements, 16-bit additions, flag and control instructions.
    pub open spec fn is_counting(self) -> bool {
        self is NOP
        || self is AddHLWithReg
        || self is AddOffsetToReg16
        || self is DAA
        || self is ComplementA
        || self is IncReg16
        || self is IncReg8
        || self is IncIndirect
        || self is DecReg16
        || self is DecReg8
        || self is DecIndirect
        || self is SetCarryFlag
        || self is ComplementCarryFlag
        || self is EnableInterrupts
        || self is DisableInterrupts
        || self is Halt
        || self is Stop
    }

    /// Whether the instruction belongs to the single-bit tests, resets and sets.
    pub open spec fn is_bits(self) -> bool {
        self is BitTest
        || self is ResetBit
        || self is SetBit
        || self is BitTestIndirect
        || self is ResetBitIndirect
        || self is SetBitIndirect
    }

    /// Whether the instruction belongs to the rotations.
    pub open spec fn is_rotation(self) -> bool {
        self is RotateLeftThroughCarryA
        || self is RotateLeftThroughCarry
        || self is RotateLeftThroughCarryWithIndirect
        || self is RotateRightThroughCarryA
        || self is RotateRightThroughCarry
        || self is RotateRightThroughCarryWithIndirect
        || self is RotateLeftA
        || self is RotateLeft
        || self is RotateLeftWithIndirect
        || self is RotateRightA
        || self is RotateRight
        || self is RotateRightWithIndirect
    }

    /// Whether the instruction belongs to the shifts and nibble swaps.
    pub open spec fn is_shift(self) -> bool {
        self is ShiftLeftIntoCarry
        || self is ShiftLeftIntoCarryWithIndirect
        || self is ShiftRightWithZeroIntoCarry
        || self is ShiftRightWithZeroIntoCarryWithIndirect
        || self is ShiftRightWithSignIntoCarry
        || self is ShiftRightWithSignIntoCarryWithIndirect
        || self is SwapReg8
        || self is SwapIndirect
    }

    /// Whether the instruction belongs to the jumps, calls, returns and restarts.
    pub open spec fn is_control(self) -> bool {
        self is CallAddr
        || self is Return
        || self is ReturnInterrupt
        || self is JumpRelative
        || self is JumpAbsolute
        || self is JumpRegister16
        || self is Reset
    }

    /// Expands the instruction into its micro-operations.
    pub fn to_micro_ops(self) -> (ops: Vec<MicroOp>)
        requires
            self.well_formed(),
        ensures
            models(ops@) == self.micro_ops(),
    {
        match self {
            Instruction::Move { .. }
            | Instruction::Move16Bits { .. }
            | Instruction::LoadLiteralIntoReg8 { .. }
            | Instruction::LoadLiteralIntoReg16 { .. }
            | Instruction::LoadAddressOffsetIntoReg16 { .. }
            | Instruction::WriteReg8ValueAtAddress { .. }
            | Instruction::WriteReg16ValueAtAddress { .. }
            | Instruction::WriteLiteralAtIndirect { .. }
            | Instruction::WriteReg8ValueAtIndirect { .. }
            | Instruction::WriteReg8ValueAtZeroPageOffsetReg8 { .. }
            | Instruction::WriteReg8ValueAtZeroPageOffsetLiteral { .. }
            | Instruction::ReadZeroPageOffsetLiteralToReg8 { .. }
            | Instruction::ReadZeroPageOffsetReg8ToReg8 { .. }
            | Instruction::ReadAtAddressToReg8 { .. }
            | Instruction::ReadIndirectToReg8 { .. }
            | Instruction::PushReg16 { .. }
            | Instruction::PopReg16 { .. } => self.expand_transfer(),
            Instruction::AndAWithReg8 { .. }
            | Instruction::AndAWithLiteral { .. }
            | Instruction::AndAWithIndirect { .. }
            | Instruction::OrAWithReg8 { .. }
            | Instruction::OrAWithIndirect { .. }
            | Instruction::OrAWithLiteral { .. }
            | Instruction::XorAWithReg8 { .. }
            | Instruction::XorAWithIndirect { .. }
            | Instruction::XorAWithLiteral { .. }
            | Instruction::AddAWithReg8 { .. }
            | Instruction::AddAWithIndirect { .. }
            | Instruction::AddAWithLiteral { .. }
            | Instruction::AdcAWithReg8 { .. }
            | Instruction::AdcAWithLiteral { .. }
            | Instruction::AdcAWithIndirect { .. }
            | Instruction::SubAWithReg8 { .. }
            | Instruction::SubAWithLiteral { .. }
            | Instruction::SubAWithIndirect { .. }
            | Instruction::SbcAWithReg8 { .. }
            | Instruction::SbcAWithLiteral { .. }
            | Instruction::SbcAWithIndirect { .. }
            | Instruction::CompareAWithLiteral { .. }
            | Instruction::CompareAWithReg { .. }
            | Instruction::CompareAWithIndirect { .. } => self.expand_accumulator(),
            Instruction::NOP
            | Instruction::AddHLWithReg { .. }
            | Instruction::AddOffsetToReg16 { .. }
            | Instruction::DAA
            | Instruction::ComplementA
            | Instruction::IncReg16 { .. }
            | Instruction::IncReg8 { .. }
            | Instruction::IncIndirect { .. }
            | Instruction::DecReg16 { .. }
            | Instruction::DecReg8 { .. }
            | Instruction::DecIndirect { .. }
            | Instruction::SetCarryFlag
            | Instruction::ComplementCarryFlag
            | Instruction::EnableInterrupts
            | Instruction::DisableInterrupts
            | Instruction::Halt
            | Instruction::Stop => self.expand_counting(),
            Instruction::BitTest { .. }
            | Instruction::ResetBit { .. }
            | Instruction::SetBit { .. }
            | Instruction::BitTestIndirect { .. }
            | Instruction::ResetBitIndirect { .. }
            | Instruction::SetBitIndirect { .. } => self.expand_bits(),
            Instruction::RotateLeftThroughCarryA
            | Instruction::RotateLeftThroughCarry { .. }
            | Instruction::RotateLeftThroughCarryWithIndirect { .. }
            | Instruction::RotateRightThroughCarryA
            | Instruction::RotateRightThroughCarry { .. }
            | Instruction::RotateRightThroughCarryWithIndirect { .. }
            | Instruction::RotateLeftA
            | Instruction::RotateLeft { .. }
            | Instruction::RotateLeftWithIndirect { .. }
            | Instruction::RotateRightA
            | Instruction::RotateRight { .. }
            | Instruction::RotateRightWithIndirect { .. } => self.expand_rotation(),
            Instruction::ShiftLeftIntoCarry { .. }
            | Instruction::ShiftLeftIntoCarryWithIndirect { .. }
            | Instruction::ShiftRightWithZeroIntoCarry { .. }
            | Instruction::ShiftRightWithZeroIntoCarryWithIndirect { .. }
            | Instruction::ShiftRightWithSignIntoCarry { .. }
            | Instruction::ShiftRightWithSignIntoCarryWithIndirect { .. }
            | Instruction::SwapReg8 { .. }
            | Instruction::SwapIndirect { .. } => self.expand_shift(),
            Instruction::CallAddr { .. }
            | Instruction::Return { .. }
            | Instruction::ReturnInterrupt
            | Instruction::JumpRelative { .. }
            | Instruction::JumpAbsolute { .. }
            | Instruction::JumpRegister16 { .. }
            | Instruction::Reset { .. } => self.expand_control(),
        }
    }

    /// The expansion of the loads, stores, moves and stack transfers.
    fn expand_transfer(self) -> (ops: Vec<MicroOp>)
        requires
            self.well_formed(),
            self.is_transfer(),
        ensures
            models(ops@) == self.micro_ops(),
    {
        match self {
            Instruction::Move { dest, src } => {
                let ops: Vec<MicroOp> = vec![move_micro_op(dest, src)];
                proof {
                    assert(models(ops@) =~= self.micro_ops());
                }
                ops
            },
            Instruction::Move16Bits { dest, src } => {
                let ops: Vec<MicroOp> = {
                vec![
                    MicroOp::NOP,
                    MicroOp::Move16Bits {
                        destination: dest,
                        source: src,
                    },
                ]
            };
                proof {
                    assert(models(ops@) =~= self.micro_ops());
                }
                ops
            },
            Instruction::LoadLiteralIntoReg8 { reg, literal } => {
                let ops: Vec<MicroOp> = {
                vec![MicroOp::NOP, load_literal_into_reg8(literal, reg)]
            };
                proof {
                    assert(models(ops@) =~= self.micro_ops());
                }
                ops
            },
            Instruction::LoadLiteralIntoReg16 { reg, literal } => {
                let ops: Vec<MicroOp> = {
                vec![
                    MicroOp::NOP,
                    load_literal_into_reg8((literal % 256) as u8, reg.lower_half()),
                    load_literal_into_reg8((literal / 256) as u8, reg.higher_half()),
                ]
            };
                proof {
                    assert(models(ops@) =~= self.micro_ops());
                }
                ops
            },
            Instruction::LoadAddressOffsetIntoReg16 { dest, base, offset } => {
                let ops: Vec<MicroOp> = {
                vec![
                    MicroOp::NOP,
                    MicroOp::NOP,
                    MicroOp::AddOffsetToReg16IntoReg16 {
                        dest,
                        rhs: base,
                        offset,
                        update_flags: true,
                    },
                ]
            };
                proof {
                    assert(models(ops@) =~= self.micro_ops());
                }
                ops
            },
            Instruction::WriteReg8ValueAtAddress { addr, reg } => {
                let ops: Vec<MicroOp> = {
                vec![
                    MicroOp::NOP,
                    MicroOp::NOP,
                    MicroOp::NOP,
                    MicroOp::Move8Bits {
                        destination: Destination8Bits::Address(addr),
                        source: Source8bits::Register(reg),
                    },
                ]
            };
                proof {
                    assert(models(ops@) =~= self.micro_ops());
                }
                ops
            },
            Instruction::WriteReg16ValueAtAddress { addr, reg } => {
                let ops: Vec<MicroOp> = {
                vec![
                    MicroOp::NOP,
                    MicroOp::NOP,
                    MicroOp::NOP,
                    MicroOp::Move8Bits {
                        destination: Destination8Bits::Address(addr),
                        source: Source8bits::Register(reg.lower_half()),
                    },
                    MicroOp::Move8Bits {
                        destination: Destination8Bits::Address(addr.wrapping_add(1)),
                        source: Source8bits::Register(reg.higher_half()),
                    },
                ]
            };
                proof {
                    assert(models(ops@) =~= self.micro_ops());
                }
                ops
            },
            Instruction::WriteLiteralAtIndirect { addr, literal } => {
                let ops: Vec<MicroOp> = {
                vec![
                    MicroOp::NOP,
                    MicroOp::NOP,
                    MicroOp::Move8Bits {
                        destination: Destination8Bits::Indirect(addr),
                        source: Source8bits::Literal(literal),
                    },
                ]
            };
                proof {
                    assert(models(ops@) =~= self.micro_ops());
                }
                ops
            },
            Instruction::WriteReg8ValueAtIndirect { addr, reg, post_op } => {
                let ops: Vec<MicroOp> = {
                vec![
                    MicroOp::NOP,
                    MicroOp::WriteMem {
                        addr,
                        reg,
                        pre_op: None,
                        post_op,
                    },
                ]
            };
                proof {
                    assert(models(ops@) =~= self.micro_ops());
                }
                ops
            },
            Instruction::WriteReg8ValueAtZeroPageOffsetReg8 { reg_offset, reg } => {
                let ops: Vec<MicroOp> = {
                vec![MicroOp::NOP, MicroOp::WriteMemZeroPage { reg_offset, reg }]
            };
                proof {
                    assert(models(ops@) =~= self.micro_ops());
                }
                ops
            },
            Instruction::WriteReg8ValueAtZeroPageOffsetLiteral { lit_offset, reg } => {
                let ops: Vec<MicroOp> = {
                vec![
                    MicroOp::NOP,
                    MicroOp::NOP,
                    MicroOp::Move8Bits {
                        destination: Destination8Bits::Address(0xFF00 + lit_offset as u16),
                        source: Source8bits::Register(reg),
                    },
                ]
            };
                proof {
                    assert(models(ops@) =~= self.micro_ops());
                }
                ops
            },
            Instruction::ReadZeroPageOffsetLiteralToReg8 { lit_offset, reg } => {
                let ops: Vec<MicroOp> = vec![
                MicroOp::NOP,
                MicroOp::NOP,
                MicroOp::Move8Bits {
                    destination: Destination8Bits::Register(reg),
                    source: Source8bits::Address(0xFF00 + lit_offset as u16),
                },
            ];
                proof {
                    assert(models(ops@) =~= self.micro_ops());
                }
                ops
            },
            Instruction::ReadZeroPageOffsetReg8ToReg8 { offset, reg } => {
                let ops: Vec<MicroOp> = vec![
                MicroOp::NOP,
                MicroOp::Move8Bits {
                    destination: Destination8Bits::Register(reg),
                    source: Source8bits::ZeroPageOffsetReg8(offset),
                },
            ];
                proof {
                    assert(models(ops@) =~= self.micro_ops());
                }
                ops
            },
            Instruction::ReadAtAddressToReg8 { reg, addr } => {
                let ops: Vec<MicroOp> = vec![
                MicroOp::NOP,
                MicroOp::NOP,
                MicroOp::NOP,
                MicroOp::Move8Bits {
                    destination: Destination8Bits::Register(reg),
                    source: Source8bits::Address(addr),
                },
            ];
                proof {
                    assert(models(ops@) =~= self.micro_ops());
                }
                ops
            },
            Instruction::ReadIndirectToReg8 { reg, addr, post_op } => {
                let ops: Vec<MicroOp> = {
                vec![MicroOp::NOP, MicroOp::ReadMem { reg, addr, post_op }]
            };
                proof {
                    assert(models(ops@) =~= self.micro_ops());
                }
                ops
            },
            Instruction::PushReg16 { reg } => {
                let ops: Vec<MicroOp> = vec![
                MicroOp::NOP,
                MicroOp::NOP,
                MicroOp::WriteMem {
                    addr: Register16::SP,
                    reg: reg.higher_half(),
                    pre_op: Some(PrePostOperation::Dec),
                    post_op: None,
                },
                MicroOp::WriteMem {
                    addr: Register16::SP,
                    reg: reg.lower_half(),
                    pre_op: Some(PrePostOperation::Dec),
                    post_op: None,
                },
            ];
                proof {
                    assert(models(ops@) =~= self.micro_ops());
                }
                ops
            },
            Instruction::PopReg16 { reg } => {
                let ops: Vec<MicroOp> = vec![
                MicroOp::NOP,
                MicroOp::ReadMem {
                    reg: reg.lower_half(),
                    addr: Register16::SP,
                    post_op: Some(PrePostOperation::Inc),
                },
                MicroOp::ReadMem {
                    reg: reg.higher_half(),
                    addr: Register16::SP,
                    post_op: Some(PrePostOperation::Inc),
                },
            ];
                proof {
                    assert(models(ops@) =~= self.micro_ops());
                }
                ops
            },
            _ => unreached(),
        }
    }

    /// The expansion of the 8-bit arithmetic and logic on `A`.
    fn expand_accumulator(self) -> (ops: Vec<MicroOp>)
        requires
            self.well_formed(),
            self.is_accumulator(),
        ensures
            models(ops@) == self.micro_ops(),
    {
        match self {
            Instruction::AndAWithReg8 { reg } => {
                let ops: Vec<MicroOp> = vec![MicroOp::AndA { rhs: Source8bits::Register(reg) }];
                proof {
                    assert(models(ops@) =~= self.micro_ops());
                }
                ops
            },
            Instruction::AndAWithLiteral { literal } => {
                let ops: Vec<MicroOp> = {
                vec![
                    MicroOp::NOP,
                    MicroOp::AndA {
                        rhs: Source8bits::Literal(literal),
                    },
                ]
            };
                proof {
                    assert(models(ops@) =~= self.micro_ops());
                }
                ops
            },
            Instruction::AndAWithIndirect { addr } => {
                let ops: Vec<MicroOp> = {
                vec![MicroOp::NOP, MicroOp::AndA { rhs: Source8bits::Indirect(addr) }]
            };
                proof {
                    assert(models(ops@) =~= self.micro_ops());
                }
                ops
            },
            Instruction::OrAWithReg8 { reg } => {
                let ops: Vec<MicroOp> = vec![MicroOp::OrA { rhs: Source8bits::Register(reg) }];
                proof {
                    assert(models(ops@) =~= self.micro_ops());
                }
                ops
            },
            Instruction::OrAWithIndirect { addr } => {
                let ops: Vec<MicroOp> = {
                vec![MicroOp::NOP, MicroOp::OrA { rhs: Source8bits::Indirect(addr) }]
            };
                proof {
                    assert(models(ops@) =~= self.micro_ops());
                }
                ops
            },
            Instruction::OrAWithLiteral { literal } => {
                let ops: Vec<MicroOp> = vec![
                MicroOp::NOP,
                MicroOp::OrA {
                    rhs: Source8bits::Literal(literal),
                },
            ];
                proof {
                    assert(models(ops@) =~= self.micro_ops());
                }
                ops
            },
            Instruction::XorAWithReg8 { reg } => {
                let ops: Vec<MicroOp> = {
                vec![MicroOp::XorA { rhs: Source8bits::Register(reg) }]
            };
                proof {
                    assert(models(ops@) =~= self.micro_ops());
                }
                ops
            },
            Instruction::XorAWithIndirect { addr } => {
                let ops: Vec<MicroOp> = {
                vec![MicroOp::NOP, MicroOp::XorA { rhs: Source8bits::Indirect(addr) }]
            };
                proof {
                    assert(models(ops@) =~= self.micro_ops());
                }
                ops
            },
            Instruction::XorAWithLiteral { literal } => {
                let ops: Vec<MicroOp> = {
                vec![
                    MicroOp::NOP,
                    MicroOp::XorA {
                        rhs: Source8bits::Literal(literal),
                    },
                ]
            };
                proof {
                    assert(models(ops@) =~= self.micro_ops());
                }
                ops
            },
            Instruction::AddAWithReg8 { reg } => {
                let ops: Vec<MicroOp> = vec![MicroOp::AddA { rhs: Source8bits::Register(reg) }];
                proof {
                    assert(models(ops@) =~= self.micro_ops());
                }
                ops
            },
            Instruction::AddAWithIndirect { addr } => {
                let ops: Vec<MicroOp> = {
                vec![MicroOp::NOP, MicroOp::AddA { rhs: Source8bits::Indirect(addr) }]
            };
                proof {
                    assert(models(ops@) =~= self.micro_ops());
                }
                ops
            },
            Instruction::AddAWithLiteral { literal } => {
                let ops: Vec<MicroOp> = {
                vec![
                    MicroOp::NOP,
                    MicroOp::AddA {
                        rhs: Source8bits::Literal(literal),
                    },
                ]
            };
                proof {
                    assert(models(ops@) =~= self.micro_ops());
                }
                ops
            },
            Instruction::AdcAWithReg8 { reg } => {
                let ops: Vec<MicroOp> = {
                vec![MicroOp::AdcA { rhs: Source8bits::Register(reg) }]
            };
                proof {
                    assert(models(ops@) =~= self.micro_ops());
                }
                ops
            },
            Instruction::AdcAWithLiteral { literal } => {
                let ops: Vec<MicroOp> = {
                vec![
                    MicroOp::NOP,
                    MicroOp::AdcA {
                        rhs: Source8bits::Literal(literal),
                    },
                ]
            };
                proof {
                    assert(models(ops@) =~= self.micro_ops());
                }
                ops
            },
            Instruction::AdcAWithIndirect { addr } => {
                let ops: Vec<MicroOp> = {
                vec![MicroOp::NOP, MicroOp::AdcA { rhs: Source8bits::Indirect(addr) }]
            };
                proof {
                    assert(models(ops@) =~= self.micro_ops());
                }
                ops
            },
            Instruction::SubAWithReg8 { reg } => {
                let ops: Vec<MicroOp> = {
                vec![MicroOp::SubA { rhs: Source8bits::Register(reg) }]
            };
                proof {
                    assert(models(ops@) =~= self.micro_ops());
                }
                ops
            },
            Instruction::SubAWithLiteral { literal } => {
                let ops: Vec<MicroOp> = {
                vec![
                    MicroOp::NOP,
                    MicroOp::SubA {
                        rhs: Source8bits::Literal(literal),
                    },
                ]
            };
                proof {
                    assert(models(ops@) =~= self.micro_ops());
                }
                ops
            },
            Instruction::SubAWithIndirect { addr } => {
                let ops: Vec<MicroOp> = {
                vec![MicroOp::NOP, MicroOp::SubA { rhs: Source8bits::Indirect(addr) }]
            };
                proof {
                    assert(models(ops@) =~= self.micro_ops());
                }
                ops
            },
            Instruction::SbcAWithReg8 { reg } => {
                let ops: Vec<MicroOp> = {
                vec![MicroOp::SbcA { rhs: Source8bits::Register(reg) }]
            };
                proof {
                    assert(models(ops@) =~= self.micro_ops());
                }
                ops
            },
            Instruction::SbcAWithLiteral { literal } => {
                let ops: Vec<MicroOp> = {
                vec![
                    MicroOp::NOP,
                    MicroOp::SbcA {
                        rhs: Source8bits::Literal(literal),
                    },
                ]
            };
                proof {
                    assert(models(ops@) =~= self.micro_ops());
                }
                ops
            },
            Instruction::SbcAWithIndirect { addr } => {
                let ops: Vec<MicroOp> = {
                vec![MicroOp::NOP, MicroOp::SbcA { rhs: Source8bits::Indirect(addr) }]
            };
                proof {
                    assert(models(ops@) =~= self.micro_ops());
                }
                ops
            },
            Instruction::CompareAWithLiteral { literal } => {
                let ops: Vec<MicroOp> = {
                vec![
                    MicroOp::NOP,
                    MicroOp::CompareA {
                        rhs: Source8bits::Literal(literal),
                    },
                ]
            };
                proof {
                    assert(models(ops@) =~= self.micro_ops());
                }
                ops
            },
            Instruction::CompareAWithReg { reg } => {
                let ops: Vec<MicroOp> = vec![MicroOp::CompareA { rhs: Source8bits::Register(reg) }];
                proof {
                    assert(models(ops@) =~= self.micro_ops());
                }
                ops
            },
            Instruction::CompareAWithIndirect { addr } => {
                let ops: Vec<MicroOp> = {
                vec![
                    MicroOp::NOP,
                    MicroOp::CompareA {
                        rhs: Source8bits::Indirect(addr),
                    },
                ]
            };
                proof {
                    assert(models(ops@) =~= self.micro_ops());
                }
                ops
            },
            _ => unreached(),
        }
    }

    /// The expansion of the increments, decrements, 16-bit additions, flag and control instructions.
    fn expand_counting(self) -> (ops: Vec<MicroOp>)
        requires
            self.well_formed(),
            self.is_counting(),
        ensures
            models(ops@) == self.micro_ops(),
    {
        match self {
            Instruction::NOP => {
                let ops: Vec<MicroOp> = vec![MicroOp::NOP];
                proof {
                    assert(models(ops@) =~= self.micro_ops());
                }
                ops
            },
            Instruction::AddHLWithReg { reg } => {
                let ops: Vec<MicroOp> = {
                vec![MicroOp::NOP, MicroOp::AddHL { rhs: reg }]
            };
                proof {
                    assert(models(ops@) =~= self.micro_ops());
                }
                ops
            },
            Instruction::AddOffsetToReg16 { reg, offset } => {
                let ops: Vec<MicroOp> = {
                vec![
                    MicroOp::NOP,
                    MicroOp::NOP,
                    MicroOp::NOP,
                    MicroOp::AddOffsetToReg16IntoReg16 {
                        dest: reg,
                        rhs: reg,
                        offset,
                        update_flags: true,
                    },
                ]
            };
                proof {
                    assert(models(ops@) =~= self.micro_ops());
                }
                ops
            },
            Instruction::DAA => {
                let ops: Vec<MicroOp> = vec![MicroOp::DAA];
                proof {
                    assert(models(ops@) =~= self.micro_ops());
                }
                ops
            },
            Instruction::ComplementA => {
                let ops: Vec<MicroOp> = vec![MicroOp::ComplementA];
                proof {
                    assert(models(ops@) =~= self.micro_ops());
                }
                ops
            },
            Instruction::IncReg16 { reg } => {
                let ops: Vec<MicroOp> = vec![MicroOp::NOP, MicroOp::IncReg16 { reg }];
                proof {
                    assert(models(ops@) =~= self.micro_ops());
                }
                ops
            },
            Instruction::IncReg8 { reg } => {
                let ops: Vec<MicroOp> = vec![MicroOp::Inc { reg: Reg8OrIndirect::Reg8(reg) }];
                proof {
                    assert(models(ops@) =~= self.micro_ops());
                }
                ops
            },
            Instruction::IncIndirect { addr } => {
                let ops: Vec<MicroOp> = {
                vec![
                    MicroOp::NOP,
                    MicroOp::NOP,
                    MicroOp::Inc { reg: Reg8OrIndirect::Indirect(addr) },
                ]
            };
                proof {
                    assert(models(ops@) =~= self.micro_ops());
                }
                ops
            },
            Instruction::DecReg16 { reg } => {
                let ops: Vec<MicroOp> = vec![MicroOp::NOP, MicroOp::DecReg16 { reg }];
                proof {
                    assert(models(ops@) =~= self.micro_ops());
                }
                ops
            },
            Instruction::DecReg8 { reg } => {
                let ops: Vec<MicroOp> = vec![MicroOp::Dec { reg: Reg8OrIndirect::Reg8(reg) }];
                proof {
                    assert(models(ops@) =~= self.micro_ops());
                }
                ops
            },
            Instruction::DecIndirect { addr } => {
                let ops: Vec<MicroOp> = {
                vec![
                    MicroOp::NOP,
                    MicroOp::NOP,
                    MicroOp::Dec { reg: Reg8OrIndirect::Indirect(addr) },
                ]
            };
                proof {
                    assert(models(ops@) =~= self.micro_ops());
                }
                ops
            },
            Instruction::SetCarryFlag => {
                let ops: Vec<MicroOp> = vec![MicroOp::SetCarryFlag];
                proof {
                    assert(models(ops@) =~= self.micro_ops());
                }
                ops
            },
            Instruction::ComplementCarryFlag => {
                let ops: Vec<MicroOp> = vec![MicroOp::ComplementCarryFlag];
                proof {
                    assert(models(ops@) =~= self.micro_ops());
                }
                ops
            },
            Instruction::EnableInterrupts => {
                let ops: Vec<MicroOp> = vec![MicroOp::EnableInterrupts];
                proof {
                    assert(models(ops@) =~= self.micro_ops());
                }
                ops
            },
            Instruction::DisableInterrupts => {
                let ops: Vec<MicroOp> = vec![MicroOp::DisableInterrupts];
                proof {
                    assert(models(ops@) =~= self.micro_ops());
                }
                ops
            },
            Instruction::Halt => {
                let ops: Vec<MicroOp> = vec![MicroOp::Halt];
                proof {
                    assert(models(ops@) =~= self.micro_ops());
                }
                ops
            },
            Instruction::Stop => {
                let ops: Vec<MicroOp> = vec![MicroOp::Stop];
                proof {
                    assert(models(ops@) =~= self.micro_ops());
                }
                ops
            },
            _ => unreached(),
        }
    }

    /// The expansion of the single-bit tests, resets and sets.
    fn expand_bits(self) -> (ops: Vec<MicroOp>)
        requires
            self.well_formed(),
            self.is_bits(),
        ensures
            models(ops@) == self.micro_ops(),
    {
        match self {
            Instruction::BitTest { reg, bit } => {
                let ops: Vec<MicroOp> = vec![
                MicroOp::NOP,
                MicroOp::BitTest {
                    reg: Reg8OrIndirect::Reg8(reg),
                    bit,
                },
            ];
                proof {
                    assert(models(ops@) =~= self.micro_ops());
                }
                ops
            },
            Instruction::ResetBit { reg, bit } => {
                let ops: Vec<MicroOp> = vec![
                MicroOp::NOP,
                MicroOp::ResetBit {
                    reg: Reg8OrIndirect::Reg8(reg),
                    bit,
                },
            ];
                proof {
                    assert(models(ops@) =~= self.micro_ops());
                }
                ops
            },
            Instruction::SetBit { reg, bit } => {
                let ops: Vec<MicroOp> = vec![
                MicroOp::NOP,
                MicroOp::SetBit {
                    reg: Reg8OrIndirect::Reg8(reg),
                    bit,
                },
            ];
                proof {
                    assert(models(ops@) =~= self.micro_ops());
                }
                ops
            },
            Instruction::BitTestIndirect { addr, bit } => {
                let ops: Vec<MicroOp> = vec![
                MicroOp::NOP,
                MicroOp::NOP,
                MicroOp::BitTest {
                    reg: Reg8OrIndirect::Indirect(addr),
                    bit,
                },
            ];
                proof {
                    assert(models(ops@) =~= self.micro_ops());
                }
                ops
            },
            Instruction::ResetBitIndirect { addr, bit } => {
                let ops: Vec<MicroOp> = vec![
                MicroOp::NOP,
                MicroOp::NOP,
                MicroOp::NOP,
                MicroOp::ResetBit {
                    reg: Reg8OrIndirect::Indirect(addr),
                    bit,
                },
            ];
                proof {
                    assert(models(ops@) =~= self.micro_ops());
                }
                ops
            },
            Instruction::SetBitIndirect { addr, bit } => {
                let ops: Vec<MicroOp> = vec![
                MicroOp::NOP,
                MicroOp::NOP,
                MicroOp::NOP,
                MicroOp::SetBit {
                    reg: Reg8OrIndirect::Indirect(addr),
                    bit,
                },
            ];
                proof {
                    assert(models(ops@) =~= self.micro_ops());
                }
                ops
            },
            _ => unreached(),
        }
    }

    /// The expansion of the rotations.
    fn expand_rotation(self) -> (ops: Vec<MicroOp>)
        requires
            self.well_formed(),
            self.is_rotation(),
        ensures
            models(ops@) == self.micro_ops(),
    {
        match self {
            Instruction::RotateLeftThroughCarryA => {
                let ops: Vec<MicroOp> = vec![MicroOp::RotateLeftThroughCarry {
                reg: Reg8OrIndirect::Reg8(Register8::A),
                set_zero: false,
            }];
                proof {
                    assert(models(ops@) =~= self.micro_ops());
                }
                ops
            },
            Instruction::RotateLeftThroughCarry { reg } => {
                let ops: Vec<MicroOp> = {
                vec![
                    MicroOp::NOP,
                    MicroOp::RotateLeftThroughCarry {
                        reg: Reg8OrIndirect::Reg8(reg),
                        set_zero: true,
                    },
                ]
            };
                proof {
                    assert(models(ops@) =~= self.micro_ops());
                }
                ops
            },
            Instruction::RotateLeftThroughCarryWithIndirect { addr } => {
                let ops: Vec<MicroOp> = {
                vec![
                    MicroOp::NOP,
                    MicroOp::NOP,
                    MicroOp::NOP,
                    MicroOp::RotateLeftThroughCarry {
                        reg: Reg8OrIndirect::Indirect(addr),
                        set_zero: true,
                    },
                ]
            };
                proof {
                    assert(models(ops@) =~= self.micro_ops());
                }
                ops
            },
            Instruction::RotateRightThroughCarryA => {
                let ops: Vec<MicroOp> = vec![MicroOp::RotateRightThroughCarry {
                reg: Reg8OrIndirect::Reg8(Register8::A),
                set_zero: false,
            }];
                proof {
                    assert(models(ops@) =~= self.micro_ops());
                }
                ops
            },
            Instruction::RotateRightThroughCarry { reg } => {
                let ops: Vec<MicroOp> = {
                vec![
                    MicroOp::NOP,
                    MicroOp::RotateRightThroughCarry {
                        reg: Reg8OrIndirect::Reg8(reg),
                        set_zero: true,
                    },
                ]
            };
                proof {
                    assert(models(ops@) =~= self.micro_ops());
                }
                ops
            },
            Instruction::RotateRightThroughCarryWithIndirect { addr } => {
                let ops: Vec<MicroOp> = {
                vec![
                    MicroOp::NOP,
                    MicroOp::NOP,
                    MicroOp::NOP,
                    MicroOp::RotateRightThroughCarry {
                        reg: Reg8OrIndirect::Indirect(addr),
                        set_zero: true,
                    },
                ]
            };
                proof {
                    assert(models(ops@) =~= self.micro_ops());
                }
                ops
            },
            Instruction::RotateLeftA => {
                let ops: Vec<MicroOp> = vec![MicroOp::RotateLeft {
                reg: Reg8OrIndirect::Reg8(Register8::A),
                set_zero: false,
            }];
                proof {
                    assert(models(ops@) =~= self.micro_ops());
                }
                ops
            },
            Instruction::RotateLeft { reg } => {
                let ops: Vec<MicroOp> = {
                vec![
                    MicroOp::NOP,
                    MicroOp::RotateLeft {
                        reg: Reg8OrIndirect::Reg8(reg),
                        set_zero: true,
                    },
                ]
            };
                proof {
                    assert(models(ops@) =~= self.micro_ops());
                }
                ops
            },
            Instruction::RotateLeftWithIndirect { addr } => {
                let ops: Vec<MicroOp> = {
                vec![
                    MicroOp::NOP,
                    MicroOp::NOP,
                    MicroOp::NOP,
                    MicroOp::RotateLeft {
                        reg: Reg8OrIndirect::Indirect(addr),
                        set_zero: true,
                    },
                ]
            };
                proof {
                    assert(models(ops@) =~= self.micro_ops());
                }
                ops
            },
            Instruction::RotateRightA => {
                let ops: Vec<MicroOp> = vec![MicroOp::RotateRight {
                reg: Reg8OrIndirect::Reg8(Register8::A),
                set_zero: false,
            }];
                proof {
                    assert(models(ops@) =~= self.micro_ops());
                }
                ops
            },
            Instruction::RotateRight { reg } => {
                let ops: Vec<MicroOp> = {
                vec![
                    MicroOp::NOP,
                    MicroOp::RotateRight {
                        reg: Reg8OrIndirect::Reg8(reg),
                        set_zero: true,
                    },
                ]
            };
                proof {
                    assert(models(ops@) =~= self.micro_ops());
                }
                ops
            },
            Instruction::RotateRightWithIndirect { addr } => {
                let ops: Vec<MicroOp> = {
                vec![
                    MicroOp::NOP,
                    MicroOp::NOP,
                    MicroOp::NOP,
                    MicroOp::RotateRight {
                        reg: Reg8OrIndirect::Indirect(addr),
                        set_zero: true,
                    },
                ]
            };
                proof {
                    assert(models(ops@) =~= self.micro_ops());
                }
                ops
            },
            _ => unreached(),
        }
    }

    /// The expansion of the shifts and nibble swaps.
    fn expand_shift(self) -> (ops: Vec<MicroOp>)
        requires
            self.well_formed(),
            self.is_shift(),
        ensures
            models(ops@) == self.micro_ops(),
    {
        match self {
            Instruction::ShiftLeftIntoCarry { reg } => {
                let ops: Vec<MicroOp> = {
                vec![
                    MicroOp::NOP,
                    MicroOp::ShiftLeftIntoCarry { reg: Reg8OrIndirect::Reg8(reg) },
                ]
            };
                proof {
                    assert(models(ops@) =~= self.micro_ops());
                }
                ops
            },
            Instruction::ShiftLeftIntoCarryWithIndirect { addr } => {
                let ops: Vec<MicroOp> = {
                vec![
                    MicroOp::NOP,
                    MicroOp::NOP,
                    MicroOp::NOP,
                    MicroOp::ShiftLeftIntoCarry { reg: Reg8OrIndirect::Indirect(addr) },
                ]
            };
                proof {
                    assert(models(ops@) =~= self.micro_ops());
                }
                ops
            },
            Instruction::ShiftRightWithZeroIntoCarry { reg } => {
                let ops: Vec<MicroOp> = {
                vec![
                    MicroOp::NOP,
                    MicroOp::ShiftRightWithZeroIntoCarry { reg: Reg8OrIndirect::Reg8(reg) },
                ]
            };
                proof {
                    assert(models(ops@) =~= self.micro_ops());
                }
                ops
            },
            Instruction::ShiftRightWithZeroIntoCarryWithIndirect { addr } => {
                let ops: Vec<MicroOp> = {
                vec![
                    MicroOp::NOP,
                    MicroOp::NOP,
                    MicroOp::NOP,
                    MicroOp::ShiftRightWithZeroIntoCarry { reg: Reg8OrIndirect::Indirect(addr) },
                ]
            };
                proof {
                    assert(models(ops@) =~= self.micro_ops());
                }
                ops
            },
            Instruction::ShiftRightWithSignIntoCarry { reg } => {
                let ops: Vec<MicroOp> = {
                vec![
                    MicroOp::NOP,
                    MicroOp::ShiftRightWithSignIntoCarry { reg: Reg8OrIndirect::Reg8(reg) },
                ]
            };
                proof {
                    assert(models(ops@) =~= self.micro_ops());
                }
                ops
            },
            Instruction::ShiftRightWithSignIntoCarryWithIndirect { addr } => {
                let ops: Vec<MicroOp> = {
                vec![
                    MicroOp::NOP,
                    MicroOp::NOP,
                    MicroOp::NOP,
                    MicroOp::ShiftRightWithSignIntoCarry { reg: Reg8OrIndirect::Indirect(addr) },
                ]
            };
                proof {
                    assert(models(ops@) =~= self.micro_ops());
                }
                ops
            },
            Instruction::SwapReg8 { reg } => {
                let ops: Vec<MicroOp> = {
                vec![MicroOp::NOP, MicroOp::SwapReg8 { reg: Reg8OrIndirect::Reg8(reg) }]
            };
                proof {
                    assert(models(ops@) =~= self.micro_ops());
                }
                ops
            },
            Instruction::SwapIndirect { addr } => {
                let ops: Vec<MicroOp> = {
                vec![
                    MicroOp::NOP,
                    MicroOp::NOP,
                    MicroOp::NOP,
                    MicroOp::SwapReg8 { reg: Reg8OrIndirect::Indirect(addr) },
                ]
            };
                proof {
                    assert(models(ops@) =~= self.micro_ops());
                }
                ops
            },
            _ => unreached(),
        }
    }

    /// The expansion of the jumps, calls, returns and restarts.
    fn expand_control(self) -> (ops: Vec<MicroOp>)
        requires
            self.well_formed(),
            self.is_control(),
        ensures
            models(ops@) == self.micro_ops(),
    {
        match self {
            Instruction::CallAddr { condition, addr } => {
                let ops: Vec<MicroOp> = {
                if let Some(cond) = condition {
                    vec![
                        MicroOp::NOP,
                        MicroOp::NOP,
                        MicroOp::CheckFlags {
                            condition: cond,
                            true_ops: vec![
                                MicroOp::WriteMem {
                                    addr: Register16::SP,
                                    reg: Register8::PCHigh,
                                    pre_op: Some(PrePostOperation::Dec),
                                    post_op: None,
                                },
                                MicroOp::WriteMem {
                                    addr: Register16::SP,
                                    reg: Register8::PCLow,
                                    pre_op: Some(PrePostOperation::Dec),
                                    post_op: None,
                                },
                                MicroOp::LoadReg16Lit {
                                    reg: Register16::PC,
                                    literal: addr,
                                },
                            ],
                            false_ops: vec![],
                        },
                    ]
                } else {
                    vec![
                        MicroOp::NOP,
                        MicroOp::NOP,
                        MicroOp::NOP,
                        MicroOp::WriteMem {
                            addr: Register16::SP,
                            reg: Register8::PCHigh,
                            pre_op: Some(PrePostOperation::Dec),
                            post_op: None,
                        },
                        MicroOp::WriteMem {
                            addr: Register16::SP,
                            reg: Register8::PCLow,
                            pre_op: Some(PrePostOperation::Dec),
                            post_op: None,
                        },
                        MicroOp::LoadReg16Lit {
                            reg: Register16::PC,
                            literal: addr,
                        },
                    ]
                }
            };
                proof {
                    reveal_with_fuel(MicroOp::model, 2);
                    if condition.is_some() {
                        let check = ops@[2].model();
                        assert(check->taken =~= plain(call_ops(addr)));
                        assert(check->skipped =~= plain(seq![]));
                    }
                    assert(models(ops@) =~= self.micro_ops());
                }
                ops
            },
            Instruction::Return { condition } => {
                let ops: Vec<MicroOp> = {
                if let Some(cond) = condition {
                    vec![
                        MicroOp::NOP,
                        MicroOp::CheckFlags {
                            condition: cond,
                            true_ops: vec![
                                MicroOp::NOP,
                                MicroOp::ReadMem {
                                    reg: Register8::PCLow,
                                    addr: Register16::SP,
                                    post_op: Some(PrePostOperation::Inc),
                                },
                                MicroOp::ReadMem {
                                    reg: Register8::PCHigh,
                                    addr: Register16::SP,
                                    post_op: Some(PrePostOperation::Inc),
                                },
                            ],
                            false_ops: vec![],
                        },
                    ]
                } else {
                    vec![
                        MicroOp::NOP,
                        MicroOp::NOP,
                        MicroOp::ReadMem {
                            reg: Register8::PCLow,
                            addr: Register16::SP,
                            post_op: Some(PrePostOperation::Inc),
                        },
                        MicroOp::ReadMem {
                            reg: Register8::PCHigh,
                            addr: Register16::SP,
                            post_op: Some(PrePostOperation::Inc),
                        },
                    ]
                }
            };
                proof {
                    reveal_with_fuel(MicroOp::model, 2);
                    if condition.is_some() {
                        let check = ops@[1].model();
                        assert(check->taken =~= plain(seq![MicroOp::NOP] + return_ops()));
                        assert(check->skipped =~= plain(seq![]));
                    }
                    assert(models(ops@) =~= self.micro_ops());
                }
                ops
            },
            Instruction::ReturnInterrupt => {
                let ops: Vec<MicroOp> = {
                vec![
                    MicroOp::NOP,
                    MicroOp::ReadMem {
                        reg: Register8::PCLow,
                        addr: Register16::SP,
                        post_op: Some(PrePostOperation::Inc),
                    },
                    MicroOp::ReadMem {
                        reg: Register8::PCHigh,
                        addr: Register16::SP,
                        post_op: Some(PrePostOperation::Inc),
                    },
                    MicroOp::EnableInterrupts,
                ]
            };
                proof {
                    assert(models(ops@) =~= self.micro_ops());
                }
                ops
            },
            Instruction::JumpRelative { condition, offset } => {
                let ops: Vec<MicroOp> = {
                if let Some(cond) = condition {
                    vec![
                        MicroOp::NOP,
                        MicroOp::CheckFlags {
                            condition: cond,
                            true_ops: vec![jump_relative(offset)],
                            false_ops: vec![],
                        },
                    ]
                } else {
                    vec![MicroOp::NOP, MicroOp::NOP, jump_relative(offset)]
                }
            };
                proof {
                    reveal_with_fuel(MicroOp::model, 2);
                    if condition.is_some() {
                        let check = ops@[1].model();
                        assert(check->taken =~= plain(seq![jump_relative_op(offset)]));
                        assert(check->skipped =~= plain(seq![]));
                    }
                    assert(models(ops@) =~= self.micro_ops());
                }
                ops
            },
            Instruction::JumpAbsolute { condition, addr } => {
                let ops: Vec<MicroOp> = {
                if let Some(cond) = condition {
                    vec![
                        MicroOp::NOP,
                        MicroOp::CheckFlags {
                            condition: cond,
                            true_ops: vec![
                                load_literal_into_reg8((addr % 256) as u8, Register8::PCLow),
                                load_literal_into_reg8((addr / 256) as u8, Register8::PCHigh),
                            ],
                            false_ops: vec![MicroOp::NOP],
                        },
                    ]
                } else {
                    vec![
                        MicroOp::NOP,
                        MicroOp::NOP,
                        load_literal_into_reg8((addr % 256) as u8, Register8::PCLow),
                        load_literal_into_reg8((addr / 256) as u8, Register8::PCHigh),
                    ]
                }
            };
                proof {
                    reveal_with_fuel(MicroOp::model, 2);
                    if condition.is_some() {
                        let check = ops@[1].model();
                        assert(check->taken =~= plain(jump_ops(addr)));
                        assert(check->skipped =~= plain(seq![MicroOp::NOP]));
                    }
                    assert(models(ops@) =~= self.micro_ops());
                }
                ops
            },
            Instruction::JumpRegister16 { reg } => {
                let ops: Vec<MicroOp> = vec![MicroOp::Move16Bits {
                destination: Register16::PC,
                source: reg,
            }];
                proof {
                    assert(models(ops@) =~= self.micro_ops());
                }
                ops
            },
            Instruction::Reset { offset } => {
                let ops: Vec<MicroOp> = vec![
                MicroOp::NOP,
                MicroOp::WriteMem {
                    addr: Register16::SP,
                    reg: Register8::PCHigh,
                    pre_op: Some(PrePostOperation::Dec),
                    post_op: None,
                },
                MicroOp::WriteMem {
                    addr: Register16::SP,
                    reg: Register8::PCLow,
                    pre_op: Some(PrePostOperation::Dec),
                    post_op: None,
                },
                MicroOp::LoadReg16Lit {
                    reg: Register16::PC,
                    literal: offset,
                },
            ];
                proof {
                    assert(models(ops@) =~= self.micro_ops());
                }
                ops
            },
            _ => unreached(),
        }
    }

}

} // verus!
