//! Micro-operations: what the CPU does in one machine cycle.

use vstd::prelude::*;
use super::instruction::{JumpCondition, PrePostOperation};
use super::register::{Register16, Register8};

verus! {

/// Where an 8-bit move stores its value.
#[derive(Debug, Clone, Copy, PartialEq, Eq, Structural)]
pub enum Destination8Bits {
    Register(Register8),
    Indirect(Register16),
    Address(u16),
}

/// Where an 8-bit operand comes from.
#[derive(Debug, Clone, Copy, PartialEq, Eq, Structural)]
pub enum Source8bits {
    Register(Register8),
    Indirect(Register16),
    Address(u16),
    Literal(u8),
    ZeroPageOffsetReg8(Register8),
}

/// A register, or the byte that a 16-bit register points at.
#[derive(Debug, Clone, Copy, PartialEq, Eq, Structural)]
pub enum Reg8OrIndirect {
    Reg8(Register8),
    Indirect(Register16),
}

impl From<Register8> for Source8bits {
    fn from(reg: Register8) -> (res: Source8bits) {
        Source8bits::Register(reg)
    }
}

impl vstd::std_specs::convert::FromSpecImpl<Register8> for Source8bits {
    open spec fn obeys_from_spec() -> bool {
        true
    }

    open spec fn from_spec(reg: Register8) -> Source8bits {
        Source8bits::Register(reg)
    }
}

impl From<Register16> for Source8bits {
    fn from(reg: Register16) -> (res: Source8bits) {
        Source8bits::Indirect(reg)
    }
}

impl vstd::std_specs::convert::FromSpecImpl<Register16> for Source8bits {
    open spec fn obeys_from_spec() -> bool {
        true
    }

    open spec fn from_spec(reg: Register16) -> Source8bits {
        Source8bits::Indirect(reg)
    }
}

impl From<u8> for Source8bits {
    fn from(literal: u8) -> (res: Source8bits) {
        Source8bits::Literal(literal)
    }
}

impl vstd::std_specs::convert::FromSpecImpl<u8> for Source8bits {
    open spec fn obeys_from_spec() -> bool {
        true
    }

    open spec fn from_spec(literal: u8) -> Source8bits {
        Source8bits::Literal(literal)
    }
}

impl From<Register8> for Reg8OrIndirect {
    fn from(reg: Register8) -> (res: Reg8OrIndirect) {
        Reg8OrIndirect::Reg8(reg)
    }
}

impl vstd::std_specs::convert::FromSpecImpl<Register8> for Reg8OrIndirect {
    open spec fn obeys_from_spec() -> bool {
        true
    }

    open spec fn from_spec(reg: Register8) -> Reg8OrIndirect {
        Reg8OrIndirect::Reg8(reg)
    }
}

impl From<Register16> for Reg8OrIndirect {
    fn from(reg: Register16) -> (res: Reg8OrIndirect) {
        Reg8OrIndirect::Indirect(reg)
    }
}

impl vstd::std_specs::convert::FromSpecImpl<Register16> for Reg8OrIndirect {
    open spec fn obeys_from_spec() -> bool {
        true
    }

    open spec fn from_spec(reg: Register16) -> Reg8OrIndirect {
        Reg8OrIndirect::Indirect(reg)
    }
}

/// One machine cycle of work.
#[allow(inconsistent_fields)]
#[derive(Debug, PartialEq, Eq)]
pub enum MicroOp {
    NOP,
    Move8Bits { destination: Destination8Bits, source: Source8bits },
    Move16Bits { destination: Register16, source: Register16 },
    LoadReg16Lit { reg: Register16, literal: u16 },
    AndA { rhs: Source8bits },
    OrA { rhs: Source8bits },
    XorA { rhs: Source8bits },
    AddA { rhs: Source8bits },
    AddHL { rhs: Register16 },
    AddOffsetToReg16IntoReg16 { dest: Register16, rhs: Register16, offset: i8, update_flags: bool },
    AdcA { rhs: Source8bits },
    SubA { rhs: Source8bits },
    SbcA { rhs: Source8bits },
    DAA,
    ComplementA,
    WriteMem {
        addr: Register16,
        reg: Register8,
        pre_op: Option<PrePostOperation>,
        post_op: Option<PrePostOperation>,
    },
    WriteMemZeroPage { reg_offset: Register8, reg: Register8 },
    ReadMem { reg: Register8, addr: Register16, post_op: Option<PrePostOperation> },
    BitTest { reg: Reg8OrIndirect, bit: u8 },
    ResetBit { reg: Reg8OrIndirect, bit: u8 },
    SetBit { reg: Reg8OrIndirect, bit: u8 },
    IncReg16 { reg: Register16 },
    Inc { reg: Reg8OrIndirect },
    DecReg16 { reg: Register16 },
    Dec { reg: Reg8OrIndirect },
    CompareA { rhs: Source8bits },
    RotateLeftThroughCarry { reg: Reg8OrIndirect, set_zero: bool },
    RotateRightThroughCarry { reg: Reg8OrIndirect, set_zero: bool },
    RotateLeft { reg: Reg8OrIndirect, set_zero: bool },
    RotateRight { reg: Reg8OrIndirect, set_zero: bool },
    ShiftLeftIntoCarry { reg: Reg8OrIndirect },
    ShiftRightWithZeroIntoCarry { reg: Reg8OrIndirect },
    ShiftRightWithSignIntoCarry { reg: Reg8OrIndirect },
    SwapReg8 { reg: Reg8OrIndirect },
    /// Tests a condition and puts one of two sequences at the head of the
    /// queue.
    CheckFlags { condition: JumpCondition, true_ops: Vec<MicroOp>, false_ops: Vec<MicroOp> },
    SetCarryFlag,
    ComplementCarryFlag,
    EnableInterrupts,
    DisableInterrupts,
    Halt,
    Stop,
}

/// A micro-operation as the contracts see it: a `CheckFlags` is told apart
/// from the others and holds its two branches as sequences.
pub enum MicroOpModel {
    /// Any micro-operation but `CheckFlags`.
    Plain(MicroOp),
    Branch { condition: JumpCondition, taken: Seq<MicroOpModel>, skipped: Seq<MicroOpModel> },
}

impl MicroOp {
    /// Whether the micro-operation is a load, a store or a 16-bit count.
    pub open spec fn is_transfer(self) -> bool {
        self is NOP
        || self is Move8Bits
        || self is Move16Bits
        || self is LoadReg16Lit
        || self is WriteMem
        || self is WriteMemZeroPage
        || self is ReadMem
        || self is IncReg16
        || self is DecReg16
    }

    /// Whether the micro-operation is an arithmetic or logic operation.
    pub open spec fn is_arithmetic(self) -> bool {
        self is AndA
        || self is OrA
        || self is XorA
        || self is AddA
        || self is AdcA
        || self is SubA
        || self is SbcA
        || self is CompareA
        || self is AddHL
        || self is AddOffsetToReg16IntoReg16
        || self is DAA
        || self is ComplementA
        || self is Inc
        || self is Dec
    }

    /// Whether the micro-operation is a bit operation, a rotation or a shift.
    pub open spec fn is_bits(self) -> bool {
        self is BitTest
        || self is ResetBit
        || self is SetBit
        || self is RotateLeftThroughCarry
        || self is RotateRightThroughCarry
        || self is RotateLeft
        || self is RotateRight
        || self is ShiftLeftIntoCarry
        || self is ShiftRightWithZeroIntoCarry
        || self is ShiftRightWithSignIntoCarry
        || self is SwapReg8
    }

    pub open spec fn model(self) -> MicroOpModel
        decreases self,
    {
        match self {
            MicroOp::CheckFlags { condition, true_ops, false_ops } => MicroOpModel::Branch {
                condition,
                taken: Seq::new(
                    true_ops@.len(),
                    |i: int|
                        if 0 <= i < true_ops@.len() {
                            true_ops@[i].model()
                        } else {
                            arbitrary()
                        },
                ),
                skipped: Seq::new(
                    false_ops@.len(),
                    |i: int|
                        if 0 <= i < false_ops@.len() {
                            false_ops@[i].model()
                        } else {
                            arbitrary()
                        },
                ),
            },
            _ => MicroOpModel::Plain(self),
        }
    }
}

/// The models of a sequence of micro-operations, in order.
pub open spec fn models(ops: Seq<MicroOp>) -> Seq<MicroOpModel> {
    Seq::new(ops.len(), |i: int| ops[i].model())
}

/// A sequence of micro-operations none of which branches.
pub open spec fn plain(ops: Seq<MicroOp>) -> Seq<MicroOpModel> {
    Seq::new(ops.len(), |i: int| MicroOpModel::Plain(ops[i]))
}

/// `cycles` idle machine cycles followed by `ops`.
pub open spec fn delayed(cycles: nat, ops: Seq<MicroOpModel>) -> Seq<MicroOpModel> {
    Seq::new(cycles, |i: int| MicroOpModel::Plain(MicroOp::NOP)) + ops
}

pub open spec fn load_literal_op(literal: u8, reg: Register8) -> MicroOp {
    MicroOp::Move8Bits {
        destination: Destination8Bits::Register(reg),
        source: Source8bits::Literal(literal),
    }
}

pub open spec fn move_op(destination: Register8, src: Register8) -> MicroOp {
    MicroOp::Move8Bits {
        destination: Destination8Bits::Register(destination),
        source: Source8bits::Register(src),
    }
}

pub open spec fn jump_relative_op(offset: i8) -> MicroOp {
    MicroOp::AddOffsetToReg16IntoReg16 {
        dest: Register16::PC,
        rhs: Register16::PC,
        offset,
        update_flags: false,
    }
}

/// The micro-operation that loads `literal` into `reg`.
pub fn load_literal_into_reg8(literal: u8, reg: Register8) -> (op: MicroOp)
    ensures
        op == load_literal_op(literal, reg),
{
    MicroOp::Move8Bits {
        destination: Destination8Bits::Register(reg),
        source: Source8bits::Literal(literal),
    }
}

/// The micro-operation that copies `src` into `destination`.
pub fn move_micro_op(destination: Register8, src: Register8) -> (op: MicroOp)
    ensures
        op == move_op(destination, src),
{
    MicroOp::Move8Bits {
        destination: Destination8Bits::Register(destination),
        source: Source8bits::Register(src),
    }
}

/// The micro-operation that adds the signed `offset` to `PC`, flags
/// untouched.
pub fn jump_relative(offset: i8) -> (op: MicroOp)
    ensures
        op == jump_relative_op(offset),
{
    MicroOp::AddOffsetToReg16IntoReg16 {
        dest: Register16::PC,
        rhs: Register16::PC,
        offset,
        update_flags: false,
    }
}

} // verus!
