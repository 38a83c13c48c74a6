//! The closed set of sixteen operation tags and their 4-bit encodings.

use vstd::prelude::*;

verus! {

/// The sixteen opcodes of the machine, in encoding order: the tag of opcode
/// number `n` is the `n`-th variant, for `n` in `0..16`.
#[derive(Clone, Copy, Debug, PartialEq, Eq, Structural)]
pub enum OpCode {
    Halt,
    Add,
    Subtract,
    And,
    Xor,
    ShiftLeft,
    ShiftRight,
    LoadAddress,
    Load,
    Store,
    LoadIndirect,
    StoreIndirect,
    BranchZero,
    BranchPositive,
    JumpRegister,
    JumpAndLink,
}

/// The opcode tag encoded by the 4-bit number `n`; `Halt` for `n >= 16`,
/// which no caller relies on.
pub open spec fn op_of(n: u8) -> OpCode {
    if n == 1 {
        OpCode::Add
    } else if n == 2 {
        OpCode::Subtract
    } else if n == 3 {
        OpCode::And
    } else if n == 4 {
        OpCode::Xor
    } else if n == 5 {
        OpCode::ShiftLeft
    } else if n == 6 {
        OpCode::ShiftRight
    } else if n == 7 {
        OpCode::LoadAddress
    } else if n == 8 {
        OpCode::Load
    } else if n == 9 {
        OpCode::Store
    } else if n == 10 {
        OpCode::LoadIndirect
    } else if n == 11 {
        OpCode::StoreIndirect
    } else if n == 12 {
        OpCode::BranchZero
    } else if n == 13 {
        OpCode::BranchPositive
    } else if n == 14 {
        OpCode::JumpRegister
    } else if n == 15 {
        OpCode::JumpAndLink
    } else {
        OpCode::Halt
    }
}

/// The 4-bit number that encodes the opcode tag `op`.
pub open spec fn op_num(op: OpCode) -> u8 {
    match op {
        OpCode::Halt => 0,
        OpCode::Add => 1,
        OpCode::Subtract => 2,
        OpCode::And => 3,
        OpCode::Xor => 4,
        OpCode::ShiftLeft => 5,
        OpCode::ShiftRight => 6,
        OpCode::LoadAddress => 7,
        OpCode::Load => 8,
        OpCode::Store => 9,
        OpCode::LoadIndirect => 10,
        OpCode::StoreIndirect => 11,
        OpCode::BranchZero => 12,
        OpCode::BranchPositive => 13,
        OpCode::JumpRegister => 14,
        OpCode::JumpAndLink => 15,
    }
}

impl OpCode {
    /// The opcode tag for number `n`, or `None` when `n` is outside the
    /// 4-bit opcode space.
    pub fn from_u8(n: u8) -> (r: Option<OpCode>)
        ensures
            n < 16 ==> r == Some(op_of(n)),
            n >= 16 ==> r is None,
    {
        match n {
            0 => Some(OpCode::Halt),
            1 => Some(OpCode::Add),
            2 => Some(OpCode::Subtract),
            3 => Some(OpCode::And),
            4 => Some(OpCode::Xor),
            5 => Some(OpCode::ShiftLeft),
            6 => Some(OpCode::ShiftRight),
            7 => Some(OpCode::LoadAddress),
            8 => Some(OpCode::Load),
            9 => Some(OpCode::Store),
            10 => Some(OpCode::LoadIndirect),
            11 => Some(OpCode::StoreIndirect),
            12 => Some(OpCode::BranchZero),
            13 => Some(OpCode::BranchPositive),
            14 => Some(OpCode::JumpRegister),
            15 => Some(OpCode::JumpAndLink),
            _ => None,
        }
    }

    /// The 4-bit number that encodes this opcode tag.
    pub fn to_u8(&self) -> (r: u8)
        ensures
            r == op_num(*self),
            r < 16,
    {
        match self {
            OpCode::Halt => 0,
            OpCode::Add => 1,
            OpCode::Subtract => 2,
            OpCode::And => 3,
            OpCode::Xor => 4,
            OpCode::ShiftLeft => 5,
            OpCode::ShiftRight => 6,
            OpCode::LoadAddress => 7,
            OpCode::Load => 8,
            OpCode::Store => 9,
            OpCode::LoadIndirect => 10,
            OpCode::StoreIndirect => 11,
            OpCode::BranchZero => 12,
            OpCode::BranchPositive => 13,
            OpCode::JumpRegister => 14,
            OpCode::JumpAndLink => 15,
        }
    }
}

/// Encoding and decoding of opcode numbers invert one another: decoding the
/// number of a tag gives the tag back, and encoding a decoded 4-bit number
/// gives the number back.
pub proof fn lemma_op_num_of_roundtrip(op: OpCode, n: u8)
    requires
        n < 16,
    ensures
        op_of(op_num(op)) == op,
        op_num(op_of(n)) == n,
{
}

} // verus!
