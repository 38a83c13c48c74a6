//! Decoding of one 16-bit memory word into a structured instruction, and the
//! two predicates that decide whether an instruction takes part in the
//! memory-mapped I/O convention at address 0xFF.

use vstd::prelude::*;

use crate::opcode::op_of;
use crate::opcode::OpCode;

verus! {

/// The transient result of decoding one memory word: an opcode tag, three
/// 4-bit register indices and an 8-bit address, of which only the fields
/// meaningful for the opcode's format are kept (the rest decode as zero).
#[derive(Clone, Copy, Debug, PartialEq, Eq, Structural)]
pub struct Instruction {
    pub op: OpCode,
    pub d: u8,
    pub s: u8,
    pub t: u8,
    pub address: u8,
}

impl Instruction {
    /// The register indices name one of the sixteen registers each.
    pub open spec fn wf(&self) -> bool {
        self.d < 16 && self.s < 16 && self.t < 16
    }

    /// Builds an instruction from its raw field values.
    ///
    /// The opcode number must lie in the 4-bit opcode space and each
    /// register index must name one of the sixteen registers.
    pub fn new(op_code_num: u8, d: u8, s: u8, t: u8, address: u8) -> (r: Self)
        requires
            op_code_num < 16,
            d < 16,
            s < 16,
            t < 16,
        ensures
            r == (Instruction { op: op_of(op_code_num), d, s, t, address }),
            r.wf(),
    {
        let op = match OpCode::from_u8(op_code_num) {
            Some(op) => op,
            None => OpCode::Halt,  // unreachable: the opcode number is 4-bit
        };
        Self { op, d, s, t, address }
    }

    /// All five fields at once: the opcode tag and the raw `d`, `s`, `t`
    /// and `address` values.
    pub fn get_values(&self) -> (r: (&OpCode, u8, u8, u8, u8))
        ensures
            r == (&self.op, self.d, self.s, self.t, self.address),
    {
        (&self.op, self.d, self.s, self.t, self.address)
    }

    /// Whether this instruction, against the given registers, triggers the
    /// read side of the I/O convention: a word must be pulled from the
    /// external input stream into memory cell 0xFF before it executes.
    pub fn is_read_to_memory(&self, regs: &Vec<u16>) -> (r: bool)
        requires
            self.wf(),
            regs.len() == 16,
        ensures
            r == read_traps(*self, regs@),
    {
        match self.op {
            OpCode::Load => self.address == 0xFF,
            OpCode::LoadIndirect => regs[self.t as usize] == 0xFF,
            _ => false,
        }
    }

    /// Whether this instruction, against the given registers, triggers the
    /// write side of the I/O convention: after it executes, the word in
    /// memory cell 0xFF must be appended to the external output stream.
    pub fn is_write_from_memory(&self, regs: &Vec<u16>) -> (r: bool)
        requires
            self.wf(),
            regs.len() == 16,
        ensures
            r == write_traps(*self, regs@),
    {
        match self.op {
            OpCode::Store => self.address == 0xFF,
            OpCode::StoreIndirect => regs[self.t as usize] == 0xFF,
            _ => false,
        }
    }
}

/// A Load of address 0xFF, or a LoadIndirect whose `t` register holds 0xFF,
/// pulls a word from the external input stream.
pub open spec fn read_traps(ins: Instruction, regs: Seq<u16>) -> bool {
    ||| (ins.op == OpCode::Load && ins.address == 0xFF)
    ||| (ins.op == OpCode::LoadIndirect && regs[ins.t as int] == 0xFF)
}

/// A Store of address 0xFF, or a StoreIndirect whose `t` register holds
/// 0xFF, appends a word to the external output stream.
pub open spec fn write_traps(ins: Instruction, regs: Seq<u16>) -> bool {
    ||| (ins.op == OpCode::Store && ins.address == 0xFF)
    ||| (ins.op == OpCode::StoreIndirect && regs[ins.t as int] == 0xFF)
}

/// The fixed field layout of an instruction word: opcode in bits 15..12,
/// `d` in bits 11..8, `s` in bits 7..4, `t` in bits 3..0, and `address` in
/// bits 7..0. Which operand fields are kept depends on the opcode's format:
/// Halt keeps none, JumpRegister keeps only `d`, the address-format opcodes
/// (LoadAddress, Load, Store, BranchZero, BranchPositive, JumpAndLink) keep
/// `d` and `address`, and the remaining opcodes keep `d`, `s` and `t`.
pub open spec fn spec_decode(word: u16) -> Instruction {
    let op = op_of((word >> 12) as u8);
    let d = ((word >> 8) & 0xF) as u8;
    let s = ((word >> 4) & 0xF) as u8;
    let t = (word & 0xF) as u8;
    let address = (word & 0xFF) as u8;
    match op {
        OpCode::Halt => Instruction { op, d: 0, s: 0, t: 0, address: 0 },
        OpCode::JumpRegister => Instruction { op, d, s: 0, t: 0, address: 0 },
        OpCode::LoadAddress
        | OpCode::Load
        | OpCode::Store
        | OpCode::BranchZero
        | OpCode::BranchPositive
        | OpCode::JumpAndLink => Instruction { op, d, s: 0, t: 0, address },
        _ => Instruction { op, d, s, t, address: 0 },
    }
}

/// The bit fields of an instruction word lie within their ranges: each
/// 4-bit field is below 16 and the 8-bit field is below 256.
pub proof fn lemma_word_fields(word: u16)
    by (bit_vector)
    ensures
        word >> 12 < 16,
        (word >> 8) & 0xF < 16,
        (word >> 4) & 0xF < 16,
        word & 0xF < 16,
        word & 0xFF < 256,
{
}

/// Decoding yields well-formed register indices for every word.
pub proof fn lemma_decode_wf(word: u16)
    ensures
        spec_decode(word).wf(),
{
    lemma_word_fields(word);
}

/// Decodes one memory word into an instruction. Decoding never fails: the
/// 4-bit opcode space exactly covers the sixteen opcode tags.
pub fn decode(word: u16) -> (r: Instruction)
    ensures
        r == spec_decode(word),
        r.wf(),
{
    proof {
        lemma_word_fields(word);
    }
    let op_n = (word >> 12) as u8;
    let d = ((word >> 8) & 0xF) as u8;
    let s = ((word >> 4) & 0xF) as u8;
    let t = (word & 0xF) as u8;
    let address = (word & 0xFF) as u8;
    let op = match OpCode::from_u8(op_n) {
        Some(op) => op,
        None => OpCode::Halt,  // unreachable: the opcode number is 4-bit
    };
    match op {
        OpCode::Halt => Instruction { op, d: 0, s: 0, t: 0, address: 0 },
        OpCode::JumpRegister => Instruction { op, d, s: 0, t: 0, address: 0 },
        OpCode::LoadAddress
        | OpCode::Load
        | OpCode::Store
        | OpCode::BranchZero
        | OpCode::BranchPositive
        | OpCode::JumpAndLink => Instruction { op, d, s: 0, t: 0, address },
        _ => Instruction { op, d, s, t, address: 0 },
    }
}

} // verus!
