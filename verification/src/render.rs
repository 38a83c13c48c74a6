//! Rendering of machine words as decimal and fixed-width uppercase
//! hexadecimal text, for the diagnostic strings the simulator hands out.

use vstd::prelude::*;
use vstd::string::StringExecFns;

use crate::instruction::lemma_word_fields;
use crate::instruction::Instruction;
use crate::opcode::OpCode;

verus! {

/// The single character for the digit value `n` (uppercase for 10..16);
/// `"F"` for `n >= 16`, which no caller relies on.
pub open spec fn digit_char(n: u16) -> Seq<char> {
    if n == 0 {
        "0"@
    } else if n == 1 {
        "1"@
    } else if n == 2 {
        "2"@
    } else if n == 3 {
        "3"@
    } else if n == 4 {
        "4"@
    } else if n == 5 {
        "5"@
    } else if n == 6 {
        "6"@
    } else if n == 7 {
        "7"@
    } else if n == 8 {
        "8"@
    } else if n == 9 {
        "9"@
    } else if n == 10 {
        "A"@
    } else if n == 11 {
        "B"@
    } else if n == 12 {
        "C"@
    } else if n == 13 {
        "D"@
    } else if n == 14 {
        "E"@
    } else {
        "F"@
    }
}

/// The decimal rendering of `n`, most significant digit first, without
/// leading zeros (a single `"0"` for zero).
pub open spec fn dec_chars(n: u16) -> Seq<char>
    decreases n,
{
    if n < 10 {
        digit_char(n)
    } else {
        dec_chars(n / 10) + digit_char(n % 10)
    }
}

/// The four-digit uppercase hexadecimal rendering of a 16-bit word.
pub open spec fn hex4_chars(w: u16) -> Seq<char> {
    digit_char((w >> 12) & 0xF) + digit_char((w >> 8) & 0xF) + digit_char((w >> 4) & 0xF)
        + digit_char(w & 0xF)
}

/// The two-digit uppercase hexadecimal rendering of an 8-bit value.
pub open spec fn hex2_chars(b: u8) -> Seq<char> {
    digit_char((b >> 4) as u16) + digit_char((b & 0xF) as u16)
}

/// The one-digit uppercase hexadecimal rendering of a 4-bit value.
pub open spec fn hex1_chars(n: u8) -> Seq<char> {
    digit_char(n as u16)
}

/// A word rendered as the original's numeric entries are: the decimal
/// value, then the four-digit hexadecimal value in parentheses with a
/// trailing `x`, as in `4660(1234x)`.
pub open spec fn word_entry(w: u16) -> Seq<char> {
    dec_chars(w) + "("@ + hex4_chars(w) + "x)"@
}

/// Every nibble taken from a 16-bit word by shift and mask is below 16.
proof fn lemma_u16_nibbles(w: u16)
    by (bit_vector)
    ensures
        (w >> 12) & 0xF < 16,
        (w >> 8) & 0xF < 16,
        (w >> 4) & 0xF < 16,
        w & 0xF < 16,
{
}

/// Both nibbles of an 8-bit value are below 16.
proof fn lemma_u8_nibbles(b: u8)
    by (bit_vector)
    ensures
        b >> 4 < 16,
        b & 0xF < 16,
{
}

/// The character for digit value `n`.
fn digit_str(n: u16) -> (r: &'static str)
    requires
        n < 16,
    ensures
        r@ == digit_char(n),
{
    match n {
        0 => "0",
        1 => "1",
        2 => "2",
        3 => "3",
        4 => "4",
        5 => "5",
        6 => "6",
        7 => "7",
        8 => "8",
        9 => "9",
        10 => "A",
        11 => "B",
        12 => "C",
        13 => "D",
        14 => "E",
        _ => "F",
    }
}

/// Renders `n` in decimal.
pub fn dec_string(n: u16) -> (r: String)
    ensures
        r@ == dec_chars(n),
    decreases n,
{
    if n < 10 {
        String::from_str(digit_str(n))
    } else {
        let mut s = dec_string(n / 10);
        s.append(digit_str(n % 10));
        s
    }
}

/// Renders a 16-bit word as four uppercase hexadecimal digits.
pub fn hex4_string(w: u16) -> (r: String)
    ensures
        r@ == hex4_chars(w),
{
    proof {
        lemma_u16_nibbles(w);
    }
    let mut s = String::from_str(digit_str((w >> 12) & 0xF));
    s.append(digit_str((w >> 8) & 0xF));
    s.append(digit_str((w >> 4) & 0xF));
    s.append(digit_str(w & 0xF));
    s
}

/// Renders an 8-bit value as two uppercase hexadecimal digits.
pub fn hex2_string(b: u8) -> (r: String)
    ensures
        r@ == hex2_chars(b),
{
    proof {
        lemma_u8_nibbles(b);
    }
    let mut s = String::from_str(digit_str((b >> 4) as u16));
    s.append(digit_str((b & 0xF) as u16));
    s
}

/// Renders a 4-bit value as one uppercase hexadecimal digit.
pub fn hex1_string(n: u8) -> (r: String)
    requires
        n < 16,
    ensures
        r@ == hex1_chars(n),
{
    String::from_str(digit_str(n as u16))
}

/// Renders a word as a numeric entry, decimal then parenthesized
/// hexadecimal, as in `4660(1234x)`.
pub fn word_entry_string(w: u16) -> (r: String)
    ensures
        r@ == word_entry(w),
{
    let mut s = dec_string(w);
    s.append("(");
    s.append(hex4_string(w).as_str());
    s.append("x)");
    s
}

/// A register or memory value rendered as its decimal value followed by
/// its four-digit hexadecimal value in parentheses, as in `4626(1212)`.
pub open spec fn value_pair(w: u16) -> Seq<char> {
    dec_chars(w) + "("@ + hex4_chars(w) + ")"@
}

/// Renders a value as decimal followed by parenthesized hexadecimal.
pub fn value_pair_string(w: u16) -> (r: String)
    ensures
        r@ == value_pair(w),
{
    let mut s = dec_string(w);
    s.append("(");
    s.append(hex4_string(w).as_str());
    s.append(")");
    s
}

/// The name of an opcode tag, as its variant is spelled.
pub open spec fn op_name(op: OpCode) -> Seq<char> {
    match op {
        OpCode::Halt => "Halt"@,
        OpCode::Add => "Add"@,
        OpCode::Subtract => "Subtract"@,
        OpCode::And => "And"@,
        OpCode::Xor => "Xor"@,
        OpCode::ShiftLeft => "ShiftLeft"@,
        OpCode::ShiftRight => "ShiftRight"@,
        OpCode::LoadAddress => "LoadAddress"@,
        OpCode::Load => "Load"@,
        OpCode::Store => "Store"@,
        OpCode::LoadIndirect => "LoadIndirect"@,
        OpCode::StoreIndirect => "StoreIndirect"@,
        OpCode::BranchZero => "BranchZero"@,
        OpCode::BranchPositive => "BranchPositive"@,
        OpCode::JumpRegister => "JumpRegister"@,
        OpCode::JumpAndLink => "JumpAndLink"@,
    }
}

/// The name of an opcode tag.
pub fn op_name_str(op: &OpCode) -> (r: &'static str)
    ensures
        r@ == op_name(*op),
{
    match op {
        OpCode::Halt => "Halt",
        OpCode::Add => "Add",
        OpCode::Subtract => "Subtract",
        OpCode::And => "And",
        OpCode::Xor => "Xor",
        OpCode::ShiftLeft => "ShiftLeft",
        OpCode::ShiftRight => "ShiftRight",
        OpCode::LoadAddress => "LoadAddress",
        OpCode::Load => "Load",
        OpCode::Store => "Store",
        OpCode::LoadIndirect => "LoadIndirect",
        OpCode::StoreIndirect => "StoreIndirect",
        OpCode::BranchZero => "BranchZero",
        OpCode::BranchPositive => "BranchPositive",
        OpCode::JumpRegister => "JumpRegister",
        OpCode::JumpAndLink => "JumpAndLink",
    }
}

/// Whether an instruction can be described against the given registers:
/// an indirect access that is not the 0xFF trap must name a register
/// value inside the 256-word memory, since the description reads the
/// addressed memory word.
pub open spec fn describable(ins: Instruction, regs: Seq<u16>) -> bool {
    (ins.op == OpCode::LoadIndirect || ins.op == OpCode::StoreIndirect) && regs[ins.t as int]
        != 255 ==> regs[ins.t as int] < 256
}

/// The one-line description of a decoded instruction against live
/// registers and memory, opcode by opcode: what it moves, combines or
/// redirects, with register and memory operands shown by index and by
/// current value. An access of memory cell 0xFF is described as the I/O
/// transfer it will trigger rather than by the cell's current content.
pub open spec fn spec_format_for_pp(ins: Instruction, regs: Seq<u16>, mem: Seq<u16>) -> Seq<
    char,
> {
    let dc = regs[ins.d as int];
    let sc = regs[ins.s as int];
    let tc = regs[ins.t as int];
    match ins.op {
        OpCode::Halt => "Op: Halt"@,
        OpCode::Add | OpCode::Subtract | OpCode::And | OpCode::Xor | OpCode::ShiftLeft
        | OpCode::ShiftRight => "Op: "@ + op_name(ins.op) + " - d:R["@ + hex1_chars(ins.d)
            + "] set from: s:R["@ + hex1_chars(ins.s) + "]="@ + value_pair(sc) + " <op> t:R["@
            + hex1_chars(ins.t) + "]="@ + value_pair(tc),
        OpCode::LoadAddress => "Op: "@ + op_name(ins.op) + " - d:R["@ + hex1_chars(ins.d)
            + "] becomes "@ + hex4_chars(ins.address as u16),
        OpCode::Load => if ins.address == 0xFF {
            "Op: "@ + op_name(ins.op) + " - input to d:R["@ + hex1_chars(ins.d) + "] via mem["@
                + hex2_chars(ins.address) + "]"@
        } else {
            "Op: "@ + op_name(ins.op) + " - d:R["@ + hex1_chars(ins.d) + "] set from mem["@
                + hex2_chars(ins.address) + "]="@ + value_pair(mem[ins.address as int])
        },
        OpCode::Store => if ins.address == 0xFF {
            "Op: "@ + op_name(ins.op) + " - output from d:R["@ + hex1_chars(ins.d) + "] via mem["@
                + hex2_chars(ins.address) + "]"@
        } else {
            "Op: "@ + op_name(ins.op) + " - mem["@ + hex2_chars(ins.address) + "] set from d:R["@
                + hex1_chars(ins.d) + "]"@ + value_pair(dc)
        },
        OpCode::LoadIndirect => if tc == 255 {
            "Op: "@ + op_name(ins.op) + " - input to d:R["@ + hex1_chars(ins.d) + "] via mem["@
                + hex2_chars(tc as u8) + "] as indicated by t:R["@ + hex1_chars(ins.t) + "]"@
        } else {
            "Op: "@ + op_name(ins.op) + " - d:R["@ + hex1_chars(ins.d) + "] set from mem[t:R"@
                + hex1_chars(ins.t) + "]="@ + value_pair(mem[tc as int]) + " where t:R["@
                + hex1_chars(ins.t) + "]="@ + hex4_chars(tc)
        },
        OpCode::StoreIndirect => if tc == 255 {
            "Op: "@ + op_name(ins.op) + " - output from d:R["@ + hex1_chars(ins.d) + "] via mem["@
                + hex2_chars(tc as u8) + "] as indicated by t:R["@ + hex1_chars(ins.t) + "]"@
        } else {
            "Op: "@ + op_name(ins.op) + " - mem[t:R["@ + hex1_chars(ins.t) + "]="@ + hex4_chars(tc)
                + "] set from d:R["@ + hex1_chars(ins.d) + "]"@ + value_pair(dc)
        },
        OpCode::BranchZero => "Op: "@ + op_name(ins.op) + " - pc becomes "@ + hex2_chars(
            ins.address,
        ) + " when d:R["@ + hex1_chars(ins.d) + "]="@ + value_pair(dc) + " == 0"@,
        OpCode::BranchPositive => "Op: "@ + op_name(ins.op) + " - pc becomes "@ + hex2_chars(
            ins.address,
        ) + " when d:R["@ + hex1_chars(ins.d) + "]="@ + value_pair(dc) + " > 0"@,
        OpCode::JumpRegister => "Op: "@ + op_name(ins.op) + " - pc becomes "@ + hex2_chars(
            (dc & 0xFF) as u8,
        ) + " from d:R["@ + hex1_chars(ins.d) + "]="@ + hex4_chars(dc),
        OpCode::JumpAndLink => "Op: "@ + op_name(ins.op) + " - d:R["@ + hex1_chars(ins.d)
            + "] becomes pc and pc becomes "@ + hex2_chars(ins.address),
    }
}

impl Instruction {
    /// Describes this instruction in one line against the given registers
    /// and memory, for diagnostics and tracing; the result is exactly
    /// what `spec_format_for_pp` states.
    pub fn format_for_pp(&self, regs: &Vec<u16>, memory: &Vec<u16>) -> (r: String)
        requires
            self.wf(),
            regs.len() == 16,
            memory.len() == 256,
            describable(*self, regs@),
        ensures
            r@ == spec_format_for_pp(*self, regs@, memory@),
    {
        let d = self.d;
        let s = self.s;
        let t = self.t;
        let addr = self.address;
        let dc = regs[d as usize];
        let sc = regs[s as usize];
        let tc = regs[t as usize];
        let mut out = String::from_str("Op: ");
        match self.op {
            OpCode::Halt => {
                return String::from_str("Op: Halt");
            },
            OpCode::Add | OpCode::Subtract | OpCode::And | OpCode::Xor | OpCode::ShiftLeft
            | OpCode::ShiftRight => {
                out.append(op_name_str(&self.op));
                out.append(" - d:R[");
                out.append(hex1_string(d).as_str());
                out.append("] set from: s:R[");
                out.append(hex1_string(s).as_str());
                out.append("]=");
                out.append(value_pair_string(sc).as_str());
                out.append(" <op> t:R[");
                out.append(hex1_string(t).as_str());
                out.append("]=");
                out.append(value_pair_string(tc).as_str());
            },
            OpCode::LoadAddress => {
                out.append(op_name_str(&self.op));
                out.append(" - d:R[");
                out.append(hex1_string(d).as_str());
                out.append("] becomes ");
                out.append(hex4_string(addr as u16).as_str());
            },
            OpCode::Load => {
                out.append(op_name_str(&self.op));
                if addr == 0xFF {
                    out.append(" - input to d:R[");
                    out.append(hex1_string(d).as_str());
                    out.append("] via mem[");
                    out.append(hex2_string(addr).as_str());
                    out.append("]");
                } else {
                    out.append(" - d:R[");
                    out.append(hex1_string(d).as_str());
                    out.append("] set from mem[");
                    out.append(hex2_string(addr).as_str());
                    out.append("]=");
                    out.append(value_pair_string(memory[addr as usize]).as_str());
                }
            },
            OpCode::Store => {
                out.append(op_name_str(&self.op));
                if addr == 0xFF {
                    out.append(" - output from d:R[");
                    out.append(hex1_string(d).as_str());
                    out.append("] via mem[");
                    out.append(hex2_string(addr).as_str());
                    out.append("]");
                } else {
                    out.append(" - mem[");
                    out.append(hex2_string(addr).as_str());
                    out.append("] set from d:R[");
                    out.append(hex1_string(d).as_str());
                    out.append("]");
                    out.append(value_pair_string(dc).as_str());
                }
            },
            OpCode::LoadIndirect => {
                out.append(op_name_str(&self.op));
                if tc == 255 {
                    out.append(" - input to d:R[");
                    out.append(hex1_string(d).as_str());
                    out.append("] via mem[");
                    out.append(hex2_string(tc as u8).as_str());
                    out.append("] as indicated by t:R[");
                    out.append(hex1_string(t).as_str());
                    out.append("]");
                } else {
                    out.append(" - d:R[");
                    out.append(hex1_string(d).as_str());
                    out.append("] set from mem[t:R");
                    out.append(hex1_string(t).as_str());
                    out.append("]=");
                    out.append(value_pair_string(memory[tc as usize]).as_str());
                    out.append(" where t:R[");
                    out.append(hex1_string(t).as_str());
                    out.append("]=");
                    out.append(hex4_string(tc).as_str());
                }
            },
            OpCode::StoreIndirect => {
                out.append(op_name_str(&self.op));
                if tc == 255 {
                    out.append(" - output from d:R[");
                    out.append(hex1_string(d).as_str());
                    out.append("] via mem[");
                    out.append(hex2_string(tc as u8).as_str());
                    out.append("] as indicated by t:R[");
                    out.append(hex1_string(t).as_str());
                    out.append("]");
                } else {
                    out.append(" - mem[t:R[");
                    out.append(hex1_string(t).as_str());
                    out.append("]=");
                    out.append(hex4_string(tc).as_str());
                    out.append("] set from d:R[");
                    out.append(hex1_string(d).as_str());
                    out.append("]");
                    out.append(value_pair_string(dc).as_str());
                }
            },
            OpCode::BranchZero => {
                out.append(op_name_str(&self.op));
                out.append(" - pc becomes ");
                out.append(hex2_string(addr).as_str());
                out.append(" when d:R[");
                out.append(hex1_string(d).as_str());
                out.append("]=");
                out.append(value_pair_string(dc).as_str());
                out.append(" == 0");
            },
            OpCode::BranchPositive => {
                out.append(op_name_str(&self.op));
                out.append(" - pc becomes ");
                out.append(hex2_string(addr).as_str());
                out.append(" when d:R[");
                out.append(hex1_string(d).as_str());
                out.append("]=");
                out.append(value_pair_string(dc).as_str());
                out.append(" > 0");
            },
            OpCode::JumpRegister => {
                proof {
                    lemma_word_fields(regs@[self.d as int]);
                }
                out.append(op_name_str(&self.op));
                out.append(" - pc becomes ");
                out.append(hex2_string((dc & 0xFF) as u8).as_str());
                out.append(" from d:R[");
                out.append(hex1_string(d).as_str());
                out.append("]=");
                out.append(hex4_string(dc).as_str());
            },
            OpCode::JumpAndLink => {
                out.append(op_name_str(&self.op));
                out.append(" - d:R[");
                out.append(hex1_string(d).as_str());
                out.append("] becomes pc and pc becomes ");
                out.append(hex2_string(addr).as_str());
            },
        }
        out
    }
}

} // verus!
