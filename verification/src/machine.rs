//! The machine itself: the owned session state (program counter, sixteen
//! registers, 256 memory words, running flag), the executor that applies one
//! decoded instruction, and the step/run controller that drives
//! fetch-decode-execute cycles with the I/O trap protocol around them.

use vstd::prelude::*;

use crate::external_env::ExternalEnv;
use crate::external_env::output_dump_appended;
use crate::instruction::decode;
use crate::instruction::read_traps;
use crate::instruction::spec_decode;
use crate::instruction::write_traps;
use crate::instruction::Instruction;
use crate::opcode::OpCode;

verus! {

/// The mathematical model of a machine: the program counter, the register
/// file, the memory contents and the running flag.
pub struct ToyState {
    pub pc: u8,
    pub regs: Seq<u16>,
    pub mem: Seq<u16>,
    pub running: bool,
}

impl ToyState {
    /// There are exactly sixteen registers and 256 memory words.
    pub open spec fn wf(&self) -> bool {
        self.regs.len() == 16 && self.mem.len() == 256
    }
}

/// One simulated machine: exclusively owned by one simulation session and
/// zero-initialized at creation.
pub struct Machine {
    pc: u8,
    regs: Vec<u16>,
    memory: Vec<u16>,
    running: bool,
}

impl View for Machine {
    type V = ToyState;

    closed spec fn view(&self) -> ToyState {
        ToyState { pc: self.pc, regs: self.regs@, mem: self.memory@, running: self.running }
    }
}

/// One word of a program image: a memory address and the 16-bit content to
/// place there.
#[derive(Clone, Copy, Debug, PartialEq, Eq, Structural)]
pub struct ProgramLoadWord {
    pub address: u8,
    pub content: u16,
}

impl ProgramLoadWord {
    /// Pairs an address with the word to load there.
    pub fn new(address: u8, content: u16) -> (r: Self)
        ensures
            r == (ProgramLoadWord { address, content }),
    {
        Self { address, content }
    }
}

/// The memory contents after writing each load word in order into `mem`.
pub open spec fn spec_load(mem: Seq<u16>, loads: Seq<ProgramLoadWord>) -> Seq<u16>
    decreases loads.len(),
{
    if loads.len() == 0 {
        mem
    } else {
        spec_load(mem, loads.drop_last()).update(
            loads.last().address as int,
            loads.last().content,
        )
    }
}

/// The errors a step can surface. Decoding is structurally total, so
/// `DecodeError` is kept only as a defensive path and is never produced;
/// the other two name the two ways a step can fail.
#[derive(Clone, Copy, Debug, PartialEq, Eq, Structural)]
pub enum MachineError {
    /// A memory word failed to decode: structurally unreachable, since the
    /// 4-bit opcode space exactly covers the sixteen tags.
    DecodeError,
    /// A read trap was attempted against an empty external input stream.
    InputExhausted,
    /// An indirect access named a register value beyond the 256-word memory.
    OutOfRange,
}

/// 16-bit addition with wraparound.
pub open spec fn word_add(a: u16, b: u16) -> u16 {
    if a + b > 0xFFFF {
        (a + b - 0x10000) as u16
    } else {
        (a + b) as u16
    }
}

/// 16-bit two's-complement subtraction: the difference modulo 2^16,
/// reinterpreted as an unsigned word.
pub open spec fn word_sub(a: u16, b: u16) -> u16 {
    if a - b < 0 {
        (a - b + 0x10000) as u16
    } else {
        (a - b) as u16
    }
}

/// Left shift truncated to 16 bits; every bit has been shifted out once the
/// amount reaches 16.
pub open spec fn word_shl(a: u16, sh: u16) -> u16 {
    if sh >= 16 {
        0
    } else {
        a << sh
    }
}

/// Logical right shift; the result is zero once the amount reaches 16.
pub open spec fn word_shr(a: u16, sh: u16) -> u16 {
    if sh >= 16 {
        0
    } else {
        a >> sh
    }
}

/// The next program counter in fetch order: one more, wrapping past 255.
pub open spec fn pc_next(pc: u8) -> u8 {
    if pc == 255 {
        0
    } else {
        (pc + 1) as u8
    }
}

/// The register file after the unconditional normalization that follows
/// every executed instruction: register 0 is forced back to zero.
pub open spec fn normalized(regs: Seq<u16>) -> Seq<u16> {
    regs.update(0, 0u16)
}

/// The state after writing `v` to register `d` and normalizing.
pub open spec fn with_reg(pre: ToyState, d: int, v: u16) -> ToyState {
    ToyState { regs: normalized(pre.regs.update(d, v)), ..pre }
}

/// The effect of one decoded instruction on the machine state, per the
/// opcode table: Halt changes nothing; the arithmetic, logic and shift
/// opcodes combine `R[s]` and `R[t]` into `R[d]`; the load and store
/// opcodes move words between registers and memory (address 0xFF is
/// ordinary memory here — the I/O convention is overlaid by the step
/// controller, not by the executor); the branch and jump opcodes redirect
/// the program counter. After every non-halting instruction register 0 is
/// forced back to zero. The running flag is untouched: reporting
/// continue-or-halt is the executor's return value.
pub open spec fn spec_execute(pre: ToyState, ins: Instruction) -> ToyState {
    let d = ins.d as int;
    let rd = pre.regs[ins.d as int];
    let rs = pre.regs[ins.s as int];
    let rt = pre.regs[ins.t as int];
    match ins.op {
        OpCode::Halt => pre,
        OpCode::Add => with_reg(pre, d, word_add(rs, rt)),
        OpCode::Subtract => with_reg(pre, d, word_sub(rs, rt)),
        OpCode::And => with_reg(pre, d, rs & rt),
        OpCode::Xor => with_reg(pre, d, rs ^ rt),
        OpCode::ShiftLeft => with_reg(pre, d, word_shl(rs, rt)),
        OpCode::ShiftRight => with_reg(pre, d, word_shr(rs, rt)),
        OpCode::LoadAddress => with_reg(pre, d, ins.address as u16),
        OpCode::Load => with_reg(pre, d, pre.mem[ins.address as int]),
        OpCode::Store => ToyState {
            mem: pre.mem.update(ins.address as int, rd),
            regs: normalized(pre.regs),
            ..pre
        },
        OpCode::LoadIndirect => with_reg(pre, d, pre.mem[rt as int]),
        OpCode::StoreIndirect => ToyState {
            mem: pre.mem.update(rt as int, rd),
            regs: normalized(pre.regs),
            ..pre
        },
        OpCode::BranchZero => ToyState {
            pc: if rd == 0 {
                ins.address
            } else {
                pre.pc
            },
            regs: normalized(pre.regs),
            ..pre
        },
        OpCode::BranchPositive => ToyState {
            pc: if rd > 0 {
                ins.address
            } else {
                pre.pc
            },
            regs: normalized(pre.regs),
            ..pre
        },
        OpCode::JumpRegister => ToyState {
            pc: (rd & 0xFF) as u8,
            regs: normalized(pre.regs),
            ..pre
        },
        OpCode::JumpAndLink => ToyState {
            pc: ins.address,
            regs: normalized(pre.regs.update(d, pre.pc as u16)),
            ..pre
        },
    }
}

/// The instruction the next step will run: the decode of the memory word
/// under the program counter.
pub open spec fn fetched(m: ToyState) -> Instruction {
    spec_decode(m.mem[m.pc as int])
}

/// A step fails with `InputExhausted` when its instruction trips the read
/// side of the I/O convention against an empty input stream.
pub open spec fn step_input_exhausted(m: ToyState, input: Seq<u16>) -> bool {
    read_traps(fetched(m), m.regs) && input.len() == 0
}

/// A step fails with `OutOfRange` when an indirect access names a register
/// value beyond the 256-word memory.
pub open spec fn step_out_of_range(m: ToyState) -> bool {
    let ins = fetched(m);
    (ins.op == OpCode::LoadIndirect || ins.op == OpCode::StoreIndirect) && m.regs[ins.t as int]
        >= 256
}

/// Whether a step of machine `m` against pending input `input` commits
/// (as opposed to failing before any state change).
pub open spec fn step_commits(m: ToyState, input: Seq<u16>) -> bool {
    !step_input_exhausted(m, input) && !step_out_of_range(m)
}

/// What one committed step leaves behind: the machine, the input words
/// still pending, and the words it appended to the output stream.
pub struct StepOutcome {
    pub machine: ToyState,
    pub input: Seq<u16>,
    pub emitted: Seq<u16>,
}

/// One committed step of a running machine: fetch the word under the
/// program counter and decode it; if the instruction trips the read trap,
/// pull one input word into memory cell 0xFF first; advance the counter by
/// one (wrapping past 255); execute; and if the instruction was decided to
/// trip the write trap — against the registers as they stood before
/// execution — and the machine continues, append the word the executor
/// left in cell 0xFF to the output stream. The running flag afterward says
/// whether the instruction was something other than Halt.
pub open spec fn spec_step(m: ToyState, input: Seq<u16>) -> StepOutcome {
    let ins = fetched(m);
    let reads = read_traps(ins, m.regs);
    let mem1 = if reads {
        m.mem.update(0xFF, input[0])
    } else {
        m.mem
    };
    let input1 = if reads {
        input.skip(1)
    } else {
        input
    };
    let staged = ToyState { pc: pc_next(m.pc), mem: mem1, ..m };
    let post = spec_execute(staged, ins);
    let cont = ins.op != OpCode::Halt;
    let writes = cont && write_traps(ins, m.regs);
    StepOutcome {
        machine: ToyState { running: cont, ..post },
        input: input1,
        emitted: if writes {
            seq![post.mem[0xFF]]
        } else {
            Seq::empty()
        },
    }
}

/// What a bounded run leaves behind: the final machine, the input words
/// still pending, every word appended to the output stream in order, the
/// number of steps that committed, and the error that stopped the run, if
/// one did.
pub struct RunOutcome {
    pub machine: ToyState,
    pub input: Seq<u16>,
    pub emitted: Seq<u16>,
    pub steps: nat,
    pub error: Option<MachineError>,
}

/// Up to `fuel` steps of the machine, in order. The run stops early when
/// the machine halts (the running flag falls) or when a step fails; a
/// failing step commits nothing, so the machine and the streams stay as
/// the preceding step left them.
pub open spec fn spec_run(m: ToyState, input: Seq<u16>, fuel: nat) -> RunOutcome
    decreases fuel,
{
    if !m.running || fuel == 0 {
        RunOutcome { machine: m, input, emitted: Seq::empty(), steps: 0, error: None }
    } else if step_input_exhausted(m, input) {
        RunOutcome {
            machine: m,
            input,
            emitted: Seq::empty(),
            steps: 0,
            error: Some(MachineError::InputExhausted),
        }
    } else if step_out_of_range(m) {
        RunOutcome {
            machine: m,
            input,
            emitted: Seq::empty(),
            steps: 0,
            error: Some(MachineError::OutOfRange),
        }
    } else {
        let one = spec_step(m, input);
        let rest = spec_run(one.machine, one.input, (fuel - 1) as nat);
        RunOutcome {
            machine: rest.machine,
            input: rest.input,
            emitted: one.emitted + rest.emitted,
            steps: rest.steps + 1,
            error: rest.error,
        }
    }
}

/// The output summary after appending the entries of `ws` in order.
pub open spec fn output_dump_folded(prev: Seq<char>, ws: Seq<u16>) -> Seq<char>
    decreases ws.len(),
{
    if ws.len() == 0 {
        prev
    } else {
        output_dump_folded(output_dump_appended(prev, ws[0]), ws.skip(1))
    }
}

impl Machine {
    /// All state is within bounds.
    pub open spec fn wf(&self) -> bool {
        self@.wf()
    }

    /// A fresh machine: program counter zero, all registers and memory
    /// words zero, not running.
    pub fn new() -> (r: Self)
        ensures
            r.wf(),
            r@.pc == 0,
            r@.running == false,
            forall|i: int| 0 <= i < 16 ==> r@.regs[i] == 0,
            forall|i: int| 0 <= i < 256 ==> r@.mem[i] == 0,
    {
        let pc: u8 = 0;
        let memory: Vec<u16> = vec![0u16; 256];
        let regs: Vec<u16> = vec![0u16; 16];
        let running = false;
        Self { pc, regs, memory, running }
    }

    /// Writes each (address, content) pair of the program image into
    /// memory, in order; later pairs win on a repeated address.
    pub fn load(&mut self, loads: Vec<ProgramLoadWord>)
        requires
            old(self).wf(),
        ensures
            final(self).wf(),
            final(self)@.mem == spec_load(old(self)@.mem, loads@),
            final(self)@.pc == old(self)@.pc,
            final(self)@.regs == old(self)@.regs,
            final(self)@.running == old(self)@.running,
    {
        let n = loads.len();
        let mut i: usize = 0;
        while i < n
            invariant
                n == loads.len(),
                i <= n,
                self.wf(),
                self@.mem == spec_load(old(self)@.mem, loads@.take(i as int)),
                self@.pc == old(self)@.pc,
                self@.regs == old(self)@.regs,
                self@.running == old(self)@.running,
            decreases n - i,
        {
            let word = loads[i];
            self.memory[word.address as usize] = word.content;
            proof {
                assert(loads@.take(i + 1 as int).drop_last() =~= loads@.take(i as int));
                assert(loads@.take(i + 1 as int).last() == loads@[i as int]);
            }
            i = i + 1;
        }
        proof {
            assert(loads@.take(n as int) =~= loads@);
        }
    }

    /// Raises the running flag.
    pub fn set_running(&mut self)
        ensures
            final(self)@ == (ToyState { running: true, ..old(self)@ }),
    {
        self.running = true;
    }

    /// Clears the running flag.
    pub fn reset_running(&mut self)
        ensures
            final(self)@ == (ToyState { running: false, ..old(self)@ }),
    {
        self.running = false;
    }

    /// Whether the machine is currently running.
    pub fn get_running(&self) -> (r: bool)
        ensures
            r == self@.running,
    {
        self.running
    }

    /// Sets the program counter.
    pub fn set_program_counter(&mut self, pc: u8)
        ensures
            final(self)@ == (ToyState { pc, ..old(self)@ }),
    {
        self.pc = pc;
    }

    /// The current program counter.
    pub fn get_program_counter(&self) -> (r: u8)
        ensures
            r == self@.pc,
    {
        self.pc
    }

    /// A copy of the sixteen registers.
    pub fn get_regs(&self) -> (r: Vec<u16>)
        requires
            self.wf(),
        ensures
            r@ == self@.regs,
    {
        let n = self.regs.len();
        let mut r: Vec<u16> = Vec::new();
        let mut i: usize = 0;
        while i < n
            invariant
                n == self.regs.len(),
                i <= n,
                r@ == self@.regs.take(i as int),
            decreases n - i,
        {
            r.push(self.regs[i]);
            proof {
                assert(self@.regs.take(i + 1 as int) =~= self@.regs.take(i as int).push(
                    self@.regs[i as int],
                ));
            }
            i = i + 1;
        }
        proof {
            assert(self@.regs.take(n as int) =~= self@.regs);
        }
        r
    }

    /// Sets register `i` to `value`.
    pub fn set_reg(&mut self, i: usize, value: u16)
        requires
            old(self).wf(),
            i < 16,
        ensures
            final(self).wf(),
            final(self)@ == (ToyState { regs: old(self)@.regs.update(i as int, value), ..old(self)@ }),
    {
        self.regs[i] = value;
    }

    /// A copy of the 256 memory words.
    pub fn get_memory(&self) -> (r: Vec<u16>)
        requires
            self.wf(),
        ensures
            r@ == self@.mem,
    {
        let n = self.memory.len();
        let mut r: Vec<u16> = Vec::new();
        let mut i: usize = 0;
        while i < n
            invariant
                n == self.memory.len(),
                i <= n,
                r@ == self@.mem.take(i as int),
            decreases n - i,
        {
            r.push(self.memory[i]);
            proof {
                assert(self@.mem.take(i + 1 as int) =~= self@.mem.take(i as int).push(
                    self@.mem[i as int],
                ));
            }
            i = i + 1;
        }
        proof {
            assert(self@.mem.take(n as int) =~= self@.mem);
        }
        r
    }

    /// Writes `value` into memory word `index`.
    pub fn set_memory_word(&mut self, index: usize, value: u16)
        requires
            old(self).wf(),
            index < 256,
        ensures
            final(self).wf(),
            final(self)@ == (ToyState {
                mem: old(self)@.mem.update(index as int, value),
                ..old(self)@
            }),
    {
        self.memory[index] = value;
    }

    /// Reads memory word `index`.
    pub fn get_memory_word(&self, index: usize) -> (r: u16)
        requires
            self.wf(),
            index < 256,
        ensures
            r == self@.mem[index as int],
    {
        self.memory[index]
    }

    /// Describes the instruction a given memory word decodes to, against
    /// this machine's live registers and memory: a non-authoritative
    /// inspection hook for diagnostics.
    pub fn current_instruction_pp(&self, word: u16) -> (r: String)
        requires
            self.wf(),
            crate::render::describable(spec_decode(word), self@.regs),
        ensures
            r@ == crate::render::spec_format_for_pp(spec_decode(word), self@.regs, self@.mem),
    {
        let instruction = self.instruction_from_word(word);
        instruction.format_for_pp(&self.regs, &self.memory)
    }

    /// Decodes one memory word into an instruction, per the fixed per-opcode
    /// field layout. Decoding never fails.
    pub fn instruction_from_word(&self, word: u16) -> (r: Instruction)
        ensures
            r == spec_decode(word),
            r.wf(),
    {
        decode(word)
    }

    /// Fetches the word under the program counter, advances the counter by
    /// one (wrapping past 255), and decodes the fetched word.
    pub fn get_next_instruction(&mut self) -> (r: Instruction)
        requires
            old(self).wf(),
        ensures
            final(self).wf(),
            r == spec_decode(old(self)@.mem[old(self)@.pc as int]),
            r.wf(),
            final(self)@ == (ToyState { pc: pc_next(old(self)@.pc), ..old(self)@ }),
    {
        let local_pc = self.pc;
        let word = self.get_memory_word(local_pc as usize);
        self.set_program_counter(local_pc.wrapping_add(1));
        self.instruction_from_word(word)
    }

    /// Applies one decoded instruction to the machine state and reports
    /// whether the machine continues running: `false` exactly for Halt,
    /// which changes nothing. Address 0xFF is ordinary memory here; the
    /// I/O trap convention is the step controller's business.
    pub fn execute_next_instruction(&mut self, instruction: &Instruction) -> (running: bool)
        requires
            old(self).wf(),
            instruction.wf(),
            (instruction.op == OpCode::LoadIndirect || instruction.op == OpCode::StoreIndirect)
                ==> old(self)@.regs[instruction.t as int] < 256,
        ensures
            final(self).wf(),
            final(self)@ == spec_execute(old(self)@, *instruction),
            running == (instruction.op != OpCode::Halt),
    {
        let d = instruction.d as usize;
        let s = instruction.s as usize;
        let t = instruction.t as usize;
        match instruction.op {
            OpCode::Halt => {
                return false;
            },
            OpCode::Add => {
                let v = self.regs[s].wrapping_add(self.regs[t]);
                self.regs[d] = v;
            },
            OpCode::Subtract => {
                let v = self.regs[s].wrapping_sub(self.regs[t]);
                self.regs[d] = v;
            },
            OpCode::And => {
                let v = self.regs[s] & self.regs[t];
                self.regs[d] = v;
            },
            OpCode::Xor => {
                let v = self.regs[s] ^ self.regs[t];
                self.regs[d] = v;
            },
            OpCode::ShiftLeft => {
                let sh = self.regs[t];
                let v = if sh >= 16 {
                    0u16
                } else {
                    self.regs[s] << sh
                };
                self.regs[d] = v;
            },
            OpCode::ShiftRight => {
                let sh = self.regs[t];
                let v = if sh >= 16 {
                    0u16
                } else {
                    self.regs[s] >> sh
                };
                self.regs[d] = v;
            },
            OpCode::LoadAddress => {
                self.regs[d] = instruction.address as u16;
            },
            OpCode::Load => {
                let v = self.memory[instruction.address as usize];
                self.regs[d] = v;
            },
            OpCode::Store => {
                let v = self.regs[d];
                self.memory[instruction.address as usize] = v;
            },
            OpCode::LoadIndirect => {
                let v = self.memory[self.regs[t] as usize];
                self.regs[d] = v;
            },
            OpCode::StoreIndirect => {
                let v = self.regs[d];
                self.memory[self.regs[t] as usize] = v;
            },
            OpCode::BranchZero => {
                if self.regs[d] == 0 {
                    self.pc = instruction.address;
                }
            },
            OpCode::BranchPositive => {
                if self.regs[d] > 0 {
                    self.pc = instruction.address;
                }
            },
            OpCode::JumpRegister => {
                proof {
                    crate::instruction::lemma_word_fields(old(self)@.regs[instruction.d as int]);
                }
                self.pc = (self.regs[d] & 0xFF) as u8;
            },
            OpCode::JumpAndLink => {
                let link = self.pc as u16;
                self.regs[d] = link;
                self.pc = instruction.address;
            },
        }
        self.regs[0] = 0;  // register 0 reads as zero after every instruction
        true
    }

    /// Runs one fetch-decode-execute step with the I/O trap protocol
    /// around it, while the machine is running (a halted machine is left
    /// untouched). The step either commits fully — leaving exactly what
    /// `spec_step` describes — or fails before any state change:
    /// `InputExhausted` when a read trap finds the input stream empty,
    /// `OutOfRange` when an indirect access names a register value beyond
    /// the 256-word memory.
    pub fn run_one_step(&mut self, env: &mut ExternalEnv) -> (r: Result<(), MachineError>)
        requires
            old(self).wf(),
        ensures
            final(self).wf(),
            !old(self)@.running ==> r is Ok && final(self)@ == old(self)@ && final(env)@ == old(
                env,
            )@,
            old(self)@.running && step_input_exhausted(old(self)@, old(env)@.input) ==> r == Err::<
                (),
                MachineError,
            >(MachineError::InputExhausted) && final(self)@ == old(self)@ && final(env)@ == old(
                env,
            )@,
            old(self)@.running && !step_input_exhausted(old(self)@, old(env)@.input)
                && step_out_of_range(old(self)@) ==> r == Err::<(), MachineError>(
                MachineError::OutOfRange,
            ) && final(self)@ == old(self)@ && final(env)@ == old(env)@,
            old(self)@.running && step_commits(old(self)@, old(env)@.input) ==> ({
                let outcome = spec_step(old(self)@, old(env)@.input);
                &&& r is Ok
                &&& final(self)@ == outcome.machine
                &&& final(env)@.input == outcome.input
                &&& final(env)@.output == old(env)@.output + outcome.emitted
                &&& final(env)@.input_dump == old(env)@.input_dump
                &&& final(env)@.output_dump == (if outcome.emitted.len() == 0 {
                    old(env)@.output_dump
                } else {
                    output_dump_appended(old(env)@.output_dump, outcome.emitted[0])
                })
            }),
    {
        if !self.get_running() {
            return Ok(());
        }
        let pc0 = self.get_program_counter();
        let word = self.get_memory_word(pc0 as usize);
        let instruction = self.instruction_from_word(word);
        let will_read = instruction.is_read_to_memory(&self.regs);
        let will_write = instruction.is_write_from_memory(&self.regs);
        if will_read && env.is_end_of_input() {
            return Err(MachineError::InputExhausted);
        }
        let indirect = match instruction.op {
            OpCode::LoadIndirect | OpCode::StoreIndirect => true,
            _ => false,
        };
        if indirect && self.regs[instruction.t as usize] >= 256 {
            return Err(MachineError::OutOfRange);
        }
        if will_read {
            match env.get_next_word() {
                Some(w) => {
                    self.set_memory_word(0xFF, w);
                },
                None => {
                    return Err(MachineError::InputExhausted);  // unreachable: checked above
                },
            }
        }
        self.set_program_counter(pc0.wrapping_add(1));
        let cont = self.execute_next_instruction(&instruction);
        if cont && will_write {
            let w = self.get_memory_word(0xFF);
            env.put_word(w);
        }
        if cont {
            self.set_running();
        } else {
            self.reset_running();
        }
        Ok(())
    }

    /// Drives up to `max_steps` single steps while the machine is running.
    /// On success the result counts the steps that committed; a failing
    /// step stops the run with its error, leaving the machine and the
    /// streams as the preceding step left them. The whole run leaves
    /// exactly what `spec_run` describes.
    pub fn run_steps(&mut self, env: &mut ExternalEnv, max_steps: u64) -> (r: Result<
        u64,
        MachineError,
    >)
        requires
            old(self).wf(),
        ensures
            final(self).wf(),
            ({
                let outcome = spec_run(old(self)@, old(env)@.input, max_steps as nat);
                &&& final(self)@ == outcome.machine
                &&& final(env)@.input == outcome.input
                &&& final(env)@.output == old(env)@.output + outcome.emitted
                &&& final(env)@.input_dump == old(env)@.input_dump
                &&& final(env)@.output_dump == output_dump_folded(
                    old(env)@.output_dump,
                    outcome.emitted,
                )
                &&& (match r {
                    Ok(n) => outcome.error is None && n == outcome.steps,
                    Err(e) => outcome.error == Some(e),
                })
            }),
            r matches Ok(n) && n < max_steps ==> !final(self)@.running,
    {
        let ghost m0 = self@;
        let ghost in0 = env@.input;
        let ghost out0 = env@.output;
        let ghost indump0 = env@.input_dump;
        let ghost outdump0 = env@.output_dump;
        let ghost total = spec_run(m0, in0, max_steps as nat);
        let ghost mut emitted_so_far: Seq<u16> = Seq::empty();
        let mut steps: u64 = 0;
        proof {
            assert(out0 + emitted_so_far =~= out0);
        }
        while steps < max_steps && self.get_running()
            invariant
                self.wf(),
                steps <= max_steps,
                m0 == old(self)@,
                in0 == old(env)@.input,
                out0 == old(env)@.output,
                indump0 == old(env)@.input_dump,
                outdump0 == old(env)@.output_dump,
                total == spec_run(m0, in0, max_steps as nat),
                total.machine == spec_run(self@, env@.input, (max_steps - steps) as nat).machine,
                total.input == spec_run(self@, env@.input, (max_steps - steps) as nat).input,
                total.error == spec_run(self@, env@.input, (max_steps - steps) as nat).error,
                total.emitted == emitted_so_far + spec_run(
                    self@,
                    env@.input,
                    (max_steps - steps) as nat,
                ).emitted,
                total.steps == steps + spec_run(self@, env@.input, (max_steps - steps) as nat).steps,
                env@.output == out0 + emitted_so_far,
                env@.input_dump == indump0,
                env@.output_dump == output_dump_folded(outdump0, emitted_so_far),
            decreases max_steps - steps,
        {
            let ghost pre = self@;
            let ghost pre_in = env@.input;
            let ghost left = (max_steps - steps) as nat;
            match self.run_one_step(env) {
                Ok(()) => {},
                Err(e) => {
                    proof {
                        if step_input_exhausted(pre, pre_in) {
                            assert(e == MachineError::InputExhausted);
                            assert(spec_run(pre, pre_in, left).error == Some(
                                MachineError::InputExhausted,
                            ));
                        } else {
                            assert(step_out_of_range(pre));
                            assert(e == MachineError::OutOfRange);
                            assert(spec_run(pre, pre_in, left).error == Some(
                                MachineError::OutOfRange,
                            ));
                        }
                        assert(spec_run(pre, pre_in, left).machine == pre);
                        assert(spec_run(pre, pre_in, left).input == pre_in);
                        assert(spec_run(pre, pre_in, left).emitted =~= Seq::<u16>::empty());
                        assert(total.emitted =~= emitted_so_far);
                    }
                    return Err(e);
                },
            }
            proof {
                let one = spec_step(pre, pre_in);
                assert(spec_run(pre, pre_in, left) == RunOutcome {
                    machine: spec_run(one.machine, one.input, (left - 1) as nat).machine,
                    input: spec_run(one.machine, one.input, (left - 1) as nat).input,
                    emitted: one.emitted + spec_run(one.machine, one.input, (left - 1) as nat).emitted,
                    steps: spec_run(one.machine, one.input, (left - 1) as nat).steps + 1,
                    error: spec_run(one.machine, one.input, (left - 1) as nat).error,
                });
                assert(total.emitted =~= (emitted_so_far + one.emitted) + spec_run(
                    one.machine,
                    one.input,
                    (left - 1) as nat,
                ).emitted);
                assert(env@.output =~= out0 + (emitted_so_far + one.emitted));
                if one.emitted.len() == 0 {
                    assert(emitted_so_far + one.emitted =~= emitted_so_far);
                } else {
                    assert(one.emitted =~= Seq::empty().push(one.emitted[0]));
                    assert(emitted_so_far + one.emitted =~= emitted_so_far.push(one.emitted[0]));
                    lemma_output_dump_folded_push(outdump0, emitted_so_far, one.emitted[0]);
                }
                emitted_so_far = emitted_so_far + one.emitted;
            }
            steps = steps + 1;
        }
        proof {
            let left = (max_steps - steps) as nat;
            assert(spec_run(self@, env@.input, left).machine == self@);
            assert(spec_run(self@, env@.input, left).emitted =~= Seq::<u16>::empty());
            assert(total.emitted =~= emitted_so_far);
            if steps < max_steps {
                assert(!self@.running);
            }
        }
        Ok(steps)
    }

    /// Arms the machine — program counter 0x10, running flag raised — and
    /// drives steps to completion. The step budget is the largest a `u64`
    /// holds; a program that halts within it leaves the machine with the
    /// running flag down, and one that trips a failing step surfaces that
    /// step's error with the machine as the preceding step left it.
    pub fn run(&mut self, env: &mut ExternalEnv) -> (r: Result<(), MachineError>)
        requires
            old(self).wf(),
        ensures
            final(self).wf(),
            ({
                let armed = ToyState { pc: 0x10, running: true, ..old(self)@ };
                let outcome = spec_run(armed, old(env)@.input, u64::MAX as nat);
                &&& final(self)@ == outcome.machine
                &&& final(env)@.input == outcome.input
                &&& final(env)@.output == old(env)@.output + outcome.emitted
                &&& final(env)@.input_dump == old(env)@.input_dump
                &&& final(env)@.output_dump == output_dump_folded(
                    old(env)@.output_dump,
                    outcome.emitted,
                )
                &&& (match r {
                    Ok(()) => outcome.error is None,
                    Err(e) => outcome.error == Some(e),
                })
                &&& (r is Ok && outcome.steps < u64::MAX as nat ==> !final(self)@.running)
            }),
    {
        self.set_program_counter(0x10);
        self.set_running();
        match self.run_steps(env, u64::MAX) {
            Ok(_) => Ok(()),
            Err(e) => Err(e),
        }
    }
}

/// Register 0 reads zero after every executed instruction other than
/// Halt, whatever the instruction and whatever the state it ran against.
pub proof fn lemma_register_zero_stays_zero(pre: ToyState, ins: Instruction)
    requires
        pre.wf(),
        ins.wf(),
        ins.op != OpCode::Halt,
    ensures
        spec_execute(pre, ins).regs[0] == 0,
{
}

/// A committed step that neither branches nor jumps leaves the program
/// counter at its old value plus one, modulo 256. That covers every
/// instruction outside the four control-flow opcodes, and also a branch
/// whose condition does not hold.
pub proof fn lemma_pc_advances_by_one(m: ToyState, input: Seq<u16>)
    requires
        m.wf(),
        m.running,
        step_commits(m, input),
        fetched(m).op != OpCode::JumpRegister,
        fetched(m).op != OpCode::JumpAndLink,
        fetched(m).op == OpCode::BranchZero ==> m.regs[fetched(m).d as int] != 0,
        fetched(m).op == OpCode::BranchPositive ==> m.regs[fetched(m).d as int] == 0,
    ensures
        spec_step(m, input).machine.pc == pc_next(m.pc),
{
}

/// A read trap pulls exactly the head of the input stream, before the
/// destination register is assigned: the step commits, consumes that one
/// word, leaves it in memory cell 0xFF, and — unless the destination is
/// register 0, which normalization forces back to zero — assigns that
/// same word to the destination register.
pub proof fn lemma_read_trap_delivers_input(m: ToyState, input: Seq<u16>)
    requires
        m.wf(),
        m.running,
        read_traps(fetched(m), m.regs),
        input.len() > 0,
    ensures
        step_commits(m, input),
        spec_step(m, input).input == input.skip(1),
        spec_step(m, input).machine.mem[0xFF] == input[0],
        fetched(m).d != 0 ==> spec_step(m, input).machine.regs[fetched(m).d as int] == input[0],
{
    crate::instruction::lemma_decode_wf(m.mem[m.pc as int]);
}

/// A committed step appends to the output stream exactly when its
/// instruction trips a write trap and continues running, and what it
/// appends is the very word the instruction wrote to memory cell 0xFF:
/// the pre-execution value of its `d` register.
pub proof fn lemma_write_trap_emits_written_word(m: ToyState, input: Seq<u16>)
    requires
        m.wf(),
        m.running,
        step_commits(m, input),
    ensures
        write_traps(fetched(m), m.regs) && fetched(m).op != OpCode::Halt ==> spec_step(
            m,
            input,
        ).emitted == seq![m.regs[fetched(m).d as int]],
        !(write_traps(fetched(m), m.regs) && fetched(m).op != OpCode::Halt) ==> spec_step(
            m,
            input,
        ).emitted == Seq::<u16>::empty(),
{
    crate::instruction::lemma_decode_wf(m.mem[m.pc as int]);
}

/// A Halt step stops the machine and changes nothing else: the registers,
/// the memory and both streams stay exactly as the step before it left
/// them; only the program counter moves on by one in fetch order and the
/// running flag falls.
pub proof fn lemma_halt_step_stops_machine(m: ToyState, input: Seq<u16>)
    requires
        m.wf(),
        m.running,
        fetched(m).op == OpCode::Halt,
    ensures
        step_commits(m, input),
        spec_step(m, input).machine.running == false,
        spec_step(m, input).machine.regs == m.regs,
        spec_step(m, input).machine.mem == m.mem,
        spec_step(m, input).machine.pc == pc_next(m.pc),
        spec_step(m, input).input == input,
        spec_step(m, input).emitted == Seq::<u16>::empty(),
{
}

/// Folding one more emitted word into the output summary is the same as
/// appending its entry after folding the words before it.
proof fn lemma_output_dump_folded_push(prev: Seq<char>, ws: Seq<u16>, w: u16)
    ensures
        output_dump_folded(prev, ws.push(w)) == output_dump_appended(
            output_dump_folded(prev, ws),
            w,
        ),
    decreases ws.len(),
{
    if ws.len() == 0 {
        assert(ws.push(w)[0] == w);
        assert(ws.push(w).skip(1) =~= Seq::<u16>::empty());
        assert(output_dump_folded(prev, ws.push(w)) == output_dump_folded(
            output_dump_appended(prev, w),
            Seq::<u16>::empty(),
        ));
        assert(output_dump_folded(prev, ws) == prev);
    } else {
        assert(ws.push(w)[0] == ws[0]);
        assert(ws.push(w).skip(1) =~= ws.skip(1).push(w));
        assert(output_dump_folded(prev, ws.push(w)) == output_dump_folded(
            output_dump_appended(prev, ws[0]),
            ws.skip(1).push(w),
        ));
        lemma_output_dump_folded_push(output_dump_appended(prev, ws[0]), ws.skip(1), w);
        assert(output_dump_folded(prev, ws) == output_dump_folded(
            output_dump_appended(prev, ws[0]),
            ws.skip(1),
        ));
    }
}

} // verus!

