//! The five-stage interpreter: fetch, decode, operand fetch, execute and
//! write-back each take one clock tick, and the machine's [`State`] names
//! the stage that runs next, carrying the instruction it works on.

use vstd::prelude::*;
use crate::interp::{
    alu_kind_by_code, RAW_INSTRUCTION_SIZE, ALUInstructionKind, Address, Instruction, InstructionCode,
    JumpInstructionKind, jump_kind_by_code, make_alu_spec, make_jump_spec, make_memory_spec,
    MemoryInstructionKind, memory_kind_by_code, RawInstruction, Register, Word,
};
use crate::interp_alu::{alu_eval, alu_eval_ok, Printer, StdPrinter, ALU};
use crate::interp_memory::Memory;
use crate::interp_registers::{all_zero_words, Registers};
use crate::interp_state::State;
use crate::program::{ActualProgram, Program};

verus! {

#[derive(Copy, Clone)]
pub struct ProgramCounter(pub Address);

impl ProgramCounter {
    /// Moves the counter past one raw instruction.
    pub fn increment_once(self) -> (r: Self)
        requires
            self.0.0 + 6 <= i32::MAX,
        ensures
            r.0.0 == self.0.0 + 6,
    {
        ProgramCounter(Address(self.0.0 + RAW_INSTRUCTION_SIZE as i32))
    }
}

impl Default for ProgramCounter {
    fn default() -> (r: Self)
        ensures
            r.0.0 == 0,
    {
        ProgramCounter(Address::new(0))
    }
}

/// Six zero bytes mark the end of the program.
pub open spec fn bytes_terminating(bytes: Seq<u8>) -> bool {
    forall|i: int| 0 <= i < 6 ==> bytes[i] == 0
}

/// What a raw instruction decodes to: its first byte picks the instruction
/// family, the remainder carries the operands.  `None` is an unknown code.
pub open spec fn decode_inner_spec(code: u8, raw: RawInstruction) -> Option<Instruction> {
    let remainder = raw.data@.subrange(1, 6);
    if alu_kind_by_code(code) is Some {
        Some(make_alu_spec(alu_kind_by_code(code).unwrap(), remainder))
    } else if jump_kind_by_code(code) is Some {
        Some(make_jump_spec(jump_kind_by_code(code).unwrap(), remainder))
    } else if memory_kind_by_code(code) is Some {
        Some(make_memory_spec(memory_kind_by_code(code).unwrap(), remainder))
    } else {
        None
    }
}

/// The state after the decode stage: on to operand fetch, or terminated on
/// an unknown instruction code.
pub open spec fn decode_spec(raw: RawInstruction) -> State {
    match decode_inner_spec(raw.data@[0], raw) {
        Some(decoded) => State::OperandsFetch(decoded),
        None => State::Terminated,
    }
}

/// Every register field of an instruction names one of the 32 registers.
pub open spec fn instr_regs_ok(i: Instruction) -> bool {
    match i {
        Instruction::ALUInstruction { res, lhs, rhs, .. } => res.0 < 32 && lhs.0 < 32 && rhs.0
            < 32,
        Instruction::JumpInstruction { reg, .. } => reg.0 < 32,
        Instruction::MemoryInstruction { reg, .. } => reg.0 < 32,
    }
}

/// The register bank after the operand-fetch stage: ALU operands move to
/// the conventional slots; jumps latch their condition and the saved PC;
/// stores stage the value to write.
pub open spec fn operands_regs(pc: ProgramCounter, regs: Seq<Word>, i: Instruction) -> Seq<Word> {
    match i {
        Instruction::ALUInstruction { lhs, rhs, .. } => {
            let r1 = regs.update(1, regs[lhs.0 as int]);
            r1.update(2, r1[rhs.0 as int])
        },
        Instruction::JumpInstruction { kind, reg, .. } => {
            let flag = match kind {
                JumpInstructionKind::JUMP => Word(1),
                JumpInstructionKind::CJUMP => regs[reg.0 as int],
            };
            regs.update(1, flag).update(2, Word(pc.0.0))
        },
        Instruction::MemoryInstruction { kind, reg, .. } => {
            if kind == MemoryInstructionKind::Store {
                regs.update(1, regs[reg.0 as int])
            } else {
                regs
            }
        },
    }
}

/// Where a jump goes in the execute stage: an unconditional jump or a taken
/// conditional jump to its address, an untaken one back to the saved PC;
/// any other condition word is a defect (`None`), and the machine stops.
pub open spec fn exec_jump_target(
    regs: Seq<Word>,
    kind: JumpInstructionKind,
    reg: Register,
    addr: Address,
) -> Option<Word> {
    match kind {
        JumpInstructionKind::JUMP => Some(Word(addr.0)),
        JumpInstructionKind::CJUMP => if regs[reg.0 as int].0 == 0 {
            Some(Word(addr.0))
        } else if regs[reg.0 as int].0 == 1 {
            Some(regs[2])
        } else {
            None
        },
    }
}

/// The register bank after write-back: the ALU result or the loaded word
/// moves to its destination register; jumps write the PC instead.
pub open spec fn write_result_regs(regs: Seq<Word>, i: Instruction) -> Seq<Word> {
    match i {
        Instruction::ALUInstruction { res, .. } => regs.update(res.0 as int, regs[1]),
        Instruction::JumpInstruction { .. } => regs,
        Instruction::MemoryInstruction { kind, reg, .. } => {
            if kind == MemoryInstructionKind::Store {
                regs
            } else {
                regs.update(reg.0 as int, regs[1])
            }
        },
    }
}

pub open spec fn write_result_pc(pc: ProgramCounter, regs: Seq<Word>, i: Instruction) -> ProgramCounter {
    match i {
        Instruction::JumpInstruction { .. } => ProgramCounter(Address(regs[1].0)),
        _ => pc,
    }
}

pub struct Machine<P: Program = ActualProgram, Prntr: Printer + Default = StdPrinter> {
    pub pc: ProgramCounter,
    pub program: P,
    pub memory: Memory,
    pub registers: Registers,
    pub state: State,
    pub alu: ALU<Prntr>,
    /// Diagnostic only: how many ticks have run.
    pub clock_cycles: i32,
}

impl<P: Program, Prntr: Printer + Default> Machine<P, Prntr> {
    /// The stage about to run can complete without a fatal condition: the
    /// fetch stays inside the program, every register field is in range,
    /// the ALU operation is defined on its operands, and a constant load
    /// stays inside the pool.
    pub open spec fn clock_ok(&self) -> bool {
        &&& self.registers.wf()
        &&& self.clock_cycles < i32::MAX
        &&& match self.state {
            State::InstructionFetch => self.program.can_fetch_instruction(self.pc.0) && self.pc.0.0
                + 6 <= i32::MAX,
            State::InstructionDecode(_) => true,
            State::OperandsFetch(i) => instr_regs_ok(i),
            State::InstructionExecution(i) => instr_regs_ok(i) && (match i {
                Instruction::ALUInstruction { kind, .. } => alu_eval_ok(
                    kind,
                    self.registers.words@[1].0,
                    self.registers.words@[2].0,
                ),
                Instruction::MemoryInstruction { kind, reference, .. } => (reference matches
                    crate::interp::Reference::AddressReference(a) ==> (kind
                    == MemoryInstructionKind::LoadConst ==> self.program.can_fetch_constant(a))),
                Instruction::JumpInstruction { .. } => true,
            }),
            State::ResultWrite(i) => instr_regs_ok(i),
            State::Terminated => false,
        }
    }

    pub fn new(program: P) -> (r: Self)
        ensures
            r.pc.0.0 == 0,
            r.program == program,
            r.memory.data_cells@ == Map::<usize, Word>::empty(),
            r.registers.wf(),
            all_zero_words(r.registers.words@),
            r.state == State::InstructionFetch,
            r.alu.printed@ == Seq::<i32>::empty(),
            r.clock_cycles == 0,
    {
        Machine {
            pc: ProgramCounter::default(),
            memory: Memory::default(),
            program,
            registers: Registers::default(),
            state: State::InstructionFetch,
            alu: ALU::default(),
            clock_cycles: 0,
        }
    }

    pub fn alu_printer(&self) -> (r: &Prntr)
        ensures
            *r == self.alu.printer,
    {
        self.alu.printer()
    }

    /// Runs exactly one pipeline stage and reports whether the machine is
    /// still running (`false` once terminated).  Each stage's effect on the
    /// registers, the memory, the PC and the next state is pinned by the
    /// case for the state the tick started in.
    pub fn clock(&mut self) -> (r: bool)
        requires
            old(self).clock_ok(),
        ensures
            r == !(final(self).state is Terminated),
            final(self).clock_cycles == old(self).clock_cycles + 1,
            final(self).program == old(self).program,
            final(self).registers.wf(),
            final(self).alu.printed@ == (match old(self).state {
                State::InstructionExecution(i) => match i {
                    Instruction::ALUInstruction { kind, .. } => if kind
                        == ALUInstructionKind::PRINT {
                        old(self).alu.printed@.push(old(self).registers.words@[1].0)
                    } else {
                        old(self).alu.printed@
                    },
                    _ => old(self).alu.printed@,
                },
                _ => old(self).alu.printed@,
            }),
            (match old(self).state {
                State::InstructionFetch => {
                    let bytes = old(self).program.instruction_bytes_at(old(self).pc.0);
                    &&& final(self).registers == old(self).registers
                    &&& final(self).memory.data_cells@ == old(self).memory.data_cells@
                    &&& if bytes_terminating(bytes) {
                        final(self).state == State::Terminated && final(self).pc.0 == old(self).pc.0
                    } else {
                        (final(self).state matches State::InstructionDecode(raw) && raw.data@
                            == bytes) && final(self).pc.0.0 == old(self).pc.0.0 + 6
                    }
                },
                State::InstructionDecode(raw) => {
                    &&& final(self).state == decode_spec(raw)
                    &&& final(self).registers == old(self).registers
                    &&& final(self).memory.data_cells@ == old(self).memory.data_cells@
                    &&& final(self).pc.0 == old(self).pc.0
                },
                State::OperandsFetch(i) => {
                    &&& final(self).state == State::InstructionExecution(i)
                    &&& final(self).registers.words@ == operands_regs(
                        old(self).pc,
                        old(self).registers.words@,
                        i,
                    )
                    &&& final(self).memory.data_cells@ == old(self).memory.data_cells@
                    &&& final(self).pc.0 == old(self).pc.0
                },
                State::InstructionExecution(i) => {
                    &&& final(self).pc.0 == old(self).pc.0
                    &&& match i {
                        Instruction::ALUInstruction { kind, .. } => {
                            &&& final(self).state == State::ResultWrite(i)
                            &&& final(self).registers.words@ == old(self).registers.words@.update(
                                1,
                                Word(
                                    alu_eval(
                                        kind,
                                        old(self).registers.words@[1].0,
                                        old(self).registers.words@[2].0,
                                    ),
                                ),
                            )
                            &&& final(self).memory.data_cells@ == old(self).memory.data_cells@
                        },
                        Instruction::JumpInstruction { kind, reg, addr } => {
                            &&& final(self).memory.data_cells@ == old(self).memory.data_cells@
                            &&& match exec_jump_target(
                                old(self).registers.words@,
                                kind,
                                reg,
                                addr,
                            ) {
                                Some(target) => final(self).state == State::ResultWrite(i) && final(self).registers.words@ == old(self).registers.words@.update(1, target),
                                None => final(self).state == State::Terminated && final(self).registers.words@ == old(self).registers.words@,
                            }
                        },
                        Instruction::MemoryInstruction { kind, reference, .. } => {
                            match (kind, reference) {
                                (
                                    MemoryInstructionKind::Store,
                                    crate::interp::Reference::StackReference(cell),
                                ) => {
                                    &&& final(self).state == State::ResultWrite(i)
                                    &&& final(self).memory.data_cells@ == old(self).memory.data_cells@.insert(
                                        cell,
                                        old(self).registers.words@[1],
                                    )
                                    &&& final(self).registers.words@ == old(self).registers.words@
                                },
                                (
                                    MemoryInstructionKind::LoadStack,
                                    crate::interp::Reference::StackReference(cell),
                                ) => {
                                    &&& final(self).memory.data_cells@ == old(self).memory.data_cells@
                                    &&& if old(self).memory.data_cells@.contains_key(cell) {
                                        final(self).state == State::ResultWrite(i) && final(self).registers.words@ == old(self).registers.words@.update(
                                            1,
                                            old(self).memory.data_cells@[cell],
                                        )
                                    } else {
                                        final(self).state == State::Terminated && final(self).registers.words@ == old(self).registers.words@
                                    }
                                },
                                (
                                    MemoryInstructionKind::LoadConst,
                                    crate::interp::Reference::AddressReference(address),
                                ) => {
                                    &&& final(self).state == State::ResultWrite(i)
                                    &&& final(self).memory.data_cells@ == old(self).memory.data_cells@
                                    &&& final(self).registers.words@ == old(self).registers.words@.update(
                                        1,
                                        old(self).program.constant_at(address),
                                    )
                                },
                                _ => {
                                    &&& final(self).state == State::Terminated
                                    &&& final(self).memory.data_cells@ == old(self).memory.data_cells@
                                    &&& final(self).registers.words@ == old(self).registers.words@
                                },
                            }
                        },
                    }
                },
                State::ResultWrite(i) => {
                    &&& final(self).state == State::InstructionFetch
                    &&& final(self).registers.words@ == write_result_regs(
                        old(self).registers.words@,
                        i,
                    )
                    &&& final(self).pc == write_result_pc(old(self).pc, old(self).registers.words@, i)
                    &&& final(self).memory.data_cells@ == old(self).memory.data_cells@
                },
                State::Terminated => false,
            }),
    {
        let st = self.state;
        let next = match st {
            State::InstructionFetch => self.fetch_raw_instruction(),
            State::InstructionDecode(raw_instruction) => Self::decode_instruction(
                &raw_instruction,
            ),
            State::OperandsFetch(instruction) => Self::fetch_operands(
                &self.pc,
                &mut self.registers,
                &instruction,
            ),
            State::InstructionExecution(instruction) => Self::execute_instruction(
                &mut self.alu,
                &mut self.memory,
                &mut self.registers,
                &self.program,
                &instruction,
            ),
            State::ResultWrite(instruction) => Self::write_result(
                &mut self.pc,
                &mut self.registers,
                &instruction,
            ),
            State::Terminated => {
                proof {
                    assert(false);
                }
                State::Terminated
            },
        };
        self.state = next;
        self.clock_cycles = self.clock_cycles + 1;
        !(matches!(self.state, State::Terminated))
    }

    /// Fetch stage: reads the raw instruction at the PC; six zero bytes end
    /// the run, anything else moves the PC past the instruction and hands
    /// it to decode.
    pub fn fetch_raw_instruction(&mut self) -> (r: State)
        requires
            old(self).program.can_fetch_instruction(old(self).pc.0),
            old(self).pc.0.0 + 6 <= i32::MAX,
        ensures
            final(self).program == old(self).program,
            final(self).registers == old(self).registers,
            final(self).memory == old(self).memory,
            final(self).alu == old(self).alu,
            final(self).state == old(self).state,
            final(self).clock_cycles == old(self).clock_cycles,
            ({
                let bytes = old(self).program.instruction_bytes_at(old(self).pc.0);
                if bytes_terminating(bytes) {
                    r == State::Terminated && final(self).pc.0 == old(self).pc.0
                } else {
                    (r matches State::InstructionDecode(raw) && raw.data@ == bytes) && final(self).pc.0.0 == old(self).pc.0.0 + 6
                }
            }),
    {
        let raw_instruction = self.program.fetch_raw_instruction(self.pc.0);
        if raw_instruction.is_terminating() {
            State::Terminated
        } else {
            self.pc = self.pc.increment_once();
            State::InstructionDecode(raw_instruction)
        }
    }

    pub fn decode_instruction_open(raw_instruction: &RawInstruction) -> (r: State)
        ensures
            r == decode_spec(*raw_instruction),
    {
        Self::decode_instruction(raw_instruction)
    }

    fn decode_instruction(raw_instruction: &RawInstruction) -> (r: State)
        ensures
            r == decode_spec(*raw_instruction),
    {
        let instruction_code = raw_instruction.instruction_code();
        if let Some(decoded) = Self::decode_instruction_inner(instruction_code, raw_instruction) {
            State::OperandsFetch(decoded)
        } else {
            // An unknown instruction code stops the run.
            State::Terminated
        }
    }

    pub fn decode_instruction_inner(
        instruction_code: InstructionCode,
        raw_instruction: &RawInstruction,
    ) -> (r: Option<Instruction>)
        ensures
            r == decode_inner_spec(instruction_code.0, *raw_instruction),
    {
        if let Some(kind) = ALUInstructionKind::by_code(instruction_code) {
            return Some(Instruction::make_alu(kind, raw_instruction.remainder()));
        }
        if let Some(kind) = JumpInstructionKind::by_code(instruction_code) {
            return Some(Instruction::make_jump(kind, raw_instruction.remainder()));
        }
        if let Some(kind) = MemoryInstructionKind::by_code(instruction_code) {
            return Some(Instruction::make_memory(kind, raw_instruction.remainder()));
        }
        None
    }

    /// Operand-fetch stage: stages the instruction's operands in the
    /// conventional registers.
    pub fn fetch_operands(
        pc: &ProgramCounter,
        registers: &mut Registers,
        instruction: &Instruction,
    ) -> (r: State)
        requires
            old(registers).wf(),
            instr_regs_ok(*instruction),
        ensures
            final(registers).wf(),
            final(registers).words@ == operands_regs(*pc, old(registers).words@, *instruction),
            r == State::InstructionExecution(*instruction),
    {
        match instruction {
            Instruction::ALUInstruction { lhs, rhs, .. } => {
                let a = registers.get(*lhs);
                registers.set(Registers::alu_lhs(), a);
                let b = registers.get(*rhs);
                registers.set(Registers::alu_rhs(), b);
            },
            Instruction::JumpInstruction { kind, reg, .. } => {
                match kind {
                    JumpInstructionKind::JUMP => registers.set(Registers::jump(), Word::new(1)),
                    JumpInstructionKind::CJUMP => {
                        let flag = registers.get(*reg);
                        registers.set(Registers::jump(), flag);
                    },
                }
                registers.set(Registers::pc(), Word::new(pc.0.0));
            },
            Instruction::MemoryInstruction { kind, reg, .. } => {
                if matches!(kind, MemoryInstructionKind::Store) {
                    let value = registers.get(*reg);
                    registers.set(Registers::mem(), value);
                }
            },
        }
        State::InstructionExecution(*instruction)
    }

    /// Execute stage: the ALU evaluates, a jump resolves its target, a
    /// memory instruction touches the data cells or the constant pool.
    pub fn execute_instruction(
        alu: &mut ALU<Prntr>,
        memory: &mut Memory,
        registers: &mut Registers,
        program: &P,
        instruction: &Instruction,
    ) -> (r: State)
        requires
            old(registers).wf(),
            instr_regs_ok(*instruction),
            (match *instruction {
                Instruction::ALUInstruction { kind, .. } => alu_eval_ok(
                    kind,
                    old(registers).words@[1].0,
                    old(registers).words@[2].0,
                ),
                Instruction::MemoryInstruction { kind, reference, .. } => (reference matches
                    crate::interp::Reference::AddressReference(a) ==> (kind
                    == MemoryInstructionKind::LoadConst ==> program.can_fetch_constant(a))),
                Instruction::JumpInstruction { .. } => true,
            }),
        ensures
            final(registers).wf(),
            final(alu).printed@ == (match *instruction {
                Instruction::ALUInstruction { kind, .. } => if kind == ALUInstructionKind::PRINT {
                    old(alu).printed@.push(old(registers).words@[1].0)
                } else {
                    old(alu).printed@
                },
                _ => old(alu).printed@,
            }),
            (match *instruction {
                Instruction::ALUInstruction { kind, .. } => {
                    &&& r == State::ResultWrite(*instruction)
                    &&& final(registers).words@ == old(registers).words@.update(
                        1,
                        Word(
                            alu_eval(
                                kind,
                                old(registers).words@[1].0,
                                old(registers).words@[2].0,
                            ),
                        ),
                    )
                    &&& final(memory).data_cells@ == old(memory).data_cells@
                },
                Instruction::JumpInstruction { kind, reg, addr } => {
                    &&& final(memory).data_cells@ == old(memory).data_cells@
                    &&& match exec_jump_target(old(registers).words@, kind, reg, addr) {
                        Some(target) => r == State::ResultWrite(*instruction) && final(registers).words@ == old(registers).words@.update(1, target),
                        None => r == State::Terminated && final(registers).words@ == old(registers).words@,
                    }
                },
                Instruction::MemoryInstruction { kind, reference, .. } => {
                    match (kind, reference) {
                        (
                            MemoryInstructionKind::Store,
                            crate::interp::Reference::StackReference(cell),
                        ) => {
                            &&& r == State::ResultWrite(*instruction)
                            &&& final(memory).data_cells@ == old(memory).data_cells@.insert(
                                cell,
                                old(registers).words@[1],
                            )
                            &&& final(registers).words@ == old(registers).words@
                        },
                        (
                            MemoryInstructionKind::LoadStack,
                            crate::interp::Reference::StackReference(cell),
                        ) => {
                            &&& final(memory).data_cells@ == old(memory).data_cells@
                            &&& if old(memory).data_cells@.contains_key(cell) {
                                r == State::ResultWrite(*instruction) && final(registers).words@
                                    == old(registers).words@.update(
                                    1,
                                    old(memory).data_cells@[cell],
                                )
                            } else {
                                r == State::Terminated && final(registers).words@ == old(registers).words@
                            }
                        },
                        (
                            MemoryInstructionKind::LoadConst,
                            crate::interp::Reference::AddressReference(address),
                        ) => {
                            &&& r == State::ResultWrite(*instruction)
                            &&& final(memory).data_cells@ == old(memory).data_cells@
                            &&& final(registers).words@ == old(registers).words@.update(
                                1,
                                program.constant_at(address),
                            )
                        },
                        _ => {
                            &&& r == State::Terminated
                            &&& final(memory).data_cells@ == old(memory).data_cells@
                            &&& final(registers).words@ == old(registers).words@
                        },
                    }
                },
            }),
    {
        match instruction {
            Instruction::ALUInstruction { kind, .. } => {
                alu.evaluate(registers, *kind);
                State::ResultWrite(*instruction)
            },
            Instruction::JumpInstruction { addr, reg, kind } => {
                let target: Word = match kind {
                    JumpInstructionKind::JUMP => Word::new(addr.0),
                    JumpInstructionKind::CJUMP => {
                        let flag = registers.get(*reg);
                        if flag.0 == 0 {
                            Word::new(addr.0)
                        } else if flag.0 == 1 {
                            registers.get(Registers::pc())
                        } else {
                            // A condition word other than 0 or 1 is a defect.
                            return State::Terminated;
                        }
                    },
                };
                registers.set(Registers::jump(), target);
                State::ResultWrite(*instruction)
            },
            Instruction::MemoryInstruction { kind, reference, .. } => {
                if let Some(state) = memory.evaluate(registers, program, *kind, *reference) {
                    state
                } else {
                    State::ResultWrite(*instruction)
                }
            },
        }
    }

    /// Write-back stage: moves the staged result to its destination, or the
    /// resolved jump target into the PC, and returns to fetch.
    pub fn write_result(
        pc: &mut ProgramCounter,
        registers: &mut Registers,
        instruction: &Instruction,
    ) -> (r: State)
        requires
            old(registers).wf(),
            instr_regs_ok(*instruction),
        ensures
            final(registers).wf(),
            final(registers).words@ == write_result_regs(old(registers).words@, *instruction),
            *final(pc) == write_result_pc(*old(pc), old(registers).words@, *instruction),
            r == State::InstructionFetch,
    {
        match instruction {
            Instruction::ALUInstruction { res, .. } => {
                let value = registers.get(Registers::alu_res());
                registers.set(*res, value);
            },
            Instruction::JumpInstruction { .. } => {
                let target = registers.get(Registers::jump());
                pc.0 = Address(target.0);
            },
            Instruction::MemoryInstruction { reg, kind, .. } => {
                if !matches!(kind, MemoryInstructionKind::Store) {
                    let value = registers.get(Registers::mem());
                    registers.set(*reg, value);
                }
            },
        }
        State::InstructionFetch
    }
}

} // verus!
