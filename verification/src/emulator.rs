//! The datapath driver: owns the memory, the register file, the ALU and the
//! control FSM, and advances the whole machine by exactly one micro-step per
//! `clock` call.
//!
//! The behaviour of one tick is captured by the specification function
//! [`step`]: `clock` is proved to turn the machine's abstract state
//! `self@` into `step(self@)`.  The debug print pseudo-instruction appends
//! the printed word to the `output` buffer instead of writing to a device,
//! so the whole cycle stays a pure state transformation.

use vstd::prelude::*;
use crate::alu::{alu_result, valid_funct, ALU};
use crate::fsm::{decision_of, next_state, valid_opcode, FSM, FSMDecision, FSMState};
use crate::memory::{pad_to_memory_size, word_at, write_word_seq, Memory, MEMORY_SIZE};
use crate::registers::Registers;

verus! {

/// Opcode field, bits 31 to 26.
pub open spec fn instr_opcode(i: u32) -> u8 {
    ((i >> 26) & 0x3f) as u8
}

/// Function code field, bits 5 to 0.
pub open spec fn instr_funct(i: u32) -> u8 {
    (i & 0x3f) as u8
}

/// Source register field, bits 25 to 21.
pub open spec fn instr_rs(i: u32) -> u32 {
    (i >> 21) & 0x1f
}

/// Target register field, bits 20 to 16.
pub open spec fn instr_rt(i: u32) -> u32 {
    (i >> 16) & 0x1f
}

/// Destination register field, bits 15 to 11.
pub open spec fn instr_rd(i: u32) -> u32 {
    (i >> 11) & 0x1f
}

/// The abstract state of the whole datapath: the instruction stream, the
/// program counter, data memory with its reset snapshot, the ALU zero flag,
/// the register file, the FSM state with its latched opcode and function
/// code, the micro-architectural latches, and everything printed so far.
#[verifier::ext_equal]
pub ghost struct EmuView {
    pub commands: Seq<u8>,
    pub pc: usize,
    pub mem: Seq<u8>,
    pub init_mem: Seq<u8>,
    pub zero_flag: bool,
    pub regs: Seq<i32>,
    pub state: FSMState,
    pub opcode: u8,
    pub funct: u8,
    pub instr: u32,
    pub alu_output: i32,
    pub data: i32,
    pub operand_a: i32,
    pub operand_b: i32,
    pub output: Seq<i32>,
}

pub open spec fn emu_wf(s: EmuView) -> bool {
    &&& s.mem.len() == MEMORY_SIZE
    &&& s.init_mem.len() == MEMORY_SIZE
    &&& s.regs.len() == 32
    &&& s.regs[0] == 0
}

/// The word the memory stage hands back this cycle: an instruction-stream
/// word at the PC (zero past the end of the stream), or a data word at the
/// latched ALU output.
pub open spec fn read_of(s: EmuView, d: FSMDecision, mem1: Seq<u8>) -> i32 {
    if !d.iord {
        if s.pc >= s.commands.len() {
            0
        } else {
            word_at(s.commands, s.pc as int)
        }
    } else {
        word_at(mem1, s.alu_output as int)
    }
}

/// One full clock cycle of the datapath, as a pure function of the abstract
/// machine state.  It follows the ten-phase order of the hardware: decision
/// and FSM transition, memory write, memory read, instruction latch with
/// the print escape, register write-back, ALU evaluation, PC update, and
/// latching of the ALU output and memory data.
pub open spec fn step(s: EmuView) -> EmuView {
    let d = decision_of(s.state, s.opcode, s.funct);
    let mem1 = if d.mem_write && d.iord {
        write_word_seq(s.mem, s.alu_output as int, s.operand_b)
    } else {
        s.mem
    };
    let read = read_of(s, d, mem1);
    let instr1 = if d.ir_write {
        read as u32
    } else {
        s.instr
    };
    let op1 = if d.ir_write {
        instr_opcode(instr1)
    } else {
        s.opcode
    };
    let f1 = if d.ir_write {
        instr_funct(instr1)
    } else {
        s.funct
    };
    let oa1 = if d.ir_write {
        s.regs[instr_rs(instr1) as int]
    } else {
        s.operand_a
    };
    let ob1 = if d.ir_write {
        s.regs[instr_rt(instr1) as int]
    } else {
        s.operand_b
    };
    let print_fired = d.ir_write && op1 == 0 && f1 == 0;
    let output1 = if print_fired {
        s.output.push(oa1)
    } else {
        s.output
    };
    let state1 = if print_fired {
        FSMState::Fetch
    } else {
        next_state(s.state, s.opcode)
    };
    let regs1 = if d.reg_write {
        s.regs.update(
            (if d.reg_dst {
                instr_rd(instr1)
            } else {
                instr_rt(instr1)
            }) as int,
            if d.mem_to_reg {
                s.data
            } else {
                s.alu_output
            },
        )
    } else {
        s.regs
    };
    let alu_lhs = if d.alu_src_a_reg {
        oa1
    } else {
        s.pc as i32
    };
    let alu_rhs = if d.alu_source_b == 0 {
        ob1
    } else if d.alu_source_b == 1 {
        4i32
    } else if d.alu_source_b == 2 {
        (instr1 as i32) & 0xff
    } else {
        ((instr1 as i32) & 0xff) << 2
    };
    let result = alu_result(alu_lhs, alu_rhs, d.alu_control);
    let zero1 = result == 0;
    let pc_en = (d.branch && (zero1 != d.negate_zero)) || d.pc_write;
    let pc1 = if pc_en {
        if d.pc_source == 0 {
            result as usize
        } else if d.pc_source == 1 {
            s.alu_output as usize
        } else {
            ((s.pc >> 28) << 28) | ((s.instr as usize & 0x3ffffff) << 2)
        }
    } else {
        s.pc
    };
    EmuView {
        commands: s.commands,
        pc: pc1,
        mem: mem1,
        init_mem: s.init_mem,
        zero_flag: zero1,
        regs: regs1,
        state: state1,
        opcode: op1,
        funct: f1,
        instr: instr1,
        alu_output: result,
        data: read,
        operand_a: oa1,
        operand_b: ob1,
        output: output1,
    }
}

/// The conditions under which one clock cycle runs into no fatal condition:
/// the decoder sees only implemented opcodes and function codes, memory and
/// register accesses stay in range, and the PC arithmetic stays inside a
/// word.  A malformed program image violates one of these, and execution
/// must stop rather than guess.
pub open spec fn step_ok(s: EmuView) -> bool {
    let d = decision_of(s.state, s.opcode, s.funct);
    let oa1 = if d.ir_write {
        s.regs[instr_rs(read_of(s, d, s.mem) as u32) as int]
    } else {
        s.operand_a
    };
    let alu_lhs = if d.alu_src_a_reg {
        oa1
    } else {
        s.pc as i32
    };
    let instr1 = if d.ir_write {
        read_of(s, d, s.mem) as u32
    } else {
        s.instr
    };
    let alu_rhs = if d.alu_source_b == 0 {
        (if d.ir_write {
            s.regs[instr_rt(instr1) as int]
        } else {
            s.operand_b
        })
    } else if d.alu_source_b == 1 {
        4i32
    } else if d.alu_source_b == 2 {
        (instr1 as i32) & 0xff
    } else {
        ((instr1 as i32) & 0xff) << 2
    };
    let result = alu_result(alu_lhs, alu_rhs, d.alu_control);
    let pc_en = (d.branch && ((result == 0) != d.negate_zero)) || d.pc_write;
    &&& emu_wf(s)
    &&& s.pc + 4 <= 0x7fff_ffff
    &&& (s.state == FSMState::Decode ==> valid_opcode(s.opcode))
    &&& valid_funct(d.alu_control)
    &&& (d.iord ==> 0 <= s.alu_output && s.alu_output + 4 <= MEMORY_SIZE)
    &&& (!d.iord ==> (if s.state == FSMState::Fetch {
        s.pc + 4 <= s.commands.len()
    } else {
        s.pc >= s.commands.len() || s.pc + 4 <= s.commands.len()
    }))
    &&& (d.reg_write ==> (if d.reg_dst {
        instr_rd(s.instr)
    } else {
        instr_rt(s.instr)
    }) != 0)
    &&& (pc_en && d.pc_source == 0 ==> result >= 0)
    &&& (pc_en && d.pc_source == 1 ==> s.alu_output >= 0)
}

/// True while the program is still running: it has terminated only once the
/// PC has moved past the end of the instruction stream *and* the FSM is back
/// in `Fetch`; the PC can transiently pass the end in the middle of an
/// instruction.
pub open spec fn running(s: EmuView) -> bool {
    !(s.pc >= s.commands.len() && s.state == FSMState::Fetch)
}

/// The abstract state of a freshly constructed emulator.
pub open spec fn fresh_view(commands: Seq<u8>, initial_memory: Seq<u8>) -> EmuView {
    EmuView {
        commands,
        pc: 0,
        mem: pad_to_memory_size(initial_memory),
        init_mem: pad_to_memory_size(initial_memory),
        zero_flag: false,
        regs: Seq::new(32, |i: int| 0i32),
        state: FSMState::Fetch,
        opcode: 0,
        funct: 0,
        instr: 0,
        alu_output: 0,
        data: 0,
        operand_a: 0,
        operand_b: 0,
        output: Seq::empty(),
    }
}

/// The abstract state after `reset`: PC, memory, registers, ALU and FSM go
/// back to their initial values; the micro-architectural latches and the
/// output so far are left as they are.
pub open spec fn reset_view(s: EmuView) -> EmuView {
    EmuView {
        commands: s.commands,
        pc: 0,
        mem: s.init_mem,
        init_mem: s.init_mem,
        zero_flag: false,
        regs: Seq::new(32, |i: int| 0i32),
        state: FSMState::Fetch,
        opcode: 0,
        funct: 0,
        instr: s.instr,
        alu_output: s.alu_output,
        data: s.data,
        operand_a: s.operand_a,
        operand_b: s.operand_b,
        output: s.output,
    }
}

#[derive(Copy, Clone)]
pub enum ReadMemoryFrom {
    Instruction(usize),
    Data(usize),
}

pub struct Emulator {
    pub commands: Vec<u8>,
    pub pc: usize,
    pub memory: Memory,
    pub alu: ALU,
    pub registers: Registers,
    pub fsm: FSM,
    pub current_instruction: u32,
    pub alu_output: i32,
    pub data: i32,
    pub operand_a: i32,
    pub operand_b: i32,
    pub output: Vec<i32>,
}

impl View for Emulator {
    type V = EmuView;

    open spec fn view(&self) -> EmuView {
        EmuView {
            commands: self.commands@,
            pc: self.pc,
            mem: self.memory.data@,
            init_mem: self.memory.initial_memory@,
            zero_flag: self.alu.zero_flag,
            regs: self.registers.data@,
            state: self.fsm.current_state,
            opcode: self.fsm.opcode,
            funct: self.fsm.funct,
            instr: self.current_instruction,
            alu_output: self.alu_output,
            data: self.data,
            operand_a: self.operand_a,
            operand_b: self.operand_b,
            output: self.output@,
        }
    }
}

/// The three register fields of an instruction word are five bits wide and
/// therefore always name one of the 32 registers.
proof fn lemma_register_fields_in_range(i: u32)
    by (bit_vector)
    ensures
        ((i >> 21) & 0x1f) < 32,
        ((i >> 16) & 0x1f) < 32,
        ((i >> 11) & 0x1f) < 32,
{
}

impl Emulator {
    pub fn new(commands: Vec<u8>, initial_memory: Vec<u8>) -> (r: Emulator)
        ensures
            r@ == fresh_view(commands@, initial_memory@),
            emu_wf(r@),
    {
        let ghost commands0 = commands@;
        let ghost initial0 = initial_memory@;
        let r = Emulator {
            memory: Memory::new(initial_memory),
            commands,
            pc: 0,
            alu: ALU::new(),
            registers: Registers::new(),
            fsm: FSM::new(),
            current_instruction: 0,
            alu_output: 0,
            data: 0,
            operand_a: 0,
            operand_b: 0,
            output: Vec::new(),
        };
        proof {
            assert(r@.regs =~= fresh_view(commands0, initial0).regs);
            assert(r@ =~= fresh_view(commands0, initial0));
        }
        r
    }

    /// Rewinds the machine to its initial state: PC to zero, memory to the
    /// construction snapshot, registers zeroed, zero flag cleared, FSM back
    /// in `Fetch`.
    pub fn reset(&mut self)
        requires
            emu_wf(old(self)@),
        ensures
            final(self)@ == reset_view(old(self)@),
            emu_wf(final(self)@),
    {
        self.pc = 0;
        self.memory.reset();
        self.registers.reset();
        self.alu.reset();
        self.fsm.reset();
        proof {
            assert(self@.regs =~= reset_view(old(self)@).regs);
            assert(self@ =~= reset_view(old(self)@));
        }
    }

    /// Executes exactly one FSM cycle and reports whether the program is
    /// still running: the result is `false` exactly once the PC has passed
    /// the end of the instruction stream with the FSM back in `Fetch`.
    pub fn clock(&mut self) -> (r: bool)
        requires
            step_ok(old(self)@),
        ensures
            final(self)@ == step(old(self)@),
            r == running(final(self)@),
            emu_wf(final(self)@),
    {
        let decision = self.fsm.get_decision();

        let address = if !decision.iord {
            ReadMemoryFrom::Instruction(self.pc)
        } else {
            ReadMemoryFrom::Data(self.alu_output as usize)
        };

        if decision.mem_write {
            match address {
                ReadMemoryFrom::Instruction(_) => {},
                ReadMemoryFrom::Data(address) => {
                    self.memory.set_word_at_position(address, self.operand_b)
                },
            }
        }

        let read = self.read(&address);

        if decision.ir_write {
            self.current_instruction = read as u32;
            self.fsm.set_instruction(
                ((self.current_instruction >> 26) & 0x3f) as u8,
                (self.current_instruction & 0x3f) as u8,
            );
            let rs = (self.current_instruction >> 21) & 0x1f;
            let rt = (self.current_instruction >> 16) & 0x1f;
            proof {
                lemma_register_fields_in_range(self.current_instruction);
            }
            self.operand_a = self.registers.get_value(rs as usize);
            self.operand_b = self.registers.get_value(rt as usize);
            if self.fsm.is_print() {
                self.output.push(self.operand_a);
                self.fsm.reset();
            }
        }

        if decision.reg_write {
            let data = if decision.mem_to_reg {
                self.data
            } else {
                self.alu_output
            };
            let res_reg = if decision.reg_dst {
                (self.current_instruction >> 11) & 0x1f
            } else {
                (self.current_instruction >> 16) & 0x1f
            };
            proof {
                lemma_register_fields_in_range(self.current_instruction);
            }
            self.registers.set_value(res_reg as usize, data);
        }

        let alu_lhs: i32 = if decision.alu_src_a_reg {
            self.operand_a
        } else {
            self.pc as i32
        };
        let alu_rhs: i32 = if decision.alu_source_b == 0 {
            self.operand_b
        } else if decision.alu_source_b == 1 {
            4
        } else if decision.alu_source_b == 2 {
            self.current_instruction as i32 & 0xff
        } else {
            (self.current_instruction as i32 & 0xff) << 2
        };

        let result = self.alu.perform_operation(alu_lhs, alu_rhs, decision.alu_control);
        let pc_en = (decision.branch && (self.alu.get_zero_flag() != decision.negate_zero))
            || decision.pc_write;
        if pc_en {
            self.pc = if decision.pc_source == 0 {
                result as usize
            } else if decision.pc_source == 1 {
                self.alu_output as usize
            } else {
                ((self.pc >> 28) << 28) | ((self.current_instruction as usize & 0x3ffffff) << 2)
            };
        }
        self.alu_output = result;
        self.data = read;
        proof {
            assert(self@ =~= step(old(self)@));
        }
        !(self.pc >= self.commands.len() && self.fsm.current_state == FSMState::Fetch)
    }

    /// The always-performed memory read of a cycle: an instruction-stream
    /// word at the given offset - zero once past the end of the stream,
    /// which the FSM only probes while finishing - or a data-memory word.
    pub fn read(&self, address: &ReadMemoryFrom) -> (r: i32)
        requires
            self.memory.wf(),
            (match *address {
                ReadMemoryFrom::Instruction(a) => a >= self.commands@.len() || a + 4
                    <= self.commands@.len(),
                ReadMemoryFrom::Data(a) => a + 4 <= MEMORY_SIZE,
            }),
        ensures
            r == (match *address {
                ReadMemoryFrom::Instruction(a) => if a >= self.commands@.len() {
                    0i32
                } else {
                    word_at(self.commands@, a as int)
                },
                ReadMemoryFrom::Data(a) => word_at(self.memory.data@, a as int),
            }),
    {
        match *address {
            ReadMemoryFrom::Instruction(address) => {
                if address >= self.commands.len() {
                    // Corner case: the instruction stream is only probed
                    // past its end while the program is finishing.
                    return 0;
                }
                let b0 = self.commands[address];
                let b1 = self.commands[address + 1];
                let b2 = self.commands[address + 2];
                let b3 = self.commands[address + 3];
                (((b0 as u32) << 24) | ((b1 as u32) << 16) | ((b2 as u32) << 8) | (b3 as u32))
                    as i32
            },
            ReadMemoryFrom::Data(address) => self.memory.get_word_from_position(address),
        }
    }
}

/// Resetting twice in a row leaves exactly the state that resetting once
/// leaves.
pub proof fn lemma_reset_idempotent(s: EmuView)
    ensures
        reset_view(reset_view(s)) == reset_view(s),
{
    assert(reset_view(reset_view(s)) =~= reset_view(s));
}

/// After a reset, replaying the identical instruction stream reproduces a
/// bit-identical run: one step out of the reset state equals one step out
/// of a freshly constructed machine in every register, memory byte, latch
/// and control bit, and prints the same word if any; every later state
/// follows deterministically from this one.
pub proof fn lemma_reset_replays_fresh_run(s: EmuView, initial_memory: Seq<u8>)
    requires
        s.init_mem == pad_to_memory_size(initial_memory),
    ensures
        ({
            let a = step(reset_view(s));
            let b = step(fresh_view(s.commands, initial_memory));
            &&& a.commands == b.commands
            &&& a.pc == b.pc
            &&& a.mem == b.mem
            &&& a.init_mem == b.init_mem
            &&& a.zero_flag == b.zero_flag
            &&& a.regs == b.regs
            &&& a.state == b.state
            &&& a.opcode == b.opcode
            &&& a.funct == b.funct
            &&& a.instr == b.instr
            &&& a.alu_output == b.alu_output
            &&& a.data == b.data
            &&& a.operand_a == b.operand_a
            &&& a.operand_b == b.operand_b
            &&& a.output == s.output + b.output
        }),
{
    let a = step(reset_view(s));
    let b = step(fresh_view(s.commands, initial_memory));
    assert(a.output =~= s.output + b.output);
}

} // verus!
