//! The control finite-state machine of the multi-cycle datapath.
//!
//! Each clock cycle the emulator asks the FSM for the cycle's control
//! signals; answering the question *is* the state transition, so every call
//! to `get_decision` both returns the decision and advances the state.  The
//! opcode and function code latched with `set_instruction` steer the
//! transition out of `Decode`.

use vstd::prelude::*;

verus! {

#[derive(Clone, Copy, Debug, Eq, PartialEq, Structural)]
pub enum FSMState {
    Fetch,
    Decode,
    RTypeExecute,
    RTypeALUWriteBack,
    JType,
    ITypeAddressCompute,
    ITypeMemoryRead,
    ITypeMemoryWrite,
    ITypeReadWriteback,
    Branch,
}

/// The control signals asserted for one cycle: memory address source
/// (instruction stream vs. data), memory write enable, instruction register
/// latch enable, unconditional PC write, branch enable, PC source selector,
/// ALU function code, ALU operand selectors, register write enable and
/// destination selectors, and the negated-zero test for branch-not-equal.
#[derive(Copy, Clone, Debug, Eq, PartialEq, Structural)]
pub struct FSMDecision {
    pub iord: bool,
    pub mem_write: bool,
    pub ir_write: bool,
    pub pc_write: bool,
    pub branch: bool,
    pub pc_source: u8,
    pub alu_control: u8,
    pub alu_src_a_reg: bool,
    pub alu_source_b: u8,
    pub reg_write: bool,
    pub mem_to_reg: bool,
    pub reg_dst: bool,
    pub negate_zero: bool,
}

/// The opcodes the decoder implements: R-type (0), jump (2), branch-equal
/// (4), branch-not-equal (5), load word (34) and store word (43).
pub open spec fn valid_opcode(op: u8) -> bool {
    op == 0 || op == 2 || op == 4 || op == 5 || op == 34 || op == 43
}

/// The state entered when the decision for state `s` is taken; the opcode is
/// sampled only in `Decode`.
pub open spec fn next_state(s: FSMState, opcode: u8) -> FSMState {
    match s {
        FSMState::Fetch => FSMState::Decode,
        FSMState::Decode => if opcode == 0 {
            FSMState::RTypeExecute
        } else if opcode == 2 {
            FSMState::JType
        } else if opcode == 4 || opcode == 5 {
            FSMState::Branch
        } else {
            FSMState::ITypeAddressCompute
        },
        FSMState::ITypeAddressCompute => if opcode == 34 {
            FSMState::ITypeMemoryRead
        } else {
            FSMState::ITypeMemoryWrite
        },
        FSMState::ITypeMemoryRead => FSMState::ITypeReadWriteback,
        FSMState::ITypeReadWriteback => FSMState::Fetch,
        FSMState::ITypeMemoryWrite => FSMState::Fetch,
        FSMState::RTypeExecute => FSMState::RTypeALUWriteBack,
        FSMState::RTypeALUWriteBack => FSMState::Fetch,
        FSMState::Branch => FSMState::Fetch,
        FSMState::JType => FSMState::Fetch,
    }
}

/// The control signals emitted in state `s` with latched opcode and function
/// code; the decision table of the datapath.
pub open spec fn decision_of(s: FSMState, opcode: u8, funct: u8) -> FSMDecision {
    match s {
        FSMState::Fetch => (FSMDecision {
            iord: false,
            alu_src_a_reg: false,
            alu_source_b: 1,
            pc_source: 0,
            mem_write: false,
            branch: false,
            ir_write: true,
            pc_write: true,
            alu_control: 32,
            reg_write: false,
            mem_to_reg: false,
            reg_dst: false,
            negate_zero: true,
        }),
        FSMState::Decode => (FSMDecision {
            iord: false,
            alu_src_a_reg: false,
            alu_source_b: 3,
            pc_source: 0,
            mem_write: false,
            branch: false,
            ir_write: false,
            pc_write: false,
            alu_control: 32,
            reg_write: false,
            mem_to_reg: false,
            negate_zero: true,
            reg_dst: false,
        }),
        FSMState::ITypeAddressCompute => (FSMDecision {
            iord: false,
            alu_src_a_reg: true,
            alu_source_b: 2,
            pc_source: 0,
            mem_write: false,
            branch: false,
            ir_write: false,
            pc_write: false,
            alu_control: 32,
            reg_write: false,
            mem_to_reg: false,
            reg_dst: false,
            negate_zero: true,
        }),
        FSMState::ITypeMemoryRead => (FSMDecision {
            iord: true,
            alu_src_a_reg: true,
            alu_source_b: 3,
            pc_source: 0,
            mem_write: false,
            branch: false,
            ir_write: false,
            pc_write: false,
            alu_control: 32,
            reg_write: false,
            mem_to_reg: false,
            negate_zero: true,
            reg_dst: false,
        }),
        FSMState::ITypeReadWriteback => (FSMDecision {
            iord: false,
            alu_src_a_reg: true,
            alu_source_b: 3,
            pc_source: 0,
            mem_write: false,
            branch: false,
            ir_write: false,
            pc_write: false,
            alu_control: 32,
            reg_write: true,
            mem_to_reg: true,
            negate_zero: true,
            reg_dst: false,
        }),
        FSMState::ITypeMemoryWrite => (FSMDecision {
            iord: true,
            alu_src_a_reg: false,
            alu_source_b: 0,
            pc_source: 0,
            mem_write: true,
            branch: false,
            ir_write: false,
            pc_write: false,
            alu_control: 32,
            reg_write: false,
            mem_to_reg: false,
            negate_zero: true,
            reg_dst: false,
        }),
        FSMState::RTypeExecute => (FSMDecision {
            iord: false,
            alu_src_a_reg: true,
            alu_source_b: 0,
            pc_source: 0,
            mem_write: false,
            branch: false,
            ir_write: false,
            pc_write: false,
            alu_control: funct,
            reg_write: false,
            mem_to_reg: false,
            negate_zero: true,
            reg_dst: false,
        }),
        FSMState::RTypeALUWriteBack => (FSMDecision {
            iord: false,
            alu_src_a_reg: true,
            alu_source_b: 0,
            pc_source: 0,
            mem_write: false,
            branch: false,
            ir_write: false,
            pc_write: false,
            alu_control: funct,
            reg_write: true,
            mem_to_reg: false,
            negate_zero: true,
            reg_dst: true,
        }),
        FSMState::Branch => (FSMDecision {
            iord: false,
            alu_src_a_reg: true,
            alu_source_b: 0,
            pc_source: 1,
            mem_write: false,
            branch: true,
            ir_write: false,
            pc_write: false,
            alu_control: 34,
            reg_write: false,
            mem_to_reg: false,
            reg_dst: false,
            negate_zero: opcode == 5,
        }),
        FSMState::JType => (FSMDecision {
            iord: false,
            alu_src_a_reg: false,
            alu_source_b: 0,
            pc_source: 2,
            mem_write: false,
            branch: false,
            ir_write: false,
            pc_write: true,
            alu_control: 34,
            reg_write: false,
            mem_to_reg: false,
            reg_dst: false,
            negate_zero: false,
        }),
    }
}

pub struct FSM {
    pub current_state: FSMState,
    pub opcode: u8,
    pub funct: u8,
}

impl FSM {
    pub fn new() -> (r: FSM)
        ensures
            r.current_state == FSMState::Fetch,
            r.opcode == 0,
            r.funct == 0,
    {
        FSM { current_state: FSMState::Fetch, opcode: 0, funct: 0 }
    }

    pub fn set_instruction(&mut self, op: u8, funct: u8)
        ensures
            final(self).opcode == op,
            final(self).funct == funct,
            final(self).current_state == old(self).current_state,
    {
        self.opcode = op;
        self.funct = funct;
    }

    pub fn reset(&mut self)
        ensures
            final(self).current_state == FSMState::Fetch,
            final(self).opcode == 0,
            final(self).funct == 0,
    {
        self.opcode = 0;
        self.funct = 0;
        self.current_state = FSMState::Fetch;
    }

    /// Returns this cycle's control signals and, in the same call, advances
    /// to the next state; decisions are only meaningful paired with the
    /// transition that accompanies them.  An opcode outside the instruction
    /// table would be an unimplemented instruction, excluded by
    /// precondition.
    pub fn get_decision(&mut self) -> (d: FSMDecision)
        requires
            old(self).current_state == FSMState::Decode ==> valid_opcode(old(self).opcode),
        ensures
            d == decision_of(old(self).current_state, old(self).opcode, old(self).funct),
            final(self).current_state == next_state(old(self).current_state, old(self).opcode),
            final(self).opcode == old(self).opcode,
            final(self).funct == old(self).funct,
    {
        let opcode = self.opcode;
        let funct = self.funct;
        match self.current_state {
            FSMState::Fetch => {
                self.current_state = FSMState::Decode;
                FSMDecision {
                    iord: false,
                    alu_src_a_reg: false,
                    alu_source_b: 1,
                    pc_source: 0,
                    mem_write: false,
                    branch: false,
                    ir_write: true,
                    pc_write: true,
                    alu_control: 32,
                    reg_write: false,
                    mem_to_reg: false,
                    reg_dst: false,
                    negate_zero: true,
                }
            },
            FSMState::Decode => {
                self.current_state = if opcode == 0 {
                    FSMState::RTypeExecute
                } else if opcode == 2 {
                    FSMState::JType
                } else if opcode == 4 || opcode == 5 {
                    FSMState::Branch
                } else {
                    FSMState::ITypeAddressCompute
                };
                FSMDecision {
                    iord: false,
                    alu_src_a_reg: false,
                    alu_source_b: 3,
                    pc_source: 0,
                    mem_write: false,
                    branch: false,
                    ir_write: false,
                    pc_write: false,
                    alu_control: 32,
                    reg_write: false,
                    mem_to_reg: false,
                    negate_zero: true,
                    reg_dst: false,
                }
            },
            FSMState::ITypeAddressCompute => {
                self.current_state = if opcode == 34 {
                    FSMState::ITypeMemoryRead
                } else {
                    FSMState::ITypeMemoryWrite
                };
                FSMDecision {
                    iord: false,
                    alu_src_a_reg: true,
                    alu_source_b: 2,
                    pc_source: 0,
                    mem_write: false,
                    branch: false,
                    ir_write: false,
                    pc_write: false,
                    alu_control: 32,
                    reg_write: false,
                    mem_to_reg: false,
                    reg_dst: false,
                    negate_zero: true,
                }
            },
            FSMState::ITypeMemoryRead => {
                self.current_state = FSMState::ITypeReadWriteback;
                FSMDecision {
                    iord: true,
                    alu_src_a_reg: true,
                    alu_source_b: 3,
                    pc_source: 0,
                    mem_write: false,
                    branch: false,
                    ir_write: false,
                    pc_write: false,
                    alu_control: 32,
                    reg_write: false,
                    mem_to_reg: false,
                    negate_zero: true,
                    reg_dst: false,
                }
            },
            FSMState::ITypeReadWriteback => {
                self.current_state = FSMState::Fetch;
                FSMDecision {
                    iord: false,
                    alu_src_a_reg: true,
                    alu_source_b: 3,
                    pc_source: 0,
                    mem_write: false,
                    branch: false,
                    ir_write: false,
                    pc_write: false,
                    alu_control: 32,
                    reg_write: true,
                    mem_to_reg: true,
                    negate_zero: true,
                    reg_dst: false,
                }
            },
            FSMState::ITypeMemoryWrite => {
                self.current_state = FSMState::Fetch;
                FSMDecision {
                    iord: true,
                    alu_src_a_reg: false,
                    alu_source_b: 0,
                    pc_source: 0,
                    mem_write: true,
                    branch: false,
                    ir_write: false,
                    pc_write: false,
                    alu_control: 32,
                    reg_write: false,
                    mem_to_reg: false,
                    negate_zero: true,
                    reg_dst: false,
                }
            },
            FSMState::RTypeExecute => {
                self.current_state = FSMState::RTypeALUWriteBack;
                FSMDecision {
                    iord: false,
                    alu_src_a_reg: true,
                    alu_source_b: 0,
                    pc_source: 0,
                    mem_write: false,
                    branch: false,
                    ir_write: false,
                    pc_write: false,
                    alu_control: funct,
                    reg_write: false,
                    mem_to_reg: false,
                    negate_zero: true,
                    reg_dst: false,
                }
            },
            FSMState::RTypeALUWriteBack => {
                self.current_state = FSMState::Fetch;
                FSMDecision {
                    iord: false,
                    alu_src_a_reg: true,
                    alu_source_b: 0,
                    pc_source: 0,
                    mem_write: false,
                    branch: false,
                    ir_write: false,
                    pc_write: false,
                    alu_control: funct,
                    reg_write: true,
                    mem_to_reg: false,
                    negate_zero: true,
                    reg_dst: true,
                }
            },
            FSMState::Branch => {
                self.current_state = FSMState::Fetch;
                FSMDecision {
                    iord: false,
                    alu_src_a_reg: true,
                    alu_source_b: 0,
                    pc_source: 1,
                    mem_write: false,
                    branch: true,
                    ir_write: false,
                    pc_write: false,
                    alu_control: 34,
                    reg_write: false,
                    mem_to_reg: false,
                    reg_dst: false,
                    negate_zero: opcode == 5,
                }
            },
            FSMState::JType => {
                self.current_state = FSMState::Fetch;
                FSMDecision {
                    iord: false,
                    alu_src_a_reg: false,
                    alu_source_b: 0,
                    pc_source: 2,
                    mem_write: false,
                    branch: false,
                    ir_write: false,
                    pc_write: true,
                    alu_control: 34,
                    reg_write: false,
                    mem_to_reg: false,
                    reg_dst: false,
                    negate_zero: false,
                }
            },
        }
    }

    /// True exactly when the latched opcode and function code are both the
    /// reserved zero/zero encoding, the debug print pseudo-instruction.
    pub fn is_print(&self) -> (r: bool)
        ensures
            r == (self.opcode == 0 && self.funct == 0),
    {
        self.opcode == 0 && self.funct == 0
    }
}

/// A full R-type instruction cycle - Fetch, Decode, RTypeExecute,
/// RTypeALUWriteBack - ends, for every supported function code, in a
/// write-back decision with `reg_write` asserted, the destination taken
/// from the `rd` field (`reg_dst`), and the value taken from the ALU
/// (`mem_to_reg` deasserted).
pub proof fn lemma_rtype_cycle(funct: u8)
    requires
        crate::alu::valid_funct(funct),
    ensures
        ({
            let s1 = next_state(FSMState::Fetch, 0);
            let s2 = next_state(s1, 0);
            let s3 = next_state(s2, 0);
            let d = decision_of(s3, 0, funct);
            s1 == FSMState::Decode && s2 == FSMState::RTypeExecute && s3
                == FSMState::RTypeALUWriteBack && next_state(s3, 0) == FSMState::Fetch && d.reg_write
                && d.reg_dst && !d.mem_to_reg && d.alu_control == funct
        }),
{
}

/// A load-word sequence - Fetch, Decode, ITypeAddressCompute,
/// ITypeMemoryRead, ITypeReadWriteback - ends in a write-back decision that
/// takes the value from memory (`mem_to_reg`), writes it to the `rt` field
/// (`reg_dst` deasserted) and asserts `reg_write`.
pub proof fn lemma_load_word_cycle()
    ensures
        ({
            let s1 = next_state(FSMState::Fetch, 34);
            let s2 = next_state(s1, 34);
            let s3 = next_state(s2, 34);
            let s4 = next_state(s3, 34);
            let d = decision_of(s4, 34, 0);
            s1 == FSMState::Decode && s2 == FSMState::ITypeAddressCompute && s3
                == FSMState::ITypeMemoryRead && s4 == FSMState::ITypeReadWriteback && next_state(
                s4,
                34,
            ) == FSMState::Fetch && d.reg_write && !d.reg_dst && d.mem_to_reg
        }),
{
}

/// In the branch state, branch-not-equal (opcode 5) asserts `negate_zero`
/// while branch-equal (opcode 4) deasserts it.
pub proof fn lemma_branch_negate_zero(funct: u8)
    ensures
        decision_of(FSMState::Branch, 5, funct).negate_zero,
        !decision_of(FSMState::Branch, 4, funct).negate_zero,
{
}

} // verus!
