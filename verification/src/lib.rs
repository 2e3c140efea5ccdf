//! A small instruction-set emulator together with the compiler back-end that
//! lowers a toy imperative language onto it.
//!
//! The heart of the crate is a cycle-accurate, multi-cycle datapath emulator:
//! a control finite-state machine drives a register file, an ALU and a
//! byte-addressable memory, one micro-step per clock tick.  Next to it lives a
//! second, five-stage interpreter for a byte-coded stack-style instruction
//! set, and the code generators that produce byte streams for both machines.

pub mod alu;
pub mod ast;
pub mod ast_transform;
pub mod binary;
pub mod compiler;
pub mod emulator;
pub mod fsm;
pub mod instructions;
pub mod interp;
pub mod interp_alu;
pub mod interp_memory;
pub mod interp_registers;
pub mod interp_state;
pub mod lang;
pub mod machine;
pub mod memory;
pub mod program;
pub mod program_parser;
pub mod registers;
pub mod runs;
pub mod stack_machine;
pub mod words;

pub use alu::ALU;
pub use emulator::Emulator;
pub use fsm::{FSM, FSMDecision, FSMState};
pub use instructions::{IType, Instr, JType, RType};
pub use memory::Memory;
pub use program_parser::ProgramParser;
pub use registers::Registers;
