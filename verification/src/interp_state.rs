//! The pipeline position of the five-stage machine: each variant names the
//! stage that runs on the *next* clock tick, carrying the instruction it
//! will work on.

use vstd::prelude::*;
use crate::interp::{Instruction, RawInstruction};

verus! {

#[derive(Copy, Clone, Debug, PartialEq, Eq)]
pub enum State {
    InstructionFetch,
    InstructionDecode(RawInstruction),
    OperandsFetch(Instruction),
    InstructionExecution(Instruction),
    ResultWrite(Instruction),
    Terminated,
}

} // verus!
