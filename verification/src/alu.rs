//! The arithmetic/logic unit of the multi-cycle datapath.
//!
//! The ALU is a combinational operation evaluator: the result is a pure
//! function of the two operands and the function code.  Its one piece of
//! state is the zero flag, which records whether the last result was zero.

use vstd::prelude::*;

verus! {

/// The function codes the ALU accepts; any other code is a control defect
/// and is ruled out by precondition.
pub open spec fn valid_funct(funct: u8) -> bool {
    funct == 32 || funct == 34 || funct == 36 || funct == 37 || funct == 39 || funct == 42
}

/// What the ALU computes for each function code: wrapping add (32), wrapping
/// subtract (34), bitwise and (36), or (37), nor (39), and set-less-than (42).
pub open spec fn alu_result(lhs: i32, rhs: i32, funct: u8) -> i32 {
    if funct == 32 {
        vstd::wrapping::i32_specs::wrapping_add(lhs, rhs)
    } else if funct == 34 {
        vstd::wrapping::i32_specs::wrapping_sub(lhs, rhs)
    } else if funct == 36 {
        lhs & rhs
    } else if funct == 37 {
        lhs | rhs
    } else if funct == 39 {
        !(lhs | rhs)
    } else {
        if lhs < rhs { 1 } else { 0 }
    }
}

pub struct ALU {
    pub zero_flag: bool,
}

impl ALU {
    pub fn new() -> (r: ALU)
        ensures
            !r.zero_flag,
    {
        ALU { zero_flag: false }
    }

    pub fn reset(&mut self)
        ensures
            !final(self).zero_flag,
    {
        self.zero_flag = false;
    }

    /// Evaluates one operation and latches the zero flag; the zero flag is
    /// exactly `result == 0` after every call, for every function code.
    pub fn perform_operation(&mut self, lhs: i32, rhs: i32, funct: u8) -> (result: i32)
        requires
            valid_funct(funct),
        ensures
            result == alu_result(lhs, rhs, funct),
            final(self).zero_flag == (result == 0),
    {
        let result: i32 = if funct == 32 {
            lhs.wrapping_add(rhs)
        } else if funct == 34 {
            lhs.wrapping_sub(rhs)
        } else if funct == 36 {
            lhs & rhs
        } else if funct == 37 {
            lhs | rhs
        } else if funct == 39 {
            !(lhs | rhs)
        } else {
            if lhs < rhs { 1 } else { 0 }
        };
        self.zero_flag = result == 0;
        result
    }

    pub fn get_zero_flag(&mut self) -> (r: bool)
        ensures
            r == old(self).zero_flag,
            *final(self) == *old(self),
    {
        self.zero_flag
    }
}

} // verus!
