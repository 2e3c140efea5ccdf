//! The arithmetic unit of the five-stage machine.  It evaluates on the
//! conventional operand registers and writes the result register; the PRINT
//! operation additionally hands the left operand to a [`Printer`].

use vstd::prelude::*;
use std::io::Write;
use crate::interp::{ALUInstructionKind, Word};
use crate::interp_registers::Registers;

verus! {

/// An output sink for the PRINT operation.  The machine is generic in it so
/// that callers can collect output instead of writing it to a device.
pub trait Printer {
    fn print(&mut self, value: i32);
}

/// Prints each value as a decimal line on standard output.
#[derive(Default)]
pub struct StdPrinter;

impl Printer for StdPrinter {
    fn print(&mut self, value: i32) {
        print_decimal_line(value);
    }
}

/// Relies on std::io::Stdout via the writeln macro: writes the value as one
/// decimal line to standard output.
#[verifier::external_body]
fn print_decimal_line(value: i32) {
    let _ = writeln!(std::io::stdout(), "{}", value);
}

/// When an operation is defined: multiplication must not overflow, division
/// and remainder need a non-zero divisor and no `MIN / -1` overflow, and
/// shift distances must name one of the 32 bit positions.
pub open spec fn alu_eval_ok(kind: ALUInstructionKind, lhs: i32, rhs: i32) -> bool {
    match kind {
        ALUInstructionKind::MUL => i32::MIN <= lhs * rhs <= i32::MAX,
        ALUInstructionKind::DIV => rhs != 0 && !(lhs == i32::MIN && rhs == -1),
        ALUInstructionKind::REM => rhs != 0 && !(lhs == i32::MIN && rhs == -1),
        ALUInstructionKind::SHL => 0 <= rhs < 32,
        ALUInstructionKind::SHR => 0 <= rhs < 32,
        _ => true,
    }
}

/// The value each operation computes.  Addition and subtraction wrap;
/// division and remainder truncate towards zero as the hardware's do;
/// comparisons yield one or zero; PRINT passes its left operand through.
pub open spec fn alu_eval(kind: ALUInstructionKind, lhs: i32, rhs: i32) -> i32 {
    match kind {
        ALUInstructionKind::ADD => vstd::wrapping::i32_specs::wrapping_add(lhs, rhs),
        ALUInstructionKind::SUB => vstd::wrapping::i32_specs::wrapping_sub(lhs, rhs),
        ALUInstructionKind::MUL => (lhs * rhs) as i32,
        ALUInstructionKind::DIV => lhs.checked_div(rhs).unwrap(),
        ALUInstructionKind::REM => lhs.checked_rem(rhs).unwrap(),
        ALUInstructionKind::SHL => lhs << rhs,
        ALUInstructionKind::SHR => lhs >> rhs,
        ALUInstructionKind::EQ => if lhs == rhs {
            1
        } else {
            0
        },
        ALUInstructionKind::LT => if lhs < rhs {
            1
        } else {
            0
        },
        ALUInstructionKind::OR => ((lhs as u32) | (rhs as u32)) as i32,
        ALUInstructionKind::AND => ((lhs as u32) & (rhs as u32)) as i32,
        ALUInstructionKind::NOT => !(lhs as u32) as i32,
        ALUInstructionKind::PRINT => lhs,
    }
}

pub struct ALU<P: Printer> {
    pub printer: P,
    /// Ghost record of every value handed to the printer, oldest first: the
    /// contracts pin the PRINT operation's output against this log.
    pub printed: Ghost<Seq<i32>>,
}

impl<P: Printer + Default> Default for ALU<P> {
    fn default() -> (r: ALU<P>)
        ensures
            r.printed@ == Seq::<i32>::empty(),
    {
        ALU { printer: P::default(), printed: Ghost(Seq::empty()) }
    }
}

impl<P: Printer> ALU<P> {
    pub fn new(printer: P) -> (r: ALU<P>)
        ensures
            r.printer == printer,
            r.printed@ == Seq::<i32>::empty(),
    {
        ALU { printer, printed: Ghost(Seq::empty()) }
    }

    /// Evaluates the operation on the conventional operand registers and
    /// stores the result in the result register.  A PRINT operation hands
    /// exactly the left operand to the printer, once; every other operation
    /// prints nothing.
    pub fn evaluate(&mut self, registers: &mut Registers, kind: ALUInstructionKind)
        requires
            old(registers).wf(),
            alu_eval_ok(kind, old(registers).words@[1].0, old(registers).words@[2].0),
        ensures
            final(registers).wf(),
            final(registers).words@ == old(registers).words@.update(
                1,
                Word(alu_eval(kind, old(registers).words@[1].0, old(registers).words@[2].0)),
            ),
            final(self).printed@ == (if kind == ALUInstructionKind::PRINT {
                old(self).printed@.push(old(registers).words@[1].0)
            } else {
                old(self).printed@
            }),
    {
        let lhs = registers.get(Registers::alu_lhs());
        let rhs = registers.get(Registers::alu_rhs());
        let res = self.do_evaluate(kind, lhs, rhs);
        registers.set(Registers::alu_res(), res);
    }

    pub fn printer(&self) -> (r: &P)
        ensures
            *r == self.printer,
    {
        &self.printer
    }

    fn do_evaluate(&mut self, kind: ALUInstructionKind, lhs: Word, rhs: Word) -> (r: Word)
        requires
            alu_eval_ok(kind, lhs.0, rhs.0),
        ensures
            r == Word(alu_eval(kind, lhs.0, rhs.0)),
            final(self).printed@ == (if kind == ALUInstructionKind::PRINT {
                old(self).printed@.push(lhs.0)
            } else {
                old(self).printed@
            }),
    {
        let lhs = lhs.0;
        let rhs = rhs.0;
        let res: i32 = match kind {
            ALUInstructionKind::ADD => lhs.wrapping_add(rhs),
            ALUInstructionKind::SUB => lhs.wrapping_sub(rhs),
            ALUInstructionKind::MUL => lhs * rhs,
            ALUInstructionKind::DIV => {
                proof {
                    lemma_div_in_range(lhs, rhs);
                }
                lhs.checked_div(rhs).unwrap()
            },
            ALUInstructionKind::REM => {
                proof {
                    broadcast use vstd::arithmetic::div_mod::group_mod_properties;

                }
                lhs.checked_rem(rhs).unwrap()
            },
            ALUInstructionKind::SHL => lhs << rhs,
            ALUInstructionKind::SHR => lhs >> rhs,
            ALUInstructionKind::EQ => if lhs == rhs {
                1
            } else {
                0
            },
            ALUInstructionKind::LT => if lhs < rhs {
                1
            } else {
                0
            },
            ALUInstructionKind::OR => ((lhs as u32) | (rhs as u32)) as i32,
            ALUInstructionKind::AND => ((lhs as u32) & (rhs as u32)) as i32,
            ALUInstructionKind::NOT => !(lhs as u32) as i32,
            ALUInstructionKind::PRINT => {
                self.printer.print(lhs);
                self.printed = Ghost(self.printed@.push(lhs));
                lhs
            },
        };
        Word::new(res)
    }
}

/// A truncating division of two words that is not `MIN / -1` stays inside
/// the word range, so `checked_div` succeeds.
proof fn lemma_div_in_range(a: i32, b: i32)
    requires
        b != 0,
        !(a == i32::MIN && b == -1),
    ensures
        a.checked_div(b) is Some,
{
    broadcast use vstd::arithmetic::div_mod::group_div_basics;

    let x = a as int;
    let d = b as int;
    if x > 0 && d > 0 {
        vstd::arithmetic::div_mod::lemma_div_nonincreasing(x, d);
        vstd::arithmetic::div_mod::lemma_div_pos_is_pos(x, d);
    } else if x < 0 && d < 0 {
        vstd::arithmetic::div_mod::lemma_div_pos_is_pos(x * -1, d * -1);
        if d == -1 {
            assert((x * -1) / (d * -1) == x * -1);
        } else {
            vstd::arithmetic::div_mod::lemma_div_is_ordered_by_denominator(x * -1, 2, d * -1);
            vstd::arithmetic::div_mod::lemma_div_is_ordered(x * -1, 0x8000_0000, 2);
        }
    } else if x < 0 {
        vstd::arithmetic::div_mod::lemma_div_nonincreasing(x * -1, d);
        vstd::arithmetic::div_mod::lemma_div_pos_is_pos(x * -1, d);
    } else if x > 0 {
        vstd::arithmetic::div_mod::lemma_div_nonincreasing(x, d * -1);
        vstd::arithmetic::div_mod::lemma_div_pos_is_pos(x, d * -1);
    }
}

} // verus!
