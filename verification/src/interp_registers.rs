//! The register bank of the five-stage machine: 32 word slots addressed by
//! [`Register`] names, with a handful of conventional roles (ALU operands
//! and result, jump flag, saved PC, memory transfer).

use vstd::prelude::*;
use crate::interp::{Register, Word};

verus! {

pub struct Registers {
    pub words: Vec<Word>,
}

/// All 32 slots hold the zero word.
pub open spec fn all_zero_words(s: Seq<Word>) -> bool {
    s.len() == 32 && forall|i: int| 0 <= i < 32 ==> s[i] == Word(0)
}

impl Registers {
    pub open spec fn wf(&self) -> bool {
        self.words@.len() == 32
    }

    pub fn get(&self, index: Register) -> (r: Word)
        requires
            self.wf(),
            index.0 < 32,
        ensures
            r == self.words@[index.0 as int],
    {
        self.words[index.0 as usize]
    }

    pub fn set(&mut self, index: Register, value: Word)
        requires
            old(self).wf(),
            index.0 < 32,
        ensures
            final(self).wf(),
            final(self).words@ == old(self).words@.update(index.0 as int, value),
    {
        self.words.set(index.0 as usize, value);
    }

    /// Left ALU operand, also the ALU result and the jump and memory
    /// transfer register.
    pub fn alu_lhs() -> (r: Register)
        ensures
            r == Register(1),
    {
        Register(1)
    }

    pub fn alu_rhs() -> (r: Register)
        ensures
            r == Register(2),
    {
        Register(2)
    }

    pub fn alu_res() -> (r: Register)
        ensures
            r == Register(1),
    {
        Register(1)
    }

    pub fn jump() -> (r: Register)
        ensures
            r == Register(1),
    {
        Register(1)
    }

    pub fn pc() -> (r: Register)
        ensures
            r == Register(2),
    {
        Register(2)
    }

    pub fn mem() -> (r: Register)
        ensures
            r == Register(1),
    {
        Register(1)
    }

    pub fn always_zero() -> (r: Register)
        ensures
            r == Register(0),
    {
        Register(0)
    }
}

impl Default for Registers {
    /// A fresh bank: 32 zero words.
    fn default() -> (r: Registers)
        ensures
            r.wf(),
            all_zero_words(r.words@),
    {
        let mut v: Vec<Word> = Vec::new();
        let mut i: usize = 0;
        while i < 32
            invariant
                i <= 32,
                v@.len() == i,
                forall|j: int| 0 <= j < i ==> v@[j] == Word(0),
            decreases 32 - i,
        {
            v.push(Word(0));
            i = i + 1;
        }
        Registers { words: v }
    }
}

} // verus!
