//! The register file of the multi-cycle datapath: 32 word slots, with
//! register 0 hardwired to zero.  Writing register 0 is a contract
//! violation, so `set_value` rules it out by precondition, and every
//! register file in circulation keeps slot 0 at zero.

use vstd::prelude::*;

verus! {

pub const REGISTERS_SIZE: usize = 32;

pub struct Registers {
    /// Each register is able to store a word.
    pub data: Vec<i32>,
}

/// A freshly built or reset register file: 32 slots, all zero.
pub open spec fn all_zero_registers(s: Seq<i32>) -> bool {
    s.len() == 32 && forall|i: int| 0 <= i < 32 ==> s[i] == 0
}

impl Registers {
    /// Well-formed register files have exactly 32 slots and keep the
    /// hardwired zero in slot 0.
    pub open spec fn wf(&self) -> bool {
        self.data@.len() == 32 && self.data@[0] == 0
    }

    pub fn new() -> (r: Registers)
        ensures
            r.wf(),
            all_zero_registers(r.data@),
    {
        Registers { data: zero_words() }
    }

    pub fn reset(&mut self)
        ensures
            final(self).wf(),
            all_zero_registers(final(self).data@),
    {
        self.data = zero_words();
    }

    pub fn get_value(&self, id: usize) -> (r: i32)
        requires
            self.wf(),
            id < 32,
        ensures
            r == self.data@[id as int],
    {
        self.data[id]
    }

    /// Writes a register.  Register 0 is the hardwired zero constant, so a
    /// write to it is excluded by precondition: it can never succeed.
    pub fn set_value(&mut self, id: usize, new_value: i32)
        requires
            old(self).wf(),
            1 <= id < 32,
        ensures
            final(self).wf(),
            final(self).data@ == old(self).data@.update(id as int, new_value),
    {
        self.data.set(id, new_value);
    }
}

/// After `set_value(id, x)`, `get_value(id)` returns exactly `x`, and every
/// other register is untouched.
pub proof fn lemma_set_then_get(before: Seq<i32>, id: int, x: i32)
    requires
        0 <= id < before.len(),
    ensures
        before.update(id, x)[id] == x,
        forall|j: int| 0 <= j < before.len() && j != id ==> before.update(id, x)[j] == before[j],
{
}

fn zero_words() -> (r: Vec<i32>)
    ensures
        all_zero_registers(r@),
{
    let mut v: Vec<i32> = Vec::new();
    let mut i: usize = 0;
    while i < 32
        invariant
            i <= 32,
            v@.len() == i,
            forall|j: int| 0 <= j < i ==> v@[j] == 0,
        decreases 32 - i,
    {
        v.push(0);
        i = i + 1;
    }
    v
}

} // verus!
