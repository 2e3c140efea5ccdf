//! The data memory of the five-stage machine: a map of stack cells for
//! variables, next to the read-only constant pool served by the program.

use vstd::prelude::*;
use std::collections::HashMap;
use crate::interp::{MemoryInstructionKind, Reference, Word};
use crate::interp_registers::Registers;
use crate::interp_state::State;
use crate::program::Program;

verus! {

broadcast use vstd::std_specs::hash::group_hash_axioms;

pub struct Memory {
    pub data_cells: HashMap<usize, Word>,
}

impl Default for Memory {
    /// A fresh memory has no data cells.
    fn default() -> (r: Memory)
        ensures
            r.data_cells@ == Map::<usize, Word>::empty(),
    {
        Memory { data_cells: HashMap::new() }
    }
}

impl Memory {
    /// Performs the memory stage of one instruction.  A store to a stack
    /// cell inserts it; a stack load moves the cell into the transfer
    /// register; a constant load reads the program's pool.  A store aimed at
    /// the constant pool, a load of an undefined cell, and a kind/reference
    /// mismatch terminate the machine; `None` means the instruction goes on
    /// to write-back.
    pub fn evaluate<P: Program>(
        &mut self,
        registers: &mut Registers,
        program: &P,
        kind: MemoryInstructionKind,
        reference: Reference,
    ) -> (r: Option<State>)
        requires
            old(registers).wf(),
            reference matches Reference::AddressReference(a) ==> (kind
                == MemoryInstructionKind::LoadConst ==> program.can_fetch_constant(a)),
        ensures
            final(registers).wf(),
            (match (kind, reference) {
                (MemoryInstructionKind::Store, Reference::StackReference(cell)) => {
                    &&& r is None
                    &&& final(self).data_cells@ == old(self).data_cells@.insert(
                        cell,
                        old(registers).words@[1],
                    )
                    &&& final(registers).words@ == old(registers).words@
                },
                (MemoryInstructionKind::LoadStack, Reference::StackReference(cell)) => {
                    &&& final(self).data_cells@ == old(self).data_cells@
                    &&& if old(self).data_cells@.contains_key(cell) {
                        r is None && final(registers).words@ == old(registers).words@.update(
                            1,
                            old(self).data_cells@[cell],
                        )
                    } else {
                        r == Some(State::Terminated) && final(registers).words@ == old(
                            registers,
                        ).words@
                    }
                },
                (MemoryInstructionKind::LoadConst, Reference::AddressReference(address)) => {
                    &&& r is None
                    &&& final(self).data_cells@ == old(self).data_cells@
                    &&& final(registers).words@ == old(registers).words@.update(
                        1,
                        program.constant_at(address),
                    )
                },
                _ => {
                    &&& r == Some(State::Terminated)
                    &&& final(self).data_cells@ == old(self).data_cells@
                    &&& final(registers).words@ == old(registers).words@
                },
            }),
    {
        match (kind, reference) {
            (MemoryInstructionKind::Store, Reference::AddressReference(_)) => {
                // The constant pool is read-only; writing it is fatal.
                Some(State::Terminated)
            },
            (MemoryInstructionKind::Store, Reference::StackReference(reference)) => {
                let value = registers.get(Registers::mem());
                self.data_cells.insert(reference, value);
                None
            },
            (MemoryInstructionKind::LoadStack, Reference::StackReference(reference)) => {
                match self.data_cells.get(&reference) {
                    Some(data) => {
                        let value = *data;
                        registers.set(Registers::mem(), value);
                        None
                    },
                    None => {
                        // An undefined variable stops the run.
                        Some(State::Terminated)
                    },
                }
            },
            (MemoryInstructionKind::LoadConst, Reference::AddressReference(address)) => {
                let value = program.fetch_constant(address);
                registers.set(Registers::mem(), value);
                None
            },
            _ => {
                // A kind/reference mismatch is a decoder defect.
                Some(State::Terminated)
            },
        }
    }
}

} // verus!
