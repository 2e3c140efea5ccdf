//! The program image the five-stage machine runs: raw instructions at the
//! low end, the constant pool growing down from the high end.

use vstd::prelude::*;
use crate::interp::{Address, RawInstruction, Word};
use crate::words::{i32_from_le, le_bytes_to_i32};

verus! {

/// A source of raw instructions and constants.  The machine is generic in
/// it, so a test bench can serve instructions from any store it likes.
pub trait Program: Sized {
    /// Whether a whole raw instruction lies at this offset.
    spec fn can_fetch_instruction(&self, address: Address) -> bool;

    /// The six instruction bytes at the offset.
    spec fn instruction_bytes_at(&self, address: Address) -> Seq<u8>;

    /// Whether a whole constant word lies at this offset of the pool.
    spec fn can_fetch_constant(&self, address: Address) -> bool;

    /// The constant word at the offset.
    spec fn constant_at(&self, address: Address) -> Word;

    fn fetch_raw_instruction(&self, address: Address) -> (r: RawInstruction)
        requires
            self.can_fetch_instruction(address),
        ensures
            r.data@ == self.instruction_bytes_at(address),
    ;

    fn fetch_constant(&self, address: Address) -> (r: Word)
        requires
            self.can_fetch_constant(address),
        ensures
            r == self.constant_at(address),
    ;
}

/// A program held as one flat byte buffer.
pub struct ActualProgram {
    pub bytes: Vec<u8>,
}

impl ActualProgram {
    pub fn from_bytes(bytes: Vec<u8>) -> (r: ActualProgram)
        ensures
            r.bytes@ == bytes@,
    {
        ActualProgram { bytes }
    }
}

impl Program for ActualProgram {
    open spec fn can_fetch_instruction(&self, address: Address) -> bool {
        0 <= address.0 && address.0 + 6 <= self.bytes@.len()
    }

    open spec fn instruction_bytes_at(&self, address: Address) -> Seq<u8> {
        self.bytes@.subrange(address.0 as int, address.0 + 6)
    }

    open spec fn can_fetch_constant(&self, address: Address) -> bool {
        0 <= address.0 && address.0 + 4 <= self.bytes@.len()
    }

    /// Constants are read from the high end of the buffer: offset zero names
    /// the last four bytes.
    open spec fn constant_at(&self, address: Address) -> Word {
        let start = self.bytes@.len() - address.0 - 4;
        Word(
            le_bytes_to_i32(
                self.bytes@[start],
                self.bytes@[start + 1],
                self.bytes@[start + 2],
                self.bytes@[start + 3],
            ),
        )
    }

    fn fetch_raw_instruction(&self, address: Address) -> (r: RawInstruction)
        ensures
            r.data@ == self.instruction_bytes_at(address),
    {
        let start = address.0 as usize;
        let data = [
            self.bytes[start],
            self.bytes[start + 1],
            self.bytes[start + 2],
            self.bytes[start + 3],
            self.bytes[start + 4],
            self.bytes[start + 5],
        ];
        proof {
            assert(data@ =~= self.instruction_bytes_at(address));
        }
        RawInstruction::new(data)
    }

    fn fetch_constant(&self, address: Address) -> (r: Word)
        ensures
            r == self.constant_at(address),
    {
        let address = address.0 as usize;
        let start = self.bytes.len() - address - 4;
        Word::new(
            i32_from_le(
                self.bytes[start],
                self.bytes[start + 1],
                self.bytes[start + 2],
                self.bytes[start + 3],
            ),
        )
    }
}

} // verus!
