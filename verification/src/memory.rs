//! The byte-addressable data memory of the multi-cycle datapath.
//!
//! Words are stored big-endian and may be read or written at any byte
//! offset; overlapping accesses simply see the bytes that fall in range.
//! A snapshot of the initial contents is kept so that `reset` can restore
//! the memory exactly as it was at construction.

use vstd::prelude::*;
use crate::words::{
    be_bytes_to_i32, i32_byte0, i32_byte1, i32_byte2, i32_byte3, lemma_i32_be_roundtrip,
};

verus! {

pub const MEMORY_SIZE: usize = 1024 * 1024;

/// The initial bytes, padded with zeros up to capacity (or cut at capacity).
pub open spec fn pad_to_memory_size(s: Seq<u8>) -> Seq<u8> {
    if s.len() >= MEMORY_SIZE {
        s.take(MEMORY_SIZE as int)
    } else {
        s + Seq::new((MEMORY_SIZE - s.len()) as nat, |i: int| 0u8)
    }
}

/// The word stored big-endian at byte offset `p`.
pub open spec fn word_at(s: Seq<u8>, p: int) -> i32 {
    be_bytes_to_i32(s[p], s[p + 1], s[p + 2], s[p + 3])
}

/// The memory after the big-endian bytes of `w` are written at offset `p`.
pub open spec fn write_word_seq(s: Seq<u8>, p: int, w: i32) -> Seq<u8> {
    s.update(p, i32_byte0(w)).update(p + 1, i32_byte1(w)).update(p + 2, i32_byte2(w)).update(
        p + 3,
        i32_byte3(w),
    )
}

pub struct Memory {
    pub data: Vec<u8>,
    pub initial_memory: Vec<u8>,
}

impl Memory {
    pub open spec fn wf(&self) -> bool {
        self.data@.len() == MEMORY_SIZE && self.initial_memory@.len() == MEMORY_SIZE
    }

    pub fn new(initial_memory: Vec<u8>) -> (r: Memory)
        ensures
            r.wf(),
            r.data@ == pad_to_memory_size(initial_memory@),
            r.initial_memory@ == pad_to_memory_size(initial_memory@),
    {
        let data = pad_vec(&initial_memory);
        let snapshot = pad_vec(&initial_memory);
        Memory { data, initial_memory: snapshot }
    }

    /// Restores the exact snapshot taken at construction, discarding every
    /// write made since.
    pub fn reset(&mut self)
        requires
            old(self).wf(),
        ensures
            final(self).wf(),
            final(self).data@ == old(self).initial_memory@,
            final(self).initial_memory@ == old(self).initial_memory@,
    {
        let copy = pad_vec(&self.initial_memory);
        proof {
            assert(pad_to_memory_size(self.initial_memory@) =~= self.initial_memory@);
        }
        self.data = copy;
    }

    pub fn get_word_from_position(&self, position: usize) -> (r: i32)
        requires
            self.wf(),
            position + 4 <= MEMORY_SIZE,
        ensures
            r == word_at(self.data@, position as int),
    {
        let b0 = self.data[position];
        let b1 = self.data[position + 1];
        let b2 = self.data[position + 2];
        let b3 = self.data[position + 3];
        (((b0 as u32) << 24) | ((b1 as u32) << 16) | ((b2 as u32) << 8) | (b3 as u32)) as i32
    }

    pub fn set_word_at_position(&mut self, position: usize, word: i32)
        requires
            old(self).wf(),
            position + 4 <= MEMORY_SIZE,
        ensures
            final(self).wf(),
            final(self).data@ == write_word_seq(old(self).data@, position as int, word),
            final(self).initial_memory@ == old(self).initial_memory@,
    {
        let u = word as u32;
        self.data.set(position, (u >> 24) as u8);
        self.data.set(position + 1, ((u >> 16) & 0xff) as u8);
        self.data.set(position + 2, ((u >> 8) & 0xff) as u8);
        self.data.set(position + 3, (u & 0xff) as u8);
    }
}

/// Reading a word back from the offset it was just written to yields the
/// word that was written.
pub proof fn lemma_read_after_write(s: Seq<u8>, p: int, w: i32)
    requires
        0 <= p,
        p + 4 <= s.len(),
    ensures
        word_at(write_word_seq(s, p, w), p) == w,
{
    lemma_i32_be_roundtrip(w);
}

fn pad_vec(src: &Vec<u8>) -> (r: Vec<u8>)
    ensures
        r@ == pad_to_memory_size(src@),
        r@.len() == MEMORY_SIZE,
{
    let mut v: Vec<u8> = Vec::new();
    let mut i: usize = 0;
    while i < MEMORY_SIZE
        invariant
            i <= MEMORY_SIZE,
            v@.len() == i,
            forall|j: int|
                0 <= j < i ==> v@[j] == (if j < src@.len() {
                    src@[j]
                } else {
                    0u8
                }),
        decreases MEMORY_SIZE - i,
    {
        if i < src.len() {
            let b = src[i];
            v.push(b);
        } else {
            v.push(0);
        }
        i = i + 1;
    }
    proof {
        assert(v@ =~= pad_to_memory_size(src@));
    }
    v
}

} // verus!
