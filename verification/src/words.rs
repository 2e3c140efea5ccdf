//! Big-endian conversions between 32-bit words and bytes, shared by the
//! memory, the emulator and the code generators.

use vstd::prelude::*;

verus! {

/// The four bytes of `w`, most significant first.
pub open spec fn u32_byte0(w: u32) -> u8 {
    (w >> 24) as u8
}

pub open spec fn u32_byte1(w: u32) -> u8 {
    ((w >> 16) & 0xff) as u8
}

pub open spec fn u32_byte2(w: u32) -> u8 {
    ((w >> 8) & 0xff) as u8
}

pub open spec fn u32_byte3(w: u32) -> u8 {
    (w & 0xff) as u8
}

pub open spec fn be_bytes_to_u32(b0: u8, b1: u8, b2: u8, b3: u8) -> u32 {
    ((b0 as u32) << 24) | ((b1 as u32) << 16) | ((b2 as u32) << 8) | (b3 as u32)
}

/// The four big-endian bytes of a word, most significant first.
pub open spec fn i32_byte0(w: i32) -> u8 {
    u32_byte0(w as u32)
}

pub open spec fn i32_byte1(w: i32) -> u8 {
    u32_byte1(w as u32)
}

pub open spec fn i32_byte2(w: i32) -> u8 {
    u32_byte2(w as u32)
}

pub open spec fn i32_byte3(w: i32) -> u8 {
    u32_byte3(w as u32)
}

pub open spec fn be_bytes_to_i32(b0: u8, b1: u8, b2: u8, b3: u8) -> i32 {
    be_bytes_to_u32(b0, b1, b2, b3) as i32
}

/// Encoding a word as big-endian bytes and reading the bytes back yields
/// the original word.
pub proof fn lemma_i32_be_roundtrip(w: i32)
    by (bit_vector)
    ensures
        be_bytes_to_i32(i32_byte0(w), i32_byte1(w), i32_byte2(w), i32_byte3(w)) == w,
{
}

/// The four bytes of `w`, least significant first, as the stack-machine
/// word format stores them.
pub open spec fn i32_le_byte0(w: i32) -> u8 {
    ((w as u32) & 0xff) as u8
}

pub open spec fn i32_le_byte1(w: i32) -> u8 {
    (((w as u32) >> 8) & 0xff) as u8
}

pub open spec fn i32_le_byte2(w: i32) -> u8 {
    (((w as u32) >> 16) & 0xff) as u8
}

pub open spec fn i32_le_byte3(w: i32) -> u8 {
    ((w as u32) >> 24) as u8
}

pub open spec fn le_bytes_to_i32(b0: u8, b1: u8, b2: u8, b3: u8) -> i32 {
    ((b0 as u32) | ((b1 as u32) << 8) | ((b2 as u32) << 16) | ((b3 as u32) << 24)) as i32
}

/// Little-endian words survive the byte round trip unchanged too.
pub proof fn lemma_i32_le_roundtrip(w: i32)
    by (bit_vector)
    ensures
        le_bytes_to_i32(i32_le_byte0(w), i32_le_byte1(w), i32_le_byte2(w), i32_le_byte3(w)) == w,
{
}

/// The big-endian byte image of an unsigned word.
pub open spec fn u32_be_bytes(w: u32) -> Seq<u8> {
    seq![u32_byte0(w), u32_byte1(w), u32_byte2(w), u32_byte3(w)]
}

/// The big-endian byte image of a signed word.
pub open spec fn i32_be_bytes(w: i32) -> Seq<u8> {
    seq![i32_byte0(w), i32_byte1(w), i32_byte2(w), i32_byte3(w)]
}

/// Appends the four big-endian bytes of a word.
pub fn push_u32_be(out: &mut Vec<u8>, w: u32)
    ensures
        final(out)@ == old(out)@ + u32_be_bytes(w),
{
    out.push((w >> 24) as u8);
    out.push(((w >> 16) & 0xff) as u8);
    out.push(((w >> 8) & 0xff) as u8);
    out.push((w & 0xff) as u8);
    proof {
        assert(out@ =~= old(out)@ + u32_be_bytes(w));
    }
}

/// Appends the four big-endian bytes of a signed word.
pub fn push_i32_be(out: &mut Vec<u8>, w: i32)
    ensures
        final(out)@ == old(out)@ + i32_be_bytes(w),
{
    let u = w as u32;
    out.push((u >> 24) as u8);
    out.push(((u >> 16) & 0xff) as u8);
    out.push(((u >> 8) & 0xff) as u8);
    out.push((u & 0xff) as u8);
    proof {
        assert(out@ =~= old(out)@ + i32_be_bytes(w));
    }
}

/// Reads a word from four little-endian bytes.
pub fn i32_from_le(b0: u8, b1: u8, b2: u8, b3: u8) -> (r: i32)
    ensures
        r == le_bytes_to_i32(b0, b1, b2, b3),
{
    ((b0 as u32) | ((b1 as u32) << 8) | ((b2 as u32) << 16) | ((b3 as u32) << 24)) as i32
}

} // verus!
