//! The inverse of the assembler: reads a compiled byte stream back into
//! instructions, four big-endian bytes per instruction word.

use vstd::prelude::*;
use crate::instructions::{
    encode_instr, IType, Instr, JType, RType,
};
use crate::words::be_bytes_to_u32;

verus! {

/// The instruction a 32-bit word decodes to, or `None` if its opcode is
/// outside the instruction table.
pub open spec fn decode_word(w: u32) -> Option<Instr> {
    let op = w >> 26;
    if op == 0 {
        Some(
            Instr::R(
                RType {
                    rs: ((w >> 21) & 0x1f) as u8,
                    rt: ((w >> 16) & 0x1f) as u8,
                    rd: ((w >> 11) & 0x1f) as u8,
                    funct: (w & 0x3f) as u8,
                },
            ),
        )
    } else if op == 2 {
        Some(Instr::J(JType::Jmp { address: w & 0x3ffffff }))
    } else if op == 4 {
        Some(
            Instr::I(
                IType::Bne {
                    rs: ((w >> 21) & 0x1f) as u8,
                    rt: ((w >> 16) & 0x1f) as u8,
                    imm: (w & 0xffff) as u16,
                },
            ),
        )
    } else if op == 5 {
        Some(
            Instr::I(
                IType::Beq {
                    rs: ((w >> 21) & 0x1f) as u8,
                    rt: ((w >> 16) & 0x1f) as u8,
                    imm: (w & 0xffff) as u16,
                },
            ),
        )
    } else if op == 34 {
        Some(
            Instr::I(
                IType::Lw {
                    rs: ((w >> 21) & 0x1f) as u8,
                    rt: ((w >> 16) & 0x1f) as u8,
                    imm: (w & 0xffff) as u16,
                },
            ),
        )
    } else if op == 43 {
        Some(
            Instr::I(
                IType::Sw {
                    rs: ((w >> 21) & 0x1f) as u8,
                    rt: ((w >> 16) & 0x1f) as u8,
                    imm: (w & 0xffff) as u16,
                },
            ),
        )
    } else {
        None
    }
}

/// The `k`-th big-endian instruction word of a byte stream.
pub open spec fn stream_word(bytes: Seq<u8>, k: int) -> u32 {
    be_bytes_to_u32(bytes[4 * k], bytes[4 * k + 1], bytes[4 * k + 2], bytes[4 * k + 3])
}

/// A byte stream parses exactly when it is non-empty, a whole number of
/// words long, and every word carries an implemented opcode.
pub open spec fn stream_ok(bytes: Seq<u8>) -> bool {
    &&& bytes.len() > 0
    &&& bytes.len() % 4 == 0
    &&& forall|k: int|
        0 <= k < bytes.len() / 4 ==> #[trigger] decode_word(stream_word(bytes, k)) is Some
}

/// The instructions a well-formed stream decodes to.
pub open spec fn decoded_stream(bytes: Seq<u8>) -> Seq<Instr> {
    Seq::new((bytes.len() / 4) as nat, |k: int| decode_word(stream_word(bytes, k)).unwrap())
}

/// Decodes one instruction word; `None` marks an unimplemented opcode.
pub fn decode_instruction(w: u32) -> (r: Option<Instr>)
    ensures
        r == decode_word(w),
{
    let op = w >> 26;
    if op == 0 {
        Some(
            Instr::R(
                RType {
                    rs: ((w >> 21) & 0x1f) as u8,
                    rt: ((w >> 16) & 0x1f) as u8,
                    rd: ((w >> 11) & 0x1f) as u8,
                    funct: (w & 0x3f) as u8,
                },
            ),
        )
    } else if op == 2 {
        Some(Instr::J(JType::Jmp { address: w & 0x3ffffff }))
    } else if op == 4 {
        Some(
            Instr::I(
                IType::Bne {
                    rs: ((w >> 21) & 0x1f) as u8,
                    rt: ((w >> 16) & 0x1f) as u8,
                    imm: (w & 0xffff) as u16,
                },
            ),
        )
    } else if op == 5 {
        Some(
            Instr::I(
                IType::Beq {
                    rs: ((w >> 21) & 0x1f) as u8,
                    rt: ((w >> 16) & 0x1f) as u8,
                    imm: (w & 0xffff) as u16,
                },
            ),
        )
    } else if op == 34 {
        Some(
            Instr::I(
                IType::Lw {
                    rs: ((w >> 21) & 0x1f) as u8,
                    rt: ((w >> 16) & 0x1f) as u8,
                    imm: (w & 0xffff) as u16,
                },
            ),
        )
    } else if op == 43 {
        Some(
            Instr::I(
                IType::Sw {
                    rs: ((w >> 21) & 0x1f) as u8,
                    rt: ((w >> 16) & 0x1f) as u8,
                    imm: (w & 0xffff) as u16,
                },
            ),
        )
    } else {
        None
    }
}

pub struct ProgramParser;

impl ProgramParser {
    /// Parses a whole compiled byte stream back into instructions.  Returns
    /// `None` exactly when the stream is empty, is not a whole number of
    /// words, or contains a word with an unimplemented opcode.
    pub fn parse(bytes: &[u8]) -> (r: Option<Vec<Instr>>)
        ensures
            r is Some <==> stream_ok(bytes@),
            r matches Some(v) ==> v@ == decoded_stream(bytes@),
    {
        let n_bytes = bytes.len();
        if n_bytes == 0 || n_bytes % 4 != 0 {
            return None;
        }
        let n = n_bytes / 4;
        proof {
            assert(n_bytes == 4 * n);
        }
        let mut out: Vec<Instr> = Vec::new();
        let mut k: usize = 0;
        while k < n
            invariant
                k <= n,
                4 * n <= usize::MAX,
                bytes@.len() == 4 * n,
                out@.len() == k,
                forall|j: int|
                    0 <= j < k ==> #[trigger] decode_word(stream_word(bytes@, j)) == Some(
                        out@[j],
                    ),
            decreases n - k,
        {
            let b0 = bytes[4 * k];
            let b1 = bytes[4 * k + 1];
            let b2 = bytes[4 * k + 2];
            let b3 = bytes[4 * k + 3];
            let w = ((b0 as u32) << 24) | ((b1 as u32) << 16) | ((b2 as u32) << 8) | (b3 as u32);
            match decode_instruction(w) {
                Some(instr) => {
                    out.push(instr);
                },
                None => {
                    proof {
                        assert(decode_word(stream_word(bytes@, k as int)) is None);
                    }
                    return None;
                },
            }
            k = k + 1;
        }
        proof {
            assert(out@ =~= decoded_stream(bytes@));
        }
        Some(out)
    }
}

/// Register fields of an assembled instruction must name one of the 32
/// registers, a jump address must fit its 26 bits, and an R-type function
/// code its 6 bits.
pub open spec fn instr_fields_wf(i: Instr) -> bool {
    match i {
        Instr::R(r) => r.rs < 32 && r.rt < 32 && r.rd < 32 && r.funct < 64,
        Instr::J(JType::Jmp { address }) => address < 0x4000000,
        Instr::I(it) => match it {
            IType::Bne { rs, rt, .. } => rs < 32 && rt < 32,
            IType::Beq { rs, rt, .. } => rs < 32 && rt < 32,
            IType::Lw { rs, rt, .. } => rs < 32 && rt < 32,
            IType::Sw { rs, rt, .. } => rs < 32 && rt < 32,
        },
    }
}

/// Decoding is a left inverse of assembling: every well-formed instruction
/// survives the round trip through its 32-bit encoding unchanged.
pub proof fn lemma_decode_inverts_encode(i: Instr)
    requires
        instr_fields_wf(i),
    ensures
        decode_word(encode_instr(i)) == Some(i),
{
    match i {
        Instr::R(r) => {
            let rs = r.rs;
            let rt = r.rt;
            let rd = r.rd;
            let funct = r.funct;
            let w = (0u32 << 26) | (((rs & 0x1f) as u32) << 21) | (((rt & 0x1f) as u32) << 16) | ((
            (rd & 0x1f) as u32) << 11) | (0u32 << 6) | (funct as u32);
            assert((w >> 26) == 0 && ((w >> 21) & 0x1f) == rs as u32 && ((w >> 16) & 0x1f) == rt
                as u32 && ((w >> 11) & 0x1f) == rd as u32 && (w & 0x3f) == funct as u32)
                by (bit_vector)
                requires
                    rs < 32,
                    rt < 32,
                    rd < 32,
                    funct < 64,
                    w == (0u32 << 26) | (((rs & 0x1f) as u32) << 21) | (((rt & 0x1f) as u32) << 16)
                        | (((rd & 0x1f) as u32) << 11) | (0u32 << 6) | (funct as u32),
            ;
        },
        Instr::J(JType::Jmp { address }) => {
            let w = (2u32 << 26) | (address & 0x3ffffff);
            assert((w >> 26) == 2 && (w & 0x3ffffff) == address) by (bit_vector)
                requires
                    address < 0x4000000,
                    w == (2u32 << 26) | (address & 0x3ffffff),
            ;
        },
        Instr::I(it) => {
            let op = match it {
                IType::Bne { .. } => 4u32,
                IType::Beq { .. } => 5u32,
                IType::Lw { .. } => 34u32,
                IType::Sw { .. } => 43u32,
            };
            let (rs, rt, imm) = match it {
                IType::Bne { rs, rt, imm } => (rs, rt, imm),
                IType::Beq { rs, rt, imm } => (rs, rt, imm),
                IType::Lw { rs, rt, imm } => (rs, rt, imm),
                IType::Sw { rs, rt, imm } => (rs, rt, imm),
            };
            let w = (op << 26) | (((rs & 0x1f) as u32) << 21) | (((rt & 0x1f) as u32) << 16) | (imm
                as u32);
            assert((w >> 26) == op && ((w >> 21) & 0x1f) == rs as u32 && ((w >> 16) & 0x1f) == rt
                as u32 && (w & 0xffff) == imm as u32) by (bit_vector)
                requires
                    rs < 32,
                    rt < 32,
                    op == 4 || op == 5 || op == 34 || op == 43,
                    w == (op << 26) | (((rs & 0x1f) as u32) << 21) | (((rt & 0x1f) as u32) << 16) | (
                    imm as u32),
            ;
        },
    }
}

} // verus!
