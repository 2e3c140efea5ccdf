//! The data model of the byte-coded stack-style instruction set run by the
//! five-stage [`Machine`](crate::machine::Machine): words, addresses,
//! register names, memory references, raw six-byte instructions and their
//! decoded forms.

use vstd::prelude::*;
use crate::words::{
    i32_from_le, i32_le_byte0, i32_le_byte1, i32_le_byte2, i32_le_byte3, le_bytes_to_i32,
    lemma_i32_le_roundtrip,
};

verus! {

/// A raw instruction is six bytes: one code byte and a five-byte remainder.
pub const RAW_INSTRUCTION_SIZE: usize = 6;

#[derive(Copy, Clone, Debug, PartialEq, Eq, Structural)]
pub struct InstructionCode(pub u8);

#[derive(Copy, Clone, Debug, Default, PartialEq, Eq, Structural)]
pub struct Word(pub i32);

impl Word {
    pub fn new(value: i32) -> (r: Word)
        ensures
            r.0 == value,
    {
        Word(value)
    }

    pub fn from_buffer(buffer: [u8; 4]) -> (r: Word)
        ensures
            r.0 == le_bytes_to_i32(buffer@[0], buffer@[1], buffer@[2], buffer@[3]),
    {
        Word(i32_from_le(buffer[0], buffer[1], buffer[2], buffer[3]))
    }

    pub fn create_buffer(&self) -> (r: [u8; 4])
        ensures
            r@ == word_le_bytes(self.0),
    {
        let u = self.0 as u32;
        let r = [(u & 0xff) as u8, ((u >> 8) & 0xff) as u8, ((u >> 16) & 0xff) as u8, (u >> 24) as u8];
        proof {
            assert(r@ =~= word_le_bytes(self.0));
        }
        r
    }
}

/// The byte image of a word, least significant byte first.
pub open spec fn word_le_bytes(w: i32) -> Seq<u8> {
    seq![i32_le_byte0(w), i32_le_byte1(w), i32_le_byte2(w), i32_le_byte3(w)]
}

/// A word written to its buffer and read back is unchanged.
pub proof fn lemma_word_buffer_roundtrip(w: i32)
    ensures
        le_bytes_to_i32(
            word_le_bytes(w)[0],
            word_le_bytes(w)[1],
            word_le_bytes(w)[2],
            word_le_bytes(w)[3],
        ) == w,
{
    lemma_i32_le_roundtrip(w);
}

#[derive(Copy, Clone, Debug, PartialEq, Eq, Structural)]
pub struct Address(pub i32);

impl Address {
    pub fn new(value: i32) -> (r: Address)
        ensures
            r.0 == value,
    {
        Address(value)
    }

    pub fn from_remainder(remainder: [u8; 4]) -> (r: Address)
        ensures
            r.0 == le_bytes_to_i32(remainder@[0], remainder@[1], remainder@[2], remainder@[3]),
    {
        Address(i32_from_le(remainder[0], remainder[1], remainder[2], remainder[3]))
    }

    pub fn create_remainder(&self) -> (r: [u8; 4])
        ensures
            r@ == word_le_bytes(self.0),
    {
        Word(self.0).create_buffer()
    }
}

#[derive(Copy, Clone, Debug, PartialEq, Eq, Structural)]
pub struct Register(pub u8);

impl Register {
    pub fn new(value: u8) -> (r: Register)
        ensures
            r.0 == value,
    {
        Register(value)
    }
}

#[derive(Copy, Clone, Debug, PartialEq, Eq, Structural)]
pub enum Reference {
    AddressReference(Address),
    StackReference(usize),
}

impl Reference {
    pub fn stack_from_remainder(remainder: [u8; 4]) -> (r: Reference)
        ensures
            r == Reference::StackReference(
                le_bytes_to_i32(remainder@[0], remainder@[1], remainder@[2], remainder@[3]) as usize,
            ),
    {
        Reference::StackReference(
            i32_from_le(remainder[0], remainder[1], remainder[2], remainder[3]) as usize,
        )
    }

    pub fn address_from_remainder(remainder: [u8; 4]) -> (r: Reference)
        ensures
            r == Reference::AddressReference(
                Address(le_bytes_to_i32(remainder@[0], remainder@[1], remainder@[2], remainder@[3])),
            ),
    {
        Reference::AddressReference(Address::from_remainder(remainder))
    }

    /// The four bytes that stand for this reference in an encoded
    /// instruction.
    pub open spec fn remainder_bytes(self) -> Seq<u8> {
        match self {
            Reference::AddressReference(address) => word_le_bytes(address.0),
            Reference::StackReference(stack) => word_le_bytes(stack as i32),
        }
    }

    pub fn create_remainder(&self) -> (r: [u8; 4])
        ensures
            r@ == self.remainder_bytes(),
    {
        match self {
            Reference::AddressReference(address) => address.create_remainder(),
            Reference::StackReference(stack) => Word(*stack as i32).create_buffer(),
        }
    }
}

#[derive(Copy, Clone, Debug, PartialEq, Eq)]
pub struct RawInstruction {
    pub data: [u8; 6],
}

/// A raw instruction of six zero bytes ends the program.
pub open spec fn raw_is_terminating(raw: RawInstruction) -> bool {
    forall|i: int| 0 <= i < 6 ==> raw.data@[i] == 0
}

impl RawInstruction {
    pub fn new(data: [u8; 6]) -> (r: RawInstruction)
        ensures
            r.data == data,
    {
        RawInstruction { data }
    }

    pub fn is_terminating(&self) -> (r: bool)
        ensures
            r == raw_is_terminating(*self),
    {
        self.data[0] == 0 && self.data[1] == 0 && self.data[2] == 0 && self.data[3] == 0
            && self.data[4] == 0 && self.data[5] == 0
    }

    pub fn instruction_code(&self) -> (r: InstructionCode)
        ensures
            r == InstructionCode(self.data@[0]),
    {
        InstructionCode(self.data[0])
    }

    pub fn remainder(&self) -> (r: [u8; 5])
        ensures
            r@ == self.data@.subrange(1, 6),
    {
        let r = [self.data[1], self.data[2], self.data[3], self.data[4], self.data[5]];
        proof {
            assert(r@ =~= self.data@.subrange(1, 6));
        }
        r
    }
}

#[derive(Copy, Clone, Debug, PartialEq, Eq, Structural)]
pub enum ALUInstructionKind {
    ADD,
    SUB,
    MUL,
    DIV,
    REM,
    SHL,
    SHR,
    EQ,
    LT,
    OR,
    AND,
    NOT,
    PRINT,
}

#[derive(Copy, Clone, Debug, PartialEq, Eq, Structural)]
pub enum JumpInstructionKind {
    JUMP,
    CJUMP,
}

#[derive(Copy, Clone, Debug, PartialEq, Eq, Structural)]
pub enum MemoryInstructionKind {
    Store,
    LoadStack,
    LoadConst,
}

pub open spec fn alu_kind_code(k: ALUInstructionKind) -> u8 {
    match k {
        ALUInstructionKind::ADD => 0,
        ALUInstructionKind::SUB => 1,
        ALUInstructionKind::MUL => 2,
        ALUInstructionKind::DIV => 3,
        ALUInstructionKind::REM => 4,
        ALUInstructionKind::SHL => 5,
        ALUInstructionKind::SHR => 6,
        ALUInstructionKind::EQ => 7,
        ALUInstructionKind::LT => 8,
        ALUInstructionKind::OR => 9,
        ALUInstructionKind::AND => 10,
        ALUInstructionKind::NOT => 11,
        ALUInstructionKind::PRINT => 17,
    }
}

pub open spec fn alu_kind_by_code(code: u8) -> Option<ALUInstructionKind> {
    if code == 0 {
        Some(ALUInstructionKind::ADD)
    } else if code == 1 {
        Some(ALUInstructionKind::SUB)
    } else if code == 2 {
        Some(ALUInstructionKind::MUL)
    } else if code == 3 {
        Some(ALUInstructionKind::DIV)
    } else if code == 4 {
        Some(ALUInstructionKind::REM)
    } else if code == 5 {
        Some(ALUInstructionKind::SHL)
    } else if code == 6 {
        Some(ALUInstructionKind::SHR)
    } else if code == 7 {
        Some(ALUInstructionKind::EQ)
    } else if code == 8 {
        Some(ALUInstructionKind::LT)
    } else if code == 9 {
        Some(ALUInstructionKind::OR)
    } else if code == 10 {
        Some(ALUInstructionKind::AND)
    } else if code == 11 {
        Some(ALUInstructionKind::NOT)
    } else if code == 17 {
        Some(ALUInstructionKind::PRINT)
    } else {
        None
    }
}

pub open spec fn jump_kind_code(k: JumpInstructionKind) -> u8 {
    match k {
        JumpInstructionKind::JUMP => 12,
        JumpInstructionKind::CJUMP => 13,
    }
}

pub open spec fn jump_kind_by_code(code: u8) -> Option<JumpInstructionKind> {
    if code == 12 {
        Some(JumpInstructionKind::JUMP)
    } else if code == 13 {
        Some(JumpInstructionKind::CJUMP)
    } else {
        None
    }
}

pub open spec fn memory_kind_code(k: MemoryInstructionKind) -> u8 {
    match k {
        MemoryInstructionKind::Store => 14,
        MemoryInstructionKind::LoadStack => 15,
        MemoryInstructionKind::LoadConst => 16,
    }
}

pub open spec fn memory_kind_by_code(code: u8) -> Option<MemoryInstructionKind> {
    if code == 14 {
        Some(MemoryInstructionKind::Store)
    } else if code == 15 {
        Some(MemoryInstructionKind::LoadStack)
    } else if code == 16 {
        Some(MemoryInstructionKind::LoadConst)
    } else {
        None
    }
}

impl ALUInstructionKind {
    pub fn by_code(code: InstructionCode) -> (r: Option<ALUInstructionKind>)
        ensures
            r == alu_kind_by_code(code.0),
    {
        match code.0 {
            0 => Some(ALUInstructionKind::ADD),
            1 => Some(ALUInstructionKind::SUB),
            2 => Some(ALUInstructionKind::MUL),
            3 => Some(ALUInstructionKind::DIV),
            4 => Some(ALUInstructionKind::REM),
            5 => Some(ALUInstructionKind::SHL),
            6 => Some(ALUInstructionKind::SHR),
            7 => Some(ALUInstructionKind::EQ),
            8 => Some(ALUInstructionKind::LT),
            9 => Some(ALUInstructionKind::OR),
            10 => Some(ALUInstructionKind::AND),
            11 => Some(ALUInstructionKind::NOT),
            17 => Some(ALUInstructionKind::PRINT),
            _ => None,
        }
    }

    pub fn code(&self) -> (r: InstructionCode)
        ensures
            r == InstructionCode(alu_kind_code(*self)),
    {
        InstructionCode(
            match self {
                ALUInstructionKind::ADD => 0,
                ALUInstructionKind::SUB => 1,
                ALUInstructionKind::MUL => 2,
                ALUInstructionKind::DIV => 3,
                ALUInstructionKind::REM => 4,
                ALUInstructionKind::SHL => 5,
                ALUInstructionKind::SHR => 6,
                ALUInstructionKind::EQ => 7,
                ALUInstructionKind::LT => 8,
                ALUInstructionKind::OR => 9,
                ALUInstructionKind::AND => 10,
                ALUInstructionKind::NOT => 11,
                ALUInstructionKind::PRINT => 17,
            },
        )
    }
}

impl JumpInstructionKind {
    pub fn by_code(code: InstructionCode) -> (r: Option<JumpInstructionKind>)
        ensures
            r == jump_kind_by_code(code.0),
    {
        match code.0 {
            12 => Some(JumpInstructionKind::JUMP),
            13 => Some(JumpInstructionKind::CJUMP),
            _ => None,
        }
    }

    pub fn code(&self) -> (r: InstructionCode)
        ensures
            r == InstructionCode(jump_kind_code(*self)),
    {
        InstructionCode(
            match self {
                JumpInstructionKind::JUMP => 12,
                JumpInstructionKind::CJUMP => 13,
            },
        )
    }
}

impl MemoryInstructionKind {
    pub fn by_code(code: InstructionCode) -> (r: Option<MemoryInstructionKind>)
        ensures
            r == memory_kind_by_code(code.0),
    {
        match code.0 {
            14 => Some(MemoryInstructionKind::Store),
            15 => Some(MemoryInstructionKind::LoadStack),
            16 => Some(MemoryInstructionKind::LoadConst),
            _ => None,
        }
    }

    pub fn code(&self) -> (r: InstructionCode)
        ensures
            r == InstructionCode(memory_kind_code(*self)),
    {
        InstructionCode(
            match self {
                MemoryInstructionKind::Store => 14,
                MemoryInstructionKind::LoadStack => 15,
                MemoryInstructionKind::LoadConst => 16,
            },
        )
    }
}

#[derive(Copy, Clone, Debug, PartialEq, Eq, Structural)]
pub enum Instruction {
    ALUInstruction { kind: ALUInstructionKind, res: Register, lhs: Register, rhs: Register },
    JumpInstruction { kind: JumpInstructionKind, reg: Register, addr: Address },
    MemoryInstruction { kind: MemoryInstructionKind, reg: Register, reference: Reference },
}

/// The decoded form of an ALU instruction: register names from the first
/// three remainder bytes.
pub open spec fn make_alu_spec(kind: ALUInstructionKind, remainder: Seq<u8>) -> Instruction {
    Instruction::ALUInstruction {
        kind,
        res: Register(remainder[0]),
        lhs: Register(remainder[1]),
        rhs: Register(remainder[2]),
    }
}

/// The decoded form of a jump: a register name and a four-byte address.
pub open spec fn make_jump_spec(kind: JumpInstructionKind, remainder: Seq<u8>) -> Instruction {
    Instruction::JumpInstruction {
        kind,
        reg: Register(remainder[0]),
        addr: Address(le_bytes_to_i32(remainder[1], remainder[2], remainder[3], remainder[4])),
    }
}

/// The decoded form of a memory instruction: loads of constants address the
/// constant pool, stores and stack loads address the data cells.
pub open spec fn make_memory_spec(kind: MemoryInstructionKind, remainder: Seq<u8>) -> Instruction {
    let word = le_bytes_to_i32(remainder[1], remainder[2], remainder[3], remainder[4]);
    let reference = match kind {
        MemoryInstructionKind::LoadConst => Reference::AddressReference(Address(word)),
        MemoryInstructionKind::Store => Reference::StackReference(word as usize),
        MemoryInstructionKind::LoadStack => Reference::StackReference(word as usize),
    };
    Instruction::MemoryInstruction { kind, reg: Register(remainder[0]), reference }
}

impl Instruction {
    pub fn make_alu(kind: ALUInstructionKind, remainder: [u8; 5]) -> (r: Instruction)
        ensures
            r == make_alu_spec(kind, remainder@),
    {
        Instruction::ALUInstruction {
            kind,
            res: Register(remainder[0]),
            lhs: Register(remainder[1]),
            rhs: Register(remainder[2]),
        }
    }

    pub fn make_jump(kind: JumpInstructionKind, remainder: [u8; 5]) -> (r: Instruction)
        ensures
            r == make_jump_spec(kind, remainder@),
    {
        Instruction::JumpInstruction {
            kind,
            reg: Register(remainder[0]),
            addr: Address(i32_from_le(remainder[1], remainder[2], remainder[3], remainder[4])),
        }
    }

    pub fn make_memory(kind: MemoryInstructionKind, remainder: [u8; 5]) -> (r: Instruction)
        ensures
            r == make_memory_spec(kind, remainder@),
    {
        let reg = Register(remainder[0]);
        let word = i32_from_le(remainder[1], remainder[2], remainder[3], remainder[4]);
        let reference = match kind {
            MemoryInstructionKind::LoadConst => Reference::AddressReference(Address(word)),
            MemoryInstructionKind::Store => Reference::StackReference(word as usize),
            MemoryInstructionKind::LoadStack => Reference::StackReference(word as usize),
        };
        Instruction::MemoryInstruction { kind, reg, reference }
    }

    /// The six-byte encoding of this instruction: the kind's code byte, a
    /// register byte, and payload bytes, zero-padded.
    pub open spec fn buffer_bytes(self) -> Seq<u8> {
        match self {
            Instruction::ALUInstruction { kind, res, lhs, rhs } => seq![
                alu_kind_code(kind),
                res.0,
                lhs.0,
                rhs.0,
                0u8,
                0u8,
            ],
            Instruction::JumpInstruction { kind, reg, addr } => seq![
                jump_kind_code(kind),
                reg.0,
            ] + word_le_bytes(addr.0),
            Instruction::MemoryInstruction { kind, reg, reference } => seq![
                memory_kind_code(kind),
                reg.0,
            ] + reference.remainder_bytes(),
        }
    }

    pub fn create_buffer(&self) -> (r: [u8; 6])
        ensures
            r@ == self.buffer_bytes(),
    {
        let mut buffer: [u8; 6] = [0; 6];
        self.fill_buffer(&mut buffer);
        buffer
    }

    fn fill_buffer(&self, buffer: &mut [u8; 6])
        requires
            forall|i: int| 0 <= i < 6 ==> old(buffer)@[i] == 0,
        ensures
            final(buffer)@ == self.buffer_bytes(),
    {
        match self {
            Instruction::ALUInstruction { kind, res, lhs, rhs } => {
                buffer[0] = kind.code().0;
                buffer[1] = res.0;
                buffer[2] = lhs.0;
                buffer[3] = rhs.0;
                proof {
                    assert(buffer@ =~= self.buffer_bytes());
                }
            },
            Instruction::JumpInstruction { kind, reg, addr } => {
                buffer[0] = kind.code().0;
                buffer[1] = reg.0;
                let bytes = addr.create_remainder();
                buffer[2] = bytes[0];
                buffer[3] = bytes[1];
                buffer[4] = bytes[2];
                buffer[5] = bytes[3];
                proof {
                    assert(buffer@ =~= self.buffer_bytes());
                }
            },
            Instruction::MemoryInstruction { kind, reg, reference } => {
                buffer[0] = kind.code().0;
                buffer[1] = reg.0;
                let bytes = reference.create_remainder();
                buffer[2] = bytes[0];
                buffer[3] = bytes[1];
                buffer[4] = bytes[2];
                buffer[5] = bytes[3];
                proof {
                    assert(buffer@ =~= self.buffer_bytes());
                }
            },
        }
    }
}

} // verus!
