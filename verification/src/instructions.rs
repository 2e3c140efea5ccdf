//! The three instruction formats of the datapath's ISA and their bit-exact
//! big-endian encoding: `opcode[31:26] | rs[25:21] | rt[20:16]`, then
//! `rd[15:11] | funct[5:0]` for R-type, a 26-bit address for jumps, and a
//! 16-bit immediate for the I-type subset.

use vstd::prelude::*;

verus! {

#[derive(Copy, Clone, Debug, PartialEq, Eq, Structural)]
pub enum Instr {
    R(RType),
    J(JType),
    I(IType),
}

#[derive(Copy, Clone, Debug, PartialEq, Eq, Structural)]
pub struct RType {
    /// 5 bits.
    pub rs: u8,
    /// 5 bits.
    pub rt: u8,
    /// 5 bits.
    pub rd: u8,
    /// 6 bits.
    pub funct: u8,
}

#[derive(Copy, Clone, Debug, PartialEq, Eq, Structural)]
pub enum JType {
    Jmp { address: u32 },
}

#[derive(Copy, Clone, Debug, PartialEq, Eq, Structural)]
pub enum IType {
    Bne { rs: u8, rt: u8, imm: u16 },
    Beq { rs: u8, rt: u8, imm: u16 },
    Lw { rs: u8, rt: u8, imm: u16 },
    Sw { rs: u8, rt: u8, imm: u16 },
}

pub open spec fn truncated(reg: u8) -> u8 {
    reg & 0x1f
}

pub open spec fn encode_r_type(r: RType) -> u32 {
    (0u32 << 26) | ((truncated(r.rs) as u32) << 21) | ((truncated(r.rt) as u32) << 16) | ((
    truncated(r.rd) as u32) << 11) | (0u32 << 6) | (r.funct as u32)
}

pub open spec fn encode_j_type(j: JType) -> u32 {
    match j {
        JType::Jmp { address } => (2u32 << 26) | (address & 0x3ffffff),
    }
}

pub open spec fn i_type_opcode(i: IType) -> u32 {
    match i {
        IType::Bne { .. } => 4,
        IType::Beq { .. } => 5,
        IType::Lw { .. } => 34,
        IType::Sw { .. } => 43,
    }
}

pub open spec fn encode_i_type(i: IType) -> u32 {
    match i {
        IType::Bne { rs, rt, imm } => (4u32 << 26) | ((truncated(rs) as u32) << 21) | ((truncated(
            rt,
        ) as u32) << 16) | (imm as u32),
        IType::Beq { rs, rt, imm } => (5u32 << 26) | ((truncated(rs) as u32) << 21) | ((truncated(
            rt,
        ) as u32) << 16) | (imm as u32),
        IType::Lw { rs, rt, imm } => (34u32 << 26) | ((truncated(rs) as u32) << 21) | ((truncated(
            rt,
        ) as u32) << 16) | (imm as u32),
        IType::Sw { rs, rt, imm } => (43u32 << 26) | ((truncated(rs) as u32) << 21) | ((truncated(
            rt,
        ) as u32) << 16) | (imm as u32),
    }
}

/// The 32-bit word an instruction assembles to.
pub open spec fn encode_instr(i: Instr) -> u32 {
    match i {
        Instr::R(r) => encode_r_type(r),
        Instr::J(j) => encode_j_type(j),
        Instr::I(it) => encode_i_type(it),
    }
}

pub fn truncate_register(reg: u8) -> (r: u8)
    ensures
        r == truncated(reg),
        r < 32,
{
    proof {
        assert(reg & 0x1f < 32) by (bit_vector);
    }
    reg & 0x1f
}

pub fn transform_r_type(r_type: &RType) -> (w: u32)
    ensures
        w == encode_r_type(*r_type),
{
    let rs = truncate_register(r_type.rs) as u32;
    let rt = truncate_register(r_type.rt) as u32;
    let rd = truncate_register(r_type.rd) as u32;
    (0u32 << 26) | (rs << 21) | (rt << 16) | (rd << 11) | (0u32 << 6) | (r_type.funct as u32)
}

pub fn transform_j_type(j_type: &JType) -> (w: u32)
    ensures
        w == encode_j_type(*j_type),
{
    match j_type {
        JType::Jmp { address } => {
            let opcode = 2u32;
            (opcode << 26) | (*address & 0x3ffffff)
        },
    }
}

pub fn transform_i_type(i_type: &IType) -> (w: u32)
    ensures
        w == encode_i_type(*i_type),
{
    let (opcode, rs, rt, imm): (u32, u32, u32, u32) = match i_type {
        IType::Bne { rs, rt, imm } => (
            4u32,
            truncate_register(*rs) as u32,
            truncate_register(*rt) as u32,
            *imm as u32,
        ),
        IType::Beq { rs, rt, imm } => (
            5u32,
            truncate_register(*rs) as u32,
            truncate_register(*rt) as u32,
            *imm as u32,
        ),
        IType::Sw { rs, rt, imm } => (
            43u32,
            truncate_register(*rs) as u32,
            truncate_register(*rt) as u32,
            *imm as u32,
        ),
        IType::Lw { rs, rt, imm } => (
            34u32,
            truncate_register(*rs) as u32,
            truncate_register(*rt) as u32,
            *imm as u32,
        ),
    };
    (opcode << 26) | (rs << 21) | (rt << 16) | imm
}

/// Assembles one instruction to its 32-bit big-endian word.
pub fn transform_to_bytes(instr: &Instr) -> (w: u32)
    ensures
        w == encode_instr(*instr),
{
    match instr {
        Instr::R(r_type) => transform_r_type(r_type),
        Instr::J(j_type) => transform_j_type(j_type),
        Instr::I(i_type) => transform_i_type(i_type),
    }
}

} // verus!
