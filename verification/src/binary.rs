//! The assembler: turns stack-machine commands into datapath instruction
//! words, managing a constant pool, variable slots and label addresses.
//!
//! The operand stack lives in data memory behind a stack-pointer register;
//! each command expands to a fixed sequence of loads, stores and ALU
//! operations, pinned byte for byte by [`cmd_code`].

use vstd::prelude::*;
use std::collections::HashMap;
use crate::ast::{Ident, Ops};
use crate::instructions::{encode_instr, transform_to_bytes, IType, Instr, RType, JType};
use crate::stack_machine::{cmd_view, cmds_view, CommandView, Condition, Label, StackCommand};
use crate::words::{i32_be_bytes, push_i32_be, push_u32_be, u32_be_bytes};

verus! {

broadcast use vstd::std_specs::hash::group_hash_axioms;

/// The abstract state of the assembler: the constant pool with its index
/// map, the variable slots in insertion order, and the label addresses.
#[verifier::ext_equal]
pub ghost struct TransformerView {
    pub constants: Map<i32, usize>,
    pub order: Seq<i32>,
    pub vars: Seq<Seq<char>>,
    pub labels: Map<i32, usize>,
}

pub open spec fn idents_view(s: Seq<Ident>) -> Seq<Seq<char>> {
    s.map_values(|x: Ident| x@)
}

#[derive(Debug)]
pub struct SMTransformer {
    /// Maps each pooled constant to its offset in the pool.
    pub constants: HashMap<i32, usize>,
    pub constants_order: Vec<i32>,
    pub next_free_constant_offset: usize,
    /// Variable slots in insertion order; the index is the slot offset.
    pub variables: Vec<Ident>,
    pub next_free_variable_offset: usize,
    /// Maps each label id to the index of the instruction after it.
    pub labels: HashMap<i32, usize>,
}

impl View for SMTransformer {
    type V = TransformerView;

    open spec fn view(&self) -> TransformerView {
        TransformerView {
            constants: self.constants@,
            order: self.constants_order@,
            vars: idents_view(self.variables@),
            labels: self.labels@,
        }
    }
}

/// Appending a constant to the pool, whether or not it is already there.
pub open spec fn force_add_constant(v: TransformerView, x: i32) -> TransformerView {
    TransformerView {
        constants: v.constants.insert(x, v.order.len() as usize),
        order: v.order.push(x),
        ..v
    }
}

/// Pooling a constant: appended only when not pooled yet.
pub open spec fn add_constant(v: TransformerView, x: i32) -> TransformerView {
    if v.constants.contains_key(x) {
        v
    } else {
        force_add_constant(v, x)
    }
}

/// Registering a variable: appended only when unknown.
pub open spec fn add_variable(vars: Seq<Seq<char>>, id: Seq<char>) -> Seq<Seq<char>> {
    if vars.contains(id) {
        vars
    } else {
        vars.push(id)
    }
}

/// The pool after every constant of the program's tail is collected.
pub open spec fn collect_consts(v: TransformerView, cmds: Seq<CommandView>, i: int) -> TransformerView
    decreases cmds.len() - i,
{
    if i < 0 || i >= cmds.len() {
        v
    } else {
        let v1 = match cmds[i] {
            CommandView::Const(x) => add_constant(v, x),
            _ => v,
        };
        collect_consts(v1, cmds, i + 1)
    }
}

/// The variable slots after every identifier of the program's tail is
/// collected.
pub open spec fn collect_vars(vars: Seq<Seq<char>>, cmds: Seq<CommandView>, i: int) -> Seq<Seq<char>>
    decreases cmds.len() - i,
{
    if i < 0 || i >= cmds.len() {
        vars
    } else {
        let v1 = match cmds[i] {
            CommandView::Load(id) => add_variable(vars, id),
            CommandView::Store(id) => add_variable(vars, id),
            _ => vars,
        };
        collect_vars(v1, cmds, i + 1)
    }
}

/// How many instructions one command assembles to; labels take no room.
pub open spec fn compiled_size_spec(c: CommandView) -> nat {
    match c {
        CommandView::Print => 4,
        CommandView::Op(_) => 10,
        CommandView::Load(_) => 4,
        CommandView::Store(_) => 4,
        CommandView::Const(_) => 4,
        CommandView::Label(_) => 0,
        CommandView::Jmp(_) => 1,
        CommandView::ConditionalJump(_, _) => 5,
    }
}

/// The label addresses after the program's tail is walked: each label maps
/// to the index of the next instruction, counted from the two boot
/// instructions on.
pub open spec fn collect_labels_spec(
    labels: Map<i32, usize>,
    count: int,
    cmds: Seq<CommandView>,
    i: int,
) -> (Map<i32, usize>, int)
    decreases cmds.len() - i,
{
    if i < 0 || i >= cmds.len() {
        (labels, count)
    } else {
        match cmds[i] {
            CommandView::Label(l) => collect_labels_spec(
                labels.insert(l.id, count as usize),
                count,
                cmds,
                i + 1,
            ),
            _ => collect_labels_spec(labels, count + compiled_size_spec(cmds[i]), cmds, i + 1),
        }
    }
}

/// The four big-endian bytes one instruction assembles to.
pub open spec fn instr_code(i: Instr) -> Seq<u8> {
    u32_be_bytes(encode_instr(i))
}

/// The first slot holding this identifier.
pub open spec fn ident_first_index(vars: Seq<Seq<char>>, id: Seq<char>, i: int) -> int
    decreases vars.len() - i,
{
    if i < 0 || i >= vars.len() {
        vars.len() as int
    } else if vars[i] == id {
        i
    } else {
        ident_first_index(vars, id, i + 1)
    }
}

/// The ALU function code a source-language operator assembles to.
pub open spec fn op_funct(op: Ops) -> u8 {
    match op {
        Ops::Add => 32,
        Ops::Sub => 34,
        Ops::BitwiseAnd => 36,
        Ops::BitwiseOr => 37,
        Ops::BitwiseNor => 39,
    }
}

/// The byte offset of a pooled constant, as the 16-bit immediate field
/// carries it.
pub open spec fn const_imm(v: TransformerView, x: i32) -> u16 {
    (v.constants[x] as u16) << 2
}

/// Popping the operand stack into a register: load the word-size constant,
/// move the stack pointer down, read the top.
pub open spec fn pop_code(v: TransformerView, reg: u8) -> Seq<u8> {
    instr_code(Instr::I(IType::Lw { rs: 0, rt: 26, imm: const_imm(v, 4) })) + instr_code(
        Instr::R(RType { rs: 29, rt: 26, rd: 29, funct: 34 }),
    ) + instr_code(Instr::I(IType::Lw { rs: 29, rt: reg, imm: 0 }))
}

/// Pushing a register onto the operand stack: store at the top, load the
/// word-size constant, move the stack pointer up.
pub open spec fn push_code(v: TransformerView, reg: u8) -> Seq<u8> {
    instr_code(Instr::I(IType::Sw { rs: 29, rt: reg, imm: 0 })) + instr_code(
        Instr::I(IType::Lw { rs: 0, rt: 26, imm: const_imm(v, 4) }),
    ) + instr_code(Instr::R(RType { rs: 29, rt: 26, rd: 29, funct: 32 }))
}

pub open spec fn load_const_code(v: TransformerView, reg: u8, x: i32) -> Seq<u8> {
    instr_code(Instr::I(IType::Lw { rs: 0, rt: reg, imm: const_imm(v, x) }))
}

pub open spec fn load_var_code(v: TransformerView, reg: u8, id: Seq<char>) -> Seq<u8> {
    instr_code(
        Instr::I(
            IType::Lw {
                rs: 10,
                rt: reg,
                imm: (ident_first_index(v.vars, id, 0) as u16) << 2,
            },
        ),
    )
}

pub open spec fn save_var_code(v: TransformerView, reg: u8, id: Seq<char>) -> Seq<u8> {
    instr_code(
        Instr::I(
            IType::Sw {
                rs: 10,
                rt: reg,
                imm: (ident_first_index(v.vars, id, 0) as u16) << 2,
            },
        ),
    )
}

/// What one command assembles to, given the collected pools and labels.
pub open spec fn cmd_code(v: TransformerView, c: CommandView) -> Seq<u8> {
    match c {
        CommandView::Print => pop_code(v, 8) + instr_code(
            Instr::R(RType { rs: 8, rt: 0, rd: 0, funct: 0 }),
        ),
        CommandView::Op(op) => pop_code(v, 8) + pop_code(v, 9) + instr_code(
            Instr::R(RType { rs: 9, rt: 8, rd: 8, funct: op_funct(op) }),
        ) + push_code(v, 8),
        CommandView::Load(id) => load_var_code(v, 8, id) + push_code(v, 8),
        CommandView::Store(id) => pop_code(v, 8) + save_var_code(v, 8, id),
        CommandView::Const(x) => load_const_code(v, 8, x) + push_code(v, 8),
        CommandView::Label(_) => Seq::empty(),
        CommandView::Jmp(l) => instr_code(
            Instr::J(JType::Jmp { address: v.labels[l.id] as u32 }),
        ),
        CommandView::ConditionalJump(Condition::EqualsZero, l) => pop_code(v, 8) + instr_code(
            Instr::I(IType::Bne { rs: 8, rt: 0, imm: 1 }),
        ) + instr_code(Instr::J(JType::Jmp { address: v.labels[l.id] as u32 })),
        CommandView::ConditionalJump(Condition::NotEqualsZero, l) => pop_code(v, 8) + instr_code(
            Instr::I(IType::Beq { rs: 8, rt: 0, imm: 1 }),
        ) + instr_code(Instr::J(JType::Jmp { address: v.labels[l.id] as u32 })),
    }
}

/// What one command needs collected before it can assemble: its constant
/// pooled, its variable registered, its label placed; stack traffic needs
/// the word-size constant.
pub open spec fn cmd_refs_ok(v: TransformerView, c: CommandView) -> bool {
    match c {
        CommandView::Print => v.constants.contains_key(4),
        CommandView::Op(_) => v.constants.contains_key(4),
        CommandView::Load(id) => v.constants.contains_key(4) && v.vars.contains(id),
        CommandView::Store(id) => v.constants.contains_key(4) && v.vars.contains(id),
        CommandView::Const(x) => v.constants.contains_key(4) && v.constants.contains_key(x),
        CommandView::Label(_) => true,
        CommandView::Jmp(l) => v.labels.contains_key(l.id),
        CommandView::ConditionalJump(_, l) => v.constants.contains_key(4)
            && v.labels.contains_key(l.id),
    }
}

/// The two boot instructions: the variable base register and the stack
/// pointer get their offsets from the pool.
pub open spec fn loader_code(v: TransformerView, variables: nat) -> Seq<u8> {
    load_const_code(v, 10, ((v.order.len() * 4) as i32)) + load_const_code(
        v,
        29,
        (((variables + v.order.len()) * 4) as i32),
    )
}

/// The code for the program's tail, command by command.
pub open spec fn program_code(v: TransformerView, cmds: Seq<CommandView>, i: int) -> Seq<u8>
    decreases cmds.len() - i,
{
    if i < 0 || i >= cmds.len() {
        Seq::empty()
    } else {
        cmd_code(v, cmds[i]) + program_code(v, cmds, i + 1)
    }
}

/// The constant pool as bytes, one big-endian word per constant.
pub open spec fn consts_bytes(order: Seq<i32>, i: int) -> Seq<u8>
    decreases order.len() - i,
{
    if i < 0 || i >= order.len() {
        Seq::empty()
    } else {
        i32_be_bytes(order[i]) + consts_bytes(order, i + 1)
    }
}

/// Every jump in the program aims at a label the program declares.
pub open spec fn jump_targets_declared(cmds: Seq<CommandView>) -> bool {
    forall|k: int| 0 <= k < cmds.len() ==> jump_target_ok(cmds, #[trigger] cmds[k])
}

pub open spec fn jump_target_ok(cmds: Seq<CommandView>, c: CommandView) -> bool {
    match c {
        CommandView::Jmp(l) => has_label(cmds, l),
        CommandView::ConditionalJump(_, l) => has_label(cmds, l),
        _ => true,
    }
}

pub open spec fn has_label(cmds: Seq<CommandView>, l: Label) -> bool {
    exists|j: int| 0 <= j < cmds.len() && cmds[j] == CommandView::Label(l)
}

/// The assembler state after the whole collection pipeline: the variable
/// count is taken first, the constants are pooled, the stack and variable
/// base offsets are appended to the pool, the variables are registered and
/// the labels placed.
pub open spec fn transform_pipeline(v: TransformerView, cmds: Seq<CommandView>) -> TransformerView {
    let n_vars = collect_vars(Seq::empty(), cmds, 0).len();
    let v1 = collect_consts(v, cmds, 0);
    let val1 = (((v1.order.len() + 2 + n_vars) * 4) as i32);
    let v2 = force_add_constant(v1, val1);
    let val2 = (((v2.order.len() + 1) * 4) as i32);
    let v3 = force_add_constant(v2, val2);
    TransformerView {
        constants: v3.constants,
        order: v3.order,
        vars: collect_vars(v.vars, cmds, 0),
        labels: collect_labels_spec(v.labels, 2, cmds, 0).0,
    }
}

impl SMTransformer {
    pub open spec fn wf(&self) -> bool {
        &&& self.next_free_constant_offset == self.constants_order@.len()
        &&& self.next_free_variable_offset == self.variables@.len()
    }

    /// A fresh assembler: the word-size constant 4 is pooled first, for the
    /// stack-pointer arithmetic.
    pub fn new() -> (r: SMTransformer)
        ensures
            r.wf(),
            r@.constants == Map::<i32, usize>::empty().insert(4, 0),
            r@.order == seq![4i32],
            r@.vars == Seq::<Seq<char>>::empty(),
            r@.labels == Map::<i32, usize>::empty(),
    {
        let mut res = SMTransformer {
            constants: HashMap::new(),
            constants_order: Vec::new(),
            variables: Vec::new(),
            labels: HashMap::new(),
            next_free_variable_offset: 0,
            next_free_constant_offset: 0,
        };
        res.push_constant(&4);
        proof {
            assert(res@.order =~= seq![4i32]);
            assert(res@.vars =~= Seq::<Seq<char>>::empty());
        }
        res
    }

    pub fn push_constant(&mut self, constant: &i32)
        requires
            old(self).wf(),
            old(self).constants_order@.len() < usize::MAX,
        ensures
            final(self).wf(),
            final(self)@ == add_constant(old(self)@, *constant),
    {
        if self.constants.contains_key(constant) {
            return ;
        }
        self.force_push_constant(constant);
    }

    pub fn force_push_constant(&mut self, constant: &i32)
        requires
            old(self).wf(),
            old(self).constants_order@.len() < usize::MAX,
        ensures
            final(self).wf(),
            final(self)@ == force_add_constant(old(self)@, *constant),
    {
        self.constants.insert(*constant, self.next_free_constant_offset);
        self.constants_order.push(*constant);
        self.next_free_constant_offset = self.next_free_constant_offset + 1;
    }

    pub fn push_identifier(&mut self, ident: &Ident)
        requires
            old(self).wf(),
            old(self)@.vars.len() < usize::MAX,
        ensures
            final(self).wf(),
            final(self)@ == (TransformerView {
                vars: add_variable(old(self)@.vars, ident@),
                ..old(self)@
            }),
    {
        proof {
            assert(self@.vars.len() == self.variables@.len());
        }
        if idents_contain(&self.variables, ident) {
            proof {
                assert(self@ =~~= (TransformerView {
                    vars: add_variable(old(self)@.vars, ident@),
                    ..old(self)@
                }));
            }
            return ;
        }
        self.variables.push(ident.clone());
        self.next_free_variable_offset = self.next_free_variable_offset + 1;
        proof {
            assert(self@.vars =~= add_variable(old(self)@.vars, ident@));
        }
    }

    fn push_label(&mut self, label: &Label, id: usize)
        ensures
            final(self)@ == (TransformerView {
                labels: old(self)@.labels.insert(label.id, id),
                ..old(self)@
            }),
            final(self).wf() == old(self).wf(),
            final(self).constants_order@ == old(self).constants_order@,
            final(self).variables@ == old(self).variables@,
    {
        self.labels.insert(label.id, id);
    }

    pub fn collect_constants(&mut self, program: &Vec<StackCommand>)
        requires
            old(self).wf(),
            old(self).constants_order@.len() + program@.len() < usize::MAX,
        ensures
            final(self).wf(),
            final(self)@ == collect_consts(old(self)@, cmds_view(program@), 0),
            final(self).constants_order@.len() <= old(self).constants_order@.len()
                + program@.len(),
    {
        let ghost cmds = cmds_view(program@);
        let ghost v0 = self@;
        let mut i: usize = 0;
        while i < program.len()
            invariant
                i <= program@.len(),
                cmds == cmds_view(program@),
                self.wf(),
                self.constants_order@.len() <= v0.order.len() + i,
                v0.order.len() + program@.len() < usize::MAX,
                collect_consts(v0, cmds, 0) == collect_consts(self@, cmds, i as int),
            decreases program@.len() - i,
        {
            match &program[i] {
                StackCommand::Const(x) => {
                    proof {
                        assert(cmds[i as int] == cmd_view(program@[i as int]));
                    }
                    self.push_constant(x);
                },
                _ => {
                    proof {
                        assert(cmds[i as int] == cmd_view(program@[i as int]));
                    }
                },
            }
            i = i + 1;
        }
    }

    pub fn collect_identifiers(&mut self, program: &Vec<StackCommand>)
        requires
            old(self).wf(),
            old(self)@.vars.len() + program@.len() < usize::MAX,
        ensures
            final(self).wf(),
            final(self)@ == (TransformerView {
                vars: collect_vars(old(self)@.vars, cmds_view(program@), 0),
                ..old(self)@
            }),
            final(self)@.vars.len() <= old(self)@.vars.len() + program@.len(),
    {
        let ghost cmds = cmds_view(program@);
        let ghost v0 = self@;
        let mut i: usize = 0;
        while i < program.len()
            invariant
                i <= program@.len(),
                cmds == cmds_view(program@),
                self.wf(),
                self@.vars.len() <= v0.vars.len() + i,
                v0.vars.len() + program@.len() < usize::MAX,
                self@.constants == v0.constants,
                self@.order == v0.order,
                self@.labels == v0.labels,
                collect_vars(v0.vars, cmds, 0) == collect_vars(self@.vars, cmds, i as int),
            decreases program@.len() - i,
        {
            proof {
                assert(cmds[i as int] == cmd_view(program@[i as int]));
            }
            match &program[i] {
                StackCommand::Load(id) => self.push_identifier(id),
                StackCommand::Store(id) => self.push_identifier(id),
                _ => {},
            }
            i = i + 1;
        }
    }

    /// How many distinct variables the program names.
    pub fn number_of_identifiers(&self, program: &Vec<StackCommand>) -> (r: usize)
        requires
            program@.len() < usize::MAX,
        ensures
            r == collect_vars(Seq::empty(), cmds_view(program@), 0).len(),
    {
        let ghost cmds = cmds_view(program@);
        let mut result: Vec<Ident> = Vec::new();
        proof {
            assert(idents_view(result@) =~= Seq::<Seq<char>>::empty());
        }
        let mut i: usize = 0;
        while i < program.len()
            invariant
                i <= program@.len(),
                cmds == cmds_view(program@),
                result@.len() <= i,
                program@.len() < usize::MAX,
                collect_vars(Seq::empty(), cmds, 0) == collect_vars(
                    idents_view(result@),
                    cmds,
                    i as int,
                ),
            decreases program@.len() - i,
        {
            proof {
                assert(cmds[i as int] == cmd_view(program@[i as int]));
            }
            match &program[i] {
                StackCommand::Load(id) => {
                    let ghost before = idents_view(result@);
                    if !idents_contain(&result, id) {
                        result.push(id.clone());
                        proof {
                            assert(idents_view(result@) =~= add_variable(before, id@));
                        }
                    }
                },
                StackCommand::Store(id) => {
                    let ghost before = idents_view(result@);
                    if !idents_contain(&result, id) {
                        result.push(id.clone());
                        proof {
                            assert(idents_view(result@) =~= add_variable(before, id@));
                        }
                    }
                },
                _ => {},
            }
            i = i + 1;
        }
        result.len()
    }

    /// How many instructions one command assembles to.
    pub fn compiled_size(instr: &StackCommand) -> (r: usize)
        ensures
            r == compiled_size_spec(cmd_view(*instr)),
    {
        let stack_pop_size: usize = 3;
        let stack_push_size: usize = 3;
        match instr {
            StackCommand::Print => stack_pop_size + 1,
            StackCommand::Op(_) => 2 * stack_pop_size + 1 + stack_push_size,
            StackCommand::Load(_) => stack_push_size + 1,
            StackCommand::Store(_) => stack_pop_size + 1,
            StackCommand::Const(_) => stack_push_size + 1,
            StackCommand::Label(_) => 0,
            StackCommand::Jmp(_) => 1,
            StackCommand::ConditionalJump(_, _) => stack_pop_size + 2,
        }
    }

    pub fn collect_labels(&mut self, program: &Vec<StackCommand>)
        requires
            old(self).wf(),
            program@.len() * 13 + 2 <= usize::MAX,
        ensures
            final(self).wf(),
            final(self)@ == (TransformerView {
                labels: collect_labels_spec(old(self)@.labels, 2, cmds_view(program@), 0).0,
                ..old(self)@
            }),
    {
        let ghost cmds = cmds_view(program@);
        let ghost v0 = self@;
        let mut meaningful_instructions: usize = 2;
        let mut i: usize = 0;
        while i < program.len()
            invariant
                i <= program@.len(),
                cmds == cmds_view(program@),
                self.wf(),
                program@.len() * 13 + 2 <= usize::MAX,
                meaningful_instructions <= 2 + 13 * i,
                self@.constants == v0.constants,
                self@.order == v0.order,
                self@.vars == v0.vars,
                self.constants_order@ == old(self).constants_order@,
                self.variables@ == old(self).variables@,
                collect_labels_spec(v0.labels, 2, cmds, 0) == collect_labels_spec(
                    self@.labels,
                    meaningful_instructions as int,
                    cmds,
                    i as int,
                ),
            decreases program@.len() - i,
        {
            proof {
                assert(cmds[i as int] == cmd_view(program@[i as int]));
                assert(13 * i + 13 <= 13 * program@.len()) by (nonlinear_arith)
                    requires
                        i < program@.len(),
                ;
            }
            match &program[i] {
                StackCommand::Label(l) => self.push_label(l, meaningful_instructions),
                other => {
                    let size = Self::compiled_size(other);
                    meaningful_instructions = meaningful_instructions + size;
                },
            }
            i = i + 1;
        }
    }

    pub fn pop_from_stack_into(&self, reg: u8) -> (r: Vec<u8>)
        requires
            self@.constants.contains_key(4),
        ensures
            r@ == pop_code(self@, reg),
    {
        let four_index = (*hash_get(&self.constants, &4)) as u16;
        let load = Instr::I(IType::Lw { rs: 29, rt: reg, imm: 0 });
        let load_one = Instr::I(IType::Lw { rs: 0, rt: 26, imm: four_index << 2 });
        let sub = Instr::R(RType { rs: 29, rt: 26, rd: 29, funct: 34 });
        let mut result: Vec<u8> = Vec::new();
        push_u32_be(&mut result, transform_to_bytes(&load_one));
        push_u32_be(&mut result, transform_to_bytes(&sub));
        push_u32_be(&mut result, transform_to_bytes(&load));
        proof {
            assert(result@ =~= pop_code(self@, reg));
        }
        result
    }

    pub fn push_into_stack(&self, reg: u8) -> (r: Vec<u8>)
        requires
            self@.constants.contains_key(4),
        ensures
            r@ == push_code(self@, reg),
    {
        let four_index = (*hash_get(&self.constants, &4)) as u16;
        let save = Instr::I(IType::Sw { rs: 29, rt: reg, imm: 0 });
        let load_one = Instr::I(IType::Lw { rs: 0, rt: 26, imm: four_index << 2 });
        let add_sp = Instr::R(RType { rs: 29, rt: 26, rd: 29, funct: 32 });
        let mut result: Vec<u8> = Vec::new();
        push_u32_be(&mut result, transform_to_bytes(&save));
        push_u32_be(&mut result, transform_to_bytes(&load_one));
        push_u32_be(&mut result, transform_to_bytes(&add_sp));
        proof {
            assert(result@ =~= push_code(self@, reg));
        }
        result
    }

    pub fn load_const_to(&self, reg: u8, x: i32) -> (r: Vec<u8>)
        requires
            self@.constants.contains_key(x),
        ensures
            r@ == load_const_code(self@, reg, x),
    {
        let index = (*hash_get(&self.constants, &x)) as u16;
        let load = Instr::I(IType::Lw { rs: 0, rt: reg, imm: index << 2 });
        let mut result: Vec<u8> = Vec::new();
        push_u32_be(&mut result, transform_to_bytes(&load));
        proof {
            assert(result@ =~= load_const_code(self@, reg, x));
        }
        result
    }

    pub fn load_variable_to(&self, reg: u8, ident: &Ident) -> (r: Vec<u8>)
        requires
            self@.vars.contains(ident@),
        ensures
            r@ == load_var_code(self@, reg, ident@),
    {
        let index = ident_index(&self.variables, ident) as u16;
        let load = Instr::I(IType::Lw { rs: 10, rt: reg, imm: index << 2 });
        let mut result: Vec<u8> = Vec::new();
        push_u32_be(&mut result, transform_to_bytes(&load));
        proof {
            assert(result@ =~= load_var_code(self@, reg, ident@));
        }
        result
    }

    pub fn save_variable_from(&self, reg: u8, ident: &Ident) -> (r: Vec<u8>)
        requires
            self@.vars.contains(ident@),
        ensures
            r@ == save_var_code(self@, reg, ident@),
    {
        let index = ident_index(&self.variables, ident) as u16;
        let save = Instr::I(IType::Sw { rs: 10, rt: reg, imm: index << 2 });
        let mut result: Vec<u8> = Vec::new();
        push_u32_be(&mut result, transform_to_bytes(&save));
        proof {
            assert(result@ =~= save_var_code(self@, reg, ident@));
        }
        result
    }

    pub fn get_r_type_operation(op: &Ops, rs: u8, rt: u8, rd: u8) -> (r: Vec<u8>)
        ensures
            r@ == instr_code(Instr::R(RType { rs, rt, rd, funct: op_funct(*op) })),
    {
        let funct: u8 = match op {
            Ops::Add => 32,
            Ops::Sub => 34,
            Ops::BitwiseAnd => 36,
            Ops::BitwiseOr => 37,
            Ops::BitwiseNor => 39,
        };
        let instr = Instr::R(RType { rs, rt, rd, funct });
        let mut result: Vec<u8> = Vec::new();
        push_u32_be(&mut result, transform_to_bytes(&instr));
        proof {
            assert(result@ =~= instr_code(Instr::R(RType { rs, rt, rd, funct: op_funct(*op) })));
        }
        result
    }

    pub fn get_label_address(&self, l: &Label) -> (r: u32)
        requires
            self@.labels.contains_key(l.id),
        ensures
            r == self@.labels[l.id] as u32,
    {
        let next_instruction_index = (*hash_get(&self.labels, &l.id)) as u32;
        next_instruction_index
    }

    /// Assembles one command, given its references are collected.
    pub fn transform_instruction(&self, instruction: &StackCommand) -> (r: Vec<u8>)
        requires
            cmd_refs_ok(self@, cmd_view(*instruction)),
        ensures
            r@ == cmd_code(self@, cmd_view(*instruction)),
    {
        match instruction {
            StackCommand::Print => {
                let mut result = self.pop_from_stack_into(8);
                let print_instr = Instr::R(RType { rs: 8, rt: 0, rd: 0, funct: 0 });
                push_u32_be(&mut result, transform_to_bytes(&print_instr));
                proof {
                    assert(result@ =~= cmd_code(self@, cmd_view(*instruction)));
                }
                result
            },
            StackCommand::Op(op) => {
                let mut result = self.pop_from_stack_into(8);
                let mut load_2 = self.pop_from_stack_into(9);
                let mut op_code = Self::get_r_type_operation(op, 9, 8, 8);
                let mut push = self.push_into_stack(8);
                result.append(&mut load_2);
                result.append(&mut op_code);
                result.append(&mut push);
                proof {
                    assert(result@ =~= cmd_code(self@, cmd_view(*instruction)));
                }
                result
            },
            StackCommand::Load(id) => {
                let mut result = self.load_variable_to(8, id);
                let mut push = self.push_into_stack(8);
                result.append(&mut push);
                proof {
                    assert(result@ =~= cmd_code(self@, cmd_view(*instruction)));
                }
                result
            },
            StackCommand::Store(id) => {
                let mut result = self.pop_from_stack_into(8);
                let mut save = self.save_variable_from(8, id);
                result.append(&mut save);
                proof {
                    assert(result@ =~= cmd_code(self@, cmd_view(*instruction)));
                }
                result
            },
            StackCommand::Const(num) => {
                let mut result = self.load_const_to(8, *num);
                let mut push = self.push_into_stack(8);
                result.append(&mut push);
                proof {
                    assert(result@ =~= cmd_code(self@, cmd_view(*instruction)));
                }
                result
            },
            StackCommand::Label(_) => {
                let result: Vec<u8> = Vec::new();
                proof {
                    assert(result@ =~= cmd_code(self@, cmd_view(*instruction)));
                }
                result
            },
            StackCommand::Jmp(l) => {
                let jump = Instr::J(JType::Jmp { address: self.get_label_address(l) });
                let mut result: Vec<u8> = Vec::new();
                push_u32_be(&mut result, transform_to_bytes(&jump));
                proof {
                    assert(result@ =~= cmd_code(self@, cmd_view(*instruction)));
                }
                result
            },
            StackCommand::ConditionalJump(Condition::EqualsZero, l) => {
                // Branch over the jump when the popped value is not zero.
                let mut result = self.pop_from_stack_into(8);
                let branch = Instr::I(IType::Bne { rs: 8, rt: 0, imm: 1 });
                push_u32_be(&mut result, transform_to_bytes(&branch));
                let jump = Instr::J(JType::Jmp { address: self.get_label_address(l) });
                push_u32_be(&mut result, transform_to_bytes(&jump));
                proof {
                    assert(result@ =~= cmd_code(self@, cmd_view(*instruction)));
                }
                result
            },
            StackCommand::ConditionalJump(Condition::NotEqualsZero, l) => {
                // Branch over the jump when the popped value is zero.
                let mut result = self.pop_from_stack_into(8);
                let branch = Instr::I(IType::Beq { rs: 8, rt: 0, imm: 1 });
                push_u32_be(&mut result, transform_to_bytes(&branch));
                let jump = Instr::J(JType::Jmp { address: self.get_label_address(l) });
                push_u32_be(&mut result, transform_to_bytes(&jump));
                proof {
                    assert(result@ =~= cmd_code(self@, cmd_view(*instruction)));
                }
                result
            },
        }
    }

    /// The boot code: point the variable base register past the constant
    /// pool, and the stack pointer past the variables.
    pub fn get_loader_code(&self, variables: usize) -> (r: Vec<u8>)
        requires
            self.constants_order@.len() * 4 <= i32::MAX,
            (variables + self.constants_order@.len()) * 4 <= i32::MAX,
            self@.constants.contains_key(((self.constants_order@.len() * 4) as i32)),
            self@.constants.contains_key((((variables + self.constants_order@.len()) * 4) as i32)),
        ensures
            r@ == loader_code(self@, variables as nat),
    {
        let variables_offset = (self.constants_order.len() as i32) * 4;
        let stack_offset = ((variables + self.constants_order.len()) as i32) * 4;
        let mut result = self.load_const_to(10, variables_offset);
        let mut stack = self.load_const_to(29, stack_offset);
        result.append(&mut stack);
        proof {
            assert(result@ =~= loader_code(self@, variables as nat));
        }
        result
    }

    /// Assembles a whole program: collects constants, variables and labels,
    /// then emits the constant pool image and the boot-plus-program code.
    pub fn transform_program(&mut self, program: &Vec<StackCommand>) -> (r: (Vec<u8>, Vec<u8>))
        requires
            old(self).wf(),
            old(self)@.constants.contains_key(4),
            old(self)@.order.len() + program@.len() + 3 <= 0x100_0000,
            old(self)@.vars.len() + program@.len() <= 0x100_0000,
            jump_targets_declared(cmds_view(program@)),
        ensures
            final(self).wf(),
            final(self)@ == transform_pipeline(old(self)@, cmds_view(program@)),
            r.0@ == consts_bytes(final(self)@.order, 0),
            r.1@ == loader_code(
                final(self)@,
                collect_vars(Seq::empty(), cmds_view(program@), 0).len(),
            ) + program_code(final(self)@, cmds_view(program@), 0),
    {
        let ghost cmds = cmds_view(program@);
        let ghost v0 = self@;
        let variables = self.number_of_identifiers(program);
        proof {
            lemma_collect_vars_len(Seq::empty(), cmds, 0);
        }
        self.collect_constants(program);
        proof {
            lemma_collect_consts_order_len(v0, cmds, 0);
            lemma_collect_consts_preserves(v0, cmds, 0, 4);
        }
        let val1 = ((self.constants_order.len() + 2 + variables) as i32) * 4;
        self.force_push_constant(&val1);
        let val2 = ((self.constants_order.len() + 1) as i32) * 4;
        self.force_push_constant(&val2);
        self.collect_identifiers(program);
        self.collect_labels(program);
        let ghost vfin = self@;
        proof {
            assert(vfin =~~= transform_pipeline(v0, cmds));
        }

        let mut constants_result: Vec<u8> = Vec::new();
        let mut i: usize = 0;
        while i < self.constants_order.len()
            invariant
                i <= self.constants_order@.len(),
                consts_bytes(self.constants_order@, 0) =~= constants_result@ + consts_bytes(
                    self.constants_order@,
                    i as int,
                ),
            decreases self.constants_order@.len() - i,
        {
            let c = self.constants_order[i];
            push_i32_be(&mut constants_result, c);
            i = i + 1;
        }
        proof {
            assert(constants_result@ =~= consts_bytes(self@.order, 0));
        }

        proof {
            lemma_pipeline_loader_keys(v0, cmds);
        }
        let mut code_result = self.get_loader_code(variables);
        let ghost loader = code_result@;
        let mut k: usize = 0;
        while k < program.len()
            invariant
                k <= program@.len(),
                cmds == cmds_view(program@),
                self@ == vfin,
                self.wf(),
                vfin == transform_pipeline(v0, cmds),
                jump_targets_declared(cmds),
                v0.constants.contains_key(4),
                loader + program_code(vfin, cmds, 0) =~= code_result@ + program_code(
                    vfin,
                    cmds,
                    k as int,
                ),
            decreases program@.len() - k,
        {
            proof {
                assert(cmds[k as int] == cmd_view(program@[k as int]));
                lemma_pipeline_cmd_refs(v0, cmds, k as int);
                lemma_program_code_step(vfin, cmds, k as int);
            }
            let mut piece = self.transform_instruction(&program[k]);
            code_result.append(&mut piece);
            k = k + 1;
        }
        proof {
            assert(code_result@ =~= loader + program_code(vfin, cmds, 0));
        }
        (constants_result, code_result)
    }
}

/// Whether a slot list holds an identifier.
fn idents_contain(vars: &Vec<Ident>, id: &Ident) -> (r: bool)
    ensures
        r == idents_view(vars@).contains(id@),
{
    let mut i: usize = 0;
    while i < vars.len()
        invariant
            i <= vars@.len(),
            forall|j: int| 0 <= j < i ==> idents_view(vars@)[j] != id@,
        decreases vars@.len() - i,
    {
        if vars[i].0 == id.0 {
            proof {
                assert(idents_view(vars@)[i as int] == id@);
            }
            return true;
        }
        i = i + 1;
    }
    proof {
        assert(!idents_view(vars@).contains(id@)) by {
            if idents_view(vars@).contains(id@) {
                let j = choose|j: int|
                    0 <= j < idents_view(vars@).len() && idents_view(vars@)[j] == id@;
            }
        }
    }
    false
}

/// The first slot holding an identifier.
fn ident_index(vars: &Vec<Ident>, id: &Ident) -> (r: usize)
    requires
        idents_view(vars@).contains(id@),
    ensures
        r == ident_first_index(idents_view(vars@), id@, 0),
        r < vars@.len(),
{
    let mut i: usize = 0;
    while i < vars.len()
        invariant
            i <= vars@.len(),
            forall|j: int| 0 <= j < i ==> idents_view(vars@)[j] != id@,
            idents_view(vars@).contains(id@),
            ident_first_index(idents_view(vars@), id@, 0) == ident_first_index(
                idents_view(vars@),
                id@,
                i as int,
            ),
        decreases vars@.len() - i,
    {
        if vars[i].0 == id.0 {
            proof {
                assert(idents_view(vars@)[i as int] == id@);
            }
            return i;
        }
        i = i + 1;
    }
    proof {
        let j = choose|j: int|
            0 <= j < idents_view(vars@).len() && idents_view(vars@)[j] == id@;
        assert(false);
    }
    0
}

/// Looks a pooled constant up; shared by the emission helpers.
fn hash_get<'a>(m: &'a HashMap<i32, usize>, key: &i32) -> (r: &'a usize)
    requires
        m@.contains_key(*key),
    ensures
        *r == m@[*key],
{
    m.get(key).unwrap()
}

/// Collecting constants never removes a pooled one.
pub proof fn lemma_collect_consts_preserves(
    v: TransformerView,
    cmds: Seq<CommandView>,
    i: int,
    key: i32,
)
    requires
        v.constants.contains_key(key),
    ensures
        collect_consts(v, cmds, i).constants.contains_key(key),
    decreases cmds.len() - i,
{
    if 0 <= i < cmds.len() {
        let v1 = match cmds[i] {
            CommandView::Const(x) => add_constant(v, x),
            _ => v,
        };
        lemma_collect_consts_preserves(v1, cmds, i + 1, key);
    }
}

/// Collecting constants grows the pool by at most one slot per command.
pub proof fn lemma_collect_consts_order_len(v: TransformerView, cmds: Seq<CommandView>, i: int)
    ensures
        collect_consts(v, cmds, i).order.len() <= v.order.len() + (if i < cmds.len() {
            cmds.len() - i
        } else {
            0
        }),
        collect_consts(v, cmds, i).vars == v.vars,
        collect_consts(v, cmds, i).labels == v.labels,
    decreases cmds.len() - i,
{
    if 0 <= i < cmds.len() {
        let v1 = match cmds[i] {
            CommandView::Const(x) => add_constant(v, x),
            _ => v,
        };
        lemma_collect_consts_order_len(v1, cmds, i + 1);
    }
}

/// Every constant the program's tail names is pooled afterwards.
pub proof fn lemma_collect_consts_has(v: TransformerView, cmds: Seq<CommandView>, i: int, k: int)
    requires
        i <= k < cmds.len(),
        0 <= i,
        cmds[k] is Const,
    ensures
        collect_consts(v, cmds, i).constants.contains_key(cmds[k]->Const_0),
    decreases cmds.len() - i,
{
    let v1 = match cmds[i] {
        CommandView::Const(x) => add_constant(v, x),
        _ => v,
    };
    if i == k {
        lemma_collect_consts_preserves(v1, cmds, i + 1, cmds[k]->Const_0);
    } else {
        lemma_collect_consts_has(v1, cmds, i + 1, k);
    }
}

/// Registering variables never loses one, and every named variable is
/// registered afterwards.
pub proof fn lemma_collect_vars_preserves(
    vars: Seq<Seq<char>>,
    cmds: Seq<CommandView>,
    i: int,
    id: Seq<char>,
)
    requires
        vars.contains(id),
    ensures
        collect_vars(vars, cmds, i).contains(id),
    decreases cmds.len() - i,
{
    if 0 <= i < cmds.len() {
        let v1 = match cmds[i] {
            CommandView::Load(x) => add_variable(vars, x),
            CommandView::Store(x) => add_variable(vars, x),
            _ => vars,
        };
        assert(v1.contains(id)) by {
            let j = choose|j: int| 0 <= j < vars.len() && vars[j] == id;
            assert(v1[j] == id);
        }
        lemma_collect_vars_preserves(v1, cmds, i + 1, id);
    }
}

pub proof fn lemma_collect_vars_has(
    vars: Seq<Seq<char>>,
    cmds: Seq<CommandView>,
    i: int,
    k: int,
    id: Seq<char>,
)
    requires
        i <= k < cmds.len(),
        0 <= i,
        cmds[k] == CommandView::Load(id) || cmds[k] == CommandView::Store(id),
    ensures
        collect_vars(vars, cmds, i).contains(id),
    decreases cmds.len() - i,
{
    let v1 = match cmds[i] {
        CommandView::Load(x) => add_variable(vars, x),
        CommandView::Store(x) => add_variable(vars, x),
        _ => vars,
    };
    if i == k {
        assert(v1.contains(id)) by {
            if !vars.contains(id) {
                assert(v1[vars.len() as int] == id);
            } else {
                assert(v1 == vars);
            }
        }
        lemma_collect_vars_preserves(v1, cmds, i + 1, id);
    } else {
        lemma_collect_vars_has(v1, cmds, i + 1, k, id);
    }
}

/// Registering variables grows the slots by at most one per command.
pub proof fn lemma_collect_vars_len(vars: Seq<Seq<char>>, cmds: Seq<CommandView>, i: int)
    ensures
        collect_vars(vars, cmds, i).len() <= vars.len() + (if i < cmds.len() {
            cmds.len() - i
        } else {
            0
        }),
    decreases cmds.len() - i,
{
    if 0 <= i < cmds.len() {
        let v1 = match cmds[i] {
            CommandView::Load(x) => add_variable(vars, x),
            CommandView::Store(x) => add_variable(vars, x),
            _ => vars,
        };
        lemma_collect_vars_len(v1, cmds, i + 1);
    }
}

/// Placing labels never loses one, and every declared label is placed
/// afterwards.
pub proof fn lemma_collect_labels_preserves(
    labels: Map<i32, usize>,
    count: int,
    cmds: Seq<CommandView>,
    i: int,
    key: i32,
)
    requires
        labels.contains_key(key),
    ensures
        collect_labels_spec(labels, count, cmds, i).0.contains_key(key),
    decreases cmds.len() - i,
{
    if 0 <= i < cmds.len() {
        match cmds[i] {
            CommandView::Label(l) => lemma_collect_labels_preserves(
                labels.insert(l.id, count as usize),
                count,
                cmds,
                i + 1,
                key,
            ),
            _ => lemma_collect_labels_preserves(
                labels,
                count + compiled_size_spec(cmds[i]),
                cmds,
                i + 1,
                key,
            ),
        }
    }
}

pub proof fn lemma_collect_labels_has(
    labels: Map<i32, usize>,
    count: int,
    cmds: Seq<CommandView>,
    i: int,
    k: int,
    l: Label,
)
    requires
        i <= k < cmds.len(),
        0 <= i,
        cmds[k] == CommandView::Label(l),
    ensures
        collect_labels_spec(labels, count, cmds, i).0.contains_key(l.id),
    decreases cmds.len() - i,
{
    if i == k {
        lemma_collect_labels_preserves(
            labels.insert(l.id, count as usize),
            count,
            cmds,
            i + 1,
            l.id,
        );
    } else {
        match cmds[i] {
            CommandView::Label(l2) => lemma_collect_labels_has(
                labels.insert(l2.id, count as usize),
                count,
                cmds,
                i + 1,
                k,
                l,
            ),
            _ => lemma_collect_labels_has(
                labels,
                count + compiled_size_spec(cmds[i]),
                cmds,
                i + 1,
                k,
                l,
            ),
        }
    }
}

/// After the pipeline, every command's references are collected.
pub proof fn lemma_pipeline_cmd_refs(v: TransformerView, cmds: Seq<CommandView>, k: int)
    requires
        0 <= k < cmds.len(),
        v.constants.contains_key(4),
        jump_targets_declared(cmds),
    ensures
        cmd_refs_ok(transform_pipeline(v, cmds), cmds[k]),
{
    let v1 = collect_consts(v, cmds, 0);
    lemma_collect_consts_preserves(v, cmds, 0, 4);
    match cmds[k] {
        CommandView::Const(x) => {
            lemma_collect_consts_has(v, cmds, 0, k);
        },
        CommandView::Load(id) => {
            lemma_collect_vars_has(v.vars, cmds, 0, k, id);
        },
        CommandView::Store(id) => {
            lemma_collect_vars_has(v.vars, cmds, 0, k, id);
        },
        CommandView::Jmp(l) => {
            let j = choose|j: int| 0 <= j < cmds.len() && cmds[j] == CommandView::Label(l);
            lemma_collect_labels_has(v.labels, 2, cmds, 0, j, l);
        },
        CommandView::ConditionalJump(_, l) => {
            let j = choose|j: int| 0 <= j < cmds.len() && cmds[j] == CommandView::Label(l);
            lemma_collect_labels_has(v.labels, 2, cmds, 0, j, l);
        },
        _ => {},
    }
}

/// After the pipeline, the two loader offsets are pooled, and they are the
/// last two pool entries.
pub proof fn lemma_pipeline_loader_keys(v: TransformerView, cmds: Seq<CommandView>)
    requires
        v.constants.contains_key(4),
    ensures
        ({
            let p = transform_pipeline(v, cmds);
            let n_vars = collect_vars(Seq::empty(), cmds, 0).len();
            &&& p.constants.contains_key(((p.order.len() * 4) as i32))
            &&& p.constants.contains_key((((n_vars + p.order.len()) * 4) as i32))
        }),
{
    let n_vars = collect_vars(Seq::empty(), cmds, 0).len();
    let v1 = collect_consts(v, cmds, 0);
    let val1 = (((v1.order.len() + 2 + n_vars) * 4) as i32);
    let v2 = force_add_constant(v1, val1);
    let val2 = (((v2.order.len() + 1) * 4) as i32);
    let v3 = force_add_constant(v2, val2);
    assert(v3.order.len() == v1.order.len() + 2);
    assert(v3.constants.contains_key(val2));
    assert(v3.constants.contains_key(val1));
}

/// One command assembles to exactly four bytes per instruction it is
/// counted as.
pub proof fn lemma_cmd_code_len(v: TransformerView, c: CommandView)
    ensures
        cmd_code(v, c).len() == 4 * compiled_size_spec(c),
{
}

/// The label addresses are consistent with the emitted code: walking the
/// program's tail advances the instruction counter by exactly one quarter
/// of the bytes its commands assemble to.  Since the counter starts at two
/// for the two boot instructions, every recorded label address is the index
/// of the instruction emitted right after it.
pub proof fn lemma_labels_match_code(
    v: TransformerView,
    labels: Map<i32, usize>,
    count: int,
    cmds: Seq<CommandView>,
    i: int,
)
    ensures
        program_code(v, cmds, i).len() == 4 * (collect_labels_spec(labels, count, cmds, i).1
            - count),
    decreases cmds.len() - i,
{
    if 0 <= i < cmds.len() {
        lemma_cmd_code_len(v, cmds[i]);
        match cmds[i] {
            CommandView::Label(l) => lemma_labels_match_code(
                v,
                labels.insert(l.id, count as usize),
                count,
                cmds,
                i + 1,
            ),
            _ => lemma_labels_match_code(
                v,
                labels,
                count + compiled_size_spec(cmds[i]),
                cmds,
                i + 1,
            ),
        }
    }
}

/// One emission step: the code of the tail at `k` starts with the code of
/// command `k`.
pub proof fn lemma_program_code_step(v: TransformerView, cmds: Seq<CommandView>, k: int)
    requires
        0 <= k < cmds.len(),
    ensures
        program_code(v, cmds, k) == cmd_code(v, cmds[k]) + program_code(v, cmds, k + 1),
        program_code(v, cmds, k + 1).len() <= program_code(v, cmds, k).len(),
        program_code(v, cmds, k).len() <= program_code(v, cmds, 0).len(),
    decreases k,
{
    if k > 0 {
        lemma_program_code_step(v, cmds, k - 1);
    }
}

} // verus!
