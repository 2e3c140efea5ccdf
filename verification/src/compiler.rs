//! The byte-code compiler for the five-stage machine: statements become
//! linear instruction lists with conditional jumps patched in after their
//! bodies are laid out; literals go to a constant pool read from the high
//! end of the program image.
//!
//! The whole translation is pinned instruction for instruction by
//! [`compile_expr_spec`] and [`compile_body_spec`].

use vstd::prelude::*;
use crate::interp::{
    ALUInstructionKind, Address, Instruction, JumpInstructionKind, MemoryInstructionKind,
    Reference, Register, Word,
};
use crate::lang::{Expr, Identifier, Stmt};

verus! {

/// The compiler's working state: the instructions laid out so far, the
/// constant pool, and the variable slots in insertion order.
#[verifier::ext_equal]
pub ghost struct CtxView {
    pub instructions: Seq<Instruction>,
    pub words: Seq<Word>,
    pub identifiers: Seq<Seq<char>>,
}

/// The size of one expression's syntax tree; the translation of an
/// expression adds at most five instructions, one constant and one
/// variable slot per node.
pub open spec fn expr_units(e: Expr) -> nat
    decreases e,
{
    match e {
        Expr::Literal(_) => 1,
        Expr::VarRef(_) => 1,
        Expr::Not(b) => 1 + expr_units(*b),
        Expr::Sum(p) => 1 + expr_units(p.0) + expr_units(p.1),
        Expr::Sub(p) => 1 + expr_units(p.0) + expr_units(p.1),
        Expr::And(p) => 1 + expr_units(p.0) + expr_units(p.1),
        Expr::Or(p) => 1 + expr_units(p.0) + expr_units(p.1),
        Expr::LT(p) => 1 + expr_units(p.0) + expr_units(p.1),
        Expr::LE(p) => 1 + expr_units(p.0) + expr_units(p.1),
        Expr::GT(p) => 1 + expr_units(p.0) + expr_units(p.1),
        Expr::GE(p) => 1 + expr_units(p.0) + expr_units(p.1),
        Expr::Eq(p) => 1 + expr_units(p.0) + expr_units(p.1),
    }
}

/// The size of a statement list's tail.
pub open spec fn body_units(b: Seq<Stmt>, i: int) -> nat
    decreases b, b.len() - i + 4,
{
    if i < 0 || i >= b.len() {
        0
    } else {
        (match b[i] {
            Stmt::Print(e) => expr_units(e) + 1,
            Stmt::VarDecl(_) => 0,
            Stmt::Assign(_, e) => expr_units(e) + 1,
            Stmt::If(e, body) => expr_units(e) + 1 + body_units(body@, 0),
            Stmt::While(e, body) => expr_units(e) + 2 + body_units(body@, 0),
        }) + body_units(b, i + 1)
    }
}

/// Registering a variable: a known one keeps its slot, a new one gets the
/// next.
pub open spec fn ctx_add_ident(ids: Seq<Seq<char>>, id: Seq<char>) -> (Seq<Seq<char>>, int) {
    if ids.contains(id) {
        (ids, crate::binary::ident_first_index(ids, id, 0))
    } else {
        (ids.push(id), ids.len() as int)
    }
}

pub open spec fn alu_instr(kind: ALUInstructionKind, res: u8, lhs: u8, rhs: u8) -> Instruction {
    Instruction::ALUInstruction {
        kind,
        res: Register(res),
        lhs: Register(lhs),
        rhs: Register(rhs),
    }
}

/// The translation of one expression; its value ends up in register 10.
pub open spec fn compile_expr_spec(st: CtxView, e: Expr) -> CtxView
    decreases e, 3int,
{
    match e {
        Expr::Literal(num) => (CtxView {
            instructions: st.instructions.push(
                Instruction::MemoryInstruction {
                    kind: MemoryInstructionKind::LoadConst,
                    reg: Register(10),
                    reference: Reference::AddressReference(
                        Address(((st.words.len() * 4) as i32)),
                    ),
                },
            ),
            words: st.words.push(Word(num)),
            identifiers: st.identifiers,
        }),
        Expr::Sum(p) => compile_binop_spec(st, *p, false, ALUInstructionKind::ADD),
        Expr::Sub(p) => compile_binop_spec(st, *p, false, ALUInstructionKind::SUB),
        Expr::And(p) => compile_binop_spec(st, *p, false, ALUInstructionKind::AND),
        Expr::Or(p) => compile_binop_spec(st, *p, false, ALUInstructionKind::OR),
        Expr::LT(p) => compile_binop_spec(st, *p, false, ALUInstructionKind::LT),
        Expr::GT(p) => compile_binop_spec(st, *p, true, ALUInstructionKind::LT),
        Expr::LE(p) => compile_le_spec(st, *p, false),
        Expr::GE(p) => compile_le_spec(st, *p, true),
        Expr::Eq(p) => compile_binop_spec(st, *p, false, ALUInstructionKind::EQ),
        Expr::Not(b) => {
            let st1 = compile_expr_spec(st, *b);
            CtxView {
                instructions: st1.instructions.push(
                    alu_instr(ALUInstructionKind::NOT, 10, 10, 0),
                ),
                ..st1
            }
        },
        Expr::VarRef(id) => {
            let (ids2, idx) = ctx_add_ident(st.identifiers, id@);
            CtxView {
                instructions: st.instructions.push(
                    Instruction::MemoryInstruction {
                        kind: MemoryInstructionKind::LoadStack,
                        reg: Register(10),
                        reference: Reference::StackReference(idx as usize),
                    },
                ),
                identifiers: ids2,
                ..st
            }
        },
    }
}

/// A binary operation: each operand is compiled and parked in a scratch
/// register, then the operation combines them into register 10.  `swapped`
/// reverses the operand order, which turns greater-than into less-than.
pub open spec fn compile_binop_spec(
    st: CtxView,
    p: (Expr, Expr),
    swapped: bool,
    kind: ALUInstructionKind,
) -> CtxView
    decreases p, 1int,
{
    let st1 = compile_expr_spec(st, if swapped { p.1 } else { p.0 });
    let st2 = CtxView {
        instructions: st1.instructions.push(alu_instr(ALUInstructionKind::ADD, 11, 10, 0)),
        ..st1
    };
    let st3 = compile_expr_spec(st2, if swapped { p.0 } else { p.1 });
    let st4 = CtxView {
        instructions: st3.instructions.push(alu_instr(ALUInstructionKind::ADD, 12, 10, 0)),
        ..st3
    };
    CtxView { instructions: st4.instructions.push(alu_instr(kind, 10, 11, 12)), ..st4 }
}

/// Less-or-equal: the less-than result is or-ed with an equality test on
/// the parked operands.
pub open spec fn compile_le_spec(st: CtxView, p: (Expr, Expr), swapped: bool) -> CtxView
    decreases p, 2int,
{
    let st1 = compile_binop_spec(st, p, swapped, ALUInstructionKind::LT);
    let st2 = CtxView {
        instructions: st1.instructions.push(alu_instr(ALUInstructionKind::EQ, 13, 11, 12)),
        ..st1
    };
    CtxView { instructions: st2.instructions.push(alu_instr(ALUInstructionKind::OR, 10, 10, 13)), ..st2 }
}

/// The translation of a statement list's tail.  Conditional jumps are laid
/// out with a placeholder address and patched to the first instruction
/// after their body.
pub open spec fn compile_body_spec(st: CtxView, b: Seq<Stmt>, i: int) -> CtxView
    decreases b, b.len() - i + 4,
{
    if i < 0 || i >= b.len() {
        st
    } else {
        let st_next = match b[i] {
            Stmt::Print(e) => {
                let st1 = compile_expr_spec(st, e);
                CtxView {
                    instructions: st1.instructions.push(
                        alu_instr(ALUInstructionKind::PRINT, 10, 10, 0),
                    ),
                    ..st1
                }
            },
            Stmt::VarDecl(_) => st,
            Stmt::Assign(id, e) => {
                let st1 = compile_expr_spec(st, e);
                let (ids2, idx) = ctx_add_ident(st1.identifiers, id@);
                CtxView {
                    instructions: st1.instructions.push(
                        Instruction::MemoryInstruction {
                            kind: MemoryInstructionKind::Store,
                            reg: Register(10),
                            reference: Reference::StackReference(idx as usize),
                        },
                    ),
                    identifiers: ids2,
                    ..st1
                }
            },
            Stmt::If(e, body) => {
                let st1 = compile_expr_spec(st, e);
                let j = st1.instructions.len() as int;
                let st2 = CtxView {
                    instructions: st1.instructions.push(
                        Instruction::JumpInstruction {
                            kind: JumpInstructionKind::CJUMP,
                            reg: Register(10),
                            addr: Address(0),
                        },
                    ),
                    ..st1
                };
                let st3 = compile_body_spec(st2, body@, 0);
                CtxView {
                    instructions: st3.instructions.update(
                        j,
                        Instruction::JumpInstruction {
                            kind: JumpInstructionKind::CJUMP,
                            reg: Register(10),
                            addr: Address(((st3.instructions.len() * 6) as i32)),
                        },
                    ),
                    ..st3
                }
            },
            Stmt::While(e, body) => {
                let expr_addr = Address(((st.instructions.len() * 6) as i32));
                let st1 = compile_expr_spec(st, e);
                let j = st1.instructions.len() as int;
                let st2 = CtxView {
                    instructions: st1.instructions.push(
                        Instruction::JumpInstruction {
                            kind: JumpInstructionKind::CJUMP,
                            reg: Register(10),
                            addr: Address(0),
                        },
                    ),
                    ..st1
                };
                let st3 = compile_body_spec(st2, body@, 0);
                let st4 = CtxView {
                    instructions: st3.instructions.push(
                        Instruction::JumpInstruction {
                            kind: JumpInstructionKind::JUMP,
                            reg: Register(0),
                            addr: expr_addr,
                        },
                    ),
                    ..st3
                };
                CtxView {
                    instructions: st4.instructions.update(
                        j,
                        Instruction::JumpInstruction {
                            kind: JumpInstructionKind::CJUMP,
                            reg: Register(10),
                            addr: Address(((st4.instructions.len() * 6) as i32)),
                        },
                    ),
                    ..st4
                }
            },
        };
        compile_body_spec(st_next, b, i + 1)
    }
}

/// Compiling an expression only appends: at most five instructions, one
/// constant and one variable slot per syntax node.
pub proof fn lemma_expr_growth(st: CtxView, e: Expr)
    ensures
        ({
            let st1 = compile_expr_spec(st, e);
            &&& st.instructions.len() <= st1.instructions.len() <= st.instructions.len() + 5
                * expr_units(e)
            &&& st.words.len() <= st1.words.len() <= st.words.len() + expr_units(e)
            &&& st.identifiers.len() <= st1.identifiers.len() <= st.identifiers.len()
                + expr_units(e)
        }),
    decreases e, 3int,
{
    match e {
        Expr::Literal(_) => {},
        Expr::VarRef(_) => {},
        Expr::Not(b) => {
            lemma_expr_growth(st, *b);
        },
        Expr::Sum(p) => lemma_binop_growth(st, *p, false, ALUInstructionKind::ADD),
        Expr::Sub(p) => lemma_binop_growth(st, *p, false, ALUInstructionKind::SUB),
        Expr::And(p) => lemma_binop_growth(st, *p, false, ALUInstructionKind::AND),
        Expr::Or(p) => lemma_binop_growth(st, *p, false, ALUInstructionKind::OR),
        Expr::LT(p) => lemma_binop_growth(st, *p, false, ALUInstructionKind::LT),
        Expr::GT(p) => lemma_binop_growth(st, *p, true, ALUInstructionKind::LT),
        Expr::Eq(p) => lemma_binop_growth(st, *p, false, ALUInstructionKind::EQ),
        Expr::LE(p) => {
            lemma_binop_growth(st, *p, false, ALUInstructionKind::LT);
            assert(compile_expr_spec(st, e) == compile_le_spec(st, *p, false));
        },
        Expr::GE(p) => {
            lemma_binop_growth(st, *p, true, ALUInstructionKind::LT);
            assert(compile_expr_spec(st, e) == compile_le_spec(st, *p, true));
        },
    }
}

/// The same accounting for a binary operation: at most `5 (units(p.0) +
/// units(p.1)) + 5` instructions in all, which the unit count of the
/// enclosing node covers.
pub proof fn lemma_binop_growth(st: CtxView, p: (Expr, Expr), swapped: bool, kind: ALUInstructionKind)
    ensures
        ({
            let st5 = compile_binop_spec(st, p, swapped, kind);
            &&& st.instructions.len() <= st5.instructions.len() <= st.instructions.len() + 3 + 5
                * (expr_units(p.0) + expr_units(p.1))
            &&& st.words.len() <= st5.words.len() <= st.words.len() + expr_units(p.0)
                + expr_units(p.1)
            &&& st.identifiers.len() <= st5.identifiers.len() <= st.identifiers.len()
                + expr_units(p.0) + expr_units(p.1)
        }),
    decreases p, 1int,
{
    let first = if swapped {
        p.1
    } else {
        p.0
    };
    let second = if swapped {
        p.0
    } else {
        p.1
    };
    lemma_expr_growth(st, first);
    let st1 = compile_expr_spec(st, first);
    let st2 = CtxView {
        instructions: st1.instructions.push(alu_instr(ALUInstructionKind::ADD, 11, 10, 0)),
        ..st1
    };
    lemma_expr_growth(st2, second);
}

/// Compiling a statement list only appends or patches in place: at most
/// five instructions, one constant and one variable slot per unit.
pub proof fn lemma_body_growth(st: CtxView, b: Seq<Stmt>, i: int)
    ensures
        ({
            let st1 = compile_body_spec(st, b, i);
            &&& st.instructions.len() <= st1.instructions.len() <= st.instructions.len() + 5
                * body_units(b, i)
            &&& st.words.len() <= st1.words.len() <= st.words.len() + body_units(b, i)
            &&& st.identifiers.len() <= st1.identifiers.len() <= st.identifiers.len()
                + body_units(b, i)
        }),
    decreases b, b.len() - i + 4,
{
    if i < 0 || i >= b.len() {
    } else {
        match b[i] {
            Stmt::Print(e) => {
                lemma_expr_growth(st, e);
            },
            Stmt::VarDecl(_) => {},
            Stmt::Assign(_, e) => {
                lemma_expr_growth(st, e);
            },
            Stmt::If(e, body) => {
                lemma_expr_growth(st, e);
                let st1 = compile_expr_spec(st, e);
                let st2 = CtxView {
                    instructions: st1.instructions.push(
                        Instruction::JumpInstruction {
                            kind: JumpInstructionKind::CJUMP,
                            reg: Register(10),
                            addr: Address(0),
                        },
                    ),
                    ..st1
                };
                lemma_body_growth(st2, body@, 0);
            },
            Stmt::While(e, body) => {
                lemma_expr_growth(st, e);
                let st1 = compile_expr_spec(st, e);
                let st2 = CtxView {
                    instructions: st1.instructions.push(
                        Instruction::JumpInstruction {
                            kind: JumpInstructionKind::CJUMP,
                            reg: Register(10),
                            addr: Address(0),
                        },
                    ),
                    ..st1
                };
                lemma_body_growth(st2, body@, 0);
            },
        }
        let st_next = step_of_body(st, b, i);
        lemma_body_growth(st_next, b, i + 1);
    }
}

/// The state after one statement of a list, before the tail; mirrors one
/// arm of [`compile_body_spec`].
pub open spec fn step_of_body(st: CtxView, b: Seq<Stmt>, i: int) -> CtxView
    decreases b, b.len() - i + 3,
{
    if i < 0 || i >= b.len() {
        st
    } else {
        match b[i] {
            Stmt::Print(e) => {
                let st1 = compile_expr_spec(st, e);
                CtxView {
                    instructions: st1.instructions.push(
                        alu_instr(ALUInstructionKind::PRINT, 10, 10, 0),
                    ),
                    ..st1
                }
            },
            Stmt::VarDecl(_) => st,
            Stmt::Assign(id, e) => {
                let st1 = compile_expr_spec(st, e);
                let (ids2, idx) = ctx_add_ident(st1.identifiers, id@);
                CtxView {
                    instructions: st1.instructions.push(
                        Instruction::MemoryInstruction {
                            kind: MemoryInstructionKind::Store,
                            reg: Register(10),
                            reference: Reference::StackReference(idx as usize),
                        },
                    ),
                    identifiers: ids2,
                    ..st1
                }
            },
            Stmt::If(e, body) => {
                let st1 = compile_expr_spec(st, e);
                let j = st1.instructions.len() as int;
                let st2 = CtxView {
                    instructions: st1.instructions.push(
                        Instruction::JumpInstruction {
                            kind: JumpInstructionKind::CJUMP,
                            reg: Register(10),
                            addr: Address(0),
                        },
                    ),
                    ..st1
                };
                let st3 = compile_body_spec(st2, body@, 0);
                CtxView {
                    instructions: st3.instructions.update(
                        j,
                        Instruction::JumpInstruction {
                            kind: JumpInstructionKind::CJUMP,
                            reg: Register(10),
                            addr: Address(((st3.instructions.len() * 6) as i32)),
                        },
                    ),
                    ..st3
                }
            },
            Stmt::While(e, body) => {
                let expr_addr = Address(((st.instructions.len() * 6) as i32));
                let st1 = compile_expr_spec(st, e);
                let j = st1.instructions.len() as int;
                let st2 = CtxView {
                    instructions: st1.instructions.push(
                        Instruction::JumpInstruction {
                            kind: JumpInstructionKind::CJUMP,
                            reg: Register(10),
                            addr: Address(0),
                        },
                    ),
                    ..st1
                };
                let st3 = compile_body_spec(st2, body@, 0);
                let st4 = CtxView {
                    instructions: st3.instructions.push(
                        Instruction::JumpInstruction {
                            kind: JumpInstructionKind::JUMP,
                            reg: Register(0),
                            addr: expr_addr,
                        },
                    ),
                    ..st3
                };
                CtxView {
                    instructions: st4.instructions.update(
                        j,
                        Instruction::JumpInstruction {
                            kind: JumpInstructionKind::CJUMP,
                            reg: Register(10),
                            addr: Address(((st4.instructions.len() * 6) as i32)),
                        },
                    ),
                    ..st4
                }
            },
        }
    }
}

/// A statement list compiles as one statement, then the rest.
pub proof fn lemma_body_step(st: CtxView, b: Seq<Stmt>, i: int)
    requires
        0 <= i < b.len(),
    ensures
        compile_body_spec(st, b, i) == compile_body_spec(step_of_body(st, b, i), b, i + 1),
{
}

pub struct Context {
    pub instructions: Vec<Instruction>,
    pub words: Vec<Word>,
    pub identifiers: Vec<Identifier>,
}

impl View for Context {
    type V = CtxView;

    open spec fn view(&self) -> CtxView {
        CtxView {
            instructions: self.instructions@,
            words: self.words@,
            identifiers: idents_seq(self.identifiers@),
        }
    }
}

pub open spec fn idents_seq(s: Seq<Identifier>) -> Seq<Seq<char>> {
    s.map_values(|x: Identifier| x@)
}

impl Context {
    fn new_const(&mut self, word: Word) -> (r: i32)
        requires
            old(self)@.words.len() < 0x0800_0000,
        ensures
            r == old(self)@.words.len() as i32,
            final(self)@ == (CtxView { words: old(self)@.words.push(word), ..old(self)@ }),
    {
        self.words.push(word);
        (self.words.len() - 1) as i32
    }

    fn identifier(&mut self, identifier: Identifier) -> (r: Reference)
        requires
            old(self)@.identifiers.len() < 0x0800_0000,
        ensures
            ({
                let (ids2, idx) = ctx_add_ident(old(self)@.identifiers, identifier@);
                r == Reference::StackReference(idx as usize) && final(self)@ == (CtxView {
                    identifiers: ids2,
                    ..old(self)@
                })
            }),
    {
        let ghost ids0 = self@.identifiers;
        let mut i: usize = 0;
        while i < self.identifiers.len()
            invariant
                i <= self.identifiers@.len(),
                ids0 == idents_seq(self.identifiers@),
                self@.identifiers == ids0,
                forall|j: int| 0 <= j < i ==> idents_seq(self.identifiers@)[j] != identifier@,
                crate::binary::ident_first_index(ids0, identifier@, 0)
                    == crate::binary::ident_first_index(ids0, identifier@, i as int),
            decreases self.identifiers@.len() - i,
        {
            if self.identifiers[i].0 == identifier.0 {
                proof {
                    assert(ids0[i as int] == identifier@);
                    assert(ids0.contains(identifier@));
                }
                return Reference::StackReference(i);
            }
            i = i + 1;
        }
        proof {
            assert(!ids0.contains(identifier@)) by {
                if ids0.contains(identifier@) {
                    let j = choose|j: int| 0 <= j < ids0.len() && ids0[j] == identifier@;
                }
            }
        }
        let len = self.identifiers.len();
        self.identifiers.push(identifier);
        proof {
            assert(idents_seq(self.identifiers@) =~= ids0.push(identifier@));
        }
        Reference::StackReference(len)
    }

    fn index_to_address(index: usize) -> (r: Address)
        requires
            index * 6 <= i32::MAX,
        ensures
            r == Address(((index * 6) as i32)),
    {
        Address::new((index * 6) as i32)
    }
}

/// Compiles a whole program to its instruction list and constant pool.
pub fn compile(body: Vec<Stmt>) -> (r: CompiledProgram)
    requires
        5 * body_units(body@, 0) <= 0x0800_0000,
    ensures
        ({
            let st = compile_body_spec(
                CtxView {
                    instructions: Seq::empty(),
                    words: Seq::empty(),
                    identifiers: Seq::empty(),
                },
                body@,
                0,
            );
            r.instructions@ == st.instructions && r.constants@ == st.words
        }),
{
    let mut ctx = Context { instructions: Vec::new(), words: Vec::new(), identifiers: Vec::new() };
    proof {
        assert(ctx@ =~~= (CtxView {
            instructions: Seq::empty(),
            words: Seq::empty(),
            identifiers: Seq::empty(),
        }));
    }
    compile_body(&mut ctx, &body);
    CompiledProgram::new(ctx.instructions, ctx.words)
}

/// Compiles one statement list, appending to the context.
pub fn compile_body(ctx: &mut Context, body: &Vec<Stmt>)
    requires
        old(ctx)@.instructions.len() + 5 * body_units(body@, 0) <= 0x0800_0000,
        old(ctx)@.words.len() + body_units(body@, 0) <= 0x0800_0000,
        old(ctx)@.identifiers.len() + body_units(body@, 0) <= 0x0800_0000,
    ensures
        final(ctx)@ == compile_body_spec(old(ctx)@, body@, 0),
    decreases body@, 2int,
{
    let ghost st0 = ctx@;
    let mut i: usize = 0;
    while i < body.len()
        invariant
            i <= body@.len(),
            ctx@.instructions.len() + 5 * body_units(body@, i as int) <= 0x0800_0000,
            ctx@.words.len() + body_units(body@, i as int) <= 0x0800_0000,
            ctx@.identifiers.len() + body_units(body@, i as int) <= 0x0800_0000,
            compile_body_spec(st0, body@, 0) == compile_body_spec(ctx@, body@, i as int),
        decreases body@.len() - i,
    {
        proof {
            lemma_body_step(ctx@, body@, i as int);
            lemma_body_growth(step_of_body(ctx@, body@, i as int), body@, i as int + 1);
        }
        let ghost st_before = ctx@;
        match &body[i] {
            Stmt::Print(expr) => {
                proof {
                    lemma_expr_growth(ctx@, *expr);
                }
                compile_expr(ctx, expr);
                ctx.instructions.push(
                    Instruction::ALUInstruction {
                        kind: ALUInstructionKind::PRINT,
                        lhs: Register::new(10),
                        rhs: Register::new(0),
                        res: Register::new(10),
                    },
                );
            },
            Stmt::Assign(identifier, expr) => {
                proof {
                    lemma_expr_growth(ctx@, *expr);
                }
                compile_expr(ctx, expr);
                let reference = ctx.identifier(identifier.clone());
                ctx.instructions.push(
                    Instruction::MemoryInstruction {
                        kind: MemoryInstructionKind::Store,
                        reg: Register::new(10),
                        reference,
                    },
                );
            },
            Stmt::If(expr, stmts) => {
                proof {
                    lemma_expr_growth(ctx@, *expr);
                }
                compile_expr(ctx, expr);
                let jump_index = ctx.instructions.len();
                ctx.instructions.push(
                    Instruction::JumpInstruction {
                        kind: JumpInstructionKind::CJUMP,
                        reg: Register::new(10),
                        addr: Address::new(0),
                    },
                );
                proof {
                    lemma_body_growth(ctx@, stmts@, 0);
                }
                compile_body(ctx, stmts);
                let next_instruction_index = ctx.instructions.len();
                let addr = Context::index_to_address(next_instruction_index);
                ctx.instructions.set(
                    jump_index,
                    Instruction::JumpInstruction {
                        kind: JumpInstructionKind::CJUMP,
                        reg: Register::new(10),
                        addr,
                    },
                );
            },
            Stmt::While(expr, stmts) => {
                let expr_address = Context::index_to_address(ctx.instructions.len());
                proof {
                    lemma_expr_growth(ctx@, *expr);
                }
                compile_expr(ctx, expr);
                let expr_jump_index = ctx.instructions.len();
                ctx.instructions.push(
                    Instruction::JumpInstruction {
                        kind: JumpInstructionKind::CJUMP,
                        reg: Register::new(10),
                        addr: Address::new(0),
                    },
                );
                proof {
                    lemma_body_growth(ctx@, stmts@, 0);
                }
                compile_body(ctx, stmts);
                ctx.instructions.push(
                    Instruction::JumpInstruction {
                        kind: JumpInstructionKind::JUMP,
                        reg: Register::new(0),
                        addr: expr_address,
                    },
                );
                let next_instruction_index = ctx.instructions.len();
                let addr = Context::index_to_address(next_instruction_index);
                ctx.instructions.set(
                    expr_jump_index,
                    Instruction::JumpInstruction {
                        kind: JumpInstructionKind::CJUMP,
                        reg: Register::new(10),
                        addr,
                    },
                );
            },
            Stmt::VarDecl(_) => {},
        }
        proof {
            assert(ctx@ =~~= step_of_body(st_before, body@, i as int));
        }
        i = i + 1;
    }
}

/// Compiles one expression, leaving its value plan in register 10.
pub fn compile_expr(ctx: &mut Context, expr: &Expr)
    requires
        old(ctx)@.instructions.len() + 5 * expr_units(*expr) <= 0x0800_0000,
        old(ctx)@.words.len() + expr_units(*expr) <= 0x0800_0000,
        old(ctx)@.identifiers.len() + expr_units(*expr) <= 0x0800_0000,
    ensures
        final(ctx)@ == compile_expr_spec(old(ctx)@, *expr),
    decreases *expr, 3int,
{
    match expr {
        Expr::Literal(num) => {
            let widx = ctx.new_const(Word::new(*num));
            let constant = widx * 4;
            ctx.instructions.push(
                Instruction::MemoryInstruction {
                    kind: MemoryInstructionKind::LoadConst,
                    reg: Register::new(10),
                    reference: Reference::AddressReference(Address::new(constant)),
                },
            );
            proof {
                assert(ctx@ =~~= compile_expr_spec(old(ctx)@, *expr));
            }
        },
        Expr::Sum(p) => compile_binop(ctx, p, false, ALUInstructionKind::ADD),
        Expr::Sub(p) => compile_binop(ctx, p, false, ALUInstructionKind::SUB),
        Expr::And(p) => compile_binop(ctx, p, false, ALUInstructionKind::AND),
        Expr::Or(p) => compile_binop(ctx, p, false, ALUInstructionKind::OR),
        Expr::LT(p) => compile_binop(ctx, p, false, ALUInstructionKind::LT),
        Expr::GT(p) => compile_binop(ctx, p, true, ALUInstructionKind::LT),
        Expr::LE(p) => compile_le(ctx, p, false),
        Expr::GE(p) => compile_le(ctx, p, true),
        Expr::Eq(p) => compile_binop(ctx, p, false, ALUInstructionKind::EQ),
        Expr::Not(b) => {
            compile_expr(ctx, &**b);
            ctx.instructions.push(
                Instruction::ALUInstruction {
                    kind: ALUInstructionKind::NOT,
                    res: Register::new(10),
                    lhs: Register::new(10),
                    rhs: Register::new(0),
                },
            );
        },
        Expr::VarRef(ident) => {
            let reference = ctx.identifier(ident.clone());
            ctx.instructions.push(
                Instruction::MemoryInstruction {
                    kind: MemoryInstructionKind::LoadStack,
                    reg: Register::new(10),
                    reference,
                },
            );
        },
    }
}

/// Less-or-equal builds on the less-than comparison; see
/// [`compile_le_spec`].
pub fn compile_le(ctx: &mut Context, p: &(Expr, Expr), swapped: bool)
    requires
        old(ctx)@.instructions.len() + 5 + 5 * (expr_units(p.0) + expr_units(p.1))
            <= 0x0800_0000,
        old(ctx)@.words.len() + expr_units(p.0) + expr_units(p.1) <= 0x0800_0000,
        old(ctx)@.identifiers.len() + expr_units(p.0) + expr_units(p.1) <= 0x0800_0000,
    ensures
        final(ctx)@ == compile_le_spec(old(ctx)@, *p, swapped),
    decreases *p, 2int,
{
    compile_binop(ctx, p, swapped, ALUInstructionKind::LT);
    ctx.instructions.push(
        Instruction::ALUInstruction {
            kind: ALUInstructionKind::EQ,
            lhs: Register::new(11),
            rhs: Register::new(12),
            res: Register::new(13),
        },
    );
    ctx.instructions.push(
        Instruction::ALUInstruction {
            kind: ALUInstructionKind::OR,
            lhs: Register::new(10),
            rhs: Register::new(13),
            res: Register::new(10),
        },
    );
}

pub fn compile_binop(ctx: &mut Context, p: &(Expr, Expr), swapped: bool, alu_kind: ALUInstructionKind)
    requires
        old(ctx)@.instructions.len() + 3 + 5 * (expr_units(p.0) + expr_units(p.1))
            <= 0x0800_0000,
        old(ctx)@.words.len() + expr_units(p.0) + expr_units(p.1) <= 0x0800_0000,
        old(ctx)@.identifiers.len() + expr_units(p.0) + expr_units(p.1) <= 0x0800_0000,
    ensures
        final(ctx)@ == compile_binop_spec(old(ctx)@, *p, swapped, alu_kind),
    decreases *p, 1int,
{
    let first = if swapped {
        &p.1
    } else {
        &p.0
    };
    let second = if swapped {
        &p.0
    } else {
        &p.1
    };
    proof {
        lemma_expr_growth(ctx@, *first);
    }
    compile_expr(ctx, first);
    ctx.instructions.push(
        Instruction::ALUInstruction {
            kind: ALUInstructionKind::ADD,
            lhs: Register::new(10),
            rhs: Register::new(0),
            res: Register::new(11),
        },
    );
    proof {
        lemma_expr_growth(ctx@, *second);
    }
    compile_expr(ctx, second);
    ctx.instructions.push(
        Instruction::ALUInstruction {
            kind: ALUInstructionKind::ADD,
            lhs: Register::new(10),
            rhs: Register::new(0),
            res: Register::new(12),
        },
    );
    ctx.instructions.push(
        Instruction::ALUInstruction {
            kind: alu_kind,
            lhs: Register::new(11),
            rhs: Register::new(12),
            res: Register::new(10),
        },
    );
}

pub struct CompiledProgram {
    pub instructions: Vec<Instruction>,
    pub constants: Vec<Word>,
}

/// The bytes of an instruction list's tail, six per instruction.
pub open spec fn instrs_bytes(s: Seq<Instruction>, i: int) -> Seq<u8>
    decreases s.len() - i,
{
    if i < 0 || i >= s.len() {
        Seq::empty()
    } else {
        s[i].buffer_bytes() + instrs_bytes(s, i + 1)
    }
}

/// The constant pool's bytes, last constant first, so that pool offset
/// zero names the end of the image.
pub open spec fn words_rev_bytes(ws: Seq<Word>, i: int) -> Seq<u8>
    decreases i,
{
    if i <= 0 || i > ws.len() {
        Seq::empty()
    } else {
        crate::interp::word_le_bytes(ws[i - 1].0) + words_rev_bytes(ws, i - 1)
    }
}

impl CompiledProgram {
    pub fn new(instructions: Vec<Instruction>, constants: Vec<Word>) -> (r: CompiledProgram)
        ensures
            r.instructions@ == instructions@,
            r.constants@ == constants@,
    {
        CompiledProgram { instructions, constants }
    }

    /// The program image: the instructions, a terminating block of eight
    /// zero bytes, then the constant pool in reverse.
    pub fn crete_buffer(&self) -> (r: Vec<u8>)
        ensures
            r@ == instrs_bytes(self.instructions@, 0) + Seq::new(8, |k: int| 0u8)
                + words_rev_bytes(self.constants@, self.constants@.len() as int),
    {
        let mut storage: Vec<u8> = Vec::new();
        self.write_instructions(&mut storage);
        self.write_terminating_instruction(&mut storage);
        self.write_constants(&mut storage);
        proof {
            assert(storage@ =~= instrs_bytes(self.instructions@, 0) + Seq::new(8, |k: int| 0u8)
                + words_rev_bytes(self.constants@, self.constants@.len() as int));
        }
        storage
    }

    fn write_instructions(&self, storage: &mut Vec<u8>)
        ensures
            final(storage)@ == old(storage)@ + instrs_bytes(self.instructions@, 0),
    {
        let ghost base = storage@;
        let mut i: usize = 0;
        while i < self.instructions.len()
            invariant
                i <= self.instructions@.len(),
                base + instrs_bytes(self.instructions@, 0) =~= storage@ + instrs_bytes(
                    self.instructions@,
                    i as int,
                ),
            decreases self.instructions@.len() - i,
        {
            let buffer = self.instructions[i].create_buffer();
            storage.push(buffer[0]);
            storage.push(buffer[1]);
            storage.push(buffer[2]);
            storage.push(buffer[3]);
            storage.push(buffer[4]);
            storage.push(buffer[5]);
            proof {
                assert(base + instrs_bytes(self.instructions@, 0) =~= storage@ + instrs_bytes(
                    self.instructions@,
                    i as int + 1,
                ));
            }
            i = i + 1;
        }
        proof {
            assert(storage@ =~= old(storage)@ + instrs_bytes(self.instructions@, 0));
        }
    }

    fn write_constants(&self, storage: &mut Vec<u8>)
        ensures
            final(storage)@ == old(storage)@ + words_rev_bytes(
                self.constants@,
                self.constants@.len() as int,
            ),
    {
        let ghost base = storage@;
        let mut i: usize = self.constants.len();
        while i > 0
            invariant
                i <= self.constants@.len(),
                base + words_rev_bytes(self.constants@, self.constants@.len() as int) =~= storage@
                    + words_rev_bytes(self.constants@, i as int),
            decreases i,
        {
            let buffer = self.constants[i - 1].create_buffer();
            storage.push(buffer[0]);
            storage.push(buffer[1]);
            storage.push(buffer[2]);
            storage.push(buffer[3]);
            proof {
                assert(base + words_rev_bytes(self.constants@, self.constants@.len() as int) =~= storage@
                    + words_rev_bytes(self.constants@, i as int - 1));
            }
            i = i - 1;
        }
        proof {
            assert(storage@ =~= old(storage)@ + words_rev_bytes(
                self.constants@,
                self.constants@.len() as int,
            ));
        }
    }

    fn write_terminating_instruction(&self, storage: &mut Vec<u8>)
        ensures
            final(storage)@ == old(storage)@ + Seq::new(8, |k: int| 0u8),
    {
        let mut k: usize = 0;
        while k < 8
            invariant
                k <= 8,
                storage@.len() == old(storage)@.len() + k,
                storage@ =~= old(storage)@ + Seq::new(k as nat, |j: int| 0u8),
            decreases 8 - k,
        {
            storage.push(0);
            proof {
                assert(storage@ =~= old(storage)@ + Seq::new((k + 1) as nat, |j: int| 0u8));
            }
            k = k + 1;
        }
        proof {
            assert(storage@ =~= old(storage)@ + Seq::new(8, |k: int| 0u8));
        }
    }
}

} // verus!
