//! Lowering the syntax tree to stack-machine commands.
//!
//! Expressions become postfix command sequences over an operand stack;
//! `if` and `while` become conditional jumps around freshly generated
//! labels.  The transformer's one piece of state is the label counter, and
//! the whole translation is pinned by the specification functions
//! [`expr_sm`], [`stmt_sm`] and [`block_sm_from`], which thread the counter
//! exactly as the code does.

use vstd::prelude::*;
use crate::ast::{Block, Expr, Ops, PrefixOps, Stmt};
use crate::stack_machine::{cmd_view, cmds_view, CommandView, Condition, Label, StackCommand};

verus! {

/// The commands an expression compiles to: operands first, operator last.
/// Prefix operators are sugar: bitwise not is `e NOR 0`, unary minus is
/// `e - 0` reversed through the operand stack.
pub open spec fn expr_sm(e: Expr) -> Seq<CommandView>
    decreases e,
{
    match e {
        Expr::IntLiteral(n) => seq![CommandView::Const(n)],
        Expr::Var(x) => seq![CommandView::Load(x@)],
        Expr::InfixOperation(l, op, r) => expr_sm(*l) + expr_sm(*r) + seq![CommandView::Op(op)],
        Expr::PrefixOperation(PrefixOps::BitwiseNot, e2) => expr_sm(*e2) + seq![
            CommandView::Const(0),
            CommandView::Op(Ops::BitwiseNor),
        ],
        Expr::PrefixOperation(PrefixOps::UnaryMinus, e2) => expr_sm(*e2) + seq![
            CommandView::Const(0),
            CommandView::Op(Ops::Sub),
        ],
    }
}

/// How many labels the translation of one statement generates.
pub open spec fn stmt_labels(s: Stmt) -> nat
    decreases s, 0int,
{
    match s {
        Stmt::VarDeclaration(_) => 0,
        Stmt::VarAssign(_, _) => 0,
        Stmt::If { condition, true_branch, false_branch } => 1 + block_labels(true_branch@, 0) + (
        match false_branch {
            Some(f) => block_labels(f@, 0),
            None => 0,
        }),
        Stmt::While(_, body) => 2 + block_labels(body@, 0),
        Stmt::Print(_) => 0,
    }
}

/// How many labels the translation of a block's tail (from index `i` on)
/// generates: one extra per statement before the last.
pub open spec fn block_labels(b: Seq<Stmt>, i: int) -> nat
    decreases b, b.len() - i + 1,
{
    if i < 0 || i >= b.len() {
        0
    } else if i == b.len() - 1 {
        stmt_labels(b[i])
    } else {
        1 + stmt_labels(b[i]) + block_labels(b, i + 1)
    }
}

/// The translation of one statement: takes the label counter and the label
/// that ends the enclosing block, and yields the new counter, whether that
/// label was jumped to, and the commands.
pub open spec fn stmt_sm(c: int, label: Label, s: Stmt) -> (int, bool, Seq<CommandView>)
    decreases s, 1int,
{
    match s {
        Stmt::VarDeclaration(_) => (c, false, Seq::empty()),
        Stmt::VarAssign(id, e) => (c, false, expr_sm(e) + seq![CommandView::Store(id@)]),
        Stmt::If { condition, true_branch, false_branch } => {
            let false_label = Label { id: c as i32 };
            let (c1, u1, tcode) = block_sm_from(c + 1, label, true_branch@, 0);
            let base = expr_sm(condition) + seq![
                CommandView::ConditionalJump(Condition::EqualsZero, false_label),
            ] + tcode + seq![CommandView::Jmp(label), CommandView::Label(false_label)];
            match false_branch {
                Some(f) => {
                    let (c2, u2, fcode) = block_sm_from(c1, label, f@, 0);
                    (c2, true, base + fcode)
                },
                None => (c1, true, base),
            }
        },
        Stmt::While(condition, body) => {
            let start = Label { id: c as i32 };
            let after = Label { id: (c + 1) as i32 };
            let (c1, u1, bcode) = block_sm_from(c + 2, after, body@, 0);
            (
                c1,
                false,
                seq![CommandView::Jmp(after), CommandView::Label(start)] + bcode + seq![
                    CommandView::Label(after),
                ] + expr_sm(condition) + seq![
                    CommandView::ConditionalJump(Condition::NotEqualsZero, start),
                ],
            )
        },
        Stmt::Print(e) => (c, false, expr_sm(e) + seq![CommandView::Print]),
    }
}

/// The translation of a block from index `i` on.  Every statement before
/// the last gets a fresh label for the code after it, emitted only when the
/// statement jumps to it; the last statement uses the enclosing label.
pub open spec fn block_sm_from(c: int, label: Label, b: Seq<Stmt>, i: int) -> (
    int,
    bool,
    Seq<CommandView>,
)
    decreases b, b.len() - i + 2,
{
    if i < 0 || i >= b.len() {
        (c, false, Seq::empty())
    } else if i == b.len() - 1 {
        stmt_sm(c, label, b[i])
    } else {
        let after = Label { id: c as i32 };
        let (c1, used, code) = stmt_sm(c + 1, after, b[i]);
        let head = if used {
            code + seq![CommandView::Label(after)]
        } else {
            code
        };
        let (c2, u2, rest) = block_sm_from(c1, label, b, i + 1);
        (c2, u2, head + rest)
    }
}

/// The translation of a whole program: a fresh end label, emitted after the
/// code when jumped to.
pub open spec fn ast_sm(c: int, b: Seq<Stmt>) -> Seq<CommandView> {
    let after = Label { id: c as i32 };
    let (c1, used, code) = block_sm_from(c + 1, after, b, 0);
    if used {
        code + seq![CommandView::Label(after)]
    } else {
        code
    }
}

/// The counter a statement's translation ends with is its start plus the
/// labels it generates.
pub proof fn lemma_stmt_counter(c: int, label: Label, s: Stmt)
    ensures
        stmt_sm(c, label, s).0 == c + stmt_labels(s),
    decreases s, 1int,
{
    match s {
        Stmt::If { condition, true_branch, false_branch } => {
            lemma_block_counter(c + 1, label, true_branch@, 0);
            match false_branch {
                Some(f) => {
                    let c1 = block_sm_from(c + 1, label, true_branch@, 0).0;
                    lemma_block_counter(c1, label, f@, 0);
                },
                None => {},
            }
        },
        Stmt::While(condition, body) => {
            let after = Label { id: (c + 1) as i32 };
            lemma_block_counter(c + 2, after, body@, 0);
        },
        _ => {},
    }
}

/// The same accounting for a block tail.
pub proof fn lemma_block_counter(c: int, label: Label, b: Seq<Stmt>, i: int)
    ensures
        block_sm_from(c, label, b, i).0 == c + block_labels(b, i),
    decreases b, b.len() - i + 2,
{
    if i < 0 || i >= b.len() {
    } else if i == b.len() - 1 {
        lemma_stmt_counter(c, label, b[i]);
    } else {
        let after = Label { id: c as i32 };
        lemma_stmt_counter(c + 1, after, b[i]);
        let c1 = stmt_sm(c + 1, after, b[i]).0;
        lemma_block_counter(c1, label, b, i + 1);
    }
}

/// No command of this sequence is a jump.
pub open spec fn no_jumps(code: Seq<CommandView>) -> bool {
    forall|k: int|
        0 <= k < code.len() ==> !((#[trigger] code[k]) is Jmp) && !(code[k] is ConditionalJump)
}

/// Every jump of `code` aims at a label declared in `declared`, or at the
/// enclosing block's end label.
pub open spec fn targets_ok(code: Seq<CommandView>, declared: Seq<CommandView>, label: Label) -> bool {
    forall|k: int|
        0 <= k < code.len() ==> match #[trigger] code[k] {
            CommandView::Jmp(l) => crate::binary::has_label(declared, l) || l == label,
            CommandView::ConditionalJump(_, l) => crate::binary::has_label(declared, l) || l
                == label,
            _ => true,
        }
}

/// Every jump of `code` aims at a label declared in `declared`.
pub open spec fn targets_internal(code: Seq<CommandView>, declared: Seq<CommandView>) -> bool {
    forall|k: int|
        0 <= k < code.len() ==> match #[trigger] code[k] {
            CommandView::Jmp(l) => crate::binary::has_label(declared, l),
            CommandView::ConditionalJump(_, l) => crate::binary::has_label(declared, l),
            _ => true,
        }
}

pub proof fn lemma_has_label_left(a: Seq<CommandView>, b: Seq<CommandView>, l: Label)
    requires
        crate::binary::has_label(a, l),
    ensures
        crate::binary::has_label(a + b, l),
{
    let j = choose|j: int| 0 <= j < a.len() && a[j] == CommandView::Label(l);
    assert((a + b)[j] == CommandView::Label(l));
}

pub proof fn lemma_has_label_right(a: Seq<CommandView>, b: Seq<CommandView>, l: Label)
    requires
        crate::binary::has_label(b, l),
    ensures
        crate::binary::has_label(a + b, l),
{
    let j = choose|j: int| 0 <= j < b.len() && b[j] == CommandView::Label(l);
    assert((a + b)[a.len() + j] == CommandView::Label(l));
}

/// A sequence without jumps trivially resolves its targets anywhere.
proof fn lemma_no_jumps_targets(code: Seq<CommandView>, declared: Seq<CommandView>, label: Label)
    requires
        no_jumps(code),
    ensures
        targets_ok(code, declared, label),
        targets_internal(code, declared),
{
}

/// Target resolution splits over concatenation of the code side.
proof fn lemma_targets_ok_concat(
    a: Seq<CommandView>,
    b: Seq<CommandView>,
    declared: Seq<CommandView>,
    label: Label,
)
    requires
        targets_ok(a, declared, label),
        targets_ok(b, declared, label),
    ensures
        targets_ok(a + b, declared, label),
{
    assert forall|k: int| 0 <= k < (a + b).len() implies match #[trigger] (a + b)[k] {
        CommandView::Jmp(l) => crate::binary::has_label(declared, l) || l == label,
        CommandView::ConditionalJump(_, l) => crate::binary::has_label(declared, l) || l == label,
        _ => true,
    } by {
        if k < a.len() {
            assert((a + b)[k] == a[k]);
        } else {
            assert((a + b)[k] == b[k - a.len()]);
        }
    }
}

/// Target resolution is kept when the declaring sequence grows on either
/// side.
proof fn lemma_targets_ok_widen(
    code: Seq<CommandView>,
    d: Seq<CommandView>,
    left: Seq<CommandView>,
    right: Seq<CommandView>,
    label: Label,
)
    requires
        targets_ok(code, d, label),
    ensures
        targets_ok(code, left + d + right, label),
{
    assert forall|k: int| 0 <= k < code.len() implies match #[trigger] code[k] {
        CommandView::Jmp(l) => crate::binary::has_label(left + d + right, l) || l == label,
        CommandView::ConditionalJump(_, l) => crate::binary::has_label(left + d + right, l) || l
            == label,
        _ => true,
    } by {
        match code[k] {
            CommandView::Jmp(l) => {
                if crate::binary::has_label(d, l) {
                    lemma_has_label_left(d, right, l);
                    lemma_has_label_right(left, d + right, l);
                    assert(left + (d + right) =~= left + d + right);
                }
            },
            CommandView::ConditionalJump(_, l) => {
                if crate::binary::has_label(d, l) {
                    lemma_has_label_left(d, right, l);
                    lemma_has_label_right(left, d + right, l);
                    assert(left + (d + right) =~= left + d + right);
                }
            },
            _ => {},
        }
    }
}

/// Expressions compile to pure stack traffic: no jumps.
pub proof fn lemma_expr_no_jumps(e: Expr)
    ensures
        no_jumps(expr_sm(e)),
    decreases e,
{
    match e {
        Expr::IntLiteral(_) => {},
        Expr::Var(_) => {},
        Expr::InfixOperation(l, op, r) => {
            lemma_expr_no_jumps(*l);
            lemma_expr_no_jumps(*r);
            assert forall|k: int| 0 <= k < expr_sm(e).len() implies !((#[trigger] expr_sm(e)[k])
                is Jmp) && !(expr_sm(e)[k] is ConditionalJump) by {
                let a = expr_sm(*l);
                let b = expr_sm(*r);
                if k < a.len() {
                    assert(expr_sm(e)[k] == a[k]);
                } else if k < a.len() + b.len() {
                    assert(expr_sm(e)[k] == b[k - a.len()]);
                }
            }
        },
        Expr::PrefixOperation(ops, inner) => {
            lemma_expr_no_jumps(*inner);
            let a = expr_sm(*inner);
            assert forall|k: int| 0 <= k < expr_sm(e).len() implies !((#[trigger] expr_sm(e)[k])
                is Jmp) && !(expr_sm(e)[k] is ConditionalJump) by {
                if k < a.len() {
                    assert(expr_sm(e)[k] == a[k]);
                }
            }
        },
    }
}

/// Every jump a statement's translation emits aims at a label it emits
/// itself, or at the enclosing block's end label; when the statement does
/// not use that label, all its jumps resolve internally.
pub proof fn lemma_stmt_targets(c: int, label: Label, s: Stmt)
    ensures
        ({
            let (c1, used, code) = stmt_sm(c, label, s);
            &&& targets_ok(code, code, label)
            &&& (!used ==> targets_internal(code, code))
        }),
    decreases s, 1int,
{
    let (c1, used, code) = stmt_sm(c, label, s);
    match s {
        Stmt::VarDeclaration(_) => {},
        Stmt::VarAssign(id, e) => {
            lemma_expr_no_jumps(e);
            assert(no_jumps(code)) by {
                let a = expr_sm(e);
                assert forall|k: int| 0 <= k < code.len() implies !((#[trigger] code[k]) is Jmp)
                    && !(code[k] is ConditionalJump) by {
                    if k < a.len() {
                        assert(code[k] == a[k]);
                    }
                }
            }
            lemma_no_jumps_targets(code, code, label);
        },
        Stmt::Print(e) => {
            lemma_expr_no_jumps(e);
            assert(no_jumps(code)) by {
                let a = expr_sm(e);
                assert forall|k: int| 0 <= k < code.len() implies !((#[trigger] code[k]) is Jmp)
                    && !(code[k] is ConditionalJump) by {
                    if k < a.len() {
                        assert(code[k] == a[k]);
                    }
                }
            }
            lemma_no_jumps_targets(code, code, label);
        },
        Stmt::If { condition, true_branch, false_branch } => {
            let false_label = Label { id: c as i32 };
            let (cc1, u1, tcode) = block_sm_from(c + 1, label, true_branch@, 0);
            let cond = expr_sm(condition);
            let base = cond + seq![
                CommandView::ConditionalJump(Condition::EqualsZero, false_label),
            ] + tcode + seq![CommandView::Jmp(label), CommandView::Label(false_label)];
            lemma_expr_no_jumps(condition);
            lemma_block_targets(c + 1, label, true_branch@, 0);
            // The declared false label resolves the conditional jump, and
            // the true branch's internal labels are embedded unchanged.
            assert(crate::binary::has_label(base, false_label)) by {
                assert(base[base.len() - 1] == CommandView::Label(false_label));
            }
            lemma_no_jumps_targets(cond, base, label);
            lemma_targets_ok_widen(
                tcode,
                tcode,
                cond + seq![CommandView::ConditionalJump(Condition::EqualsZero, false_label)],
                seq![CommandView::Jmp(label), CommandView::Label(false_label)],
                label,
            );
            assert(cond + seq![
                CommandView::ConditionalJump(Condition::EqualsZero, false_label),
            ] + tcode + seq![CommandView::Jmp(label), CommandView::Label(false_label)] =~= (cond
                + seq![CommandView::ConditionalJump(Condition::EqualsZero, false_label)]) + tcode
                + seq![CommandView::Jmp(label), CommandView::Label(false_label)]);
            assert(targets_ok(base, base, label)) by {
                assert forall|k: int| 0 <= k < base.len() implies match #[trigger] base[k] {
                    CommandView::Jmp(l) => crate::binary::has_label(base, l) || l == label,
                    CommandView::ConditionalJump(_, l) => crate::binary::has_label(base, l) || l
                        == label,
                    _ => true,
                } by {
                    let pre = cond.len() + 1;
                    if k < cond.len() {
                        assert(base[k] == cond[k]);
                    } else if k == cond.len() {
                        assert(base[k] == CommandView::ConditionalJump(
                            Condition::EqualsZero,
                            false_label,
                        ));
                    } else if k < pre + tcode.len() {
                        assert(base[k] == tcode[k - pre]);
                        assert(targets_ok(tcode, base, label));
                    } else if k == pre + tcode.len() {
                        assert(base[k] == CommandView::Jmp(label));
                    }
                }
            }
            match false_branch {
                Some(f) => {
                    let (c2, u2, fcode) = block_sm_from(cc1, label, f@, 0);
                    lemma_block_targets(cc1, label, f@, 0);
                    lemma_targets_ok_widen(fcode, fcode, base, Seq::empty(), label);
                    assert(base + fcode + Seq::<CommandView>::empty() =~= base + fcode);
                    lemma_targets_ok_widen(base, base, Seq::empty(), fcode, label);
                    assert(Seq::<CommandView>::empty() + base + fcode =~= base + fcode);
                    lemma_targets_ok_concat(base, fcode, base + fcode, label);
                },
                None => {},
            }
        },
        Stmt::While(condition, body) => {
            let start = Label { id: c as i32 };
            let after = Label { id: (c + 1) as i32 };
            let (cc1, u1, bcode) = block_sm_from(c + 2, after, body@, 0);
            let cond = expr_sm(condition);
            let head = seq![CommandView::Jmp(after), CommandView::Label(start)];
            let mid = seq![CommandView::Label(after)];
            let tail = seq![CommandView::ConditionalJump(Condition::NotEqualsZero, start)];
            lemma_expr_no_jumps(condition);
            lemma_block_targets(c + 2, after, body@, 0);
            assert(code =~= head + bcode + mid + cond + tail);
            assert(crate::binary::has_label(code, start)) by {
                assert(code[1] == CommandView::Label(start));
            }
            assert(crate::binary::has_label(code, after)) by {
                assert(code[head.len() + bcode.len() as int] == CommandView::Label(after));
            }
            assert(targets_ok(bcode, bcode, after));
            assert(targets_internal(code, code)) by {
                assert forall|k: int| 0 <= k < code.len() implies match #[trigger] code[k] {
                    CommandView::Jmp(l) => crate::binary::has_label(code, l),
                    CommandView::ConditionalJump(_, l) => crate::binary::has_label(code, l),
                    _ => true,
                } by {
                    if k < 2 {
                    } else if k < 2 + bcode.len() {
                        assert(code[k] == bcode[k - 2]);
                        match bcode[k - 2] {
                            CommandView::Jmp(l) => {
                                if l != after {
                                    let j = choose|j: int|
                                        0 <= j < bcode.len() && bcode[j] == CommandView::Label(l);
                                    assert(code[2 + j] == CommandView::Label(l));
                                }
                            },
                            CommandView::ConditionalJump(_, l) => {
                                if l != after {
                                    let j = choose|j: int|
                                        0 <= j < bcode.len() && bcode[j] == CommandView::Label(l);
                                    assert(code[2 + j] == CommandView::Label(l));
                                }
                            },
                            _ => {},
                        }
                    } else if k < 2 + bcode.len() + 1 + cond.len() {
                        if k >= 2 + bcode.len() + 1 {
                            assert(code[k] == cond[k - (2 + bcode.len() + 1)]);
                        }
                    }
                }
            }
            assert(targets_ok(code, code, label));
        },
    }
}

/// The same statement-by-statement accounting for a block's tail.
pub proof fn lemma_block_targets(c: int, label: Label, b: Seq<Stmt>, i: int)
    ensures
        ({
            let (c1, used, code) = block_sm_from(c, label, b, i);
            &&& targets_ok(code, code, label)
            &&& (!used ==> targets_internal(code, code))
        }),
    decreases b, b.len() - i + 2,
{
    let (c1, used, code) = block_sm_from(c, label, b, i);
    if i < 0 || i >= b.len() {
    } else if i == b.len() - 1 {
        lemma_stmt_targets(c, label, b[i]);
    } else {
        let after = Label { id: c as i32 };
        let (cs, used_s, scode) = stmt_sm(c + 1, after, b[i]);
        let head = if used_s {
            scode + seq![CommandView::Label(after)]
        } else {
            scode
        };
        let (c2, u2, rest) = block_sm_from(cs, label, b, i + 1);
        lemma_stmt_targets(c + 1, after, b[i]);
        lemma_block_targets(cs, label, b, i + 1);
        // The head's jumps resolve inside the head: either internally, or
        // at its own appended label.
        assert(targets_internal(head, head)) by {
            if used_s {
                assert forall|k: int| 0 <= k < head.len() implies match #[trigger] head[k] {
                    CommandView::Jmp(l) => crate::binary::has_label(head, l),
                    CommandView::ConditionalJump(_, l) => crate::binary::has_label(head, l),
                    _ => true,
                } by {
                    if k < scode.len() {
                        assert(head[k] == scode[k]);
                        match scode[k] {
                            CommandView::Jmp(l) => {
                                if l == after {
                                    assert(head[scode.len() as int] == CommandView::Label(after));
                                } else {
                                    let j = choose|j: int|
                                        0 <= j < scode.len() && scode[j] == CommandView::Label(l);
                                    assert(head[j] == CommandView::Label(l));
                                }
                            },
                            CommandView::ConditionalJump(_, l) => {
                                if l == after {
                                    assert(head[scode.len() as int] == CommandView::Label(after));
                                } else {
                                    let j = choose|j: int|
                                        0 <= j < scode.len() && scode[j] == CommandView::Label(l);
                                    assert(head[j] == CommandView::Label(l));
                                }
                            },
                            _ => {},
                        }
                    }
                }
            } else {
                assert(targets_internal(scode, scode));
            }
        }
        assert forall|k: int| 0 <= k < code.len() implies match #[trigger] code[k] {
            CommandView::Jmp(l) => crate::binary::has_label(code, l) || l == label,
            CommandView::ConditionalJump(_, l) => crate::binary::has_label(code, l) || l == label,
            _ => true,
        } by {
            assert(code =~= head + rest);
            if k < head.len() {
                assert(code[k] == head[k]);
                match head[k] {
                    CommandView::Jmp(l) => {
                        let j = choose|j: int|
                            0 <= j < head.len() && head[j] == CommandView::Label(l);
                        assert(code[j] == CommandView::Label(l));
                    },
                    CommandView::ConditionalJump(_, l) => {
                        let j = choose|j: int|
                            0 <= j < head.len() && head[j] == CommandView::Label(l);
                        assert(code[j] == CommandView::Label(l));
                    },
                    _ => {},
                }
            } else {
                assert(code[k] == rest[k - head.len()]);
                match rest[k - head.len()] {
                    CommandView::Jmp(l) => {
                        if l != label {
                            let j = choose|j: int|
                                0 <= j < rest.len() && rest[j] == CommandView::Label(l);
                            assert(code[head.len() + j] == CommandView::Label(l));
                        }
                    },
                    CommandView::ConditionalJump(_, l) => {
                        if l != label {
                            let j = choose|j: int|
                                0 <= j < rest.len() && rest[j] == CommandView::Label(l);
                            assert(code[head.len() + j] == CommandView::Label(l));
                        }
                    },
                    _ => {},
                }
            }
        }
        if !used {
            assert(targets_internal(code, code)) by {
                assert forall|k: int| 0 <= k < code.len() implies match #[trigger] code[k] {
                    CommandView::Jmp(l) => crate::binary::has_label(code, l),
                    CommandView::ConditionalJump(_, l) => crate::binary::has_label(code, l),
                    _ => true,
                } by {
                    assert(code =~= head + rest);
                    if k < head.len() {
                        assert(code[k] == head[k]);
                        match head[k] {
                            CommandView::Jmp(l) => {
                                let j = choose|j: int|
                                    0 <= j < head.len() && head[j] == CommandView::Label(l);
                                assert(code[j] == CommandView::Label(l));
                            },
                            CommandView::ConditionalJump(_, l) => {
                                let j = choose|j: int|
                                    0 <= j < head.len() && head[j] == CommandView::Label(l);
                                assert(code[j] == CommandView::Label(l));
                            },
                            _ => {},
                        }
                    } else {
                        assert(code[k] == rest[k - head.len()]);
                        match rest[k - head.len()] {
                            CommandView::Jmp(l) => {
                                let j = choose|j: int|
                                    0 <= j < rest.len() && rest[j] == CommandView::Label(l);
                                assert(code[head.len() + j] == CommandView::Label(l));
                            },
                            CommandView::ConditionalJump(_, l) => {
                                let j = choose|j: int|
                                    0 <= j < rest.len() && rest[j] == CommandView::Label(l);
                                assert(code[head.len() + j] == CommandView::Label(l));
                            },
                            _ => {},
                        }
                    }
                }
            }
        }
    }
}

/// Every jump in a lowered program aims at a label the program itself
/// declares, so the assembler's label pass always finds its targets.
pub proof fn lemma_ast_targets_declared(c: int, b: Seq<Stmt>)
    ensures
        crate::binary::jump_targets_declared(ast_sm(c, b)),
{
    let after = Label { id: c as i32 };
    let (c1, used, code) = block_sm_from(c + 1, after, b, 0);
    let whole = ast_sm(c, b);
    lemma_block_targets(c + 1, after, b, 0);
    if used {
        assert(whole =~= code + seq![CommandView::Label(after)]);
        assert forall|k: int| 0 <= k < whole.len() implies crate::binary::jump_target_ok(
            whole,
            #[trigger] whole[k],
        ) by {
            if k < code.len() {
                assert(whole[k] == code[k]);
                match code[k] {
                    CommandView::Jmp(l) => {
                        if l == after {
                            assert(whole[code.len() as int] == CommandView::Label(after));
                        } else {
                            let j = choose|j: int|
                                0 <= j < code.len() && code[j] == CommandView::Label(l);
                            assert(whole[j] == CommandView::Label(l));
                        }
                    },
                    CommandView::ConditionalJump(_, l) => {
                        if l == after {
                            assert(whole[code.len() as int] == CommandView::Label(after));
                        } else {
                            let j = choose|j: int|
                                0 <= j < code.len() && code[j] == CommandView::Label(l);
                            assert(whole[j] == CommandView::Label(l));
                        }
                    },
                    _ => {},
                }
            }
        }
    } else {
        assert(whole == code);
        assert forall|k: int| 0 <= k < whole.len() implies crate::binary::jump_target_ok(
            whole,
            #[trigger] whole[k],
        ) by {
            assert(targets_internal(code, code));
        }
    }
}

pub struct AstTransformer {
    pub last_id: i32,
}

impl AstTransformer {
    pub fn new() -> (r: AstTransformer)
        ensures
            r.last_id == 0,
    {
        AstTransformer { last_id: 0 }
    }

    pub fn generate_label(&mut self) -> (r: Label)
        requires
            old(self).last_id < i32::MAX,
        ensures
            r == (Label { id: old(self).last_id }),
            final(self).last_id == old(self).last_id + 1,
    {
        let label = Label { id: self.last_id };
        self.last_id = self.last_id + 1;
        label
    }

    pub fn transform_expr_to_sm(&self, expr: &Expr) -> (r: Vec<StackCommand>)
        ensures
            cmds_view(r@) == expr_sm(*expr),
        decreases *expr,
    {
        match expr {
            Expr::IntLiteral(n) => {
                let mut r: Vec<StackCommand> = Vec::new();
                r.push(StackCommand::Const(*n));
                proof {
                    assert(cmds_view(r@) =~= expr_sm(*expr));
                }
                r
            },
            Expr::Var(x) => {
                let mut r: Vec<StackCommand> = Vec::new();
                r.push(StackCommand::Load(x.clone()));
                proof {
                    assert(cmds_view(r@) =~= expr_sm(*expr));
                }
                r
            },
            Expr::InfixOperation(left, op, right) => {
                let mut r = self.transform_expr_to_sm(&**left);
                let mut rhs = self.transform_expr_to_sm(&**right);
                r.append(&mut rhs);
                r.push(StackCommand::Op(*op));
                proof {
                    assert(cmds_view(r@) =~= expr_sm(*expr));
                }
                r
            },
            Expr::PrefixOperation(ops, inner) => {
                match ops {
                    PrefixOps::BitwiseNot => {
                        let mut r = self.transform_expr_to_sm(&**inner);
                        r.push(StackCommand::Const(0));
                        r.push(StackCommand::Op(Ops::BitwiseNor));
                        proof {
                            assert(cmds_view(r@) =~= expr_sm(*expr));
                        }
                        r
                    },
                    PrefixOps::UnaryMinus => {
                        let mut r = self.transform_expr_to_sm(&**inner);
                        r.push(StackCommand::Const(0));
                        r.push(StackCommand::Op(Ops::Sub));
                        proof {
                            assert(cmds_view(r@) =~= expr_sm(*expr));
                        }
                        r
                    },
                }
            },
        }
    }

    pub fn transform_stmt(&mut self, label: Label, stmt: &Stmt) -> (r: (bool, Vec<StackCommand>))
        requires
            old(self).last_id + stmt_labels(*stmt) <= i32::MAX,
        ensures
            ({
                let (c, used, code) = stmt_sm(old(self).last_id as int, label, *stmt);
                final(self).last_id == c && r.0 == used && cmds_view(r.1@) == code
            }),
        decreases *stmt, 1int,
    {
        proof {
            lemma_stmt_counter(self.last_id as int, label, *stmt);
        }
        match stmt {
            Stmt::VarDeclaration(_) => {
                let r = (false, Vec::new());
                proof {
                    assert(cmds_view(r.1@) =~= stmt_sm(old(self).last_id as int, label, *stmt).2);
                }
                r
            },
            Stmt::VarAssign(id, expr) => {
                let mut expr_cmds = self.transform_expr_to_sm(expr);
                expr_cmds.push(StackCommand::Store(id.clone()));
                proof {
                    assert(cmds_view(expr_cmds@) =~= stmt_sm(
                        old(self).last_id as int,
                        label,
                        *stmt,
                    ).2);
                }
                (false, expr_cmds)
            },
            Stmt::If { condition, true_branch, false_branch } => {
                let mut condition_code = self.transform_expr_to_sm(condition);
                proof {
                    lemma_block_counter(self.last_id + 1, label, true_branch@, 0);
                }
                let false_label = self.generate_label();
                condition_code.push(
                    StackCommand::ConditionalJump(Condition::EqualsZero, false_label),
                );
                let (_used, mut true_code) = self.transform_block_to_sm(label, &**true_branch);
                condition_code.append(&mut true_code);
                condition_code.push(StackCommand::Jmp(label));
                condition_code.push(StackCommand::Label(false_label));
                if let Some(false_b) = false_branch {
                    let (_fused, mut false_code) = self.transform_block_to_sm(
                        label,
                        &**false_b,
                    );
                    condition_code.append(&mut false_code);
                }
                proof {
                    assert(cmds_view(condition_code@) =~= stmt_sm(
                        old(self).last_id as int,
                        label,
                        *stmt,
                    ).2);
                }
                (true, condition_code)
            },
            Stmt::While(condition, body) => {
                let start_body_label = self.generate_label();
                let after_body_label = self.generate_label();
                let mut result: Vec<StackCommand> = Vec::new();
                result.push(StackCommand::Jmp(after_body_label));
                result.push(StackCommand::Label(start_body_label));
                let (_used, mut body_code) = self.transform_block_to_sm(
                    after_body_label,
                    &**body,
                );
                let mut condition_code = self.transform_expr_to_sm(condition);
                result.append(&mut body_code);
                result.push(StackCommand::Label(after_body_label));
                result.append(&mut condition_code);
                result.push(
                    StackCommand::ConditionalJump(Condition::NotEqualsZero, start_body_label),
                );
                proof {
                    assert(cmds_view(result@) =~= stmt_sm(
                        old(self).last_id as int,
                        label,
                        *stmt,
                    ).2);
                }
                (false, result)
            },
            Stmt::Print(expr) => {
                let mut result = self.transform_expr_to_sm(expr);
                result.push(StackCommand::Print);
                proof {
                    assert(cmds_view(result@) =~= stmt_sm(
                        old(self).last_id as int,
                        label,
                        *stmt,
                    ).2);
                }
                (false, result)
            },
        }
    }

    pub fn transform_block_to_sm(&mut self, label: Label, program: &Block) -> (r: (
        bool,
        Vec<StackCommand>,
    ))
        requires
            old(self).last_id + block_labels(program@, 0) <= i32::MAX,
        ensures
            ({
                let (c, used, code) = block_sm_from(old(self).last_id as int, label, program@, 0);
                final(self).last_id == c && r.0 == used && cmds_view(r.1@) == code
            }),
        decreases *program, 0int,
    {
        if program.len() == 0 {
            let r = (false, Vec::new());
            proof {
                assert(cmds_view(r.1@) =~= block_sm_from(
                    old(self).last_id as int,
                    label,
                    program@,
                    0,
                ).2);
            }
            return r;
        }
        let ghost c0 = old(self).last_id as int;
        let mut result: Vec<StackCommand> = Vec::new();
        let mut i: usize = 0;
        while i < program.len() - 1
            invariant
                program@.len() >= 1,
                i < program@.len(),
                self.last_id as int + block_labels(program@, i as int) <= i32::MAX,
                ({
                    let (ct, ut, st) = block_sm_from(c0, label, program@, 0);
                    let (cr, ur, sr) = block_sm_from(self.last_id as int, label, program@, i as int);
                    ct == cr && ut == ur && st == cmds_view(result@) + sr
                }),
            decreases program@.len() - i,
        {
            proof {
                lemma_stmt_counter(self.last_id + 1, Label { id: self.last_id as i32 }, program@[i as int]);
                lemma_block_counter(
                    self.last_id + 1 + stmt_labels(program@[i as int]),
                    label,
                    program@,
                    i as int + 1,
                );
            }
            let after_stmt = self.generate_label();
            let (lab_used, mut code) = self.transform_stmt(after_stmt, &program[i]);
            result.append(&mut code);
            if lab_used {
                result.push(StackCommand::Label(after_stmt));
            }
            proof {
                let (ct, ut, st) = block_sm_from(c0, label, program@, 0);
                let (cr, ur, sr) = block_sm_from(self.last_id as int, label, program@, i as int + 1);
                assert(st =~= cmds_view(result@) + sr);
            }
            i = i + 1;
        }
        let (used, mut code) = self.transform_stmt(label, &program[i]);
        result.append(&mut code);
        proof {
            let (ct, ut, st) = block_sm_from(c0, label, program@, 0);
            assert(st =~= cmds_view(result@));
        }
        (used, result)
    }

    /// Lowers a whole program, closing it with the end label when any
    /// statement jumps there.
    pub fn transform_ast_to_sm(&mut self, program: Block) -> (r: Vec<StackCommand>)
        requires
            old(self).last_id + 1 + block_labels(program@, 0) <= i32::MAX,
        ensures
            cmds_view(r@) == ast_sm(old(self).last_id as int, program@),
    {
        let after_stmt = self.generate_label();
        let (lab_used, mut code) = self.transform_block_to_sm(after_stmt, &program);
        if lab_used {
            code.push(StackCommand::Label(after_stmt));
        }
        proof {
            assert(cmds_view(code@) =~= ast_sm(old(self).last_id as int, program@));
        }
        code
    }
}

} // verus!
