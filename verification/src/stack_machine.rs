//! The stack-machine intermediate form the compiler lowers the syntax tree
//! to, before the final assembly into datapath instructions.

use vstd::prelude::*;
use crate::ast::{Ident, Ops};

verus! {

#[derive(Clone, Debug, PartialEq)]
pub enum StackCommand {
    Print,
    Op(Ops),
    Load(Ident),
    Store(Ident),
    Const(i32),
    Label(Label),
    Jmp(Label),
    ConditionalJump(Condition, Label),
}

#[derive(Copy, Clone, Debug, Eq, PartialEq, Hash, Structural)]
pub struct Label {
    pub id: i32,
}

#[derive(Copy, Clone, Debug, PartialEq, Eq, Structural)]
pub enum Condition {
    EqualsZero,
    NotEqualsZero,
}

/// The abstract form of a stack command: identifiers are reduced to their
/// character sequences, so that contracts are untouched by string cloning.
pub ghost enum CommandView {
    Print,
    Op(Ops),
    Load(Seq<char>),
    Store(Seq<char>),
    Const(i32),
    Label(Label),
    Jmp(Label),
    ConditionalJump(Condition, Label),
}

pub open spec fn cmd_view(c: StackCommand) -> CommandView {
    match c {
        StackCommand::Print => CommandView::Print,
        StackCommand::Op(op) => CommandView::Op(op),
        StackCommand::Load(id) => CommandView::Load(id@),
        StackCommand::Store(id) => CommandView::Store(id@),
        StackCommand::Const(x) => CommandView::Const(x),
        StackCommand::Label(l) => CommandView::Label(l),
        StackCommand::Jmp(l) => CommandView::Jmp(l),
        StackCommand::ConditionalJump(c, l) => CommandView::ConditionalJump(c, l),
    }
}

/// The abstract form of a whole command sequence.
pub open spec fn cmds_view(s: Seq<StackCommand>) -> Seq<CommandView> {
    s.map_values(|c: StackCommand| cmd_view(c))
}

} // verus!
