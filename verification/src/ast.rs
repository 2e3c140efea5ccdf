//! The abstract syntax of the toy imperative language: statements over
//! integer expressions with variables, infix and prefix operators.

use vstd::prelude::*;

verus! {

#[derive(Eq, PartialEq, Debug, Hash)]
pub struct Ident(pub String);

impl View for Ident {
    type V = Seq<char>;

    open spec fn view(&self) -> Seq<char> {
        self.0@
    }
}

impl Clone for Ident {
    fn clone(&self) -> (r: Self)
        ensures
            r@ == self@,
    {
        Ident(self.0.clone())
    }
}

pub type Block = Vec<Stmt>;

#[derive(PartialEq, Debug)]
pub enum Stmt {
    VarDeclaration(Vec<Ident>),
    VarAssign(Ident, Expr),
    If { condition: Expr, true_branch: Box<Block>, false_branch: Option<Box<Block>> },
    While(Expr, Box<Block>),
    Print(Expr),
}

#[derive(PartialEq, Debug)]
pub enum Expr {
    IntLiteral(i32),
    Var(Ident),
    InfixOperation(Box<Expr>, Ops, Box<Expr>),
    PrefixOperation(PrefixOps, Box<Expr>),
}

#[derive(PartialEq, Eq, Ord, PartialOrd, Copy, Clone, Debug)]
pub enum Ops {
    Add,
    Sub,
    BitwiseAnd,
    BitwiseOr,
    BitwiseNor,
}

#[derive(PartialEq, Eq, Ord, PartialOrd, Copy, Clone, Debug)]
pub enum PrefixOps {
    BitwiseNot,
    UnaryMinus,
}

#[derive(PartialEq, PartialOrd, Clone, Debug)]
pub enum Precedence {
    Lowest,
    BitOperations,
    Operations,
}

} // verus!
