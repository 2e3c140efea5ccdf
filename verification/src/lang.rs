//! The abstract syntax of the source language the byte-code compiler
//! accepts: statements over comparisons, sums and logic on variables and
//! integer literals.

use vstd::prelude::*;

verus! {

#[derive(Debug)]
pub enum Stmt {
    Print(Expr),
    VarDecl(Identifier),
    Assign(Identifier, Expr),
    If(Expr, Vec<Stmt>),
    While(Expr, Vec<Stmt>),
}

#[derive(Eq, PartialEq, Hash, Debug)]
pub struct Identifier(pub String);

impl View for Identifier {
    type V = Seq<char>;

    open spec fn view(&self) -> Seq<char> {
        self.0@
    }
}

impl Clone for Identifier {
    fn clone(&self) -> (r: Self)
        ensures
            r@ == self@,
    {
        Identifier(self.0.clone())
    }
}

#[derive(Debug)]
pub enum Expr {
    Literal(i32),
    Sum(Box<(Expr, Expr)>),
    Sub(Box<(Expr, Expr)>),
    And(Box<(Expr, Expr)>),
    Or(Box<(Expr, Expr)>),
    LT(Box<(Expr, Expr)>),
    LE(Box<(Expr, Expr)>),
    GT(Box<(Expr, Expr)>),
    GE(Box<(Expr, Expr)>),
    Eq(Box<(Expr, Expr)>),
    Not(Box<Expr>),
    VarRef(Identifier),
}

} // verus!
