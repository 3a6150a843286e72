use vstd::prelude::*;

use crate::value::CmpOp;

verus! {

/// The arithmetic operators: `+`, `-`, `×`, `÷`.
#[derive(Clone, Copy, Debug, PartialEq, Eq, Structural)]
pub enum ArithOp {
    Add,
    Sub,
    Mul,
    Div,
}

/// An operator between two operands of a fold.
#[derive(Clone, Copy, Debug, PartialEq, Eq, Structural)]
pub enum Op {
    Arith(ArithOp),
    Cmp(CmpOp),
}

/// One node of a syntax tree. Nodes sit in a vector and name their children by
/// position in it.
#[derive(Debug)]
pub enum Node {
    /// A number literal, as written.
    Number(String),
    /// A variable, named by its letter.
    Variable(char),
    /// A prompt for input, with its quoted prompt text if there is one.
    Prompt(Option<Vec<char>>),
    /// One precedence level: the first operand, then operator and operand pairs,
    /// folded from the left.
    Fold { first: usize, rest: Vec<(Op, usize)> },
    /// A quoted string literal, quotes included.
    Text(Vec<char>),
    /// `expr → letter`.
    Assign { expr: usize, letter: char },
    /// A single guarded statement.
    If { cond: usize, stmt: usize },
    /// A guarded list of statements, with an optional list for the other case.
    IfElse { cond: usize, then_branch: Vec<usize>, else_branch: Option<Vec<usize>> },
    /// A loop over a list of statements.
    While { cond: usize, body: Vec<usize> },
    /// Shows the value of an expression, or the text of a string literal.
    Display { arg: usize },
}

/// A parsed program unit: its nodes and its top-level statements in order.
#[derive(Debug)]
pub struct Program {
    pub nodes: Vec<Node>,
    pub top: Vec<usize>,
}

/// An expression typed at a prompt: its nodes and the position of its root.
#[derive(Debug)]
pub struct Fragment {
    pub nodes: Vec<Node>,
    pub root: usize,
}

} // verus!
