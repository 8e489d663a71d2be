use vstd::prelude::*;

use crate::value::DataType;

verus! {

/// A constant written in the program.
#[derive(Debug)]
pub enum Literal<N> {
    Number(N),
    String(String),
    Boolean(bool),
}

/// The binary operators of the language.
#[derive(Clone, Copy, Debug, PartialEq, Eq, Structural)]
pub enum BinaryOperator {
    Add,
    Sub,
    Mul,
    Div,
    Mod,
    Eq,
    Neq,
    Gt,
    Gte,
    Lt,
    Lte,
}

/// The unary operators of the language.
#[derive(Clone, Copy, Debug, PartialEq, Eq, Structural)]
pub enum UnaryOperator {
    Negate,
}

/// An expression of an already-parsed program.
#[derive(Debug)]
pub enum Expression<N> {
    BinaryOp(Box<Expression<N>>, BinaryOperator, Box<Expression<N>>),
    UnaryOp(UnaryOperator, Box<Expression<N>>),
    Literal(Literal<N>),
    Identifier(String),
}

/// A statement of an already-parsed program.
#[derive(Debug)]
pub enum Statement<N> {
    Print(Expression<N>),
    If {
        condition: Expression<N>,
        then_body: Vec<Statement<N>>,
        else_body: Option<Vec<Statement<N>>>,
    },
    VarDecl { name: String, declared_type: DataType, initializer: Option<Expression<N>> },
    While { condition: Expression<N>, body: Vec<Statement<N>> },
    Assign { name: String, value: Expression<N> },
}

} // verus!
