use vstd::prelude::*;

verus! {

/// The binary operators of the typed intermediate representation.
#[derive(Clone, Copy, Debug, PartialEq, Eq, Structural)]
pub enum HirBinaryOp {
    Add,
    And,
    Div,
    Eq,
    Gt,
    Gte,
    Lt,
    Lte,
    Mod,
    Mul,
    Neq,
    Or,
    Sub,
}

/// The unary operators of the typed intermediate representation.
#[derive(Clone, Copy, Debug, PartialEq, Eq, Structural)]
pub enum UnaryOp {
    Neg,
    Not,
}

} // verus!
