use vstd::prelude::*;

use crate::token::Span;

verus! {

/// A type as written in the source.
#[derive(Debug)]
pub enum Type {
    Function(Vec<(String, Type)>, Box<Type>),
    List(Box<Type>),
    Mapping(Box<Type>, Box<Type>),
    Integer,
    Float,
    String,
    Bool,
    Unit,
    NonPrimitive(String),
}

/// The binary operators of the source syntax.
#[derive(Clone, Copy, Debug, PartialEq, Eq, Structural)]
pub enum BinaryOperator {
    OpAdd,
    OpSub,
    OpMul,
    OpDiv,
    OpMod,
    OpPow,
    OpEq,
    OpNEq,
    OpLessThan,
    OpLessThanEq,
    OpGreaterThan,
    OpGreaterThanEq,
}

/// The prefix operators of the source syntax.
#[derive(Clone, Copy, Debug, PartialEq, Eq, Structural)]
pub enum UnaryOperator {
    OpSub,
    OpNot,
}

/// A literal of the source syntax. A float is held as its IEEE-754 bit pattern.
#[derive(Debug)]
pub enum Literal {
    Float(u64),
    Integer(i64),
    String(String),
    Bool(bool),
    List(Vec<Expression>),
}

#[derive(Debug)]
pub struct VariableDeclaration {
    pub name: String,
    pub t: Type,
    pub mutable: bool,
    pub value: Option<Box<Expression>>,
    pub span: Span,
}

#[derive(Debug)]
pub struct StructDeclaration {
    pub name: String,
    pub fields: Vec<Type>,
    pub span: Span,
}

#[derive(Debug)]
pub struct NewObjectExpression {
    pub name: String,
    pub fields: Vec<Expression>,
    pub span: Span,
}

#[derive(Debug)]
pub struct FunctionExpression {
    pub args: Vec<(String, Type)>,
    pub body: Box<Expression>,
    pub span: Span,
}

#[derive(Debug)]
pub struct BinaryExpression {
    pub left: Box<Expression>,
    pub operator: BinaryOperator,
    pub right: Box<Expression>,
    pub span: Span,
}

#[derive(Debug)]
pub struct UnaryExpression {
    pub operator: Option<UnaryOperator>,
    pub expression: Box<Expression>,
    pub span: Span,
}

#[derive(Debug)]
pub struct DoExpression {
    pub body: Vec<Box<Expression>>,
    pub span: Span,
}

#[derive(Debug)]
pub struct IfElseNode {
    pub condition: Box<Expression>,
    pub if_body: Box<Expression>,
    pub else_body: Option<Box<Expression>>,
    pub span: Span,
}

#[derive(Debug)]
pub struct MatchArm {
    pub pattern: Box<Expression>,
    pub body: Box<Expression>,
    pub span: Span,
}

#[derive(Debug)]
pub struct MatchExpression {
    pub expr: Box<Expression>,
    pub arms: Vec<MatchArm>,
    pub default: Option<Box<Expression>>,
    pub span: Span,
}

#[derive(Debug)]
pub struct FunctionCall {
    pub name: String,
    pub args: Vec<Box<Expression>>,
    pub span: Span,
}

#[derive(Debug)]
pub struct IndexExpression {
    pub name: String,
    pub index: Box<Expression>,
    pub span: Span,
}

#[derive(Debug)]
pub struct FieldAccessExpression {
    pub name: String,
    pub field: usize,
    pub span: Span,
}

#[derive(Debug)]
pub struct IdentifierNode {
    pub name: String,
    pub span: Span,
}

/// An expression of the source syntax.
#[derive(Debug)]
pub enum Expression {
    Literal(Literal),
    VariableDeclaration(VariableDeclaration),
    StructDeclaration(StructDeclaration),
    NewObjectExpression(NewObjectExpression),
    FunctionExpression(FunctionExpression),
    BinaryExpression(BinaryExpression),
    UnaryExpression(UnaryExpression),
    DoExpression(DoExpression),
    IfElseNode(IfElseNode),
    MatchExpression(MatchExpression),
    FunctionCall(FunctionCall),
    IndexExpression(IndexExpression),
    FieldAccessExpression(FieldAccessExpression),
    Identifier(IdentifierNode),
}

/// A parsed program: its top-level expressions in order.
pub type AbstractSyntaxTree = Vec<Expression>;

/// An owned copy of a type.
fn copy_type(t: &Type) -> Type
    decreases *t,
{
    match t {
        Type::Function(args, ret) => Type::Function(copy_args(args), Box::new(copy_type(ret))),
        Type::List(inner) => Type::List(Box::new(copy_type(inner))),
        Type::Mapping(k, v) => Type::Mapping(Box::new(copy_type(k)), Box::new(copy_type(v))),
        Type::Integer => Type::Integer,
        Type::Float => Type::Float,
        Type::String => Type::String,
        Type::Bool => Type::Bool,
        Type::Unit => Type::Unit,
        Type::NonPrimitive(s) => Type::NonPrimitive(s.clone()),
    }
}

/// An owned copy of a function type's parameter list.
pub(crate) fn copy_args(args: &Vec<(String, Type)>) -> (r: Vec<(String, Type)>)
    ensures
        r@.len() == args@.len(),
    decreases args,
{
    let mut r: Vec<(String, Type)> = Vec::new();
    let mut i: usize = 0;
    while i < args.len()
        invariant
            i <= args@.len(),
            r@.len() == i,
        decreases args@.len() - i,
    {
        proof {
            assert(decreases_to!(*args => args[i as int]));
        }
        let t = copy_type(&args[i].1);
        r.push((args[i].0.clone(), t));
        i = i + 1;
    }
    r
}

} // verus!
