use vstd::prelude::*;

verus! {

/// The arithmetic that the evaluator needs from its numbers.
///
/// The language's numbers are IEEE-754 doubles. The evaluator never looks
/// inside a number: it asks the number type to combine, compare, truncate and
/// print its values. Each operation is named by a spec function that the
/// implementing type defines, and the operation returns exactly that, so the
/// evaluator's contracts say which number, Boolean or text every step yields.
pub trait Number: Copy + Sized {
    spec fn spec_plus(self, rhs: Self) -> Self;

    spec fn spec_minus(self, rhs: Self) -> Self;

    spec fn spec_times(self, rhs: Self) -> Self;

    spec fn spec_divided_by(self, rhs: Self) -> Self;

    spec fn spec_remainder(self, rhs: Self) -> Self;

    spec fn spec_negated(self) -> Self;

    spec fn spec_equals(self, rhs: Self) -> bool;

    spec fn spec_greater(self, rhs: Self) -> bool;

    spec fn spec_greater_or_equal(self, rhs: Self) -> bool;

    spec fn spec_less(self, rhs: Self) -> bool;

    spec fn spec_less_or_equal(self, rhs: Self) -> bool;

    spec fn spec_truncated(self) -> Self;

    spec fn spec_render(self) -> String;

    /// `self + rhs`
    fn plus(&self, rhs: &Self) -> (r: Self)
        ensures
            r == self.spec_plus(*rhs),
    ;

    /// `self - rhs`
    fn minus(&self, rhs: &Self) -> (r: Self)
        ensures
            r == self.spec_minus(*rhs),
    ;

    /// `self * rhs`
    fn times(&self, rhs: &Self) -> (r: Self)
        ensures
            r == self.spec_times(*rhs),
    ;

    /// `self / rhs`, with the number type's own treatment of a zero divisor
    fn divided_by(&self, rhs: &Self) -> (r: Self)
        ensures
            r == self.spec_divided_by(*rhs),
    ;

    /// `self % rhs`, with the number type's own treatment of a zero divisor
    fn remainder(&self, rhs: &Self) -> (r: Self)
        ensures
            r == self.spec_remainder(*rhs),
    ;

    /// `-self`
    fn negated(&self) -> (r: Self)
        ensures
            r == self.spec_negated(),
    ;

    /// `self == rhs`
    fn equals(&self, rhs: &Self) -> (r: bool)
        ensures
            r == self.spec_equals(*rhs),
    ;

    /// `self > rhs`
    fn greater(&self, rhs: &Self) -> (r: bool)
        ensures
            r == self.spec_greater(*rhs),
    ;

    /// `self >= rhs`
    fn greater_or_equal(&self, rhs: &Self) -> (r: bool)
        ensures
            r == self.spec_greater_or_equal(*rhs),
    ;

    /// `self < rhs`
    fn less(&self, rhs: &Self) -> (r: bool)
        ensures
            r == self.spec_less(*rhs),
    ;

    /// `self <= rhs`
    fn less_or_equal(&self, rhs: &Self) -> (r: bool)
        ensures
            r == self.spec_less_or_equal(*rhs),
    ;

    /// `self` rounded toward zero to a whole number
    fn truncated(&self) -> (r: Self)
        ensures
            r == self.spec_truncated(),
    ;

    /// the default textual form of `self`
    fn render(&self) -> (r: String)
        ensures
            r@ == self.spec_render()@,
    ;
}

/// The type a variable is declared with.
#[derive(Clone, Copy, Debug, PartialEq, Eq, Structural)]
pub enum DataType {
    Int,
    Float,
    String,
    Boolean,
}

/// A runtime value.
#[derive(Debug)]
pub enum Value<N> {
    Number(N),
    String(String),
    Boolean(bool),
    Null,
}

/// What a value is, with a string seen as its characters.
pub enum Datum<N> {
    Number(N),
    Text(Seq<char>),
    Truth(bool),
    Nothing,
}

/// The contents of `v`.
pub open spec fn datum<N>(v: Value<N>) -> Datum<N> {
    match v {
        Value::Number(n) => Datum::Number(n),
        Value::String(s) => Datum::Text(s@),
        Value::Boolean(b) => Datum::Truth(b),
        Value::Null => Datum::Nothing,
    }
}

/// Whether a binding declared with type `t` may hold `d`.
pub open spec fn admits<N>(t: DataType, d: Datum<N>) -> bool {
    match t {
        DataType::Boolean => d is Truth,
        DataType::Int | DataType::Float => d is Number,
        DataType::String => d is Text,
    }
}

impl<N: Copy> Value<N> {
    pub fn is_boolean(&self) -> (r: bool)
        ensures
            r == (*self is Boolean),
    {
        match self {
            Value::Boolean(_) => true,
            _ => false,
        }
    }

    pub fn is_number(&self) -> (r: bool)
        ensures
            r == (*self is Number),
    {
        match self {
            Value::Number(_) => true,
            _ => false,
        }
    }

    pub fn is_string(&self) -> (r: bool)
        ensures
            r == (*self is String),
    {
        match self {
            Value::String(_) => true,
            _ => false,
        }
    }

    /// An owned copy of the value.
    pub fn duplicate(&self) -> (r: Value<N>)
        ensures
            r == *self,
    {
        match self {
            Value::Number(n) => Value::Number(*n),
            Value::String(s) => Value::String(s.clone()),
            Value::Boolean(b) => Value::Boolean(*b),
            Value::Null => Value::Null,
        }
    }
}

/// Whether `v` may be stored in a binding declared with type `t`.
pub fn type_admits<N: Copy>(t: DataType, v: &Value<N>) -> (r: bool)
    ensures
        r == admits(t, datum(*v)),
{
    match t {
        DataType::Boolean => v.is_boolean(),
        DataType::Int | DataType::Float => v.is_number(),
        DataType::String => v.is_string(),
    }
}

/// The lexical nesting level at which a binding was created.
#[derive(Clone, Copy, Debug, PartialEq, Eq, Structural)]
pub struct Scope(pub u32);

/// Why an evaluation stopped.
#[derive(Debug)]
pub enum EvalError {
    /// an operand or a value has a kind that the operator or the declared type does not take
    TypeMismatch,
    /// an operator that the evaluator does not know
    UnknownOperator,
    /// a name that no live binding carries
    UnknownIdentifier(String),
    /// a declaration of a name that a live binding already carries
    DuplicateIdentifier(String),
    /// a literal that the evaluator cannot represent
    InvalidLiteral,
    /// a condition that is not a Boolean
    InvalidExpression,
    /// a statement that the evaluator cannot execute
    InvalidStatement,
    /// the host's budget of loop iterations ran out before the program finished
    OutOfSteps,
}

} // verus!
