use vstd::prelude::*;

verus! {

/// A range of source positions.
#[derive(Clone, Copy, Debug, PartialEq, Eq, Structural)]
pub struct Span {
    pub start: usize,
    pub end: usize,
}

impl Span {
    /// The empty span at the start of the source.
    pub fn empty() -> (r: Span)
        ensures
            r == (Span { start: 0, end: 0 }),
    {
        Span { start: 0, end: 0 }
    }

    /// The smallest span that covers both `self` and `other`.
    pub fn union_span(&self, other: &Span) -> (r: Span)
        ensures
            r.start == if self.start <= other.start { self.start } else { other.start },
            r.end == if self.end >= other.end { self.end } else { other.end },
    {
        Span {
            start: if self.start <= other.start { self.start } else { other.start },
            end: if self.end >= other.end { self.end } else { other.end },
        }
    }
}

/// A literal as the lexer reads it. A float is held as its IEEE-754 bit pattern.
#[derive(Debug)]
pub enum Literal {
    Identifier(String),
    Float(u64),
    Int(i64),
    StringLiteral(String),
}

/// The kinds of token that the parser reads.
#[derive(Debug)]
pub enum TokenKind {
    Literal(Literal),
    Keyword(String),
    EoI,
    LParen,
    RParen,
    LBracket,
    RBracket,
    Colon,
    Comma,
    Dot,
    Semicolon,
    RArrow,
    FatArrow,
    Pipe,
    BackSlash,
    Underscore,
    Bang,
    OpAssign,
    OpAdd,
    OpSub,
    OpMul,
    OpDiv,
    OpMod,
    OpPow,
    OpEq,
    OpNEq,
    OpLessThan,
    OpLessThanEq,
    OpGreaterThan,
    OpGreaterThanEq,
}

/// A token: its kind and where it stands in the source.
#[derive(Debug)]
pub struct Token {
    pub span: Span,
    pub kind: TokenKind,
}

/// A number for each kind of token that carries nothing; none for the others.
pub open spec fn plain_code(k: TokenKind) -> Option<u8> {
    match k {
        TokenKind::Literal(_) | TokenKind::Keyword(_) => None,
        TokenKind::EoI => Some(0),
        TokenKind::LParen => Some(1),
        TokenKind::RParen => Some(2),
        TokenKind::LBracket => Some(3),
        TokenKind::RBracket => Some(4),
        TokenKind::Colon => Some(5),
        TokenKind::Comma => Some(6),
        TokenKind::Dot => Some(7),
        TokenKind::Semicolon => Some(8),
        TokenKind::RArrow => Some(9),
        TokenKind::FatArrow => Some(10),
        TokenKind::Pipe => Some(11),
        TokenKind::BackSlash => Some(12),
        TokenKind::Underscore => Some(13),
        TokenKind::Bang => Some(14),
        TokenKind::OpAssign => Some(15),
        TokenKind::OpAdd => Some(16),
        TokenKind::OpSub => Some(17),
        TokenKind::OpMul => Some(18),
        TokenKind::OpDiv => Some(19),
        TokenKind::OpMod => Some(20),
        TokenKind::OpPow => Some(21),
        TokenKind::OpEq => Some(22),
        TokenKind::OpNEq => Some(23),
        TokenKind::OpLessThan => Some(24),
        TokenKind::OpLessThanEq => Some(25),
        TokenKind::OpGreaterThan => Some(26),
        TokenKind::OpGreaterThanEq => Some(27),
    }
}

/// Two literals that read the same.
pub open spec fn same_literal(a: Literal, b: Literal) -> bool {
    match (a, b) {
        (Literal::Identifier(x), Literal::Identifier(y)) => x@ == y@,
        (Literal::Float(x), Literal::Float(y)) => x == y,
        (Literal::Int(x), Literal::Int(y)) => x == y,
        (Literal::StringLiteral(x), Literal::StringLiteral(y)) => x@ == y@,
        _ => false,
    }
}

/// Two kinds of token that read the same.
pub open spec fn same_kind(a: TokenKind, b: TokenKind) -> bool {
    match (a, b) {
        (TokenKind::Literal(x), TokenKind::Literal(y)) => same_literal(x, y),
        (TokenKind::Keyword(x), TokenKind::Keyword(y)) => x@ == y@,
        _ => plain_code(a) is Some && plain_code(a) == plain_code(b),
    }
}

/// The number of a kind of token that carries nothing.
fn plain_code_of(k: &TokenKind) -> (r: Option<u8>)
    ensures
        r == plain_code(*k),
{
    match k {
        TokenKind::Literal(_) | TokenKind::Keyword(_) => None,
        TokenKind::EoI => Some(0),
        TokenKind::LParen => Some(1),
        TokenKind::RParen => Some(2),
        TokenKind::LBracket => Some(3),
        TokenKind::RBracket => Some(4),
        TokenKind::Colon => Some(5),
        TokenKind::Comma => Some(6),
        TokenKind::Dot => Some(7),
        TokenKind::Semicolon => Some(8),
        TokenKind::RArrow => Some(9),
        TokenKind::FatArrow => Some(10),
        TokenKind::Pipe => Some(11),
        TokenKind::BackSlash => Some(12),
        TokenKind::Underscore => Some(13),
        TokenKind::Bang => Some(14),
        TokenKind::OpAssign => Some(15),
        TokenKind::OpAdd => Some(16),
        TokenKind::OpSub => Some(17),
        TokenKind::OpMul => Some(18),
        TokenKind::OpDiv => Some(19),
        TokenKind::OpMod => Some(20),
        TokenKind::OpPow => Some(21),
        TokenKind::OpEq => Some(22),
        TokenKind::OpNEq => Some(23),
        TokenKind::OpLessThan => Some(24),
        TokenKind::OpLessThanEq => Some(25),
        TokenKind::OpGreaterThan => Some(26),
        TokenKind::OpGreaterThanEq => Some(27),
    }
}

/// Whether two kinds of token read the same.
pub fn kinds_equal(a: &TokenKind, b: &TokenKind) -> (r: bool)
    ensures
        r == same_kind(*a, *b),
{
    match (a, b) {
        (TokenKind::Literal(x), TokenKind::Literal(y)) => match (x, y) {
            (Literal::Identifier(p), Literal::Identifier(q)) => *p == *q,
            (Literal::Float(p), Literal::Float(q)) => *p == *q,
            (Literal::Int(p), Literal::Int(q)) => *p == *q,
            (Literal::StringLiteral(p), Literal::StringLiteral(q)) => *p == *q,
            _ => false,
        },
        (TokenKind::Keyword(x), TokenKind::Keyword(y)) => *x == *y,
        _ => match (plain_code_of(a), plain_code_of(b)) {
            (Some(p), Some(q)) => p == q,
            _ => false,
        },
    }
}

/// An owned copy of a literal token.
pub fn copy_literal(l: &Literal) -> (r: Literal)
    ensures
        r == *l,
{
    match l {
        Literal::Identifier(s) => Literal::Identifier(s.clone()),
        Literal::Float(f) => Literal::Float(*f),
        Literal::Int(i) => Literal::Int(*i),
        Literal::StringLiteral(s) => Literal::StringLiteral(s.clone()),
    }
}

/// An owned copy of a kind of token.
pub fn copy_kind(k: &TokenKind) -> (r: TokenKind)
    ensures
        r == *k,
{
    match k {
        TokenKind::Literal(l) => TokenKind::Literal(copy_literal(l)),
        TokenKind::Keyword(s) => TokenKind::Keyword(s.clone()),
        TokenKind::EoI => TokenKind::EoI,
        TokenKind::LParen => TokenKind::LParen,
        TokenKind::RParen => TokenKind::RParen,
        TokenKind::LBracket => TokenKind::LBracket,
        TokenKind::RBracket => TokenKind::RBracket,
        TokenKind::Colon => TokenKind::Colon,
        TokenKind::Comma => TokenKind::Comma,
        TokenKind::Dot => TokenKind::Dot,
        TokenKind::Semicolon => TokenKind::Semicolon,
        TokenKind::RArrow => TokenKind::RArrow,
        TokenKind::FatArrow => TokenKind::FatArrow,
        TokenKind::Pipe => TokenKind::Pipe,
        TokenKind::BackSlash => TokenKind::BackSlash,
        TokenKind::Underscore => TokenKind::Underscore,
        TokenKind::Bang => TokenKind::Bang,
        TokenKind::OpAssign => TokenKind::OpAssign,
        TokenKind::OpAdd => TokenKind::OpAdd,
        TokenKind::OpSub => TokenKind::OpSub,
        TokenKind::OpMul => TokenKind::OpMul,
        TokenKind::OpDiv => TokenKind::OpDiv,
        TokenKind::OpMod => TokenKind::OpMod,
        TokenKind::OpPow => TokenKind::OpPow,
        TokenKind::OpEq => TokenKind::OpEq,
        TokenKind::OpNEq => TokenKind::OpNEq,
        TokenKind::OpLessThan => TokenKind::OpLessThan,
        TokenKind::OpLessThanEq => TokenKind::OpLessThanEq,
        TokenKind::OpGreaterThan => TokenKind::OpGreaterThan,
        TokenKind::OpGreaterThanEq => TokenKind::OpGreaterThanEq,
    }
}

impl Token {
    pub fn new(span: Span, kind: TokenKind) -> (r: Token)
        ensures
            r.span == span,
            r.kind == kind,
    {
        Token { span, kind }
    }

    /// An owned copy of the token's kind.
    pub fn kind(&self) -> (r: TokenKind)
        ensures
            r == self.kind,
    {
        copy_kind(&self.kind)
    }

    pub fn span(&self) -> (r: Span)
        ensures
            r == self.span,
    {
        self.span
    }
}

} // verus!
