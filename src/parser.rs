use vstd::prelude::*;
use vstd::string::StringExecFns;

use crate::syntax::{
    AbstractSyntaxTree, BinaryExpression, BinaryOperator, DoExpression, Expression, FieldAccessExpression,
    FunctionCall, FunctionExpression, IdentifierNode, IfElseNode, IndexExpression, Literal, MatchArm,
    MatchExpression, NewObjectExpression, StructDeclaration, Type, UnaryExpression, UnaryOperator,
    VariableDeclaration, copy_args,
};
use crate::token;
use crate::token::{kinds_equal, same_kind, Span, Token, TokenKind};

verus! {

/// The tokens did not form an expression.
#[derive(Clone, Copy, Debug, PartialEq, Eq, Structural)]
pub struct ParseError;

/// Declares `std::path::PathBuf`, the source file a parser reads from; the
/// parser only carries it and never looks inside.
#[verifier::external_type_specification]
#[verifier::external_body]
pub struct ExPathBuf(std::path::PathBuf);

/// Declares `std::io::Error`, the error type of `with_file_path`; no verified
/// code creates or inspects one.
#[verifier::external_type_specification]
#[verifier::external_body]
pub struct ExIoError(std::io::Error);

/// Relies on `PathBuf::new`, which makes an empty path; nothing is claimed of it.
pub assume_specification[ std::path::PathBuf::new ]() -> std::path::PathBuf;

/// A recursive-descent parser over a sequence of tokens. Reading past the last
/// token yields an end-of-input token.
#[derive(Debug)]
pub struct SimpleParserV1 {
    tokens: Vec<Token>,
    file_path: std::path::PathBuf,
    pos: usize,
    eof_token: Token,
}

/// The binary operator that a kind of token stands for.
pub open spec fn operator_of(k: TokenKind) -> Option<BinaryOperator> {
    match k {
        TokenKind::OpAdd => Some(BinaryOperator::OpAdd),
        TokenKind::OpSub => Some(BinaryOperator::OpSub),
        TokenKind::OpMul => Some(BinaryOperator::OpMul),
        TokenKind::OpDiv => Some(BinaryOperator::OpDiv),
        TokenKind::OpMod => Some(BinaryOperator::OpMod),
        TokenKind::OpPow => Some(BinaryOperator::OpPow),
        TokenKind::OpEq => Some(BinaryOperator::OpEq),
        TokenKind::OpNEq => Some(BinaryOperator::OpNEq),
        TokenKind::OpLessThan => Some(BinaryOperator::OpLessThan),
        TokenKind::OpLessThanEq => Some(BinaryOperator::OpLessThanEq),
        TokenKind::OpGreaterThan => Some(BinaryOperator::OpGreaterThan),
        TokenKind::OpGreaterThanEq => Some(BinaryOperator::OpGreaterThanEq),
        _ => None,
    }
}

/// The binary operator that a kind of token stands for.
pub fn binary_operator_of(k: &TokenKind) -> (r: Option<BinaryOperator>)
    ensures
        r == operator_of(*k),
{
    match k {
        TokenKind::OpAdd => Some(BinaryOperator::OpAdd),
        TokenKind::OpSub => Some(BinaryOperator::OpSub),
        TokenKind::OpMul => Some(BinaryOperator::OpMul),
        TokenKind::OpDiv => Some(BinaryOperator::OpDiv),
        TokenKind::OpMod => Some(BinaryOperator::OpMod),
        TokenKind::OpPow => Some(BinaryOperator::OpPow),
        TokenKind::OpEq => Some(BinaryOperator::OpEq),
        TokenKind::OpNEq => Some(BinaryOperator::OpNEq),
        TokenKind::OpLessThan => Some(BinaryOperator::OpLessThan),
        TokenKind::OpLessThanEq => Some(BinaryOperator::OpLessThanEq),
        TokenKind::OpGreaterThan => Some(BinaryOperator::OpGreaterThan),
        TokenKind::OpGreaterThanEq => Some(BinaryOperator::OpGreaterThanEq),
        _ => None,
    }
}

/// `e` is the integer `i` as an operand: a unary expression without operator.
pub open spec fn lone_integer(e: Expression, i: i64) -> bool {
    e matches Expression::UnaryExpression(u) && u.operator is None && *u.expression
        == Expression::Literal(Literal::Integer(i))
}

/// The operator at the top of `e`, if it is a binary expression.
pub open spec fn top_operator(e: Expression) -> Option<BinaryOperator> {
    match e {
        Expression::BinaryExpression(b) => Some(b.operator),
        _ => None,
    }
}

/// `+` or `-`.
pub open spec fn additive(o: Option<BinaryOperator>) -> bool {
    o == Some(BinaryOperator::OpAdd) || o == Some(BinaryOperator::OpSub)
}

/// `*`, `/` or `%`.
pub open spec fn multiplicative(o: Option<BinaryOperator>) -> bool {
    o == Some(BinaryOperator::OpMul) || o == Some(BinaryOperator::OpDiv) || o == Some(
        BinaryOperator::OpMod,
    )
}

/// A comparison operator.
pub open spec fn comparison(o: Option<BinaryOperator>) -> bool {
    o == Some(BinaryOperator::OpEq) || o == Some(BinaryOperator::OpNEq) || o == Some(
        BinaryOperator::OpLessThan,
    ) || o == Some(BinaryOperator::OpLessThanEq) || o == Some(BinaryOperator::OpGreaterThan)
        || o == Some(BinaryOperator::OpGreaterThanEq)
}

/// The shape of a parsed expression's top: a `+`/`-` node has no `+`/`-` node
/// on its left (they group to the right), and a `*`/`/`/`%` node has no
/// `+`/`-` node on either side (they bind tighter).
pub open spec fn grouped(e: Expression) -> bool {
    match e {
        Expression::BinaryExpression(b) => (additive(Some(b.operator)) ==> !additive(
            top_operator(*b.left),
        )) && (multiplicative(Some(b.operator)) ==> !additive(top_operator(*b.left)) && !additive(
            top_operator(*b.right),
        )),
        _ => true,
    }
}

/// The kind of an integer token.
pub open spec fn int_kind(i: i64) -> TokenKind {
    TokenKind::Literal(token::Literal::Int(i))
}

/// A kind of token that no type can begin with.
pub open spec fn starts_no_type(k: TokenKind) -> bool {
    match k {
        TokenKind::Keyword(_) | TokenKind::LParen => false,
        TokenKind::Literal(l) => !(l is Identifier),
        _ => true,
    }
}

/// A kind of token that no expression can begin with.
pub open spec fn starts_nothing(k: TokenKind) -> bool {
    match k {
        TokenKind::Literal(_) | TokenKind::Keyword(_) | TokenKind::LBracket => false,
        _ => true,
    }
}

impl SimpleParserV1 {
    /// The tokens being read.
    pub closed spec fn input(&self) -> Seq<Token> {
        self.tokens@
    }

    /// The source file the tokens came from.
    pub closed spec fn path(&self) -> std::path::PathBuf {
        self.file_path
    }

    /// The token read past the last one.
    pub closed spec fn end_token(&self) -> Token {
        self.eof_token
    }

    /// The position of the next token to read.
    pub closed spec fn position(&self) -> int {
        self.pos as int
    }

    /// The number of tokens not yet read.
    pub closed spec fn rest(&self) -> nat {
        if self.pos < self.tokens@.len() {
            (self.tokens@.len() - self.pos) as nat
        } else {
            0
        }
    }

    /// The kind of the next token, or end of input past the last one.
    pub closed spec fn next_kind(&self) -> TokenKind {
        if self.pos < self.tokens@.len() {
            self.tokens@[self.pos as int].kind
        } else {
            TokenKind::EoI
        }
    }

    /// The kind of the token `k` places after the next one, or end of input.
    pub closed spec fn kind_after(&self, k: int) -> TokenKind {
        if 0 <= self.pos + k < self.tokens@.len() {
            self.tokens@[self.pos + k].kind
        } else {
            TokenKind::EoI
        }
    }

    /// The next token is the integer `i`, and no binary operator follows it.
    pub closed spec fn lone_integer_next(&self, i: i64) -> bool {
        &&& self.next_kind() matches TokenKind::Literal(token::Literal::Int(j)) && j == i
        &&& operator_of(self.kind_after(1)) is None
    }

    /// The parser's own invariant: its end-of-input token is one.
    pub closed spec fn well_formed(&self) -> bool {
        self.eof_token.kind is EoI
    }

    /// `self` reads the same tokens as `before` and stands no earlier.
    pub closed spec fn continues(&self, before: SimpleParserV1) -> bool {
        &&& self.well_formed()
        &&& self.tokens@ == before.tokens@
        &&& self.file_path == before.file_path
        &&& self.rest() <= before.rest()
        &&& self.pos >= before.pos || self.rest() == 0
    }

    /// Sets the source file the tokens came from.
    pub fn with_file_path(&mut self, file_path: std::path::PathBuf) -> (r: Result<(), std::io::Error>)
        ensures
            r is Ok,
            final(self).path() == file_path,
            final(self).end_token() == old(self).end_token(),
            final(self).input() == old(self).input(),
            final(self).position() == old(self).position(),
            final(self).well_formed() == old(self).well_formed(),
    {
        self.file_path = file_path;
        Ok(())
    }

    /// Sets the tokens to read; the position stays where it was.
    pub fn with_tokens(&mut self, tokens: Vec<Token>)
        ensures
            final(self).input() == tokens@,
            final(self).path() == old(self).path(),
            final(self).end_token() == old(self).end_token(),
            final(self).position() == old(self).position(),
            final(self).well_formed() == old(self).well_formed(),
    {
        self.tokens = tokens;
    }

    /// A parser with no tokens, standing at the start.
    pub fn new() -> (r: SimpleParserV1)
        ensures
            r.input().len() == 0,
            r.position() == 0,
            r.well_formed(),
    {
        SimpleParserV1 {
            tokens: Vec::new(),
            file_path: std::path::PathBuf::new(),
            pos: 0,
            eof_token: Token::new(Span::empty(), TokenKind::EoI),
        }
    }

    /// Skips the start-of-input token, then parses expressions until the end of input.
    pub fn parse(&mut self) -> (r: Result<AbstractSyntaxTree, ParseError>)
        requires
            old(self).well_formed(),
        ensures
            final(self).continues(*old(self)),
            r is Ok ==> final(self).next_kind() is EoI,
            old(self).input().len() == 0 ==> (r matches Ok(ast) && ast@.len() == 0),
            old(self).input().len() == 0 ==> final(self).position() == old(self).position(),
            forall|i: i64|
                old(self).position() == 0 && old(self).input().len() >= 2 && old(self).input()[1].kind
                    == #[trigger] int_kind(i) && (old(self).input().len() == 2 || old(self).input()[2].kind is EoI) ==> (r matches Ok(
                    ast,
                ) && ast@.len() == 1 && lone_integer(ast@[0], i)),
    {
        let mut ast: AbstractSyntaxTree = Vec::new();
        let ghost single = old(self).pos == 0 && old(self).tokens@.len() >= 2 && old(self).tokens@[1].kind
            is Literal && old(self).tokens@[1].kind->Literal_0 is Int && (old(self).tokens@.len() == 2
            || old(self).tokens@[2].kind is EoI);
        let ghost i = old(self).tokens@[1].kind->Literal_0->Int_0;
        self.advance();
        while !self.check(&TokenKind::EoI)
            invariant
                self.continues(*old(self)),
                old(self).input().len() == 0 ==> ast@.len() == 0 && self.pos == old(self).pos,
                single ==> (self.pos == 1 && ast@.len() == 0) || (self.pos == 2 && ast@.len() == 1
                    && lone_integer(ast@[0], i)),
                forall|j: i64|
                    old(self).position() == 0 && old(self).input().len() >= 2 && old(
                        self,
                    ).input()[1].kind == #[trigger] int_kind(j) && (old(self).input().len() == 2
                        || old(self).input()[2].kind is EoI) ==> single && i == j,
                single ==> i == old(self).tokens@[1].kind->Literal_0->Int_0 && old(self).tokens@.len()
                    >= 2 && old(self).tokens@[1].kind is Literal && old(self).tokens@[1].kind->Literal_0 is Int
                    && (old(self).tokens@.len() == 2 || old(self).tokens@[2].kind is EoI),
            decreases self.rest(),
        {
            proof {
                if single && self.pos == 1 {
                    assert(self.lone_integer_next(i));
                }
            }
            match self.parse_expression() {
                Ok(e) => ast.push(*e),
                Err(x) => {
                    assert(!single);
                    return Err(x);
                },
            }
        }
        proof {
            assert forall|j: i64|
                old(self).position() == 0 && old(self).input().len() >= 2 && old(self).input()[1].kind
                    == #[trigger] int_kind(j) && (old(self).input().len() == 2 || old(self).input()[2].kind is EoI) implies (ast@.len() == 1
                    && lone_integer(ast@[0], j)) by {
                assert(single && i == j);
            }
        }
        Ok(ast)
    }

    /// The next token, or the end-of-input token past the last one.
    fn current(&self) -> (r: &Token)
        ensures
            self.pos < self.tokens@.len() ==> *r == self.tokens@[self.pos as int],
            self.pos >= self.tokens@.len() ==> *r == self.eof_token,
    {
        if self.pos < self.tokens.len() {
            &self.tokens[self.pos]
        } else {
            &self.eof_token
        }
    }

    /// Whether the next token is of kind `k`.
    fn check(&self, k: &TokenKind) -> (r: bool)
        requires
            self.well_formed(),
        ensures
            r == same_kind(self.next_kind(), *k),
    {
        kinds_equal(&self.current().kind, k)
    }

    /// Whether the next token is the keyword `w`.
    fn at_keyword(&self, w: &str) -> (r: bool)
        requires
            self.well_formed(),
        ensures
            r == (self.next_kind() matches TokenKind::Keyword(k) && k@ == w@),
    {
        match &self.current().kind {
            TokenKind::Keyword(k) => *k == String::from_str(w),
            _ => false,
        }
    }

    /// Reads the next token; past the last one it reads the end-of-input token
    /// and stays where it is.
    fn advance(&mut self) -> (r: Token)
        requires
            old(self).well_formed(),
        ensures
            final(self).continues(*old(self)),
            old(self).pos < old(self).tokens@.len() ==> final(self).pos == old(self).pos + 1 && r
                == old(self).tokens@[old(self).pos as int],
            old(self).pos >= old(self).tokens@.len() ==> final(self).pos == old(self).pos && r
                == old(self).eof_token,
            old(self).rest() > 0 ==> final(self).rest() == old(self).rest() - 1,
    {
        if self.pos < self.tokens.len() {
            let t = Token::new(self.tokens[self.pos].span(), self.tokens[self.pos].kind());
            self.pos = self.pos + 1;
            t
        } else {
            Token::new(self.eof_token.span(), self.eof_token.kind())
        }
    }

    /// Reads the next token, which must be of kind `expected`.
    fn expect(&mut self, expected: TokenKind) -> (r: Result<Token, ParseError>)
        requires
            old(self).well_formed(),
            !(expected is EoI),
        ensures
            final(self).continues(*old(self)),
            r is Ok <==> same_kind(old(self).next_kind(), expected),
            r is Ok ==> final(self).rest() < old(self).rest(),
    {
        let tok = self.advance();
        if kinds_equal(&tok.kind, &expected) {
            Ok(tok)
        } else {
            Err(ParseError)
        }
    }

    /// Parses a type.
    fn parse_type(&mut self) -> (r: Result<Box<Type>, ParseError>)
        requires
            old(self).well_formed(),
        ensures
            final(self).continues(*old(self)),
            r is Ok ==> final(self).rest() < old(self).rest(),
            (old(self).next_kind() matches TokenKind::Keyword(k) && k@ == "int"@) ==> (r matches Ok(t)
                && *t == Type::Integer),
            (old(self).next_kind() matches TokenKind::Keyword(k) && k@ == "float"@) ==> (r matches Ok(
                t,
            ) && *t == Type::Float),
            (old(self).next_kind() matches TokenKind::Keyword(k) && k@ == "string"@) ==> (r matches Ok(
                t,
            ) && *t == Type::String),
            (old(self).next_kind() matches TokenKind::Keyword(k) && k@ == "bool"@) ==> (r matches Ok(t)
                && *t == Type::Bool),
            (old(self).next_kind() matches TokenKind::Keyword(k) && k@ == "unit"@) ==> (r matches Ok(t)
                && *t == Type::Unit),
            old(self).next_kind() matches TokenKind::Literal(token::Literal::Identifier(s)) ==> (r matches Ok(
                t,
            ) && *t is NonPrimitive && (*t)->NonPrimitive_0@ == s@),
            starts_no_type(old(self).next_kind()) ==> r is Err,
        decreases old(self).rest(), 0nat,
    {
        proof {
            reveal_strlit("List");
            reveal_strlit("Map");
            reveal_strlit("int");
            reveal_strlit("float");
            reveal_strlit("string");
            reveal_strlit("bool");
            reveal_strlit("unit");
            assert("List"@.len() == 4 && "Map"@.len() == 3 && "int"@.len() == 3 && "float"@.len() == 5);
            assert("Map"@[0] != "int"@[0]);
            assert("List"@[0] != "bool"@[0] && "List"@[0] != "unit"@[0]);
            assert("List"@ != "bool"@ && "List"@ != "unit"@);
            assert("List"@ != "float"@ && "List"@ != "int"@ && "Map"@ != "int"@ && "Map"@ != "float"@);
        }
        let tok = self.advance();
        match tok.kind {
            TokenKind::LParen => {
                let mut args: Vec<(String, Type)> = Vec::new();
                while !self.check(&TokenKind::RParen)
                    invariant
                        self.continues(*old(self)),
                        self.rest() < old(self).rest(),
                        old(self).next_kind() is LParen,
                    decreases self.rest(),
                {
                    let name = match self.advance().kind {
                        TokenKind::Literal(token::Literal::Identifier(s)) => s,
                        _ => return Err(ParseError),
                    };
                    if let Err(x) = self.expect(TokenKind::Colon) {
                        return Err(x);
                    }
                    match self.parse_type() {
                        Ok(t) => args.push((name, *t)),
                        Err(x) => return Err(x),
                    }
                    if self.check(&TokenKind::Comma) {
                        self.advance();
                    }
                }
                if let Err(x) = self.expect(TokenKind::RParen) {
                    return Err(x);
                }
                if let Err(x) = self.expect(TokenKind::RArrow) {
                    return Err(x);
                }
                match self.parse_type() {
                    Ok(ret) => Ok(Box::new(Type::Function(args, ret))),
                    Err(x) => Err(x),
                }
            },
            TokenKind::Keyword(kw) => {
                if kw == String::from_str("List") {
                    if let Err(x) = self.expect(TokenKind::LBracket) {
                        return Err(x);
                    }
                    let t = match self.parse_type() {
                        Ok(t) => t,
                        Err(x) => return Err(x),
                    };
                    if let Err(x) = self.expect(TokenKind::RBracket) {
                        return Err(x);
                    }
                    Ok(Box::new(Type::List(t)))
                } else if kw == String::from_str("Map") {
                    if let Err(x) = self.expect(TokenKind::LBracket) {
                        return Err(x);
                    }
                    let k = match self.parse_type() {
                        Ok(t) => t,
                        Err(x) => return Err(x),
                    };
                    if let Err(x) = self.expect(TokenKind::Colon) {
                        return Err(x);
                    }
                    let v = match self.parse_type() {
                        Ok(t) => t,
                        Err(x) => return Err(x),
                    };
                    if let Err(x) = self.expect(TokenKind::RBracket) {
                        return Err(x);
                    }
                    Ok(Box::new(Type::Mapping(k, v)))
                } else if kw == String::from_str("int") {
                    Ok(Box::new(Type::Integer))
                } else if kw == String::from_str("float") {
                    Ok(Box::new(Type::Float))
                } else if kw == String::from_str("string") {
                    Ok(Box::new(Type::String))
                } else if kw == String::from_str("bool") {
                    Ok(Box::new(Type::Bool))
                } else if kw == String::from_str("unit") {
                    Ok(Box::new(Type::Unit))
                } else {
                    Ok(Box::new(Type::NonPrimitive(kw)))
                }
            },
            TokenKind::Literal(token::Literal::Identifier(s)) => Ok(Box::new(Type::NonPrimitive(s))),
            _ => Err(ParseError),
        }
    }

    /// Parses a declaration, an object construction, or else an expression.
    fn parse_expression(&mut self) -> (r: Result<Box<Expression>, ParseError>)
        requires
            old(self).well_formed(),
        ensures
            final(self).continues(*old(self)),
            r is Ok ==> final(self).rest() < old(self).rest(),
            forall|i: i64|
                old(self).lone_integer_next(i) ==> final(self).position() == old(self).position() + 1
                    && (r matches Ok(e) && lone_integer(*e, i)),
        decreases old(self).rest(), 9nat,
    {
        if self.at_keyword("let") {
            self.advance();
            match self.parse_variable_declaration() {
                Ok(v) => Ok(Box::new(Expression::VariableDeclaration(v))),
                Err(x) => Err(x),
            }
        } else if self.at_keyword("struct") {
            self.advance();
            match self.parse_struct_declaration() {
                Ok(v) => Ok(Box::new(Expression::StructDeclaration(v))),
                Err(x) => Err(x),
            }
        } else if self.at_keyword("new") {
            self.advance();
            match self.parse_new_object_expression() {
                Ok(v) => Ok(Box::new(Expression::NewObjectExpression(v))),
                Err(x) => Err(x),
            }
        } else {
            self.parse_expr()
        }
    }

    /// Parses `Name(expr, ...)`, the part of an object construction after `new`.
    fn parse_new_object_expression(&mut self) -> (r: Result<NewObjectExpression, ParseError>)
        requires
            old(self).well_formed(),
        ensures
            final(self).continues(*old(self)),
            r is Ok ==> final(self).rest() < old(self).rest(),
            r is Ok ==> (old(self).next_kind() matches TokenKind::Literal(
                token::Literal::Identifier(s),
            ) && r->Ok_0.name == s),
        decreases old(self).rest(), 0nat,
    {
        let start_pos = self.current().span();
        let name = match self.advance().kind {
            TokenKind::Literal(token::Literal::Identifier(s)) => s,
            _ => return Err(ParseError),
        };
        if let Err(x) = self.expect(TokenKind::LParen) {
            return Err(x);
        }
        let mut fields: Vec<Expression> = Vec::new();
        while !self.check(&TokenKind::RParen)
            invariant
                self.continues(*old(self)),
                self.rest() < old(self).rest(),
            decreases self.rest(),
        {
            match self.parse_expr() {
                Ok(v) => fields.push(*v),
                Err(x) => return Err(x),
            }
            if self.check(&TokenKind::Comma) {
                self.advance();
            }
        }
        if let Err(x) = self.expect(TokenKind::RParen) {
            return Err(x);
        }
        let span = start_pos.union_span(&self.current().span());
        Ok(NewObjectExpression { name, fields, span })
    }

    /// Parses `Name(type, ...)`, the part of a structure declaration after `struct`.
    fn parse_struct_declaration(&mut self) -> (r: Result<StructDeclaration, ParseError>)
        requires
            old(self).well_formed(),
        ensures
            final(self).continues(*old(self)),
            r is Ok ==> final(self).rest() < old(self).rest(),
            r is Ok ==> (old(self).next_kind() matches TokenKind::Literal(
                token::Literal::Identifier(s),
            ) && r->Ok_0.name == s),
        decreases old(self).rest(), 0nat,
    {
        let start_pos = self.current().span();
        let name = match self.advance().kind {
            TokenKind::Literal(token::Literal::Identifier(s)) => s,
            _ => return Err(ParseError),
        };
        if let Err(x) = self.expect(TokenKind::LParen) {
            return Err(x);
        }
        let mut fields: Vec<Type> = Vec::new();
        while !self.check(&TokenKind::RParen)
            invariant
                self.continues(*old(self)),
                self.rest() < old(self).rest(),
            decreases self.rest(),
        {
            match self.parse_type() {
                Ok(t) => fields.push(*t),
                Err(x) => return Err(x),
            }
            if self.check(&TokenKind::Comma) {
                self.advance();
            }
        }
        if let Err(x) = self.expect(TokenKind::RParen) {
            return Err(x);
        }
        let span = start_pos.union_span(&self.current().span());
        Ok(StructDeclaration { name, fields, span })
    }

    /// Parses `name: type = expr` (or `name: type expr`), the part of a
    /// declaration after `let`. A value of a function type becomes a function
    /// expression over the type's parameters; only a declaration with `=` whose
    /// type is no function type is mutable.
    fn parse_variable_declaration(&mut self) -> (r: Result<VariableDeclaration, ParseError>)
        requires
            old(self).well_formed(),
        ensures
            final(self).continues(*old(self)),
            r is Ok ==> final(self).rest() < old(self).rest(),
            r is Ok ==> (old(self).next_kind() matches TokenKind::Literal(
                token::Literal::Identifier(s),
            ) && r->Ok_0.name == s),
        decreases old(self).rest(), 0nat,
    {
        let start_pos = self.current().span();
        let name = match self.advance().kind {
            TokenKind::Literal(token::Literal::Identifier(s)) => s,
            _ => return Err(ParseError),
        };
        if let Err(x) = self.expect(TokenKind::Colon) {
            return Err(x);
        }
        let t = match self.parse_type() {
            Ok(t) => *t,
            Err(x) => return Err(x),
        };
        if self.check(&TokenKind::OpAssign) {
            self.advance();
            let params = match &t {
                Type::Function(args, _) => Some(copy_args(args)),
                _ => None,
            };
            match params {
                Some(args) => {
                    let func_start_pos = self.current().span();
                    let body = match self.parse_expr() {
                        Ok(b) => b,
                        Err(x) => return Err(x),
                    };
                    let func_span = func_start_pos.union_span(&self.current().span());
                    let span = start_pos.union_span(&self.current().span());
                    Ok(
                        VariableDeclaration {
                            name,
                            t,
                            mutable: false,
                            value: Some(
                                Box::new(
                                    Expression::FunctionExpression(
                                        FunctionExpression { args, body, span: func_span },
                                    ),
                                ),
                            ),
                            span,
                        },
                    )
                },
                None => {
                    let value = match self.parse_expr() {
                        Ok(v) => v,
                        Err(x) => return Err(x),
                    };
                    let span = start_pos.union_span(&self.current().span());
                    Ok(VariableDeclaration { name, t, mutable: true, value: Some(value), span })
                },
            }
        } else {
            let value = match self.parse_expr() {
                Ok(v) => v,
                Err(x) => return Err(x),
            };
            let span = start_pos.union_span(&self.current().span());
            Ok(VariableDeclaration { name, t, mutable: false, value: Some(value), span })
        }
    }

    /// Parses an expression.
    pub fn parse_expr(&mut self) -> (r: Result<Box<Expression>, ParseError>)
        requires
            old(self).well_formed(),
        ensures
            final(self).continues(*old(self)),
            r is Ok ==> final(self).rest() < old(self).rest(),
            forall|i: i64|
                old(self).lone_integer_next(i) ==> final(self).position() == old(self).position() + 1
                    && (r matches Ok(e) && lone_integer(*e, i)),
            r matches Ok(e) ==> grouped(*e),
        decreases old(self).rest(), 8nat,
    {
        self.parse_binary()
    }

    /// Parses a sum or difference, right-associated: `term (+|-) binary`.
    fn parse_binary(&mut self) -> (r: Result<Box<Expression>, ParseError>)
        requires
            old(self).well_formed(),
        ensures
            final(self).continues(*old(self)),
            r is Ok ==> final(self).rest() < old(self).rest(),
            forall|i: i64|
                old(self).lone_integer_next(i) ==> final(self).position() == old(self).position() + 1
                    && (r matches Ok(e) && lone_integer(*e, i)),
            r matches Ok(e) ==> grouped(*e),
        decreases old(self).rest(), 7nat,
    {
        let start_pos = self.current().span();
        let left = match self.parse_term() {
            Ok(e) => e,
            Err(x) => return Err(x),
        };
        let op = binary_operator_of(&self.current().kind);
        if self.check(&TokenKind::OpAdd) || self.check(&TokenKind::OpSub) {
            self.advance();
            let right = match self.parse_binary() {
                Ok(e) => e,
                Err(x) => return Err(x),
            };
            let operator = match op {
                Some(o) => o,
                None => return Err(ParseError),
            };
            let span = start_pos.union_span(&self.current().span());
            Ok(Box::new(Expression::BinaryExpression(BinaryExpression { left, operator, right, span })))
        } else {
            Ok(left)
        }
    }

    /// Parses a product, quotient or remainder, right-associated: `factor (*|/|%) term`.
    fn parse_term(&mut self) -> (r: Result<Box<Expression>, ParseError>)
        requires
            old(self).well_formed(),
        ensures
            final(self).continues(*old(self)),
            r is Ok ==> final(self).rest() < old(self).rest(),
            forall|i: i64|
                old(self).lone_integer_next(i) ==> final(self).position() == old(self).position() + 1
                    && (r matches Ok(e) && lone_integer(*e, i)),
            r matches Ok(e) ==> !additive(top_operator(*e)) && grouped(*e),
        decreases old(self).rest(), 6nat,
    {
        let start_pos = self.current().span();
        let left = match self.parse_factor() {
            Ok(e) => e,
            Err(x) => return Err(x),
        };
        let op = binary_operator_of(&self.current().kind);
        if self.check(&TokenKind::OpMul) || self.check(&TokenKind::OpDiv) || self.check(
            &TokenKind::OpMod,
        ) {
            self.advance();
            let right = match self.parse_term() {
                Ok(e) => e,
                Err(x) => return Err(x),
            };
            let operator = match op {
                Some(o) => o,
                None => return Err(ParseError),
            };
            let span = start_pos.union_span(&self.current().span());
            Ok(Box::new(Expression::BinaryExpression(BinaryExpression { left, operator, right, span })))
        } else {
            Ok(left)
        }
    }

    /// Parses a power: `condition ^ binary`.
    fn parse_factor(&mut self) -> (r: Result<Box<Expression>, ParseError>)
        requires
            old(self).well_formed(),
        ensures
            final(self).continues(*old(self)),
            r is Ok ==> final(self).rest() < old(self).rest(),
            forall|i: i64|
                old(self).lone_integer_next(i) ==> final(self).position() == old(self).position() + 1
                    && (r matches Ok(e) && lone_integer(*e, i)),
            r matches Ok(e) ==> (top_operator(*e) is None || comparison(top_operator(*e))
                || top_operator(*e) == Some(BinaryOperator::OpPow)),
        decreases old(self).rest(), 5nat,
    {
        let start_pos = self.current().span();
        let left = match self.parse_condition() {
            Ok(e) => e,
            Err(x) => return Err(x),
        };
        let op = binary_operator_of(&self.current().kind);
        if self.check(&TokenKind::OpPow) {
            self.advance();
            let right = match self.parse_binary() {
                Ok(e) => e,
                Err(x) => return Err(x),
            };
            let operator = match op {
                Some(o) => o,
                None => return Err(ParseError),
            };
            let span = start_pos.union_span(&self.current().span());
            Ok(Box::new(Expression::BinaryExpression(BinaryExpression { left, operator, right, span })))
        } else {
            Ok(left)
        }
    }

    /// Parses a comparison: `power (==|!=|<|<=|>|>=) expr`.
    fn parse_condition(&mut self) -> (r: Result<Box<Expression>, ParseError>)
        requires
            old(self).well_formed(),
        ensures
            final(self).continues(*old(self)),
            r is Ok ==> final(self).rest() < old(self).rest(),
            forall|i: i64|
                old(self).lone_integer_next(i) ==> final(self).position() == old(self).position() + 1
                    && (r matches Ok(e) && lone_integer(*e, i)),
            r matches Ok(e) ==> (top_operator(*e) is None || comparison(top_operator(*e))),
        decreases old(self).rest(), 4nat,
    {
        let start_pos = self.current().span();
        let left = match self.parse_power() {
            Ok(e) => e,
            Err(x) => return Err(x),
        };
        let op = binary_operator_of(&self.current().kind);
        if self.check(&TokenKind::OpEq) || self.check(&TokenKind::OpNEq) || self.check(
            &TokenKind::OpLessThan,
        ) || self.check(&TokenKind::OpLessThanEq) || self.check(&TokenKind::OpGreaterThan)
            || self.check(&TokenKind::OpGreaterThanEq) {
            self.advance();
            let right = match self.parse_expr() {
                Ok(e) => e,
                Err(x) => return Err(x),
            };
            let operator = match op {
                Some(o) => o,
                None => return Err(ParseError),
            };
            let span = start_pos.union_span(&self.current().span());
            Ok(Box::new(Expression::BinaryExpression(BinaryExpression { left, operator, right, span })))
        } else {
            Ok(left)
        }
    }

    /// Parses a primary expression with an optional prefix `-` or `!`; the
    /// result is always a unary expression.
    fn parse_power(&mut self) -> (r: Result<Box<Expression>, ParseError>)
        requires
            old(self).well_formed(),
        ensures
            final(self).continues(*old(self)),
            r is Ok ==> final(self).rest() < old(self).rest(),
            old(self).next_kind() matches TokenKind::Literal(token::Literal::Int(i)) ==> (
            final(self).position() == old(self).position() + 1 && (r matches Ok(e) && lone_integer(
                *e,
                i,
            ))),
            r matches Ok(e) ==> top_operator(*e) is None,
        decreases old(self).rest(), 3nat,
    {
        let start_pos = self.current().span();
        let operator = if self.check(&TokenKind::OpSub) {
            self.advance();
            Some(UnaryOperator::OpSub)
        } else if self.check(&TokenKind::Bang) {
            self.advance();
            Some(UnaryOperator::OpNot)
        } else {
            None
        };
        let expression = match self.parse_primary() {
            Ok(e) => e,
            Err(x) => return Err(x),
        };
        let span = start_pos.union_span(&self.current().span());
        Ok(Box::new(Expression::UnaryExpression(UnaryExpression { operator, expression, span })))
    }

    /// Parses `pattern => body`, one arm of a match.
    fn parse_match_arm(&mut self) -> (r: Result<MatchArm, ParseError>)
        requires
            old(self).well_formed(),
        ensures
            final(self).continues(*old(self)),
            r is Ok ==> final(self).rest() < old(self).rest(),
        decreases old(self).rest(), 9nat,
    {
        let start_pos = self.current().span();
        let pattern = match self.parse_expr() {
            Ok(e) => e,
            Err(x) => return Err(x),
        };
        if let Err(x) = self.expect(TokenKind::FatArrow) {
            return Err(x);
        }
        let body = match self.parse_expr() {
            Ok(e) => e,
            Err(x) => return Err(x),
        };
        let span = start_pos.union_span(&self.current().span());
        Ok(MatchArm { pattern, body, span })
    }

    /// Parses the comma-separated arguments of a call, up to the closing parenthesis.
    fn parse_arguments(&mut self) -> (r: Result<Vec<Box<Expression>>, ParseError>)
        requires
            old(self).well_formed(),
        ensures
            final(self).continues(*old(self)),
            r is Ok ==> final(self).next_kind() is RParen,
        decreases old(self).rest(), 9nat,
    {
        let mut args: Vec<Box<Expression>> = Vec::new();
        while !self.check(&TokenKind::RParen)
            invariant
                self.continues(*old(self)),
            decreases self.rest(),
        {
            match self.parse_expr() {
                Ok(e) => args.push(e),
                Err(x) => return Err(x),
            }
            if self.check(&TokenKind::Comma) {
                self.advance();
            }
        }
        Ok(args)
    }

    /// Parses a primary expression: a literal, a list, `true`/`false`, a `do`
    /// block, a declaration, an `if`, a `match`, a call, an index, a field
    /// access or a bare identifier.
    fn parse_primary(&mut self) -> (r: Result<Box<Expression>, ParseError>)
        requires
            old(self).well_formed(),
        ensures
            final(self).continues(*old(self)),
            r is Ok ==> final(self).rest() < old(self).rest(),
            starts_nothing(old(self).next_kind()) ==> r is Err,
            old(self).next_kind() matches TokenKind::Literal(token::Literal::Int(i)) ==> (r matches Ok(
                e,
            ) && *e == Expression::Literal(Literal::Integer(i)) && final(self).position() == old(
                self,
            ).position() + 1),
            old(self).next_kind() matches TokenKind::Literal(token::Literal::Float(f)) ==> (r matches Ok(
                e,
            ) && *e == Expression::Literal(Literal::Float(f))),
            old(self).next_kind() matches TokenKind::Literal(token::Literal::StringLiteral(t)) ==> (r matches Ok(
                e,
            ) && *e is Literal && (*e)->Literal_0 is String && (*e)->Literal_0->String_0@ == t@),
            old(self).next_kind() is LBracket ==> (r matches Ok(e) ==> *e is Literal && (
            *e)->Literal_0 is List),
            (old(self).next_kind() matches TokenKind::Keyword(k) && k@ == "if"@) ==> (r matches Ok(e)
                ==> *e is IfElseNode),
            (old(self).next_kind() matches TokenKind::Keyword(k) && k@ == "match"@) ==> (r matches Ok(
                e,
            ) ==> *e is MatchExpression),
            (old(self).next_kind() matches TokenKind::Keyword(k) && k@ == "do"@) ==> (r matches Ok(e)
                ==> *e is DoExpression),
            (old(self).next_kind() matches TokenKind::Keyword(k) && k@ == "let"@) ==> (r matches Ok(e)
                ==> *e is VariableDeclaration),
            (old(self).next_kind() matches TokenKind::Keyword(k) && k@ == "true"@) ==> (r matches Ok(e)
                && *e == Expression::Literal(Literal::Bool(true))),
            (old(self).next_kind() matches TokenKind::Keyword(k) && k@ == "false"@) ==> (r matches Ok(
                e,
            ) && *e == Expression::Literal(Literal::Bool(false))),
        decreases old(self).rest(), 2nat,
    {
        let start_pos = self.current().span();
        proof {
            reveal_strlit("true");
            reveal_strlit("false");
            reveal_strlit("do");
            assert("true"@.len() == 4 && "false"@.len() == 5 && "do"@.len() == 2);
            reveal_strlit("if");
            reveal_strlit("match");
            reveal_strlit("let");
            reveal_strlit("struct");
            reveal_strlit("new");
            assert("if"@[0] != "do"@[0] && "match"@[0] != "false"@[0] && "let"@[0] != "new"@[0]);
            assert("if"@ != "do"@ && "match"@ != "false"@ && "let"@ != "new"@);
            assert("if"@.len() == 2 && "match"@.len() == 5 && "let"@.len() == 3 && "struct"@.len() == 6
                && "new"@.len() == 3);
        }
        match self.current().kind() {
            TokenKind::Literal(token::Literal::Float(f)) => {
                self.advance();
                Ok(Box::new(Expression::Literal(Literal::Float(f))))
            },
            TokenKind::Literal(token::Literal::Int(i)) => {
                self.advance();
                Ok(Box::new(Expression::Literal(Literal::Integer(i))))
            },
            TokenKind::Literal(token::Literal::StringLiteral(text)) => {
                self.advance();
                Ok(Box::new(Expression::Literal(Literal::String(text))))
            },
            TokenKind::LBracket => {
                if let Err(x) = self.expect(TokenKind::LBracket) {
                    return Err(x);
                }
                let mut exprs: Vec<Expression> = Vec::new();
                while !self.check(&TokenKind::RBracket)
                    invariant
                        self.continues(*old(self)),
                        self.rest() < old(self).rest(),
                        old(self).next_kind() is LBracket,
                    decreases self.rest(),
                {
                    match self.parse_expr() {
                        Ok(e) => exprs.push(*e),
                        Err(x) => return Err(x),
                    }
                    if self.check(&TokenKind::Comma) {
                        self.advance();
                    }
                }
                if let Err(x) = self.expect(TokenKind::RBracket) {
                    return Err(x);
                }
                Ok(Box::new(Expression::Literal(Literal::List(exprs))))
            },
            TokenKind::Keyword(kw) => {
                if kw == String::from_str("true") {
                    self.advance();
                    Ok(Box::new(Expression::Literal(Literal::Bool(true))))
                } else if kw == String::from_str("false") {
                    self.advance();
                    Ok(Box::new(Expression::Literal(Literal::Bool(false))))
                } else if kw == String::from_str("do") {
                    self.advance();
                    let mut expressions: Vec<Box<Expression>> = Vec::new();
                    while !self.at_keyword("end")
                        invariant
                            self.continues(*old(self)),
                            self.rest() < old(self).rest(),
                            old(self).next_kind() matches TokenKind::Keyword(k) && k@.len() == 2,
                            "true"@.len() == 4 && "false"@.len() == 5,
                        decreases self.rest(),
                    {
                        match self.parse_expression() {
                            Ok(e) => expressions.push(e),
                            Err(x) => return Err(x),
                        }
                        if let Err(x) = self.expect(TokenKind::Semicolon) {
                            return Err(x);
                        }
                    }
                    self.advance();
                    let span = start_pos.union_span(&self.current().span());
                    Ok(Box::new(Expression::DoExpression(DoExpression { body: expressions, span })))
                } else if kw == String::from_str("let") {
                    self.advance();
                    match self.parse_variable_declaration() {
                        Ok(v) => Ok(Box::new(Expression::VariableDeclaration(v))),
                        Err(x) => Err(x),
                    }
                } else if kw == String::from_str("struct") {
                    self.advance();
                    match self.parse_struct_declaration() {
                        Ok(v) => Ok(Box::new(Expression::StructDeclaration(v))),
                        Err(x) => Err(x),
                    }
                } else if kw == String::from_str("new") {
                    self.advance();
                    match self.parse_new_object_expression() {
                        Ok(v) => Ok(Box::new(Expression::NewObjectExpression(v))),
                        Err(x) => Err(x),
                    }
                } else if kw == String::from_str("if") {
                    self.advance();
                    self.parse_if(start_pos)
                } else if kw == String::from_str("match") {
                    self.advance();
                    self.parse_match(start_pos)
                } else {
                    Err(ParseError)
                }
            },
            TokenKind::Literal(token::Literal::Identifier(name)) => {
                self.advance();
                self.parse_name_use(name, start_pos)
            },
            _ => Err(ParseError),
        }
    }

    /// Parses `cond then expr [else expr]`, the part of an `if` after the keyword.
    fn parse_if(&mut self, start_pos: Span) -> (r: Result<Box<Expression>, ParseError>)
        requires
            old(self).well_formed(),
        ensures
            final(self).continues(*old(self)),
            r matches Ok(e) ==> *e is IfElseNode,
            r is Ok ==> final(self).rest() < old(self).rest(),
        decreases old(self).rest(), 9nat,
    {
        let condition = match self.parse_expr() {
            Ok(e) => e,
            Err(x) => return Err(x),
        };
        if let Err(x) = self.expect(TokenKind::Keyword(String::from_str("then"))) {
            return Err(x);
        }
        let if_body = match self.parse_expr() {
            Ok(e) => e,
            Err(x) => return Err(x),
        };
        if self.at_keyword("else") {
            self.advance();
            let else_body = match self.parse_expr() {
                Ok(e) => e,
                Err(x) => return Err(x),
            };
            let span = start_pos.union_span(&self.current().span());
            Ok(
                Box::new(
                    Expression::IfElseNode(
                        IfElseNode { condition, if_body, else_body: Some(else_body), span },
                    ),
                ),
            )
        } else {
            let span = start_pos.union_span(&self.current().span());
            Ok(
                Box::new(
                    Expression::IfElseNode(IfElseNode { condition, if_body, else_body: None, span }),
                ),
            )
        }
    }

    /// Parses `expr | arm, ... \ (_ => expr | arm)`, the part of a `match` after the keyword.
    fn parse_match(&mut self, start_pos: Span) -> (r: Result<Box<Expression>, ParseError>)
        requires
            old(self).well_formed(),
        ensures
            final(self).continues(*old(self)),
            r matches Ok(e) ==> *e is MatchExpression,
            r is Ok ==> final(self).rest() < old(self).rest(),
        decreases old(self).rest(), 9nat,
    {
        let expr = match self.parse_expr() {
            Ok(e) => e,
            Err(x) => return Err(x),
        };
        let mut arms: Vec<MatchArm> = Vec::new();
        while !self.check(&TokenKind::BackSlash)
            invariant
                self.continues(*old(self)),
                self.rest() < old(self).rest(),
            decreases self.rest(),
        {
            if let Err(x) = self.expect(TokenKind::Pipe) {
                return Err(x);
            }
            match self.parse_match_arm() {
                Ok(a) => arms.push(a),
                Err(x) => return Err(x),
            }
            if let Err(x) = self.expect(TokenKind::Comma) {
                return Err(x);
            }
        }
        self.advance();
        let mut default: Option<Box<Expression>> = None;
        if self.check(&TokenKind::Underscore) {
            self.advance();
            if let Err(x) = self.expect(TokenKind::FatArrow) {
                return Err(x);
            }
            match self.parse_expr() {
                Ok(e) => default = Some(e),
                Err(x) => return Err(x),
            }
        } else {
            match self.parse_match_arm() {
                Ok(a) => arms.push(a),
                Err(x) => return Err(x),
            }
        }
        let span = start_pos.union_span(&self.current().span());
        Ok(Box::new(Expression::MatchExpression(MatchExpression { expr, arms, default, span })))
    }

    /// Parses what follows an identifier: a call's arguments, an index, a field
    /// number, or nothing.
    fn parse_name_use(&mut self, name: String, start_pos: Span) -> (r: Result<Box<Expression>, ParseError>)
        requires
            old(self).well_formed(),
        ensures
            final(self).continues(*old(self)),
            old(self).next_kind() is LParen ==> (r matches Ok(e) ==> *e is FunctionCall
                && (*e)->FunctionCall_0.name == name),
            old(self).next_kind() is LBracket ==> (r matches Ok(e) ==> *e is IndexExpression
                && (*e)->IndexExpression_0.name == name),
            old(self).next_kind() is Dot ==> (r matches Ok(e) ==> *e is FieldAccessExpression
                && (*e)->FieldAccessExpression_0.name == name),
            !(old(self).next_kind() is LParen) && !(old(self).next_kind() is LBracket) && !(old(
                self,
            ).next_kind() is Dot) ==> final(self).position() == old(self).position() && (r matches Ok(
                e,
            ) && *e is Identifier && (*e)->Identifier_0.name == name),
        decreases old(self).rest(), 9nat,
    {
        if self.check(&TokenKind::LParen) {
            self.advance();
            let args = match self.parse_arguments() {
                Ok(a) => a,
                Err(x) => return Err(x),
            };
            if let Err(x) = self.expect(TokenKind::RParen) {
                return Err(x);
            }
            let span = start_pos.union_span(&self.current().span());
            Ok(Box::new(Expression::FunctionCall(FunctionCall { name, args, span })))
        } else if self.check(&TokenKind::LBracket) {
            self.advance();
            let index = match self.parse_expr() {
                Ok(e) => e,
                Err(x) => return Err(x),
            };
            if let Err(x) = self.expect(TokenKind::RBracket) {
                return Err(x);
            }
            let span = start_pos.union_span(&self.current().span());
            Ok(Box::new(Expression::IndexExpression(IndexExpression { name, index, span })))
        } else if self.check(&TokenKind::Dot) {
            self.advance();
            let field = match self.advance().kind {
                TokenKind::Literal(token::Literal::Int(i)) => i,
                _ => return Err(ParseError),
            };
            if field < 0 || field as u64 > usize::MAX as u64 {
                return Err(ParseError);
            }
            let span = start_pos.union_span(&self.current().span());
            Ok(
                Box::new(
                    Expression::FieldAccessExpression(
                        FieldAccessExpression { name, field: field as usize, span },
                    ),
                ),
            )
        } else {
            let span = start_pos.union_span(&self.current().span());
            Ok(Box::new(Expression::Identifier(IdentifierNode { name, span })))
        }
    }
}

impl Default for SimpleParserV1 {
    fn default() -> (r: SimpleParserV1)
        ensures
            r.input().len() == 0,
            r.position() == 0,
            r.well_formed(),
    {
        SimpleParserV1::new()
    }
}

} // verus!
