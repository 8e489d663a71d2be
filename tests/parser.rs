use atlas::parser::{ParseError, SimpleParserV1};
use atlas::syntax::{BinaryOperator, Expression, Literal, Type, UnaryOperator};
use atlas::token::{self, Span, Token, TokenKind};

fn tok(kind: TokenKind) -> Token {
    Token::new(Span { start: 0, end: 0 }, kind)
}

fn kw(w: &str) -> TokenKind {
    TokenKind::Keyword(w.to_string())
}

fn id(w: &str) -> TokenKind {
    TokenKind::Literal(token::Literal::Identifier(w.to_string()))
}

fn int_tok(i: i64) -> TokenKind {
    TokenKind::Literal(token::Literal::Int(i))
}

fn parser(kinds: Vec<TokenKind>) -> SimpleParserV1 {
    let mut p = SimpleParserV1::new();
    p.with_tokens(kinds.into_iter().map(tok).collect());
    p
}

/// The primary expression under the unary node that every operand is wrapped in.
fn operand(e: &Expression) -> &Expression {
    match e {
        Expression::UnaryExpression(u) => {
            assert!(u.operator.is_none());
            &u.expression
        }
        other => panic!("not an operand: {:?}", other),
    }
}

#[test]
fn empty_input_parses_to_nothing() {
    let mut p = SimpleParserV1::new();
    let ast = p.parse().unwrap();
    assert!(ast.is_empty());
}

#[test]
fn with_file_path_is_accepted() {
    let mut p = SimpleParserV1::new();
    assert!(p.with_file_path(std::path::PathBuf::from("main.atlas")).is_ok());
}

#[test]
fn integer_literal_is_a_plain_operand() {
    let mut p = parser(vec![int_tok(42), TokenKind::EoI]);
    let e = p.parse_expr().unwrap();
    assert!(matches!(operand(&e), Expression::Literal(Literal::Integer(42))));
}

#[test]
fn sum_of_two_literals() {
    let mut p = parser(vec![int_tok(1), TokenKind::OpAdd, int_tok(2)]);
    let e = p.parse_expr().unwrap();
    match *e {
        Expression::BinaryExpression(b) => {
            assert_eq!(b.operator, BinaryOperator::OpAdd);
            assert!(matches!(operand(&b.left), Expression::Literal(Literal::Integer(1))));
            assert!(matches!(operand(&b.right), Expression::Literal(Literal::Integer(2))));
        }
        other => panic!("unexpected {:?}", other),
    }
}

#[test]
fn product_binds_tighter_than_difference() {
    let mut p = parser(vec![int_tok(1), TokenKind::OpSub, int_tok(2), TokenKind::OpMul, int_tok(3)]);
    let e = p.parse_expr().unwrap();
    match *e {
        Expression::BinaryExpression(b) => {
            assert_eq!(b.operator, BinaryOperator::OpSub);
            match *b.right {
                Expression::BinaryExpression(ref r) => assert_eq!(r.operator, BinaryOperator::OpMul),
                ref other => panic!("unexpected {:?}", other),
            }
        }
        other => panic!("unexpected {:?}", other),
    }
}

#[test]
fn prefix_minus_and_bang() {
    let mut p = parser(vec![TokenKind::OpSub, int_tok(5)]);
    match *p.parse_expr().unwrap() {
        Expression::UnaryExpression(u) => assert_eq!(u.operator, Some(UnaryOperator::OpSub)),
        other => panic!("unexpected {:?}", other),
    }
    let mut p = parser(vec![TokenKind::Bang, kw("true")]);
    match *p.parse_expr().unwrap() {
        Expression::UnaryExpression(u) => {
            assert_eq!(u.operator, Some(UnaryOperator::OpNot));
            assert!(matches!(*u.expression, Expression::Literal(Literal::Bool(true))));
        }
        other => panic!("unexpected {:?}", other),
    }
}

#[test]
fn comparison_takes_the_rest_as_right_side() {
    let mut p = parser(vec![id("a"), TokenKind::OpLessThanEq, int_tok(3), TokenKind::OpAdd, int_tok(4)]);
    match *p.parse_expr().unwrap() {
        Expression::BinaryExpression(b) => {
            assert_eq!(b.operator, BinaryOperator::OpLessThanEq);
            assert!(matches!(*b.right, Expression::BinaryExpression(_)));
        }
        other => panic!("unexpected {:?}", other),
    }
}

#[test]
fn program_of_declarations_after_start_token() {
    let mut p = parser(vec![
        kw("start"),
        kw("let"),
        id("x"),
        TokenKind::Colon,
        kw("int"),
        TokenKind::OpAssign,
        int_tok(5),
        kw("let"),
        id("f"),
        TokenKind::Colon,
        TokenKind::LParen,
        id("a"),
        TokenKind::Colon,
        kw("int"),
        TokenKind::RParen,
        TokenKind::RArrow,
        kw("int"),
        TokenKind::OpAssign,
        id("a"),
        TokenKind::EoI,
    ]);
    let ast = p.parse().unwrap();
    assert_eq!(ast.len(), 2);
    match &ast[0] {
        Expression::VariableDeclaration(v) => {
            assert_eq!(v.name, "x");
            assert!(matches!(v.t, Type::Integer));
            assert!(v.mutable);
        }
        other => panic!("unexpected {:?}", other),
    }
    match &ast[1] {
        Expression::VariableDeclaration(v) => {
            assert_eq!(v.name, "f");
            assert!(!v.mutable);
            match v.value.as_deref() {
                Some(Expression::FunctionExpression(f)) => {
                    assert_eq!(f.args.len(), 1);
                    assert_eq!(f.args[0].0, "a");
                }
                other => panic!("unexpected {:?}", other),
            }
        }
        other => panic!("unexpected {:?}", other),
    }
}

#[test]
fn list_and_map_types() {
    let mut p = parser(vec![
        kw("let"),
        id("m"),
        TokenKind::Colon,
        kw("Map"),
        TokenKind::LBracket,
        kw("string"),
        TokenKind::Colon,
        kw("List"),
        TokenKind::LBracket,
        kw("float"),
        TokenKind::RBracket,
        TokenKind::RBracket,
        TokenKind::OpAssign,
        TokenKind::LBracket,
        TokenKind::RBracket,
    ]);
    match *p.parse_expr().unwrap() {
        Expression::UnaryExpression(u) => match *u.expression {
            Expression::VariableDeclaration(v) => match v.t {
                Type::Mapping(k, val) => {
                    assert!(matches!(*k, Type::String));
                    assert!(matches!(*val, Type::List(_)));
                }
                other => panic!("unexpected {:?}", other),
            },
            other => panic!("unexpected {:?}", other),
        },
        other => panic!("unexpected {:?}", other),
    }
}

#[test]
fn if_then_else_expression() {
    let mut p = parser(vec![kw("if"), kw("true"), kw("then"), int_tok(1), kw("else"), int_tok(2)]);
    match operand(&p.parse_expr().unwrap()) {
        Expression::IfElseNode(n) => assert!(n.else_body.is_some()),
        other => panic!("unexpected {:?}", other),
    }
}

#[test]
fn call_index_field_and_identifier() {
    let mut p = parser(vec![id("f"), TokenKind::LParen, int_tok(1), TokenKind::Comma, int_tok(2), TokenKind::RParen]);
    match operand(&p.parse_expr().unwrap()) {
        Expression::FunctionCall(c) => {
            assert_eq!(c.name, "f");
            assert_eq!(c.args.len(), 2);
        }
        other => panic!("unexpected {:?}", other),
    }
    let mut p = parser(vec![id("a"), TokenKind::LBracket, int_tok(0), TokenKind::RBracket]);
    assert!(matches!(operand(&p.parse_expr().unwrap()), Expression::IndexExpression(_)));
    let mut p = parser(vec![id("p"), TokenKind::Dot, int_tok(1)]);
    match operand(&p.parse_expr().unwrap()) {
        Expression::FieldAccessExpression(f) => assert_eq!(f.field, 1),
        other => panic!("unexpected {:?}", other),
    }
    let mut p = parser(vec![id("v")]);
    match operand(&p.parse_expr().unwrap()) {
        Expression::Identifier(n) => assert_eq!(n.name, "v"),
        other => panic!("unexpected {:?}", other),
    }
}

#[test]
fn do_block_and_match() {
    let mut p = parser(vec![kw("do"), int_tok(1), TokenKind::Semicolon, int_tok(2), TokenKind::Semicolon, kw("end")]);
    match operand(&p.parse_expr().unwrap()) {
        Expression::DoExpression(d) => assert_eq!(d.body.len(), 2),
        other => panic!("unexpected {:?}", other),
    }
    let mut p = parser(vec![
        kw("match"),
        id("x"),
        TokenKind::Pipe,
        int_tok(1),
        TokenKind::FatArrow,
        int_tok(10),
        TokenKind::Comma,
        TokenKind::BackSlash,
        TokenKind::Underscore,
        TokenKind::FatArrow,
        int_tok(0),
    ]);
    match operand(&p.parse_expr().unwrap()) {
        Expression::MatchExpression(m) => {
            assert_eq!(m.arms.len(), 1);
            assert!(m.default.is_some());
        }
        other => panic!("unexpected {:?}", other),
    }
}

#[test]
fn struct_and_new_object() {
    let mut p = parser(vec![
        kw("start"),
        kw("struct"),
        id("P"),
        TokenKind::LParen,
        kw("int"),
        TokenKind::Comma,
        kw("bool"),
        TokenKind::RParen,
        kw("new"),
        id("P"),
        TokenKind::LParen,
        int_tok(1),
        TokenKind::Comma,
        kw("false"),
        TokenKind::RParen,
    ]);
    let ast = p.parse().unwrap();
    assert_eq!(ast.len(), 2);
    match &ast[0] {
        Expression::StructDeclaration(d) => {
            assert_eq!(d.name, "P");
            assert_eq!(d.fields.len(), 2);
        }
        other => panic!("unexpected {:?}", other),
    }
    match &ast[1] {
        Expression::NewObjectExpression(n) => assert_eq!(n.fields.len(), 2),
        other => panic!("unexpected {:?}", other),
    }
}

#[test]
fn unexpected_tokens_are_parse_errors() {
    let mut p = parser(vec![TokenKind::RParen]);
    assert!(matches!(p.parse_expr(), Err(ParseError)));
    let mut p = parser(vec![]);
    assert!(matches!(p.parse_expr(), Err(ParseError)));
    let mut p = parser(vec![kw("if"), kw("true"), int_tok(1)]);
    assert!(p.parse_expr().is_err());
    let mut p = parser(vec![kw("start"), kw("let"), int_tok(3)]);
    assert!(p.parse().is_err());
}

#[test]
fn program_of_one_integer() {
    let mut p = parser(vec![kw("start"), int_tok(7), TokenKind::EoI]);
    let ast = p.parse().unwrap();
    assert_eq!(ast.len(), 1);
    assert!(matches!(operand(&ast[0]), Expression::Literal(Literal::Integer(7))));
}

#[test]
fn differences_group_to_the_right() {
    let mut p = parser(vec![int_tok(1), TokenKind::OpSub, int_tok(2), TokenKind::OpSub, int_tok(3)]);
    match *p.parse_expr().unwrap() {
        Expression::BinaryExpression(b) => {
            assert_eq!(b.operator, BinaryOperator::OpSub);
            assert!(matches!(operand(&b.left), Expression::Literal(Literal::Integer(1))));
            match *b.right {
                Expression::BinaryExpression(ref r) => assert_eq!(r.operator, BinaryOperator::OpSub),
                ref other => panic!("unexpected {:?}", other),
            }
        }
        other => panic!("unexpected {:?}", other),
    }
}

#[test]
fn primitive_type_keywords() {
    let mut p = parser(vec![kw("let"), id("b"), TokenKind::Colon, kw("bool"), kw("true")]);
    match p.parse_expr().map(|e| *e) {
        Ok(Expression::UnaryExpression(u)) => match *u.expression {
            Expression::VariableDeclaration(v) => {
                assert!(matches!(v.t, Type::Bool));
                assert!(!v.mutable);
            }
            other => panic!("unexpected {:?}", other),
        },
        other => panic!("unexpected {:?}", other),
    }
}
