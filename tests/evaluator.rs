use atlas::ast::{BinaryOperator, Expression, Literal, Statement, UnaryOperator};
use atlas::environment::SymbolTable;
use atlas::eval::run_program;
use atlas::value::{DataType, EvalError, Number};

#[derive(Clone, Copy, Debug, PartialEq)]
struct F(f64);

impl Number for F {
    fn spec_plus(self, rhs: Self) -> Self {
        F(self.0 + rhs.0)
    }

    fn spec_minus(self, rhs: Self) -> Self {
        F(self.0 - rhs.0)
    }

    fn spec_times(self, rhs: Self) -> Self {
        F(self.0 * rhs.0)
    }

    fn spec_divided_by(self, rhs: Self) -> Self {
        F(self.0 / rhs.0)
    }

    fn spec_remainder(self, rhs: Self) -> Self {
        F(self.0 % rhs.0)
    }

    fn spec_negated(self) -> Self {
        F(-self.0)
    }

    fn spec_equals(self, rhs: Self) -> bool {
        self.0 == rhs.0
    }

    fn spec_greater(self, rhs: Self) -> bool {
        self.0 > rhs.0
    }

    fn spec_greater_or_equal(self, rhs: Self) -> bool {
        self.0 >= rhs.0
    }

    fn spec_less(self, rhs: Self) -> bool {
        self.0 < rhs.0
    }

    fn spec_less_or_equal(self, rhs: Self) -> bool {
        self.0 <= rhs.0
    }

    fn spec_truncated(self) -> Self {
        F(self.0 as i64 as f64)
    }

    fn spec_render(self) -> String {
        format!("{}", self.0)
    }

    fn plus(&self, rhs: &Self) -> Self {
        self.spec_plus(*rhs)
    }

    fn minus(&self, rhs: &Self) -> Self {
        self.spec_minus(*rhs)
    }

    fn times(&self, rhs: &Self) -> Self {
        self.spec_times(*rhs)
    }

    fn divided_by(&self, rhs: &Self) -> Self {
        self.spec_divided_by(*rhs)
    }

    fn remainder(&self, rhs: &Self) -> Self {
        self.spec_remainder(*rhs)
    }

    fn negated(&self) -> Self {
        self.spec_negated()
    }

    fn equals(&self, rhs: &Self) -> bool {
        self.spec_equals(*rhs)
    }

    fn greater(&self, rhs: &Self) -> bool {
        self.spec_greater(*rhs)
    }

    fn greater_or_equal(&self, rhs: &Self) -> bool {
        self.spec_greater_or_equal(*rhs)
    }

    fn less(&self, rhs: &Self) -> bool {
        self.spec_less(*rhs)
    }

    fn less_or_equal(&self, rhs: &Self) -> bool {
        self.spec_less_or_equal(*rhs)
    }

    fn truncated(&self) -> Self {
        self.spec_truncated()
    }

    fn render(&self) -> String {
        self.spec_render()
    }
}

fn num(n: f64) -> Expression<F> {
    Expression::Literal(Literal::Number(F(n)))
}

fn text(s: &str) -> Expression<F> {
    Expression::Literal(Literal::String(s.to_string()))
}

fn truth(b: bool) -> Expression<F> {
    Expression::Literal(Literal::Boolean(b))
}

fn ident(name: &str) -> Expression<F> {
    Expression::Identifier(name.to_string())
}

fn bin(l: Expression<F>, op: BinaryOperator, r: Expression<F>) -> Expression<F> {
    Expression::BinaryOp(Box::new(l), op, Box::new(r))
}

fn decl(name: &str, t: DataType, e: Expression<F>) -> Statement<F> {
    Statement::VarDecl { name: name.to_string(), declared_type: t, initializer: Some(e) }
}

fn print(e: Expression<F>) -> Statement<F> {
    Statement::Print(e)
}

fn run(program: Vec<Statement<F>>) -> (Result<(), EvalError>, Vec<String>) {
    run_program(&program, 1_000_000)
}

fn lines(v: &[&str]) -> Vec<String> {
    v.iter().map(|s| s.to_string()).collect()
}

#[test]
fn float_sum_prints_five() {
    let program = vec![
        decl("x", DataType::Float, num(2.0)),
        decl("y", DataType::Float, num(3.0)),
        print(bin(ident("x"), BinaryOperator::Add, ident("y"))),
    ];
    let (r, out) = run(program);
    assert!(r.is_ok());
    assert_eq!(out, lines(&["5"]));
}

#[test]
fn string_plus_number_concatenates() {
    let program = vec![
        decl("s", DataType::String, text("a")),
        decl("n", DataType::Float, num(1.0)),
        print(bin(ident("s"), BinaryOperator::Add, ident("n"))),
    ];
    let (r, out) = run(program);
    assert!(r.is_ok());
    assert_eq!(out, lines(&["a1"]));
}

#[test]
fn number_plus_string_literals_concatenate() {
    let (r, out) = run(vec![print(bin(num(2.5), BinaryOperator::Add, text("x")))]);
    assert!(r.is_ok());
    assert_eq!(out, lines(&["2.5x"]));
}

#[test]
fn if_else_takes_else_branch_and_leaves_no_binding() {
    let program = vec![Statement::If {
        condition: bin(num(1.0), BinaryOperator::Gt, num(2.0)),
        then_body: vec![decl("a", DataType::Float, num(1.0)), print(text("no"))],
        else_body: Some(vec![decl("b", DataType::Float, num(2.0)), print(text("yes"))]),
    }];
    let mut table: SymbolTable<F> = SymbolTable::new();
    let mut steps: u64 = 10;
    let mut out: Vec<String> = Vec::new();
    let r = table.eval(&program, 0, &mut steps, &mut out);
    assert!(r.is_ok());
    assert_eq!(out, lines(&["yes"]));
    assert_eq!(table.variables.len(), 0);
    assert!(table.lookup(&"a".to_string()).is_none());
    assert!(table.lookup(&"b".to_string()).is_none());
}

#[test]
fn int_declaration_truncates_toward_zero() {
    let program = vec![decl("i", DataType::Int, num(3.7)), print(ident("i"))];
    let (r, out) = run(program);
    assert!(r.is_ok());
    assert_eq!(out, lines(&["3"]));
    let (r, out) = run(vec![decl("j", DataType::Int, num(-3.7)), print(ident("j"))]);
    assert!(r.is_ok());
    assert_eq!(out, lines(&["-3"]));
}

#[test]
fn endless_while_outlasts_any_budget() {
    let program = vec![Statement::While { condition: truth(true), body: vec![print(text("tick"))] }];
    let (r, out) = run_program(&program, 10_000);
    assert!(matches!(r, Err(EvalError::OutOfSteps)));
    assert_eq!(out.len(), 10_000);
}

#[test]
fn while_counts_down_and_stops() {
    let program = vec![
        decl("n", DataType::Float, num(3.0)),
        Statement::While {
            condition: bin(ident("n"), BinaryOperator::Gt, num(0.0)),
            body: vec![
                print(ident("n")),
                Statement::Assign { name: "n".to_string(), value: bin(ident("n"), BinaryOperator::Sub, num(1.0)) },
            ],
        },
        print(ident("n")),
    ];
    let (r, out) = run_program(&program, 3);
    assert!(r.is_ok());
    assert_eq!(out, lines(&["3", "2", "1", "0"]));
}

#[test]
fn printing_a_literal_twice_is_repeatable() {
    let mut table: SymbolTable<F> = SymbolTable::new();
    table.declare("k".to_string(), DataType::Boolean, atlas::value::Value::Boolean(true), 0).unwrap();
    let program = vec![print(text("same")), print(text("same")), print(truth(false)), print(truth(false))];
    let mut steps: u64 = 0;
    let mut out: Vec<String> = Vec::new();
    let r = table.eval(&program, 1, &mut steps, &mut out);
    assert!(r.is_ok());
    assert_eq!(out, lines(&["same", "same", "false", "false"]));
    assert_eq!(table.variables.len(), 1);
    assert!(matches!(table.lookup(&"k".to_string()), Some(atlas::value::Value::Boolean(true))));
}

#[test]
fn arithmetic_and_comparison_results() {
    let program = vec![
        print(bin(num(7.0), BinaryOperator::Sub, num(2.0))),
        print(bin(num(7.0), BinaryOperator::Mul, num(2.0))),
        print(bin(num(7.0), BinaryOperator::Div, num(2.0))),
        print(bin(num(7.0), BinaryOperator::Mod, num(2.0))),
        print(bin(num(7.0), BinaryOperator::Gte, num(7.0))),
        print(bin(num(7.0), BinaryOperator::Lt, num(7.0))),
        print(bin(num(1.0), BinaryOperator::Lte, num(2.0))),
        print(bin(text("a"), BinaryOperator::Eq, text("a"))),
        print(bin(truth(true), BinaryOperator::Neq, truth(false))),
        print(bin(num(1.0), BinaryOperator::Neq, num(1.0))),
        print(bin(text("ab"), BinaryOperator::Add, text("cd"))),
        print(Expression::UnaryOp(UnaryOperator::Negate, Box::new(num(4.0)))),
    ];
    let (r, out) = run(program);
    assert!(r.is_ok());
    assert_eq!(out, lines(&["5", "14", "3.5", "1", "true", "false", "true", "true", "true", "false", "abcd", "-4"]));
}

#[test]
fn division_by_zero_is_not_trapped() {
    let (r, out) = run(vec![print(bin(num(1.0), BinaryOperator::Div, num(0.0)))]);
    assert!(r.is_ok());
    assert_eq!(out, lines(&["inf"]));
}

#[test]
fn identifiers_on_either_side_of_operators() {
    let program = vec![
        decl("a", DataType::Float, num(10.0)),
        decl("b", DataType::Float, num(4.0)),
        print(bin(ident("a"), BinaryOperator::Sub, num(1.0))),
        print(bin(num(1.0), BinaryOperator::Sub, ident("b"))),
        print(bin(ident("a"), BinaryOperator::Lt, ident("b"))),
        print(Expression::UnaryOp(UnaryOperator::Negate, Box::new(ident("b")))),
    ];
    let (r, out) = run(program);
    assert!(r.is_ok());
    assert_eq!(out, lines(&["9", "-3", "false", "-4"]));
}

#[test]
fn boolean_operand_of_add_is_a_type_mismatch() {
    let (r, out) = run(vec![print(bin(truth(true), BinaryOperator::Add, num(1.0)))]);
    assert!(matches!(r, Err(EvalError::TypeMismatch)));
    assert!(out.is_empty());
}

#[test]
fn mixed_kinds_in_equality_are_a_type_mismatch() {
    let (r, _) = run(vec![print(bin(text("1"), BinaryOperator::Eq, num(1.0)))]);
    assert!(matches!(r, Err(EvalError::TypeMismatch)));
}

#[test]
fn unknown_identifier_is_reported_by_name() {
    let (r, _) = run(vec![print(ident("ghost"))]);
    match r {
        Err(EvalError::UnknownIdentifier(name)) => assert_eq!(name, "ghost"),
        other => panic!("unexpected {:?}", other),
    }
}

#[test]
fn deferred_name_is_looked_up_after_the_other_operand() {
    let inner = bin(num(1.0), BinaryOperator::Add, truth(true));
    let (r, _) = run(vec![print(bin(ident("missing"), BinaryOperator::Add, inner))]);
    assert!(matches!(r, Err(EvalError::TypeMismatch)));
    let (r, _) = run(vec![print(bin(ident("missing"), BinaryOperator::Add, num(1.0)))]);
    assert!(matches!(r, Err(EvalError::UnknownIdentifier(_))));
}

#[test]
fn non_boolean_condition_is_an_invalid_expression() {
    let program = vec![Statement::If { condition: num(1.0), then_body: vec![], else_body: None }];
    let (r, _) = run(program);
    assert!(matches!(r, Err(EvalError::InvalidExpression)));
}

#[test]
fn declared_type_must_match_initializer() {
    let (r, _) = run(vec![decl("s", DataType::String, num(1.0))]);
    assert!(matches!(r, Err(EvalError::TypeMismatch)));
    let (r, _) = run(vec![Statement::VarDecl { name: "z".to_string(), declared_type: DataType::Float, initializer: None }]);
    assert!(matches!(r, Err(EvalError::TypeMismatch)));
}

#[test]
fn redeclaration_in_nested_block_is_a_duplicate() {
    let program = vec![
        decl("x", DataType::Float, num(1.0)),
        Statement::If { condition: truth(true), then_body: vec![decl("x", DataType::Float, num(2.0))], else_body: None },
    ];
    let (r, _) = run(program);
    match r {
        Err(EvalError::DuplicateIdentifier(name)) => assert_eq!(name, "x"),
        other => panic!("unexpected {:?}", other),
    }
}

#[test]
fn failing_block_still_evicts_its_bindings() {
    let program = vec![Statement::If {
        condition: truth(true),
        then_body: vec![decl("inner", DataType::Float, num(1.0)), print(ident("nowhere"))],
        else_body: None,
    }];
    let mut table: SymbolTable<F> = SymbolTable::new();
    table.declare("outer".to_string(), DataType::Float, atlas::value::Value::Number(F(5.0)), 0).unwrap();
    let mut steps: u64 = 10;
    let mut out: Vec<String> = Vec::new();
    let r = table.eval(&program, 0, &mut steps, &mut out);
    assert!(matches!(r, Err(EvalError::UnknownIdentifier(_))));
    assert_eq!(table.variables.len(), 0);
}

#[test]
fn assignment_updates_outer_binding_from_inner_block() {
    let program = vec![
        decl("flag", DataType::Boolean, truth(false)),
        Statement::If {
            condition: truth(true),
            then_body: vec![Statement::Assign { name: "flag".to_string(), value: truth(true) }],
            else_body: None,
        },
        print(ident("flag")),
        Statement::Assign { name: "flag".to_string(), value: num(1.0) },
    ];
    let (r, out) = run(program);
    assert!(matches!(r, Err(EvalError::TypeMismatch)));
    assert_eq!(out, lines(&["true"]));
}

#[test]
fn assignment_to_undeclared_name_fails() {
    let (r, _) = run(vec![Statement::Assign { name: "q".to_string(), value: num(1.0) }]);
    match r {
        Err(EvalError::UnknownIdentifier(name)) => assert_eq!(name, "q"),
        other => panic!("unexpected {:?}", other),
    }
}
