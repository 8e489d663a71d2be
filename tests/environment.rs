use atlas::environment::SymbolTable;
use atlas::value::{DataType, EvalError, Number, Value};

#[derive(Clone, Copy, Debug, PartialEq)]
struct N(i64);

impl Number for N {
    fn spec_plus(self, rhs: Self) -> Self {
        N(self.0 + rhs.0)
    }

    fn spec_minus(self, rhs: Self) -> Self {
        N(self.0 - rhs.0)
    }

    fn spec_times(self, rhs: Self) -> Self {
        N(self.0 * rhs.0)
    }

    fn spec_divided_by(self, rhs: Self) -> Self {
        N(self.0 / rhs.0)
    }

    fn spec_remainder(self, rhs: Self) -> Self {
        N(self.0 % rhs.0)
    }

    fn spec_negated(self) -> Self {
        N(-self.0)
    }

    fn spec_equals(self, rhs: Self) -> bool {
        self.0 == rhs.0
    }

    fn spec_greater(self, rhs: Self) -> bool {
        self.0 > rhs.0
    }

    fn spec_greater_or_equal(self, rhs: Self) -> bool {
        self.0 >= rhs.0
    }

    fn spec_less(self, rhs: Self) -> bool {
        self.0 < rhs.0
    }

    fn spec_less_or_equal(self, rhs: Self) -> bool {
        self.0 <= rhs.0
    }

    fn spec_truncated(self) -> Self {
        self
    }

    fn spec_render(self) -> String {
        self.0.to_string()
    }

    fn plus(&self, rhs: &Self) -> Self {
        self.spec_plus(*rhs)
    }

    fn minus(&self, rhs: &Self) -> Self {
        self.spec_minus(*rhs)
    }

    fn times(&self, rhs: &Self) -> Self {
        self.spec_times(*rhs)
    }

    fn divided_by(&self, rhs: &Self) -> Self {
        self.spec_divided_by(*rhs)
    }

    fn remainder(&self, rhs: &Self) -> Self {
        self.spec_remainder(*rhs)
    }

    fn negated(&self) -> Self {
        self.spec_negated()
    }

    fn equals(&self, rhs: &Self) -> bool {
        self.spec_equals(*rhs)
    }

    fn greater(&self, rhs: &Self) -> bool {
        self.spec_greater(*rhs)
    }

    fn greater_or_equal(&self, rhs: &Self) -> bool {
        self.spec_greater_or_equal(*rhs)
    }

    fn less(&self, rhs: &Self) -> bool {
        self.spec_less(*rhs)
    }

    fn less_or_equal(&self, rhs: &Self) -> bool {
        self.spec_less_or_equal(*rhs)
    }

    fn truncated(&self) -> Self {
        self.spec_truncated()
    }

    fn render(&self) -> String {
        self.spec_render()
    }
}

fn name(s: &str) -> String {
    s.to_string()
}

#[test]
fn declared_values_look_up_and_vanish_with_their_scope() {
    let mut t: SymbolTable<N> = SymbolTable::new();
    t.new_boolean(name("b"), true, 1).unwrap();
    t.new_number(name("n"), N(7), 1).unwrap();
    t.new_string(name("s"), name("hi"), 2).unwrap();
    assert!(matches!(t.lookup(&name("b")), Some(Value::Boolean(true))));
    assert!(matches!(t.lookup(&name("n")), Some(Value::Number(N(7)))));
    match t.lookup(&name("s")) {
        Some(Value::String(s)) => assert_eq!(s, "hi"),
        other => panic!("unexpected {:?}", other),
    }
    t.evict(1);
    assert!(t.lookup(&name("b")).is_none());
    assert!(t.lookup(&name("n")).is_none());
    assert!(t.lookup(&name("s")).is_some());
    t.evict(2);
    assert!(t.lookup(&name("s")).is_none());
    assert_eq!(t.variables.len(), 0);
}

#[test]
fn declaring_a_name_twice_fails_across_scopes() {
    let mut t: SymbolTable<N> = SymbolTable::new();
    t.new_number(name("x"), N(1), 0).unwrap();
    match t.new_number(name("x"), N(2), 5) {
        Err(EvalError::DuplicateIdentifier(n)) => assert_eq!(n, "x"),
        other => panic!("unexpected {:?}", other),
    }
    assert_eq!(t.variables.len(), 1);
    assert!(matches!(t.lookup(&name("x")), Some(Value::Number(N(1)))));
}

#[test]
fn boolean_binding_refuses_number_and_takes_boolean() {
    let mut t: SymbolTable<N> = SymbolTable::new();
    t.new_boolean(name("flag"), false, 0).unwrap();
    assert!(matches!(t.assign(name("flag"), Value::Number(N(3))), Err(EvalError::TypeMismatch)));
    assert!(matches!(t.lookup(&name("flag")), Some(Value::Boolean(false))));
    assert!(t.assign(name("flag"), Value::Boolean(true)).is_ok());
    assert!(matches!(t.lookup(&name("flag")), Some(Value::Boolean(true))));
}

#[test]
fn assign_keeps_scope_and_type() {
    let mut t: SymbolTable<N> = SymbolTable::new();
    t.declare(name("v"), DataType::Int, Value::Number(N(1)), 3).unwrap();
    t.assign(name("v"), Value::Number(N(9))).unwrap();
    assert_eq!(t.variables[0].2 .0, 3);
    assert_eq!(t.variables[0].1.data_type, DataType::Int);
    assert!(matches!(t.assign(name("v"), Value::String(name("no"))), Err(EvalError::TypeMismatch)));
    assert!(matches!(t.assign(name("v"), Value::Null), Err(EvalError::TypeMismatch)));
    t.evict(3);
    assert!(t.lookup(&name("v")).is_none());
}

#[test]
fn assign_to_missing_name_fails() {
    let mut t: SymbolTable<N> = SymbolTable::new();
    match t.assign(name("nope"), Value::Boolean(true)) {
        Err(EvalError::UnknownIdentifier(n)) => assert_eq!(n, "nope"),
        other => panic!("unexpected {:?}", other),
    }
}

#[test]
fn evict_keeps_order_of_survivors() {
    let mut t: SymbolTable<N> = SymbolTable::new();
    t.new_number(name("a"), N(1), 0).unwrap();
    t.new_number(name("b"), N(2), 1).unwrap();
    t.new_number(name("c"), N(3), 0).unwrap();
    t.new_number(name("d"), N(4), 1).unwrap();
    t.evict(1);
    let names: Vec<&str> = t.variables.iter().map(|e| e.0.as_str()).collect();
    assert_eq!(names, vec!["a", "c"]);
}

#[test]
fn lookup_on_empty_table_is_none() {
    let t: SymbolTable<N> = SymbolTable::new();
    assert!(t.lookup(&name("x")).is_none());
}

#[test]
fn value_kind_predicates() {
    let v: Value<N> = Value::Number(N(1));
    assert!(v.is_number() && !v.is_string() && !v.is_boolean());
    let s: Value<N> = Value::String(name("x"));
    assert!(s.is_string() && !s.is_number());
    let b: Value<N> = Value::Boolean(false);
    assert!(b.is_boolean());
    let z: Value<N> = Value::Null;
    assert!(!z.is_boolean() && !z.is_number() && !z.is_string());
}
