use vstd::prelude::*;
use vstd::string::StringExecFns;

use crate::ast::{BinaryOperator, Expression, Literal, Statement, UnaryOperator};
use crate::environment::{declares, evicted, latest, resolve, Slot, SymbolTable};
use crate::value::{admits, datum, type_admits, DataType, Datum, EvalError, Number, Value};

verus! {

/// What evaluating an expression yields: a value, or, for an identifier that is
/// the direct operand of an operator, the name still to be looked up.
#[derive(Debug)]
pub enum EvalResult<N> {
    Number(N),
    String(String),
    Boolean(bool),
    Identifier(String),
    Null,
}

/// An operand after its own evaluation: a value, or a name to look up.
pub enum Operand<N> {
    Ready(Datum<N>),
    Deferred(String),
}

/// The value that a resolved evaluation result stands for.
pub open spec fn result_datum<N>(r: EvalResult<N>) -> Datum<N> {
    match r {
        EvalResult::Number(n) => Datum::Number(n),
        EvalResult::String(s) => Datum::Text(s@),
        EvalResult::Boolean(b) => Datum::Truth(b),
        _ => Datum::Nothing,
    }
}

/// What a literal evaluates to.
pub open spec fn literal_datum<N>(l: Literal<N>) -> Datum<N> {
    match l {
        Literal::Number(n) => Datum::Number(n),
        Literal::String(s) => Datum::Text(s@),
        Literal::Boolean(b) => Datum::Truth(b),
    }
}

/// An operand once its deferred name, if any, is looked up in `tbl`.
pub open spec fn settled<N>(tbl: Seq<Slot<N>>, o: Operand<N>) -> Result<Datum<N>, EvalError> {
    match o {
        Operand::Ready(x) => Ok(x),
        Operand::Deferred(name) => match resolve(tbl, name@) {
            Some(v) => Ok(v),
            None => Err(EvalError::UnknownIdentifier(name)),
        },
    }
}

/// The result of a binary operator on two settled operands. A number joined to
/// a string is written in its textual form.
pub open spec fn apply_binary<N: Number>(op: BinaryOperator, a: Datum<N>, b: Datum<N>) -> Result<
    Datum<N>,
    EvalError,
> {
    match (a, b) {
        (Datum::Number(x), Datum::Number(y)) => Ok(
            match op {
                BinaryOperator::Add => Datum::Number(x.spec_plus(y)),
                BinaryOperator::Sub => Datum::Number(x.spec_minus(y)),
                BinaryOperator::Mul => Datum::Number(x.spec_times(y)),
                BinaryOperator::Div => Datum::Number(x.spec_divided_by(y)),
                BinaryOperator::Mod => Datum::Number(x.spec_remainder(y)),
                BinaryOperator::Eq => Datum::Truth(x.spec_equals(y)),
                BinaryOperator::Neq => Datum::Truth(!x.spec_equals(y)),
                BinaryOperator::Gt => Datum::Truth(x.spec_greater(y)),
                BinaryOperator::Gte => Datum::Truth(x.spec_greater_or_equal(y)),
                BinaryOperator::Lt => Datum::Truth(x.spec_less(y)),
                BinaryOperator::Lte => Datum::Truth(x.spec_less_or_equal(y)),
            },
        ),
        (Datum::Text(x), Datum::Text(y)) => match op {
            BinaryOperator::Add => Ok(Datum::Text(x + y)),
            BinaryOperator::Eq => Ok(Datum::Truth(x == y)),
            BinaryOperator::Neq => Ok(Datum::Truth(x != y)),
            _ => Err(EvalError::TypeMismatch),
        },
        (Datum::Number(x), Datum::Text(y)) => match op {
            BinaryOperator::Add => Ok(Datum::Text(x.spec_render()@ + y)),
            _ => Err(EvalError::TypeMismatch),
        },
        (Datum::Text(x), Datum::Number(y)) => match op {
            BinaryOperator::Add => Ok(Datum::Text(x + y.spec_render()@)),
            _ => Err(EvalError::TypeMismatch),
        },
        (Datum::Truth(x), Datum::Truth(y)) => match op {
            BinaryOperator::Eq => Ok(Datum::Truth(x == y)),
            BinaryOperator::Neq => Ok(Datum::Truth(x != y)),
            _ => Err(EvalError::TypeMismatch),
        },
        _ => Err(EvalError::TypeMismatch),
    }
}

/// The result of a unary operator on a settled operand.
pub open spec fn apply_unary<N: Number>(op: UnaryOperator, a: Datum<N>) -> Result<Datum<N>, EvalError> {
    match a {
        Datum::Number(n) => Ok(Datum::Number(n.spec_negated())),
        _ => Err(EvalError::TypeMismatch),
    }
}

/// What evaluating `e` as an operand gives, before any lookup of its name.
pub open spec fn operand_of<N: Number>(tbl: Seq<Slot<N>>, e: Expression<N>) -> Result<Operand<N>, EvalError>
    decreases e, 1nat,
{
    match e {
        Expression::Identifier(name) => Ok(Operand::Deferred(name)),
        _ => match value_of(tbl, e) {
            Ok(o) => Ok(Operand::Ready(o)),
            Err(x) => Err(x),
        },
    }
}

/// What evaluating `e` against the bindings `tbl` gives: the left operand is
/// evaluated, then the right one, then the left one's name is looked up, then
/// the right one's, and the first failure is the result.
pub open spec fn value_of<N: Number>(tbl: Seq<Slot<N>>, e: Expression<N>) -> Result<Datum<N>, EvalError>
    decreases e, 0nat,
{
    match e {
        Expression::Literal(l) => Ok(literal_datum(l)),
        Expression::Identifier(name) => match resolve(tbl, name@) {
            Some(v) => Ok(v),
            None => Err(EvalError::UnknownIdentifier(name)),
        },
        Expression::UnaryOp(op, inner) => match operand_of(tbl, *inner) {
            Err(x) => Err(x),
            Ok(a) => match settled(tbl, a) {
                Err(x) => Err(x),
                Ok(sa) => apply_unary(op, sa),
            },
        },
        Expression::BinaryOp(l, op, r) => match operand_of(tbl, *l) {
            Err(x) => Err(x),
            Ok(a) => match operand_of(tbl, *r) {
                Err(x) => Err(x),
                Ok(b) => match settled(tbl, a) {
                    Err(x) => Err(x),
                    Ok(sa) => match settled(tbl, b) {
                        Err(x) => Err(x),
                        Ok(sb) => apply_binary(op, sa, sb),
                    },
                },
            },
        },
    }
}

/// `r` is the specified result `s`: the same error, or a resolved value equal to it.
pub open spec fn agrees<N>(r: Result<EvalResult<N>, EvalError>, s: Result<Datum<N>, EvalError>) -> bool {
    match s {
        Ok(d) => r matches Ok(v) && !(v is Identifier) && result_datum(v) == d,
        Err(x) => r == Err::<EvalResult<N>, EvalError>(x),
    }
}

/// The text of a Boolean.
pub open spec fn truth_text(b: bool) -> Seq<char> {
    if b {
        seq!['t', 'r', 'u', 'e']
    } else {
        seq!['f', 'a', 'l', 's', 'e']
    }
}

/// The line that printing `d` writes: a number as the number type renders it,
/// a string verbatim, a Boolean as `true` or `false`, nothing as `null`.
pub open spec fn line_of<N: Number>(d: Datum<N>) -> Seq<char> {
    match d {
        Datum::Number(n) => n.spec_render()@,
        Datum::Text(t) => t,
        Datum::Truth(b) => truth_text(b),
        Datum::Nothing => seq!['n', 'u', 'l', 'l'],
    }
}

/// The lines of `out`, as characters.
pub open spec fn lines_of(out: Seq<String>) -> Seq<Seq<char>> {
    out.map_values(|s: String| s@)
}

/// What a declaration of type `t` stores for an initializer with value `d`:
/// an `Int` keeps the number truncated toward zero.
pub open spec fn stored<N: Number>(t: DataType, d: Datum<N>) -> Datum<N> {
    match (t, d) {
        (DataType::Int, Datum::Number(n)) => Datum::Number(n.spec_truncated()),
        _ => d,
    }
}

/// What a declaration's initializer evaluates to; none stands for `Null`, which
/// no declared type admits, so a declaration without an initializer is refused.
pub open spec fn initial_value<N: Number>(tbl: Seq<Slot<N>>, init: Option<Expression<N>>) -> Result<
    Datum<N>,
    EvalError,
> {
    match init {
        Some(e) => value_of(tbl, e),
        None => Ok(Datum::Nothing),
    }
}

/// The observable state of a run: the bindings, the lines printed so far and
/// the loop iterations still allowed.
pub struct Run<N> {
    pub tbl: Seq<Slot<N>>,
    pub lines: Seq<Seq<char>>,
    pub steps: u64,
}

/// The state of a run whose table, output and budget are these.
pub open spec fn state<N>(tbl: Seq<Slot<N>>, out: Seq<String>, steps: u64) -> Run<N> {
    Run { tbl, lines: lines_of(out), steps }
}

/// What a statement that opens no block does: print, declare or assign.
pub open spec fn run_simple<N: Number>(s: Statement<N>, scope: u32, st: Run<N>) -> (Run<N>, Result<(), EvalError>) {
    match s {
        Statement::Print(e) => match value_of(st.tbl, e) {
            Err(x) => (st, Err(x)),
            Ok(d) => (Run { tbl: st.tbl, lines: st.lines.push(line_of(d)), steps: st.steps }, Ok(())),
        },
        Statement::VarDecl { name, declared_type, initializer } => match initial_value(st.tbl, initializer) {
            Err(x) => (st, Err(x)),
            Ok(d) => if !admits(declared_type, d) {
                (st, Err(EvalError::TypeMismatch))
            } else if declares(st.tbl, name@) {
                (st, Err(EvalError::DuplicateIdentifier(name)))
            } else {
                (
                    Run {
                        tbl: st.tbl.push((name@, declared_type, stored(declared_type, d), scope)),
                        lines: st.lines,
                        steps: st.steps,
                    },
                    Ok(()),
                )
            },
        },
        Statement::Assign { name, value } => match value_of(st.tbl, value) {
            Err(x) => (st, Err(x)),
            Ok(d) => match latest(st.tbl, name@) {
                None => (st, Err(EvalError::UnknownIdentifier(name))),
                Some(i) => if !admits(st.tbl[i].1, d) {
                    (st, Err(EvalError::TypeMismatch))
                } else {
                    (
                        Run {
                            tbl: st.tbl.update(i, (st.tbl[i].0, st.tbl[i].1, d, st.tbl[i].3)),
                            lines: st.lines,
                            steps: st.steps,
                        },
                        Ok(()),
                    )
                },
            },
        },
        _ => (st, Ok(())),
    }
}

/// Running `p` as the block at nesting level `scope`: its statements in order,
/// up to the first failure, and then the eviction of the bindings it declared.
pub open spec fn run_block<N: Number>(p: Seq<Statement<N>>, scope: u32, st: Run<N>) -> (Run<N>, Result<(), EvalError>)
    decreases u32::MAX - scope, st.steps, 3nat, 0int,
{
    let x = run_stmts(p, 0, scope, st);
    (Run { tbl: evicted(x.0.tbl, scope), lines: x.0.lines, steps: x.0.steps }, x.1)
}

/// Running the statements of `p` from position `i` on, up to the first failure.
pub open spec fn run_stmts<N: Number>(p: Seq<Statement<N>>, i: int, scope: u32, st: Run<N>) -> (Run<N>, Result<(), EvalError>)
    decreases u32::MAX - scope, st.steps, 2nat, p.len() - i,
{
    if i < 0 || i >= p.len() {
        (st, Ok(()))
    } else {
        let x = run_stmt(p[i], scope, st);
        if x.1 is Err || x.0.steps > st.steps {
            x
        } else {
            run_stmts(p, i + 1, scope, x.0)
        }
    }
}

/// Running one statement at nesting level `scope`. A condition must be a Boolean;
/// the branch that it picks runs as a block one level deeper.
pub open spec fn run_stmt<N: Number>(s: Statement<N>, scope: u32, st: Run<N>) -> (Run<N>, Result<(), EvalError>)
    decreases u32::MAX - scope, st.steps, 1nat, 0int,
{
    match s {
        Statement::If { condition, then_body, else_body } => match value_of(st.tbl, condition) {
            Err(x) => (st, Err(x)),
            Ok(Datum::Truth(b)) => if scope == u32::MAX {
                (st, Err(EvalError::InvalidStatement))
            } else if b {
                run_block(then_body@, (scope + 1) as u32, st)
            } else {
                match else_body {
                    Some(e) => run_block(e@, (scope + 1) as u32, st),
                    None => (st, Ok(())),
                }
            },
            Ok(_) => (st, Err(EvalError::InvalidExpression)),
        },
        Statement::While { condition, body } => run_loop(condition, body@, scope, st),
        _ => run_simple(s, scope, st),
    }
}

/// Running a loop at nesting level `scope`: while the condition is true, one
/// iteration of the budget is spent and the body runs one level deeper.
pub open spec fn run_loop<N: Number>(c: Expression<N>, body: Seq<Statement<N>>, scope: u32, st: Run<N>) -> (Run<N>, Result<(), EvalError>)
    decreases u32::MAX - scope, st.steps, 0nat, 0int,
{
    match value_of(st.tbl, c) {
        Err(x) => (st, Err(x)),
        Ok(Datum::Truth(b)) => if !b {
            (st, Ok(()))
        } else if st.steps == 0 {
            (st, Err(EvalError::OutOfSteps))
        } else if scope == u32::MAX {
            (st, Err(EvalError::InvalidStatement))
        } else {
            let x = run_block(
                body,
                (scope + 1) as u32,
                Run { tbl: st.tbl, lines: st.lines, steps: (st.steps - 1) as u64 },
            );
            if x.1 is Err || x.0.steps >= st.steps {
                x
            } else {
                run_loop(c, body, scope, x.0)
            }
        },
        Ok(_) => (st, Err(EvalError::InvalidExpression)),
    }
}

/// Every block of `program`, at any depth, is at most `room` levels deeper than `program`.
pub open spec fn nested_within<N>(program: Seq<Statement<N>>, room: nat) -> bool
    decreases room, 1nat,
{
    forall|i: int| 0 <= i < program.len() ==> statement_within(#[trigger] program[i], room)
}

/// Every block of `s`, at any depth, is at most `room` levels deeper than `s`.
pub open spec fn statement_within<N>(s: Statement<N>, room: nat) -> bool
    decreases room, 0nat,
{
    match s {
        Statement::If { then_body, else_body, .. } => room > 0 && nested_within(
            then_body@,
            (room - 1) as nat,
        ) && (else_body matches Some(b) ==> nested_within(b@, (room - 1) as nat)),
        Statement::While { body, .. } => room > 0 && nested_within(body@, (room - 1) as nat),
        _ => true,
    }
}

/// The bindings of `tbl` that carry tag `scope`: none.
pub open spec fn none_tagged<N>(tbl: Seq<Slot<N>>, scope: u32) -> bool {
    forall|i: int| 0 <= i < tbl.len() ==> #[trigger] tbl[i].3 != scope
}

/// Evicting a scope that declared nothing leaves the table as it is.
pub proof fn lemma_evicted_none<N>(tbl: Seq<Slot<N>>, s: u32)
    requires
        none_tagged(tbl, s),
    ensures
        evicted(tbl, s) == tbl,
    decreases tbl.len(),
{
    if tbl.len() > 0 {
        let p = tbl.drop_last();
        assert forall|i: int| 0 <= i < p.len() implies #[trigger] p[i].3 != s by {
            assert(p[i] == tbl[i]);
        }
        lemma_evicted_none(p, s);
        assert(tbl.last().3 != s);
        assert(p.push(tbl.last()) == tbl);
    }
}

/// Printing an expression is read-only and repeatable: run as a block in a scope
/// that declared nothing, it leaves the bindings as they are and writes the same
/// line each time it is run.
pub proof fn law_print_repeats<N: Number>(
    tbl: Seq<Slot<N>>,
    e: Expression<N>,
    lines: Seq<Seq<char>>,
    steps: u64,
    scope: u32,
)
    requires
        none_tagged(tbl, scope),
        value_of(tbl, e) is Ok,
    ensures
        ({
            let p = seq![Statement::Print(e)];
            let line = line_of(value_of(tbl, e)->Ok_0);
            let first = run_block(p, scope, Run { tbl, lines, steps });
            let second = run_block(p, scope, first.0);
            &&& first.1 is Ok && second.1 is Ok
            &&& first.0.tbl == tbl && second.0.tbl == tbl
            &&& first.0.lines == lines.push(line)
            &&& second.0.lines == lines.push(line).push(line)
        }),
{
    let p = seq![Statement::Print(e)];
    let st = Run { tbl, lines, steps };
    lemma_evicted_none(tbl, scope);
    reveal_with_fuel(run_stmts, 2);
    let first = run_block(p, scope, st);
    assert(run_stmt(p[0], scope, st) == run_simple(p[0], scope, st));
    assert(first.0.tbl == tbl);
    let second = run_block(p, scope, first.0);
    assert(run_stmt(p[0], scope, first.0) == run_simple(p[0], scope, first.0));
}

impl<N: Number> SymbolTable<N> {
    /// Evaluates `expression`; a bare identifier is looked up at once.
    pub fn eval_expression(&self, expression: &Expression<N>) -> (r: Result<EvalResult<N>, EvalError>)
        ensures
            agrees(r, value_of(self@, *expression)),
        decreases *expression, 0nat,
    {
        match expression {
            Expression::Literal(l) => match l {
                Literal::Number(n) => Ok(EvalResult::Number(*n)),
                Literal::String(s) => Ok(EvalResult::String(s.clone())),
                Literal::Boolean(b) => Ok(EvalResult::Boolean(*b)),
            },
            Expression::Identifier(name) => match self.lookup(name) {
                Some(v) => Ok(result_from(v.duplicate())),
                None => Err(EvalError::UnknownIdentifier(name.clone())),
            },
            Expression::UnaryOp(op, inner) => {
                let a = match self.operand(inner) {
                    Ok(a) => a,
                    Err(x) => return Err(x),
                };
                let ghost oa = operand_of(self@, **inner)->Ok_0;
                let va = match self.settle(a, Ghost(oa)) {
                    Ok(v) => v,
                    Err(x) => return Err(x),
                };
                negate(*op, va)
            },
            Expression::BinaryOp(l, op, r) => {
                let a = match self.operand(l) {
                    Ok(a) => a,
                    Err(x) => return Err(x),
                };
                let b = match self.operand(r) {
                    Ok(b) => b,
                    Err(x) => return Err(x),
                };
                let ghost oa = operand_of(self@, **l)->Ok_0;
                let ghost ob = operand_of(self@, **r)->Ok_0;
                let va = match self.settle(a, Ghost(oa)) {
                    Ok(v) => v,
                    Err(x) => return Err(x),
                };
                let vb = match self.settle(b, Ghost(ob)) {
                    Ok(v) => v,
                    Err(x) => return Err(x),
                };
                binary(*op, va, vb)
            },
        }
    }

    /// Evaluates an operand of an operator: an identifier is handed on unresolved.
    fn operand(&self, e: &Expression<N>) -> (r: Result<EvalResult<N>, EvalError>)
        ensures
            match operand_of(self@, *e) {
                Ok(Operand::Deferred(name)) => r == Ok::<EvalResult<N>, EvalError>(
                    EvalResult::Identifier(name),
                ),
                Ok(Operand::Ready(d)) => agrees(r, Ok(d)),
                Err(x) => r == Err::<EvalResult<N>, EvalError>(x),
            },
        decreases *e, 1nat,
    {
        match e {
            Expression::Identifier(name) => Ok(EvalResult::Identifier(name.clone())),
            _ => self.eval_expression(e),
        }
    }

    /// Resolves an operand that may still be a name.
    fn settle(&self, r: EvalResult<N>, Ghost(o): Ghost<Operand<N>>) -> (v: Result<Value<N>, EvalError>)
        requires
            match o {
                Operand::Deferred(name) => r == EvalResult::<N>::Identifier(name),
                Operand::Ready(x) => !(r is Identifier) && result_datum(r) == x,
            },
        ensures
            match settled(self@, o) {
                Ok(x) => v matches Ok(val) && datum(val) == x,
                Err(x) => v == Err::<Value<N>, EvalError>(x),
            },
    {
        match r {
            EvalResult::Identifier(name) => match self.lookup(&name) {
                Some(v) => Ok(v.duplicate()),
                None => Err(EvalError::UnknownIdentifier(name)),
            },
            EvalResult::Number(n) => Ok(Value::Number(n)),
            EvalResult::String(s) => Ok(Value::String(s)),
            EvalResult::Boolean(b) => Ok(Value::Boolean(b)),
            EvalResult::Null => Ok(Value::Null),
        }
    }

    /// Evaluates the condition of a block statement, which must be a Boolean.
    fn condition(&self, cond: &Expression<N>) -> (r: Result<bool, EvalError>)
        ensures
            match value_of(self@, *cond) {
                Err(x) => r == Err::<bool, EvalError>(x),
                Ok(Datum::Truth(b)) => r == Ok::<bool, EvalError>(b),
                Ok(_) => r == Err::<bool, EvalError>(EvalError::InvalidExpression),
            },
    {
        match self.eval_expression(cond) {
            Err(x) => Err(x),
            Ok(EvalResult::Boolean(b)) => Ok(b),
            Ok(_) => Err(EvalError::InvalidExpression),
        }
    }

    /// Executes `program` as the block at nesting level `scope`, appending what it
    /// prints to `out`; each iteration of a loop spends one of `steps`. Whether the
    /// block completes or fails, the bindings it declared are evicted before it
    /// returns. The table, the output, the budget and the result are those of
    /// `run_block`.
    pub fn eval(
        &mut self,
        program: &Vec<Statement<N>>,
        scope: u32,
        steps: &mut u64,
        out: &mut Vec<String>,
    ) -> (r: Result<(), EvalError>)
        requires
            nested_within(program@, (u32::MAX - scope) as nat),
        ensures
            ({
                let x = run_block(program@, scope, state(old(self)@, old(out)@, *old(steps)));
                &&& final(self)@ == x.0.tbl
                &&& lines_of(final(out)@) == x.0.lines
                &&& *final(steps) == x.0.steps
                &&& r == x.1
            }),
            *final(steps) <= *old(steps),
        decreases u32::MAX - scope, 1nat,
    {
        let ghost target = run_stmts(program@, 0, scope, state(self@, out@, *steps));
        let mut i: usize = 0;
        while i < program.len()
            invariant
                i <= program@.len(),
                nested_within(program@, (u32::MAX - scope) as nat),
                run_stmts(program@, i as int, scope, state(self@, out@, *steps)) == target,
                target == run_stmts(program@, 0, scope, state(old(self)@, old(out)@, *old(steps))),
                *steps <= *old(steps),
            decreases program@.len() - i,
        {
            assert(statement_within(program@[i as int], (u32::MAX - scope) as nat));
            let r = self.exec_statement(&program[i], scope, steps, out);
            if let Err(x) = r {
                self.evict(scope);
                return Err(x);
            }
            i = i + 1;
        }
        self.evict(scope);
        Ok(())
    }

    /// Executes one statement of the block at nesting level `scope`, as `run_stmt` says.
    pub fn exec_statement(
        &mut self,
        statement: &Statement<N>,
        scope: u32,
        steps: &mut u64,
        out: &mut Vec<String>,
    ) -> (r: Result<(), EvalError>)
        requires
            statement_within(*statement, (u32::MAX - scope) as nat),
        ensures
            ({
                let x = run_stmt(*statement, scope, state(old(self)@, old(out)@, *old(steps)));
                &&& final(self)@ == x.0.tbl
                &&& lines_of(final(out)@) == x.0.lines
                &&& *final(steps) == x.0.steps
                &&& r == x.1
            }),
            *final(steps) <= *old(steps),
            (*statement matches Statement::While { condition, .. } && condition == Expression::<
                N,
            >::Literal(Literal::Boolean(true))) ==> r is Err,
        decreases u32::MAX - scope, 0nat,
    {
        match statement {
            Statement::Print(e) => {
                let v = match self.eval_expression(e) {
                    Ok(v) => v,
                    Err(x) => return Err(x),
                };
                let line = text_of(value_from(v));
                let ghost before = out@;
                out.push(line);
                assert(lines_of(out@) =~= lines_of(before).push(line@));
                Ok(())
            },
            Statement::VarDecl { name, declared_type, initializer } => {
                let v = match initializer {
                    Some(e) => match self.eval_expression(e) {
                        Ok(v) => value_from(v),
                        Err(x) => return Err(x),
                    },
                    None => Value::Null,
                };
                let stored = match declared_type {
                    DataType::Int => match v {
                        Value::Number(n) => Value::Number(n.truncated()),
                        _ => return Err(EvalError::TypeMismatch),
                    },
                    _ => {
                        if !type_admits(*declared_type, &v) {
                            return Err(EvalError::TypeMismatch);
                        }
                        v
                    },
                };
                self.declare(name.clone(), *declared_type, stored, scope)
            },
            Statement::Assign { name, value } => {
                let v = match self.eval_expression(value) {
                    Ok(v) => value_from(v),
                    Err(x) => return Err(x),
                };
                self.assign(name.clone(), v)
            },
            Statement::If { condition, then_body, else_body } => {
                let c = match self.condition(condition) {
                    Ok(c) => c,
                    Err(x) => return Err(x),
                };
                if c {
                    self.eval(then_body, scope + 1, steps, out)
                } else {
                    match else_body {
                        Some(b) => self.eval(b, scope + 1, steps, out),
                        None => Ok(()),
                    }
                }
            },
            Statement::While { condition, body } => {
                let ghost target = run_loop(*condition, body@, scope, state(self@, out@, *steps));
                loop
                    invariant
                        statement_within(*statement, (u32::MAX - scope) as nat),
                        *statement matches Statement::While { condition: c, body: b } && c
                            == *condition && b == *body,
                        run_loop(*condition, body@, scope, state(self@, out@, *steps)) == target,
                        target == run_stmt(*statement, scope, state(old(self)@, old(out)@, *old(steps))),
                        *steps <= *old(steps),
                    decreases *steps,
                {
                    let c = match self.condition(condition) {
                        Ok(c) => c,
                        Err(x) => return Err(x),
                    };
                    if !c {
                        return Ok(());
                    }
                    if *steps == 0 {
                        return Err(EvalError::OutOfSteps);
                    }
                    *steps = *steps - 1;
                    let r = self.eval(body, scope + 1, steps, out);
                    if let Err(x) = r {
                        return Err(x);
                    }
                }
            },
        }
    }
}

/// The evaluation result that stands for `v`.
fn result_from<N: Number>(v: Value<N>) -> (r: EvalResult<N>)
    ensures
        !(r is Identifier) && result_datum(r) == datum(v),
{
    match v {
        Value::Number(n) => EvalResult::Number(n),
        Value::String(s) => EvalResult::String(s),
        Value::Boolean(b) => EvalResult::Boolean(b),
        Value::Null => EvalResult::Null,
    }
}

/// The value that a resolved evaluation result stands for.
fn value_from<N: Number>(r: EvalResult<N>) -> (v: Value<N>)
    requires
        !(r is Identifier),
    ensures
        datum(v) == result_datum(r),
{
    match r {
        EvalResult::Number(n) => Value::Number(n),
        EvalResult::String(s) => Value::String(s),
        EvalResult::Boolean(b) => Value::Boolean(b),
        _ => Value::Null,
    }
}

/// The line that a Print of `v` writes.
fn text_of<N: Number>(v: Value<N>) -> (line: String)
    ensures
        line@ == line_of(datum(v)),
{
    match v {
        Value::Number(n) => n.render(),
        Value::String(s) => s,
        Value::Boolean(b) => {
            if b {
                proof {
                    reveal_strlit("true");
                }
                let t = String::from_str("true");
                assert(t@ =~= truth_text(true));
                t
            } else {
                proof {
                    reveal_strlit("false");
                }
                let t = String::from_str("false");
                assert(t@ =~= truth_text(false));
                t
            }
        },
        Value::Null => {
            proof {
                reveal_strlit("null");
            }
            let t = String::from_str("null");
            assert(t@ =~= seq!['n', 'u', 'l', 'l']);
            t
        },
    }
}

/// Applies the unary operator `op` to a settled operand.
fn negate<N: Number>(op: UnaryOperator, a: Value<N>) -> (r: Result<EvalResult<N>, EvalError>)
    ensures
        agrees(r, apply_unary(op, datum(a))),
{
    match a {
        Value::Number(n) => Ok(EvalResult::Number(n.negated())),
        _ => Err(EvalError::TypeMismatch),
    }
}

/// Applies the binary operator `op` to two settled operands.
fn binary<N: Number>(
    op: BinaryOperator,
    a: Value<N>,
    b: Value<N>,
) -> (r: Result<EvalResult<N>, EvalError>)
    ensures
        agrees(r, apply_binary(op, datum(a), datum(b))),
        !(r matches Err(EvalError::OutOfSteps)),
        !(r matches Err(EvalError::InvalidStatement)),
{
    match op {
        BinaryOperator::Add => match (a, b) {
            (Value::Number(x), Value::Number(y)) => Ok(EvalResult::Number(x.plus(&y))),
            (Value::String(x), Value::String(y)) => Ok(EvalResult::String(x.concat(y.as_str()))),
            (Value::Number(x), Value::String(y)) => Ok(
                EvalResult::String(x.render().concat(y.as_str())),
            ),
            (Value::String(x), Value::Number(y)) => Ok(
                EvalResult::String(x.concat(y.render().as_str())),
            ),
            _ => Err(EvalError::TypeMismatch),
        },
        BinaryOperator::Sub | BinaryOperator::Mul | BinaryOperator::Div | BinaryOperator::Mod => {
            match (a, b) {
                (Value::Number(x), Value::Number(y)) => Ok(
                    EvalResult::Number(
                        match op {
                            BinaryOperator::Sub => x.minus(&y),
                            BinaryOperator::Mul => x.times(&y),
                            BinaryOperator::Div => x.divided_by(&y),
                            _ => x.remainder(&y),
                        },
                    ),
                ),
                _ => Err(EvalError::TypeMismatch),
            }
        },
        BinaryOperator::Gt | BinaryOperator::Gte | BinaryOperator::Lt | BinaryOperator::Lte => {
            match (a, b) {
                (Value::Number(x), Value::Number(y)) => Ok(
                    EvalResult::Boolean(
                        match op {
                            BinaryOperator::Gt => x.greater(&y),
                            BinaryOperator::Gte => x.greater_or_equal(&y),
                            BinaryOperator::Lt => x.less(&y),
                            _ => x.less_or_equal(&y),
                        },
                    ),
                ),
                _ => Err(EvalError::TypeMismatch),
            }
        },
        BinaryOperator::Eq | BinaryOperator::Neq => {
            let same = match op {
                BinaryOperator::Eq => true,
                _ => false,
            };
            match (a, b) {
                (Value::Number(x), Value::Number(y)) => Ok(EvalResult::Boolean(x.equals(&y) == same)),
                (Value::String(x), Value::String(y)) => Ok(EvalResult::Boolean((x == y) == same)),
                (Value::Boolean(x), Value::Boolean(y)) => Ok(EvalResult::Boolean((x == y) == same)),
                _ => Err(EvalError::TypeMismatch),
            }
        },
    }
}

/// Whether every block of `program`, at any depth, is at most `room` levels deeper.
pub fn fits_within<N: Number>(program: &Vec<Statement<N>>, room: u32) -> (r: bool)
    ensures
        r == nested_within(program@, room as nat),
    decreases room, 1nat,
{
    let mut i: usize = 0;
    while i < program.len()
        invariant
            i <= program@.len(),
            forall|j: int| 0 <= j < i ==> statement_within(#[trigger] program@[j], room as nat),
        decreases program@.len() - i,
    {
        if !statement_fits(&program[i], room) {
            return false;
        }
        i = i + 1;
    }
    true
}

/// Whether every block of `s`, at any depth, is at most `room` levels deeper.
fn statement_fits<N: Number>(s: &Statement<N>, room: u32) -> (r: bool)
    ensures
        r == statement_within(*s, room as nat),
    decreases room, 0nat,
{
    match s {
        Statement::If { then_body, else_body, .. } => {
            if room == 0 {
                return false;
            }
            fits_within(then_body, room - 1) && match else_body {
                Some(b) => fits_within(b, room - 1),
                None => true,
            }
        },
        Statement::While { body, .. } => room > 0 && fits_within(body, room - 1),
        _ => true,
    }
}

/// Runs `program` against a fresh, empty table at scope 0, with a budget of
/// `steps` loop iterations, and returns how it ended and the lines it printed,
/// as `run_block` says. A program whose blocks nest deeper than scope tags can
/// count is refused as an invalid statement before anything runs.
pub fn run_program<N: Number>(program: &Vec<Statement<N>>, steps: u64) -> (r: (
    Result<(), EvalError>,
    Vec<String>,
))
    ensures
        !nested_within(program@, u32::MAX as nat) ==> r.0 == Err::<(), EvalError>(
            EvalError::InvalidStatement,
        ) && r.1@.len() == 0,
        nested_within(program@, u32::MAX as nat) ==> ({
            let x = run_block(
                program@,
                0,
                Run { tbl: Seq::empty(), lines: Seq::empty(), steps },
            );
            r.0 == x.1 && lines_of(r.1@) == x.0.lines
        }),
{
    let mut out: Vec<String> = Vec::new();
    if !fits_within(program, u32::MAX) {
        return (Err(EvalError::InvalidStatement), out);
    }
    let mut table: SymbolTable<N> = SymbolTable::new();
    let mut budget = steps;
    assert(lines_of(out@) =~= Seq::<Seq<char>>::empty());
    let r = table.eval(program, 0, &mut budget, &mut out);
    (r, out)
}

} // verus!
