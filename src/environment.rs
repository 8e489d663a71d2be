use vstd::prelude::*;

use crate::value::{admits, datum, type_admits, DataType, Datum, EvalError, Number, Scope, Value};

verus! {

/// A declared variable: its type, fixed at declaration, and its current value.
#[derive(Debug)]
pub struct Variable<N> {
    pub data_type: DataType,
    pub value: Value<N>,
}

/// One binding of the table: the name, the variable and the scope that declared it.
pub type Entry<N> = (String, Variable<N>, Scope);

/// A binding as the contracts see it: name, declared type, value and scope tag.
pub type Slot<N> = (Seq<char>, DataType, Datum<N>, u32);

/// How a binding is seen.
pub open spec fn slot_of<N>(e: Entry<N>) -> Slot<N> {
    (e.0@, e.1.data_type, datum(e.1.value), e.2.0)
}

/// Whether some binding of `tbl` carries `name`.
pub open spec fn declares<N>(tbl: Seq<Slot<N>>, name: Seq<char>) -> bool {
    exists|i: int| 0 <= i < tbl.len() && #[trigger] tbl[i].0 == name
}

/// The position of the most recently appended binding of `tbl` named `name`.
pub open spec fn latest<N>(tbl: Seq<Slot<N>>, name: Seq<char>) -> Option<int>
    decreases tbl.len(),
{
    if tbl.len() == 0 {
        None
    } else if tbl.last().0 == name {
        Some(tbl.len() - 1)
    } else {
        latest(tbl.drop_last(), name)
    }
}

/// The value that `name` resolves to in `tbl`.
pub open spec fn resolve<N>(tbl: Seq<Slot<N>>, name: Seq<char>) -> Option<Datum<N>> {
    match latest(tbl, name) {
        Some(i) => Some(tbl[i].2),
        None => None,
    }
}

/// `tbl` without the bindings that scope `s` declared, in their order.
pub open spec fn evicted<N>(tbl: Seq<Slot<N>>, s: u32) -> Seq<Slot<N>>
    decreases tbl.len(),
{
    if tbl.len() == 0 {
        tbl
    } else if tbl.last().3 == s {
        evicted(tbl.drop_last(), s)
    } else {
        evicted(tbl.drop_last(), s).push(tbl.last())
    }
}

/// `latest` names a binding with that name, and no later binding has it.
pub proof fn lemma_latest<N>(tbl: Seq<Slot<N>>, name: Seq<char>)
    ensures
        match latest(tbl, name) {
            Some(i) => 0 <= i < tbl.len() && tbl[i].0 == name && forall|j: int|
                i < j < tbl.len() ==> tbl[j].0 != name,
            None => !declares(tbl, name),
        },
    decreases tbl.len(),
{
    if tbl.len() > 0 {
        let prefix = tbl.drop_last();
        lemma_latest(prefix, name);
        if tbl.last().0 != name {
            match latest(prefix, name) {
                Some(i) => {
                    assert(prefix[i] == tbl[i]);
                    assert forall|j: int| i < j < tbl.len() implies tbl[j].0 != name by {
                        if j < tbl.len() - 1 {
                            assert(prefix[j] == tbl[j]);
                        }
                    }
                },
                None => {
                    assert forall|j: int| 0 <= j < tbl.len() implies tbl[j].0 != name by {
                        if j < tbl.len() - 1 {
                            assert(prefix[j] == tbl[j]);
                        }
                    }
                },
            }
        }
    }
}

/// An append-ordered table of bindings.
#[derive(Debug)]
pub struct SymbolTable<N> {
    pub variables: Vec<Entry<N>>,
}

impl<N> View for SymbolTable<N> {
    type V = Seq<Slot<N>>;

    open spec fn view(&self) -> Seq<Slot<N>> {
        self.variables@.map_values(|e: Entry<N>| slot_of(e))
    }
}

impl<N: Number> SymbolTable<N> {
    /// An empty table.
    pub fn new() -> (r: SymbolTable<N>)
        ensures
            r@ == Seq::<Slot<N>>::empty(),
    {
        let r = SymbolTable { variables: Vec::new() };
        assert(r@ =~= Seq::<Slot<N>>::empty());
        r
    }

    /// Whether some binding carries `name`.
    fn contains(&self, name: &String) -> (r: bool)
        ensures
            r == declares(self@, name@),
    {
        let mut i: usize = 0;
        while i < self.variables.len()
            invariant
                i <= self.variables@.len(),
                forall|j: int| 0 <= j < i ==> self@[j].0 != name@,
            decreases self.variables@.len() - i,
        {
            if self.variables[i].0 == *name {
                assert(self@[i as int].0 == name@);
                return true;
            }
            i = i + 1;
        }
        false
    }

    /// The position of the most recent binding of `name`.
    fn position(&self, name: &String) -> (r: Option<usize>)
        ensures
            r matches Some(i) ==> latest(self@, name@) == Some(i as int) && i < self@.len(),
            r is None ==> latest(self@, name@) is None,
    {
        proof {
            lemma_latest(self@, name@);
        }
        let mut k: usize = self.variables.len();
        assert(self@.subrange(0, k as int) == self@);
        while k > 0
            invariant
                k <= self@.len(),
                self@.len() == self.variables@.len(),
                latest(self@, name@) == latest(self@.subrange(0, k as int), name@),
            decreases k,
        {
            let ghost prefix = self@.subrange(0, k as int);
            assert(prefix.drop_last() == self@.subrange(0, k - 1));
            if self.variables[k - 1].0 == *name {
                return Some(k - 1);
            }
            k = k - 1;
        }
        None
    }

    /// Appends a binding of `name`, unless some binding, in any scope, already carries it.
    pub fn declare(&mut self, name: String, data_type: DataType, value: Value<N>, scope: u32) -> (r:
        Result<(), EvalError>)
        ensures
            declares(old(self)@, name@) ==> r == Err::<(), EvalError>(
                EvalError::DuplicateIdentifier(name),
            ) && final(self)@ == old(self)@,
            !declares(old(self)@, name@) ==> r == Ok::<(), EvalError>(()) && final(self)@ == old(self)@.push(
                (name@, data_type, datum(value), scope),
            ),
    {
        if self.contains(&name) {
            return Err(EvalError::DuplicateIdentifier(name));
        }
        let ghost before = self.variables@;
        let ghost slot = (name@, data_type, datum(value), scope);
        self.variables.push((name, Variable { data_type, value }, Scope(scope)));
        assert(self@ =~= before.map_values(|e: Entry<N>| slot_of(e)).push(slot));
        Ok(())
    }

    /// Declares `identifier` as a Boolean holding `value`.
    pub fn new_boolean(&mut self, identifier: String, value: bool, scope: u32) -> (r: Result<
        (),
        EvalError,
    >)
        ensures
            declares(old(self)@, identifier@) ==> r == Err::<(), EvalError>(
                EvalError::DuplicateIdentifier(identifier),
            ) && final(self)@ == old(self)@,
            !declares(old(self)@, identifier@) ==> r == Ok::<(), EvalError>(()) && final(self)@ == old(self)@.push(
                (identifier@, DataType::Boolean, Datum::Truth(value), scope),
            ),
    {
        self.declare(identifier, DataType::Boolean, Value::Boolean(value), scope)
    }

    /// Declares `identifier` as a Float holding `value`.
    pub fn new_number(&mut self, identifier: String, value: N, scope: u32) -> (r: Result<
        (),
        EvalError,
    >)
        ensures
            declares(old(self)@, identifier@) ==> r == Err::<(), EvalError>(
                EvalError::DuplicateIdentifier(identifier),
            ) && final(self)@ == old(self)@,
            !declares(old(self)@, identifier@) ==> r == Ok::<(), EvalError>(()) && final(self)@ == old(self)@.push(
                (identifier@, DataType::Float, Datum::Number(value), scope),
            ),
    {
        self.declare(identifier, DataType::Float, Value::Number(value), scope)
    }

    /// Declares `identifier` as a String holding `value`.
    pub fn new_string(&mut self, identifier: String, value: String, scope: u32) -> (r: Result<
        (),
        EvalError,
    >)
        ensures
            declares(old(self)@, identifier@) ==> r == Err::<(), EvalError>(
                EvalError::DuplicateIdentifier(identifier),
            ) && final(self)@ == old(self)@,
            !declares(old(self)@, identifier@) ==> r == Ok::<(), EvalError>(()) && final(self)@ == old(self)@.push(
                (identifier@, DataType::String, Datum::Text(value@), scope),
            ),
    {
        self.declare(identifier, DataType::String, Value::String(value), scope)
    }

    /// The value of the most recent binding of `name`.
    pub fn lookup(&self, name: &String) -> (r: Option<&Value<N>>)
        ensures
            r matches Some(v) ==> resolve(self@, name@) == Some(datum(*v)),
            r is None ==> resolve(self@, name@) is None,
    {
        match self.position(name) {
            Some(i) => Some(&self.variables[i].1.value),
            None => None,
        }
    }

    /// Overwrites the value of the most recent binding of `name`, which keeps its
    /// type and scope; the value's kind must be the one that the type admits.
    pub fn assign(&mut self, name: String, value: Value<N>) -> (r: Result<(), EvalError>)
        ensures
            latest(old(self)@, name@) is None ==> r == Err::<(), EvalError>(
                EvalError::UnknownIdentifier(name),
            ) && final(self)@ == old(self)@,
            latest(old(self)@, name@) matches Some(i) ==> {
                let e = old(self)@[i];
                &&& admits(e.1, datum(value)) ==> r == Ok::<(), EvalError>(()) && final(self)@ == old(self)@.update(
                    i,
                    (e.0, e.1, datum(value), e.3),
                )
                &&& !admits(e.1, datum(value)) ==> r == Err::<(), EvalError>(
                    EvalError::TypeMismatch,
                ) && final(self)@ == old(self)@
            },
    {
        match self.position(&name) {
            None => Err(EvalError::UnknownIdentifier(name)),
            Some(i) => {
                let data_type = self.variables[i].1.data_type;
                if !type_admits(data_type, &value) {
                    return Err(EvalError::TypeMismatch);
                }
                let tag = self.variables[i].2;
                let key = self.variables[i].0.clone();
                let ghost before = self@;
                let ghost slot = (key@, data_type, datum(value), tag.0);
                self.variables.set(i, (key, Variable { data_type, value }, tag));
                assert(self@ =~= before.update(i as int, slot));
                Ok(())
            },
        }
    }

    /// Removes every binding that scope `scope` declared, keeping the order of the rest.
    pub fn evict(&mut self, scope: u32)
        ensures
            final(self)@ == evicted(old(self)@, scope),
    {
        let mut kept: Vec<Entry<N>> = Vec::new();
        let mut rest: Vec<Entry<N>> = Vec::new();
        std::mem::swap(&mut rest, &mut self.variables);
        let ghost all = rest@;
        let ghost seen = all.map_values(|e: Entry<N>| slot_of(e));
        let n = rest.len();
        let mut i: usize = 0;
        assert(kept@.map_values(|e: Entry<N>| slot_of(e)) =~= evicted(seen.subrange(0, 0), scope));
        while i < n
            invariant
                n == all.len(),
                seen == all.map_values(|e: Entry<N>| slot_of(e)),
                i <= n,
                rest@ == all.subrange(i as int, n as int),
                kept@.map_values(|e: Entry<N>| slot_of(e)) == evicted(seen.subrange(0, i as int), scope),
            decreases n - i,
        {
            let ghost before = kept@;
            let e = rest.remove(0);
            assert(e == all[i as int]);
            assert(seen.subrange(0, i + 1).drop_last() =~= seen.subrange(0, i as int));
            assert(seen.subrange(0, i + 1).last() == slot_of(e));
            assert(rest@ =~= all.subrange(i + 1, n as int));
            if e.2.0 != scope {
                kept.push(e);
                assert(kept@.map_values(|e: Entry<N>| slot_of(e)) =~= before.map_values(
                    |e: Entry<N>| slot_of(e),
                ).push(slot_of(e)));
            }
            i = i + 1;
        }
        assert(seen.subrange(0, n as int) =~= seen);
        self.variables = kept;
    }
}

/// Every binding that survives an eviction of scope `s` was in the table and
/// was not declared by `s`.
pub proof fn lemma_evicted_subset<N>(tbl: Seq<Slot<N>>, s: u32, k: int)
    requires
        0 <= k < evicted(tbl, s).len(),
    ensures
        evicted(tbl, s)[k].3 != s,
        exists|j: int| 0 <= j < tbl.len() && tbl[j] == evicted(tbl, s)[k],
    decreases tbl.len(),
{
    let prefix = tbl.drop_last();
    if tbl.last().3 == s {
        lemma_evicted_subset(prefix, s, k);
        let j = choose|j: int| 0 <= j < prefix.len() && prefix[j] == evicted(prefix, s)[k];
        assert(tbl[j] == prefix[j]);
    } else if k < evicted(prefix, s).len() {
        lemma_evicted_subset(prefix, s, k);
        let j = choose|j: int| 0 <= j < prefix.len() && prefix[j] == evicted(prefix, s)[k];
        assert(tbl[j] == prefix[j]);
    } else {
        assert(tbl[tbl.len() - 1] == evicted(tbl, s)[k]);
    }
}

/// A declared name looks up to the value it was declared with, and no longer
/// resolves once the scope that declared it is evicted.
pub proof fn law_declare_lookup_evict<N>(
    tbl: Seq<Slot<N>>,
    name: Seq<char>,
    data_type: DataType,
    value: Datum<N>,
    s: u32,
)
    requires
        !declares(tbl, name),
    ensures
        resolve(tbl.push((name, data_type, value, s)), name) == Some(value),
        resolve(evicted(tbl.push((name, data_type, value, s)), s), name) is None,
{
    let after = tbl.push((name, data_type, value, s));
    assert(after.drop_last() == tbl);
    let left = evicted(after, s);
    lemma_latest(left, name);
    if declares(left, name) {
        let k = choose|k: int| 0 <= k < left.len() && #[trigger] left[k].0 == name;
        lemma_evicted_subset(after, s, k);
        let j = choose|j: int| 0 <= j < after.len() && after[j] == left[k];
        if j < tbl.len() {
            assert(tbl[j] == after[j]);
        }
    }
}

/// Once a name is declared, a second declaration of it fails, whatever scope
/// either declaration comes from.
pub proof fn law_declare_twice<N>(tbl: Seq<Slot<N>>, first: Slot<N>)
    ensures
        declares(tbl.push(first), first.0),
{
    assert(tbl.push(first)[tbl.len() as int].0 == first.0);
}

/// A Boolean binding refuses a Number and takes a Boolean, which a lookup then sees.
pub proof fn law_assign_boolean<N>(tbl: Seq<Slot<N>>, name: Seq<char>, n: N, b: bool)
    requires
        latest(tbl, name) matches Some(i) && tbl[i].1 == DataType::Boolean,
    ensures
        !admits(DataType::Boolean, Datum::<N>::Number(n)),
        admits(DataType::Boolean, Datum::<N>::Truth(b)),
        ({
            let i = latest(tbl, name)->Some_0;
            let e = tbl[i];
            resolve(tbl.update(i, (e.0, e.1, Datum::Truth(b), e.3)), name) == Some(
                Datum::<N>::Truth(b),
            )
        }),
{
    let i = latest(tbl, name)->Some_0;
    let e = tbl[i];
    let after = tbl.update(i, (e.0, e.1, Datum::Truth(b), e.3));
    lemma_latest(tbl, name);
    lemma_latest_same_names(tbl, name, after);
}

/// Tables whose bindings carry the same names position every name alike.
proof fn lemma_latest_same_names<N>(tbl: Seq<Slot<N>>, name: Seq<char>, after: Seq<Slot<N>>)
    requires
        after.len() == tbl.len(),
        forall|j: int| 0 <= j < tbl.len() ==> #[trigger] after[j].0 == tbl[j].0,
    ensures
        latest(after, name) == latest(tbl, name),
    decreases tbl.len(),
{
    if tbl.len() > 0 {
        let (p, q) = (tbl.drop_last(), after.drop_last());
        assert forall|j: int| 0 <= j < p.len() implies #[trigger] q[j].0 == p[j].0 by {
            assert(q[j] == after[j] && p[j] == tbl[j]);
        }
        assert(after[after.len() - 1].0 == tbl[tbl.len() - 1].0);
        lemma_latest_same_names(p, name, q);
    }
}

} // verus!
