//! Runtime values and the scopes that hold them.

use vstd::prelude::*;
use crate::ast::{
    duplicate_statements, duplicate_strings, statements_view, strings_view, Statement,
    StatementView,
};
use crate::fault::ValueKind;

verus! {

/// A runtime value. A floating-point number is held as its IEEE 754 binary64
/// bit pattern. A closure holds a copy of the scopes in which it was made.
#[derive(Debug)]
pub enum Value {
    Number(i64),
    Float(u64),
    Bool(bool),
    Void,
    String(String),
    Array(Vec<Value>),
    Closure { params: Vec<String>, body: Vec<Statement>, env: Vec<Scope> },
}

/// A variable and its value.
#[derive(Debug)]
pub struct Binding {
    name: String,
    value: Value,
}

/// One frame of variables. Its value is the map from each name to the value
/// bound to it.
#[derive(Debug)]
pub struct Scope {
    bindings: Vec<Binding>,
}

/// The mathematical value of a runtime value.
pub ghost enum ValueView {
    Number(i64),
    Float(u64),
    Bool(bool),
    Void,
    String(Seq<char>),
    Array(Seq<ValueView>),
    Closure { params: Seq<Seq<char>>, body: Seq<StatementView>, env: Seq<Map<Seq<char>, ValueView>> },
}

/// A stack of scopes, the innermost last.
pub type EnvironmentView = Seq<Map<Seq<char>, ValueView>>;

/// The map that a list of bindings stands for: a later binding of a name
/// replaces an earlier one.
pub open spec fn entries_map(entries: Seq<(Seq<char>, ValueView)>) -> Map<Seq<char>, ValueView>
    decreases entries.len(),
{
    if entries.len() == 0 {
        Map::empty()
    } else {
        entries_map(entries.drop_last()).insert(entries.last().0, entries.last().1)
    }
}

pub open spec fn value_view(v: Value) -> ValueView
    decreases v,
{
    match v {
        Value::Number(n) => ValueView::Number(n),
        Value::Float(bits) => ValueView::Float(bits),
        Value::Bool(b) => ValueView::Bool(b),
        Value::Void => ValueView::Void,
        Value::String(s) => ValueView::String(s@),
        Value::Array(items) => ValueView::Array(values_view(items@)),
        Value::Closure { params, body, env } => ValueView::Closure {
            params: strings_view(params@),
            body: statements_view(body@),
            env: environment_view(env@),
        },
    }
}

/// The values of a sequence of runtime values.
pub open spec fn values_view(values: Seq<Value>) -> Seq<ValueView>
    decreases values,
{
    Seq::new(
        values.len(),
        |i: int|
            if 0 <= i < values.len() {
                value_view(values[i])
            } else {
                ValueView::Void
            },
    )
}

/// The names and values of a scope's bindings, in the order in which they
/// are held.
pub closed spec fn scope_entries(scope: Scope) -> Seq<(Seq<char>, ValueView)>
    decreases scope, 0int,
{
    Seq::new(
        scope.bindings@.len(),
        |i: int|
            if 0 <= i < scope.bindings@.len() {
                (scope.bindings@[i].name@, value_view(scope.bindings@[i].value))
            } else {
                (Seq::empty(), ValueView::Void)
            },
    )
}

/// The map from names to values that a scope stands for.
pub open spec fn scope_view(scope: Scope) -> Map<Seq<char>, ValueView>
    decreases scope, 1int,
{
    entries_map(scope_entries(scope))
}

/// The value of a stack of scopes.
pub open spec fn environment_view(scopes: Seq<Scope>) -> EnvironmentView
    decreases scopes,
{
    Seq::new(
        scopes.len(),
        |i: int|
            if 0 <= i < scopes.len() {
                scope_view(scopes[i])
            } else {
                Map::empty()
            },
    )
}

impl View for Value {
    type V = ValueView;

    open spec fn view(&self) -> ValueView {
        value_view(*self)
    }
}

impl View for Scope {
    type V = Map<Seq<char>, ValueView>;

    open spec fn view(&self) -> Map<Seq<char>, ValueView> {
        scope_view(*self)
    }
}

/// The kind of a value.
pub open spec fn kind_of(v: ValueView) -> ValueKind {
    match v {
        ValueView::Number(_) => ValueKind::Number,
        ValueView::Float(_) => ValueKind::Float,
        ValueView::Bool(_) => ValueKind::Bool,
        ValueView::Void => ValueKind::Void,
        ValueView::String(_) => ValueKind::String,
        ValueView::Array(_) => ValueKind::Array,
        ValueView::Closure { .. } => ValueKind::Closure,
    }
}

/// The value bound to a name: that of the innermost scope that holds it.
pub open spec fn env_lookup(env: EnvironmentView, name: Seq<char>) -> Option<ValueView>
    decreases env.len(),
{
    if env.len() == 0 {
        None
    } else if env.last().contains_key(name) {
        Some(env.last()[name])
    } else {
        env_lookup(env.drop_last(), name)
    }
}

/// The scopes after a declaration: the innermost scope binds the name,
/// whatever an outer scope holds. Without a scope nothing is bound.
pub open spec fn env_declare(env: EnvironmentView, name: Seq<char>, value: ValueView) -> EnvironmentView {
    if env.len() == 0 {
        env
    } else {
        env.update(env.len() - 1, env.last().insert(name, value))
    }
}

/// The scopes after an assignment: the innermost scope that holds the name
/// binds it anew. `None` where no scope holds it.
pub open spec fn env_assign(env: EnvironmentView, name: Seq<char>, value: ValueView) -> Option<
    EnvironmentView,
>
    decreases env.len(),
{
    if env.len() == 0 {
        None
    } else if env.last().contains_key(name) {
        Some(env.update(env.len() - 1, env.last().insert(name, value)))
    } else {
        match env_assign(env.drop_last(), name, value) {
            Some(outer) => Some(outer.push(env.last())),
            None => None,
        }
    }
}

/// The scopes without the innermost one.
pub open spec fn env_pop(env: EnvironmentView) -> EnvironmentView {
    if env.len() == 0 {
        env
    } else {
        env.drop_last()
    }
}

/// The scope of a call: each parameter bound to its argument, a later
/// parameter of the same name replacing an earlier one.
pub open spec fn parameter_scope(params: Seq<Seq<char>>, args: Seq<ValueView>) -> Map<
    Seq<char>,
    ValueView,
>
    recommends
        params.len() == args.len(),
    decreases params.len(),
{
    if params.len() == 0 || args.len() == 0 {
        Map::empty()
    } else {
        parameter_scope(params.drop_last(), args.drop_last()).insert(params.last(), args.last())
    }
}

proof fn lemma_entries_push(entries: Seq<(Seq<char>, ValueView)>, name: Seq<char>, value: ValueView)
    ensures
        entries_map(entries.push((name, value))) == entries_map(entries).insert(name, value),
{
    assert(entries.push((name, value)).drop_last() == entries);
}

proof fn lemma_entries_update(
    entries: Seq<(Seq<char>, ValueView)>,
    i: int,
    name: Seq<char>,
    value: ValueView,
)
    requires
        0 <= i < entries.len(),
        entries[i].0 == name,
        forall|j: int| i < j < entries.len() ==> entries[j].0 != name,
    ensures
        entries_map(entries.update(i, (name, value))) == entries_map(entries).insert(name, value),
    decreases entries.len(),
{
    let updated = entries.update(i, (name, value));
    if i == entries.len() - 1 {
        assert(updated.drop_last() == entries.drop_last());
        assert(entries_map(updated) =~= entries_map(entries).insert(name, value));
    } else {
        lemma_entries_update(entries.drop_last(), i, name, value);
        assert(updated.drop_last() == entries.drop_last().update(i, (name, value)));
        assert(entries_map(updated) =~= entries_map(entries).insert(name, value));
    }
}

proof fn lemma_entries_absent(entries: Seq<(Seq<char>, ValueView)>, name: Seq<char>)
    requires
        forall|j: int| 0 <= j < entries.len() ==> entries[j].0 != name,
    ensures
        !entries_map(entries).contains_key(name),
    decreases entries.len(),
{
    if entries.len() > 0 {
        lemma_entries_absent(entries.drop_last(), name);
    }
}

proof fn lemma_entries_found(entries: Seq<(Seq<char>, ValueView)>, i: int, name: Seq<char>)
    requires
        0 <= i < entries.len(),
        entries[i].0 == name,
        forall|j: int| i < j < entries.len() ==> entries[j].0 != name,
    ensures
        entries_map(entries).contains_key(name),
        entries_map(entries)[name] == entries[i].1,
    decreases entries.len(),
{
    if i < entries.len() - 1 {
        lemma_entries_found(entries.drop_last(), i, name);
    }
}

impl Value {
    /// The kind of the value.
    pub fn kind(&self) -> (k: ValueKind)
        ensures
            k == kind_of(self@),
    {
        match self {
            Value::Number(_) => ValueKind::Number,
            Value::Float(_) => ValueKind::Float,
            Value::Bool(_) => ValueKind::Bool,
            Value::Void => ValueKind::Void,
            Value::String(_) => ValueKind::String,
            Value::Array(_) => ValueKind::Array,
            Value::Closure { .. } => ValueKind::Closure,
        }
    }

    /// A copy of the value.
    pub fn duplicate(&self) -> (copy: Value)
        ensures
            copy@ == self@,
        decreases self,
    {
        match self {
            Value::Number(n) => Value::Number(*n),
            Value::Float(bits) => Value::Float(*bits),
            Value::Bool(b) => Value::Bool(*b),
            Value::Void => Value::Void,
            Value::String(s) => Value::String(s.clone()),
            Value::Array(items) => Value::Array(duplicate_values(items)),
            Value::Closure { params, body, env } => Value::Closure {
                params: duplicate_strings(params),
                body: duplicate_statements(body),
                env: duplicate_environment(env),
            },
        }
    }
}

/// A copy of a list of values.
pub fn duplicate_values(values: &Vec<Value>) -> (copy: Vec<Value>)
    ensures
        values_view(copy@) == values_view(values@),
    decreases values,
{
    let mut copy: Vec<Value> = Vec::new();
    let mut i: usize = 0;
    while i < values.len()
        invariant
            i <= values.len(),
            copy.len() == i,
            forall|j: int| 0 <= j < i ==> copy@[j]@ == values@[j]@,
        decreases values.len() - i,
    {
        copy.push(values[i].duplicate());
        i += 1;
    }
    assert(values_view(copy@) =~= values_view(values@));
    copy
}

/// A copy of a stack of scopes.
pub fn duplicate_environment(scopes: &Vec<Scope>) -> (copy: Vec<Scope>)
    ensures
        environment_view(copy@) == environment_view(scopes@),
    decreases scopes,
{
    let mut copy: Vec<Scope> = Vec::new();
    let mut i: usize = 0;
    while i < scopes.len()
        invariant
            i <= scopes.len(),
            copy.len() == i,
            forall|j: int| 0 <= j < i ==> copy@[j]@ == scopes@[j]@,
        decreases scopes.len() - i,
    {
        copy.push(scopes[i].duplicate());
        i += 1;
    }
    assert(environment_view(copy@) =~= environment_view(scopes@));
    copy
}

impl Scope {
    /// A scope without bindings.
    pub fn new() -> (scope: Scope)
        ensures
            scope@ == Map::<Seq<char>, ValueView>::empty(),
    {
        let scope = Scope { bindings: Vec::new() };
        assert(scope_entries(scope) =~= Seq::empty());
        scope
    }

    /// A copy of the scope.
    pub fn duplicate(&self) -> (copy: Scope)
        ensures
            copy@ == self@,
        decreases self,
    {
        let mut bindings: Vec<Binding> = Vec::new();
        let mut i: usize = 0;
        while i < self.bindings.len()
            invariant
                i <= self.bindings.len(),
                bindings.len() == i,
                forall|j: int|
                    0 <= j < i ==> bindings@[j].name@ == self.bindings@[j].name@
                        && bindings@[j].value@ == self.bindings@[j].value@,
            decreases self.bindings.len() - i,
        {
            let b = &self.bindings[i];
            bindings.push(Binding { name: b.name.clone(), value: b.value.duplicate() });
            i += 1;
        }
        let copy = Scope { bindings };
        assert(scope_entries(copy) =~= scope_entries(*self));
        copy
    }

    fn position(&self, name: &String) -> (r: Option<usize>)
        ensures
            match r {
                Some(i) => i < self.bindings@.len() && scope_entries(*self)[i as int].0 == name@
                    && forall|j: int|
                    i < j < self.bindings@.len() ==> scope_entries(*self)[j].0 != name@,
                None => forall|j: int|
                    0 <= j < self.bindings@.len() ==> scope_entries(*self)[j].0 != name@,
            },
    {
        let mut i: usize = self.bindings.len();
        while i > 0
            invariant
                i <= self.bindings.len(),
                forall|j: int| i <= j < self.bindings@.len() ==> scope_entries(*self)[j].0 != name@,
            decreases i,
        {
            i -= 1;
            if self.bindings[i].name == *name {
                return Some(i);
            }
        }
        None
    }

    /// Whether the scope binds the name.
    pub fn contains(&self, name: &String) -> (r: bool)
        ensures
            r == self@.contains_key(name@),
    {
        match self.position(name) {
            Some(i) => {
                proof {
                    lemma_entries_found(scope_entries(*self), i as int, name@);
                }
                true
            },
            None => {
                proof {
                    lemma_entries_absent(scope_entries(*self), name@);
                }
                false
            },
        }
    }

    /// A copy of the value bound to the name, if the scope binds it.
    pub fn get(&self, name: &String) -> (r: Option<Value>)
        ensures
            match r {
                Some(v) => self@.contains_key(name@) && v@ == self@[name@],
                None => !self@.contains_key(name@),
            },
    {
        match self.position(name) {
            Some(i) => {
                proof {
                    lemma_entries_found(scope_entries(*self), i as int, name@);
                }
                Some(self.bindings[i].value.duplicate())
            },
            None => {
                proof {
                    lemma_entries_absent(scope_entries(*self), name@);
                }
                None
            },
        }
    }

    /// Binds the name to the value, in place of what it was bound to.
    pub fn set(&mut self, name: String, value: Value)
        ensures
            final(self)@ == old(self)@.insert(name@, value@),
    {
        match self.position(&name) {
            Some(i) => {
                let ghost before = scope_entries(*self);
                self.bindings.set(i, Binding { name, value });
                proof {
                    assert(scope_entries(*self) =~= before.update(i as int, (name@, value@)));
                    lemma_entries_update(before, i as int, name@, value@);
                }
            },
            None => {
                let ghost before = scope_entries(*self);
                self.bindings.push(Binding { name, value });
                proof {
                    assert(scope_entries(*self) =~= before.push((name@, value@)));
                    lemma_entries_push(before, name@, value@);
                }
            },
        }
    }
}

} // verus!
