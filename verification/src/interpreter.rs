//! The evaluator: walks the syntax tree and does what it says.

use vstd::prelude::*;
use crate::ast::{
    duplicate_statements, duplicate_strings, expressions_view, lemma_expression_view,
    lemma_expressions_view, lemma_statement_view, lemma_statements_view, statements_view,
    strings_view, BinaryOp, Expression, Statement, UnaryOp,
};
use crate::fault::{
    plain_error, Fault, FaultView, Mismatch, RuntimeErrorKind, RuntimeErrorKindView, ValueKind,
};
use crate::floats::{
    float_at_least_epsilon, float_below_epsilon, float_is_zero, float_less, float_less_or_equal,
    float_negated, FloatOp, FloatQuery, FloatTable,
};
use crate::semantics;
use crate::semantics::{
    arithmetic, binary_op, bool_op, call_closure, call_function, entered, eval_expr, eval_exprs,
    eval_stmt, execute_function, find_function, find_in_modules, float_op, float_result,
    float_text, for_round, index_value, integer_op, left, loop_for, loop_while, render,
    render_items, resolve, run_block, run_body, store_element, string_op, unary_op, updated_array,
    FunctionView, Machine, ModuleView, World,
};
use crate::text::{chars_of, is_word, push_int_text};
use crate::value::{
    duplicate_environment, env_assign, env_declare, env_lookup, env_pop, environment_view,
    parameter_scope, values_view, EnvironmentView, Scope, Value, ValueView,
};

verus! {

/// A function that can be called by name.
#[derive(Debug)]
pub struct Function {
    pub file_prefix: String,
    pub name: String,
    pub is_main: bool,
    pub params: Vec<String>,
    pub body: Vec<Statement>,
}

/// The functions that an imported module contributes.
#[derive(Debug)]
pub struct Module {
    pub name: String,
    pub functions: Vec<Function>,
}

impl View for Function {
    type V = FunctionView;

    open spec fn view(&self) -> FunctionView {
        FunctionView {
            file_prefix: self.file_prefix@,
            name: self.name@,
            is_main: self.is_main,
            params: strings_view(self.params@),
            body: statements_view(self.body@),
        }
    }
}

/// The values of a sequence of functions.
pub open spec fn functions_view(functions: Seq<Function>) -> Seq<FunctionView> {
    functions.map_values(|f: Function| f@)
}

impl View for Module {
    type V = ModuleView;

    open spec fn view(&self) -> ModuleView {
        ModuleView { name: self.name@, functions: functions_view(self.functions@) }
    }
}

/// The values of a sequence of modules.
pub open spec fn modules_view(modules: Seq<Module>) -> Seq<ModuleView> {
    modules.map_values(|m: Module| m@)
}

impl Function {
    /// A copy of the function.
    pub fn duplicate(&self) -> (copy: Function)
        ensures
            copy@ == self@,
    {
        Function {
            file_prefix: self.file_prefix.clone(),
            name: self.name.clone(),
            is_main: self.is_main,
            params: duplicate_strings(&self.params),
            body: duplicate_statements(&self.body),
        }
    }
}

/// A copy of the last function of that name in the list.
pub fn lookup_function(functions: &Vec<Function>, name: &String) -> (r: Option<Function>)
    ensures
        match r {
            Some(f) => find_function(functions_view(functions@), name@, functions@.len() as int)
                == Some(f@),
            None => find_function(functions_view(functions@), name@, functions@.len() as int)
                is None,
        },
{
    let ghost all = functions_view(functions@);
    let mut i: usize = functions.len();
    while i > 0
        invariant
            i <= functions.len(),
            all == functions_view(functions@),
            find_function(all, name@, functions@.len() as int) == find_function(
                all,
                name@,
                i as int,
            ),
        decreases i,
    {
        i -= 1;
        if functions[i].name == *name {
            return Some(functions[i].duplicate());
        }
    }
    None
}

/// The value of a result that holds a runtime value.
pub open spec fn result_view(r: Result<Value, Fault>) -> Result<ValueView, FaultView> {
    match r {
        Ok(v) => Ok(v@),
        Err(f) => Err(f@),
    }
}

/// The value of a result that holds what a statement gave.
pub open spec fn flow_view(r: Result<Option<Value>, Fault>) -> Result<Option<ValueView>, FaultView> {
    match r {
        Ok(Some(v)) => Ok(Some(v@)),
        Ok(None) => Ok(None),
        Err(f) => Err(f@),
    }
}

/// The most body executions that one loop may make.
pub const LOOP_LIMIT: usize = 100_000;

/// The number of calls that may be nested unless another is set.
pub const DEFAULT_CALL_DEPTH: usize = 200;

/// The evaluator's state.
pub struct Interpreter {
    variables: Vec<Scope>,
    functions: Vec<Function>,
    imported_modules: Vec<Module>,
    base_path: String,
    output: Vec<String>,
    floats: FloatTable,
    sources: Vec<crate::import::ModuleSource>,
    depth: usize,
}

impl Interpreter {
    /// What stays the same while a program runs.
    pub closed spec fn world(&self) -> World {
        World {
            functions: functions_view(self.functions@),
            modules: modules_view(self.imported_modules@),
            floats: self.floats@,
        }
    }

    /// What changes while a program runs.
    pub closed spec fn machine(&self) -> Machine {
        Machine { scopes: environment_view(self.variables@), output: strings_view(self.output@) }
    }

    /// The number of calls that may still be nested.
    pub closed spec fn fuel(&self) -> nat {
        self.depth as nat
    }

    /// The directory in which imported modules are looked for.
    pub closed spec fn base(&self) -> Seq<char> {
        self.base_path@
    }

    /// The sources of the modules that can be imported.
    pub closed spec fn sources(&self) -> Seq<crate::import::ModuleSourceView> {
        crate::import::sources_view(self.sources@)
    }

    /// Whether all but the machine state is the same in both.
    pub open spec fn same_setting(&self, other: &Interpreter) -> bool {
        &&& self.world() == other.world()
        &&& self.fuel() == other.fuel()
        &&& self.base() == other.base()
        &&& self.sources() == other.sources()
    }

    /// An evaluator with one empty scope, no functions, no facts about
    /// floating-point numbers, and the current directory as its base.
    pub fn new() -> (interpreter: Interpreter)
        ensures
            interpreter.machine() == (Machine {
                scopes: seq![Map::<Seq<char>, ValueView>::empty()],
                output: Seq::empty(),
            }),
            interpreter.world() == (World {
                functions: Seq::empty(),
                modules: Seq::empty(),
                floats: Seq::empty(),
            }),
            interpreter.fuel() == DEFAULT_CALL_DEPTH,
            interpreter.base() == "."@,
            interpreter.sources() == Seq::<crate::import::ModuleSourceView>::empty(),
    {
        let mut variables: Vec<Scope> = Vec::new();
        variables.push(Scope::new());
        let interpreter = Interpreter {
            variables,
            functions: Vec::new(),
            imported_modules: Vec::new(),
            base_path: String::from_str("."),
            output: Vec::new(),
            floats: FloatTable::new(),
            sources: Vec::new(),
            depth: DEFAULT_CALL_DEPTH,
        };
        assert(interpreter.sources() =~= Seq::empty());
        assert(interpreter.machine().scopes =~= seq![Map::<Seq<char>, ValueView>::empty()]);
        assert(interpreter.machine().output =~= Seq::empty());
        assert(interpreter.world().functions =~= Seq::empty());
        assert(interpreter.world().modules =~= Seq::empty());
        interpreter
    }

    /// Sets the directory in which imported modules are looked for.
    pub fn set_base_path(&mut self, path: &str)
        ensures
            final(self).base() == path@,
            final(self).world() == old(self).world(),
            final(self).machine() == old(self).machine(),
            final(self).fuel() == old(self).fuel(),
            final(self).sources() == old(self).sources(),
    {
        self.base_path = String::from_str(path);
    }

    /// Sets the number of calls that may be nested.
    pub fn set_call_depth(&mut self, depth: usize)
        ensures
            final(self).fuel() == depth,
            final(self).world() == old(self).world(),
            final(self).machine() == old(self).machine(),
            final(self).base() == old(self).base(),
            final(self).sources() == old(self).sources(),
    {
        self.depth = depth;
    }

    /// Replaces the known facts about floating-point numbers.
    pub fn set_floats(&mut self, floats: FloatTable)
        ensures
            final(self).world() == (World {
                functions: old(self).world().functions,
                modules: old(self).world().modules,
                floats: floats@,
            }),
            final(self).machine() == old(self).machine(),
            final(self).fuel() == old(self).fuel(),
            final(self).base() == old(self).base(),
            final(self).sources() == old(self).sources(),
    {
        self.floats = floats;
    }

    /// Adds the source of a module that can be imported, after those already
    /// held.
    pub fn add_source(&mut self, source: crate::import::ModuleSource)
        ensures
            final(self).sources() == old(self).sources().push(source@),
            final(self).world() == old(self).world(),
            final(self).machine() == old(self).machine(),
            final(self).fuel() == old(self).fuel(),
            final(self).base() == old(self).base(),
    {
        self.sources.push(source);
        assert(final(self).sources() =~= old(self).sources().push(source@));
    }

    /// The directory in which imported modules are looked for.
    pub fn base_path(&self) -> (path: &String)
        ensures
            path@ == self.base(),
    {
        &self.base_path
    }

    /// Adds a function to those that can be called by name.
    pub(crate) fn register_function(&mut self, function: Function)
        ensures
            final(self).world() == (World {
                functions: old(self).world().functions.push(function@),
                modules: old(self).world().modules,
                floats: old(self).world().floats,
            }),
            final(self).machine() == old(self).machine(),
            final(self).fuel() == old(self).fuel(),
            final(self).base() == old(self).base(),
            final(self).sources() == old(self).sources(),
    {
        self.functions.push(function);
        assert(final(self).world().functions =~= old(self).world().functions.push(function@));
    }

    /// Adds a module to those that have been imported.
    pub(crate) fn register_module(&mut self, module: Module)
        ensures
            final(self).world() == (World {
                functions: old(self).world().functions,
                modules: old(self).world().modules.push(module@),
                floats: old(self).world().floats,
            }),
            final(self).machine() == old(self).machine(),
            final(self).fuel() == old(self).fuel(),
            final(self).base() == old(self).base(),
            final(self).sources() == old(self).sources(),
    {
        self.imported_modules.push(module);
        assert(final(self).world().modules =~= old(self).world().modules.push(module@));
    }

    /// Resolves an import against the sources held.
    pub(crate) fn find_module(&self, name: &String) -> (r: Result<Module, crate::import::ImportError>)
        ensures
            crate::import::module_result(r) == crate::import::import_outcome(
                self.sources(),
                self.base(),
                name@,
            ),
    {
        crate::import::resolve_import(&self.sources, &self.base_path, name)
    }

    /// The lines printed so far.
    pub fn output(&self) -> (lines: &Vec<String>)
        ensures
            strings_view(lines@) == self.machine().output,
    {
        &self.output
    }

    fn write_line(&mut self, line: String)
        ensures
            final(self).same_setting(old(self)),
            final(self).machine() == (Machine {
                scopes: old(self).machine().scopes,
                output: old(self).machine().output.push(line@),
            }),
    {
        self.output.push(line);
        assert(strings_view(self.output@) =~= strings_view(old(self).output@).push(line@));
    }

    fn enter_scope(&mut self, scope: Scope)
        ensures
            final(self).same_setting(old(self)),
            final(self).machine() == entered(old(self).machine(), scope@),
    {
        self.variables.push(scope);
        assert(environment_view(self.variables@) =~= environment_view(old(self).variables@).push(
            scope@,
        ));
    }

    fn leave_scope(&mut self)
        ensures
            final(self).same_setting(old(self)),
            final(self).machine() == (Machine {
                scopes: env_pop(old(self).machine().scopes),
                output: old(self).machine().output,
            }),
    {
        self.variables.pop();
        assert(environment_view(self.variables@) =~= env_pop(
            environment_view(old(self).variables@),
        ));
    }

    /// Binds the name in the innermost scope.
    pub fn set_variable(&mut self, name: &String, val: Value)
        ensures
            final(self).same_setting(old(self)),
            final(self).machine() == (Machine {
                scopes: env_declare(old(self).machine().scopes, name@, val@),
                output: old(self).machine().output,
            }),
    {
        let n = self.variables.len();
        if n > 0 {
            let mut scope = Scope::new();
            let ghost before = environment_view(self.variables@);
            core::mem::swap(&mut scope, &mut self.variables[n - 1]);
            scope.set(name.clone(), val);
            self.variables.set(n - 1, scope);
            assert(environment_view(self.variables@) =~= env_declare(before, name@, val@));
        }
    }

    /// Binds the name anew in the innermost scope that holds it. Fails where
    /// no scope holds it.
    pub fn assign_variable(&mut self, name: &String, val: Value) -> (r: Result<(), Fault>)
        ensures
            final(self).same_setting(old(self)),
            match env_assign(old(self).machine().scopes, name@, val@) {
                Some(scopes) => r is Ok && final(self).machine() == (Machine {
                    scopes,
                    output: old(self).machine().output,
                }),
                None => final(self).machine() == old(self).machine() && result_unit(r) == Err::<
                    (),
                    FaultView,
                >(plain_error(RuntimeErrorKindView::InvalidAssignmentTarget(Some(name@)))),
            },
    {
        let ghost before = environment_view(self.variables@);
        let mut i: usize = self.variables.len();
        while i > 0
            invariant
                i <= self.variables.len(),
                self.variables@ == old(self).variables@,
                before == environment_view(self.variables@),
                self.same_setting(old(self)),
                self.machine() == old(self).machine(),
                forall|j: int| i <= j < before.len() ==> !before[j].contains_key(name@),
            decreases i,
        {
            i -= 1;
            if self.variables[i].contains(name) {
                let mut scope = Scope::new();
                core::mem::swap(&mut scope, &mut self.variables[i]);
                scope.set(name.clone(), val);
                self.variables.set(i, scope);
                proof {
                    let after = environment_view(self.variables@);
                    assert(after =~= before.update(i as int, before[i as int].insert(name@, val@)));
                    lemma_assign_at(before, name@, val@, i as int);
                }
                return Ok(());
            }
        }
        proof {
            lemma_assign_absent(before, name@, val@);
        }
        Err(Fault::error(RuntimeErrorKind::InvalidAssignmentTarget(Some(name.clone()))))
    }

    /// A copy of the value bound to the name in the innermost scope that
    /// holds it.
    pub fn get_variable(&self, name: &String) -> (r: Option<Value>)
        ensures
            match r {
                Some(v) => env_lookup(self.machine().scopes, name@) == Some(v@),
                None => env_lookup(self.machine().scopes, name@) is None,
            },
    {
        let ghost env = environment_view(self.variables@);
        let mut i: usize = self.variables.len();
        assert(env.take(i as int) =~= env);
        while i > 0
            invariant
                i <= self.variables.len(),
                env == environment_view(self.variables@),
                env_lookup(env, name@) == env_lookup(env.take(i as int), name@),
            decreases i,
        {
            i -= 1;
            proof {
                assert(env.take(i + 1).drop_last() =~= env.take(i as int));
            }
            match self.variables[i].get(name) {
                Some(v) => {
                    return Some(v);
                },
                None => {},
            }
        }
        None
    }
}

/// The value of a result without a value.
pub open spec fn result_unit(r: Result<(), Fault>) -> Result<(), FaultView> {
    match r {
        Ok(_) => Ok(()),
        Err(f) => Err(f@),
    }
}

proof fn lemma_assign_at(env: EnvironmentView, name: Seq<char>, value: ValueView, i: int)
    requires
        0 <= i < env.len(),
        env[i].contains_key(name),
        forall|j: int| i < j < env.len() ==> !env[j].contains_key(name),
    ensures
        env_assign(env, name, value) == Some(env.update(i, env[i].insert(name, value))),
    decreases env.len(),
{
    if i < env.len() - 1 {
        lemma_assign_at(env.drop_last(), name, value, i);
        assert(env.drop_last().update(i, env[i].insert(name, value)).push(env.last()) =~= env.update(
            i,
            env[i].insert(name, value),
        ));
    }
}

proof fn lemma_assign_absent(env: EnvironmentView, name: Seq<char>, value: ValueView)
    requires
        forall|j: int| 0 <= j < env.len() ==> !env[j].contains_key(name),
    ensures
        env_assign(env, name, value) is None,
    decreases env.len(),
{
    if env.len() > 0 {
        lemma_assign_absent(env.drop_last(), name, value);
    }
}

fn type_mismatch(m: Mismatch) -> (f: Fault)
    ensures
        f@ == crate::semantics::mismatch(m),
{
    Fault::error(RuntimeErrorKind::TypeMismatch(m))
}

fn division_fault(modulo: bool) -> (f: Fault)
    ensures
        f@ == crate::semantics::division_by_zero(modulo),
{
    Fault::error(RuntimeErrorKind::DivisionOrModuloByZero { modulo })
}

/// The answer of the table to a query, or the fault that names the query.
pub fn ask_float(floats: &FloatTable, query: FloatQuery) -> (r: Result<u64, Fault>)
    ensures
        match r {
            Ok(bits) => float_result(floats@, query@) == Ok::<u64, FaultView>(bits),
            Err(f) => float_result(floats@, query@) == Err::<u64, FaultView>(f@),
        },
{
    match floats.bits(&query) {
        Some(bits) => Ok(bits),
        None => Err(Fault::NeedsFloat(query)),
    }
}

/// The text of a floating-point number, or the fault that asks for it.
pub fn ask_float_text(floats: &FloatTable, bits: u64) -> (r: Result<String, Fault>)
    ensures
        match r {
            Ok(text) => float_text(floats@, bits) == Ok::<Seq<char>, FaultView>(text@),
            Err(f) => float_text(floats@, bits) == Err::<Seq<char>, FaultView>(f@),
        },
{
    match floats.text(bits) {
        Some(text) => Ok(text),
        None => Err(Fault::NeedsFloat(FloatQuery::Text(bits))),
    }
}

fn integer_operation(l: i64, op: BinaryOp, r: i64) -> (res: Result<Value, Fault>)
    ensures
        result_view(res) == integer_op(l, op, r),
{
    match op {
        BinaryOp::Add => Ok(Value::Number(l.wrapping_add(r))),
        BinaryOp::Subtract => Ok(Value::Number(l.wrapping_sub(r))),
        BinaryOp::Multiply => Ok(Value::Number(l.wrapping_mul(r))),
        BinaryOp::Divide => {
            if r == 0 {
                Err(division_fault(false))
            } else {
                match l.checked_div(r) {
                    Some(q) => Ok(Value::Number(q)),
                    None => Ok(Value::Number(i64::MIN)),
                }
            }
        },
        BinaryOp::Modulo => {
            if r == 0 {
                Err(division_fault(true))
            } else {
                match l.checked_rem(r) {
                    Some(q) => Ok(Value::Number(q)),
                    None => Ok(Value::Number(0)),
                }
            }
        },
        BinaryOp::Equal => Ok(Value::Bool(l == r)),
        BinaryOp::NotEqual => Ok(Value::Bool(l != r)),
        BinaryOp::LessThan => Ok(Value::Bool(l < r)),
        BinaryOp::GreaterThan => Ok(Value::Bool(l > r)),
        BinaryOp::LessThanOrEqual => Ok(Value::Bool(l <= r)),
        BinaryOp::GreaterThanOrEqual => Ok(Value::Bool(l >= r)),
        BinaryOp::And | BinaryOp::Or => Err(
            type_mismatch(
                Mismatch::Binary { op, left: ValueKind::Number, right: ValueKind::Number },
            ),
        ),
    }
}

fn float_arithmetic(floats: &FloatTable, op: FloatOp, l: u64, r: u64) -> (res: Result<Value, Fault>)
    ensures
        result_view(res) == arithmetic(floats@, op, l, r),
{
    match ask_float(floats, FloatQuery::Arithmetic { op, left: l, right: r }) {
        Ok(bits) => Ok(Value::Float(bits)),
        Err(f) => Err(f),
    }
}

fn float_operation(floats: &FloatTable, l: u64, op: BinaryOp, r: u64) -> (res: Result<Value, Fault>)
    ensures
        result_view(res) == float_op(floats@, l, op, r),
{
    match op {
        BinaryOp::Add => float_arithmetic(floats, FloatOp::Add, l, r),
        BinaryOp::Subtract => float_arithmetic(floats, FloatOp::Subtract, l, r),
        BinaryOp::Multiply => float_arithmetic(floats, FloatOp::Multiply, l, r),
        BinaryOp::Divide => {
            if float_is_zero(r) {
                Err(division_fault(false))
            } else {
                float_arithmetic(floats, FloatOp::Divide, l, r)
            }
        },
        BinaryOp::Equal => {
            match ask_float(
                floats,
                FloatQuery::Arithmetic { op: FloatOp::Subtract, left: l, right: r },
            ) {
                Ok(d) => Ok(Value::Bool(float_below_epsilon(d))),
                Err(f) => Err(f),
            }
        },
        BinaryOp::NotEqual => {
            match ask_float(
                floats,
                FloatQuery::Arithmetic { op: FloatOp::Subtract, left: l, right: r },
            ) {
                Ok(d) => Ok(Value::Bool(float_at_least_epsilon(d))),
                Err(f) => Err(f),
            }
        },
        BinaryOp::LessThan => Ok(Value::Bool(float_less(l, r))),
        BinaryOp::GreaterThan => Ok(Value::Bool(float_less(r, l))),
        BinaryOp::LessThanOrEqual => Ok(Value::Bool(float_less_or_equal(l, r))),
        BinaryOp::GreaterThanOrEqual => Ok(Value::Bool(float_less_or_equal(r, l))),
        BinaryOp::Modulo | BinaryOp::And | BinaryOp::Or => Err(
            type_mismatch(Mismatch::Binary { op, left: ValueKind::Float, right: ValueKind::Float }),
        ),
    }
}

fn bool_operation(l: bool, op: BinaryOp, r: bool) -> (res: Result<Value, Fault>)
    ensures
        result_view(res) == bool_op(l, op, r),
{
    match op {
        BinaryOp::And => Ok(Value::Bool(l && r)),
        BinaryOp::Or => Ok(Value::Bool(l || r)),
        BinaryOp::Equal => Ok(Value::Bool(l == r)),
        BinaryOp::NotEqual => Ok(Value::Bool(l != r)),
        _ => Err(
            type_mismatch(Mismatch::Binary { op, left: ValueKind::Bool, right: ValueKind::Bool }),
        ),
    }
}

fn joined(l: &str, r: &str) -> (s: String)
    ensures
        s@ == l@ + r@,
{
    let mut s = String::from_str(l);
    s.append(r);
    s
}

fn string_operation(l: &String, op: BinaryOp, r: &String) -> (res: Result<Value, Fault>)
    ensures
        result_view(res) == string_op(l@, op, r@),
{
    match op {
        BinaryOp::Add => Ok(Value::String(joined(l.as_str(), r.as_str()))),
        BinaryOp::Equal => Ok(Value::Bool(*l == *r)),
        BinaryOp::NotEqual => Ok(Value::Bool(!(*l == *r))),
        _ => Err(
            type_mismatch(
                Mismatch::Binary { op, left: ValueKind::String, right: ValueKind::String },
            ),
        ),
    }
}

fn integer_text(n: i64) -> (s: String)
    ensures
        s@ == crate::text::int_text(n as int),
{
    let mut s = String::new();
    push_int_text(&mut s, n);
    assert(Seq::<char>::empty() + crate::text::int_text(n as int) =~= crate::text::int_text(
        n as int,
    ));
    s
}

fn operator_defined_on_floats(op: BinaryOp) -> (r: bool)
    ensures
        r == crate::semantics::defined_on_floats(op),
{
    match op {
        BinaryOp::Modulo | BinaryOp::And | BinaryOp::Or => false,
        _ => true,
    }
}

fn is_addition(op: BinaryOp) -> (r: bool)
    ensures
        r == (op is Add),
{
    match op {
        BinaryOp::Add => true,
        _ => false,
    }
}

fn is_division(op: BinaryOp) -> (r: bool)
    ensures
        r == (op is Divide),
{
    match op {
        BinaryOp::Divide => true,
        _ => false,
    }
}

/// A binary operation on two values.
pub fn apply_binary(floats: &FloatTable, left: &Value, op: BinaryOp, right: &Value) -> (res: Result<
    Value,
    Fault,
>)
    ensures
        result_view(res) == binary_op(floats@, left@, op, right@),
{
    match (left, right) {
        (Value::Number(a), Value::Number(b)) => integer_operation(*a, op, *b),
        (Value::Float(a), Value::Float(b)) => float_operation(floats, *a, op, *b),
        (Value::Number(a), Value::Float(b)) => {
            if !operator_defined_on_floats(op) {
                Err(
                    type_mismatch(
                        Mismatch::Binary { op, left: ValueKind::Number, right: ValueKind::Float },
                    ),
                )
            } else if is_division(op) && float_is_zero(*b) {
                Err(division_fault(false))
            } else {
                match ask_float(floats, FloatQuery::FromInteger(*a)) {
                    Ok(converted) => float_operation(floats, converted, op, *b),
                    Err(f) => Err(f),
                }
            }
        },
        (Value::Float(a), Value::Number(b)) => {
            if !operator_defined_on_floats(op) {
                Err(
                    type_mismatch(
                        Mismatch::Binary { op, left: ValueKind::Float, right: ValueKind::Number },
                    ),
                )
            } else if is_division(op) && *b == 0 {
                Err(division_fault(false))
            } else {
                match ask_float(floats, FloatQuery::FromInteger(*b)) {
                    Ok(converted) => float_operation(floats, *a, op, converted),
                    Err(f) => Err(f),
                }
            }
        },
        (Value::Bool(a), Value::Bool(b)) => bool_operation(*a, op, *b),
        (Value::String(a), Value::String(b)) => string_operation(a, op, b),
        (Value::String(a), Value::Number(b)) => {
            if is_addition(op) {
                let text = integer_text(*b);
                Ok(Value::String(joined(a.as_str(), text.as_str())))
            } else {
                Err(
                    type_mismatch(
                        Mismatch::Binary { op, left: ValueKind::String, right: ValueKind::Number },
                    ),
                )
            }
        },
        (Value::Number(a), Value::String(b)) => {
            if is_addition(op) {
                let text = integer_text(*a);
                Ok(Value::String(joined(text.as_str(), b.as_str())))
            } else {
                Err(
                    type_mismatch(
                        Mismatch::Binary { op, left: ValueKind::Number, right: ValueKind::String },
                    ),
                )
            }
        },
        (Value::String(a), Value::Float(b)) => {
            if is_addition(op) {
                match ask_float_text(floats, *b) {
                    Ok(text) => Ok(Value::String(joined(a.as_str(), text.as_str()))),
                    Err(f) => Err(f),
                }
            } else {
                Err(
                    type_mismatch(
                        Mismatch::Binary { op, left: ValueKind::String, right: ValueKind::Float },
                    ),
                )
            }
        },
        (Value::Float(a), Value::String(b)) => {
            if is_addition(op) {
                match ask_float_text(floats, *a) {
                    Ok(text) => Ok(Value::String(joined(text.as_str(), b.as_str()))),
                    Err(f) => Err(f),
                }
            } else {
                Err(
                    type_mismatch(
                        Mismatch::Binary { op, left: ValueKind::Float, right: ValueKind::String },
                    ),
                )
            }
        },
        _ => Err(type_mismatch(Mismatch::Binary { op, left: left.kind(), right: right.kind() })),
    }
}

/// A unary operation on a value.
pub fn apply_unary(op: UnaryOp, v: &Value) -> (res: Result<Value, Fault>)
    ensures
        result_view(res) == unary_op(op, v@),
{
    match (op, v) {
        (UnaryOp::Negate, Value::Number(n)) => Ok(Value::Number(0i64.wrapping_sub(*n))),
        (UnaryOp::Negate, Value::Float(bits)) => Ok(Value::Float(float_negated(*bits))),
        (UnaryOp::Not, Value::Bool(b)) => Ok(Value::Bool(!*b)),
        _ => Err(type_mismatch(Mismatch::Unary { op, operand: v.kind() })),
    }
}

fn index_fault(container: ValueKind, index: i64, length: usize) -> (f: Fault)
    ensures
        f@ == crate::semantics::bad_index(container, index, length as nat),
{
    Fault::error(RuntimeErrorKind::NegativeOrOutOfBoundsIndex { container, index, length })
}

/// The element of an array, or the character of a string, at an index.
pub fn index_into(container: &Value, index: &Value) -> (res: Result<Value, Fault>)
    ensures
        result_view(res) == index_value(container@, index@),
{
    match (container, index) {
        (Value::Array(items), Value::Number(i)) => {
            if *i < 0 || (*i as u64) >= (items.len() as u64) {
                Err(index_fault(ValueKind::Array, *i, items.len()))
            } else {
                Ok(items[*i as usize].duplicate())
            }
        },
        (Value::String(s), Value::Number(i)) => {
            let chars = chars_of(s.as_str());
            if *i < 0 || (*i as u64) >= (chars.len() as u64) {
                Err(index_fault(ValueKind::String, *i, chars.len()))
            } else {
                let mut one = String::new();
                one.push(chars[*i as usize]);
                assert(one@ =~= seq![s@[*i as int]]);
                Ok(Value::String(one))
            }
        },
        _ => Err(
            type_mismatch(
                Mismatch::NotIndexable { container: container.kind(), index: index.kind() },
            ),
        ),
    }
}

/// The array with one element replaced.
pub fn replace_element(container: Value, index: &Value, value: Value) -> (res: Result<Value, Fault>)
    ensures
        result_view(res) == updated_array(container@, index@, value@),
{
    match (container, index) {
        (Value::Array(items), Value::Number(i)) => {
            if *i < 0 || (*i as u64) >= (items.len() as u64) {
                Err(index_fault(ValueKind::Array, *i, items.len()))
            } else {
                let mut items = items;
                let ghost before = values_view(items@);
                items.set(*i as usize, value);
                assert(values_view(items@) =~= before.update(*i as int, value@));
                Ok(Value::Array(items))
            }
        },
        (container, index) => Err(
            type_mismatch(
                Mismatch::NotIndexable { container: container.kind(), index: index.kind() },
            ),
        ),
    }
}

/// The text that `print` writes for a value.
pub fn render_value(floats: &FloatTable, v: &Value) -> (res: Result<String, Fault>)
    ensures
        match res {
            Ok(text) => render(floats@, v@) == Ok::<Seq<char>, FaultView>(text@),
            Err(f) => render(floats@, v@) == Err::<Seq<char>, FaultView>(f@),
        },
    decreases v,
{
    match v {
        Value::Number(n) => Ok(integer_text(*n)),
        Value::Float(bits) => ask_float_text(floats, *bits),
        Value::Bool(b) => {
            if *b {
                Ok(String::from_str("true"))
            } else {
                Ok(String::from_str("false"))
            }
        },
        Value::Void => Ok(String::from_str("void")),
        Value::String(s) => Ok(s.clone()),
        Value::Array(items) => {
            let ghost all = values_view(items@);
            let mut out = String::from_str("[");
            let ghost mut inner: Seq<char> = Seq::empty();
            let mut i: usize = 0;
            assert(out@ =~= "["@ + inner);
            while i < items.len()
                invariant
                    i <= items.len(),
                    v == Value::Array(*items),
                    all == values_view(items@),
                    out@ == "["@ + inner,
                    render_items(floats@, all, 0) == match render_items(floats@, all, i as int) {
                        Ok(rest) => Ok::<Seq<char>, FaultView>(inner + rest),
                        Err(f) => Err(f),
                    },
                decreases items.len() - i,
            {
                let text = match render_value(floats, &items[i]) {
                    Ok(t) => t,
                    Err(f) => {
                        return Err(f);
                    },
                };
                let ghost separator: Seq<char> = if i > 0 {
                    ", "@
                } else {
                    Seq::empty()
                };
                if i > 0 {
                    out.append(", ");
                }
                out.append(text.as_str());
                proof {
                    let before = inner;
                    inner = inner + separator + text@;
                    assert(out@ =~= "["@ + inner);
                    match render_items(floats@, all, i + 1) {
                        Ok(rest) => {
                            assert(before + (separator + text@ + rest) =~= inner + rest);
                        },
                        Err(_) => {},
                    }
                }
                i += 1;
            }
            out.append("]");
            assert(inner + Seq::<char>::empty() =~= inner);
            Ok(out)
        },
        Value::Closure { .. } => Ok(String::from_str("<function>")),
    }
}

/// The name of the variable that a call assigns to, if the call is an
/// assignment to a variable.
pub(crate) fn assignment_target<'a>(callee: &Expression, arguments: &'a Vec<Expression>) -> (r: Option<
    &'a String,
>)
    ensures
        match r {
            Some(name) => crate::ast::is_assign_form(callee@, expressions_view(arguments@))
                && arguments@[0] == Expression::Identifier(*name),
            None => !crate::ast::is_assign_form(callee@, expressions_view(arguments@)),
        },
{
    proof {
        lemma_expression_view(*callee);
        lemma_expressions_view(arguments@);
        if arguments@.len() > 0 {
            lemma_expression_view(arguments@[0]);
        }
    }
    match callee {
        Expression::Identifier(word) => {
            if is_word(word, "__assign") && arguments.len() == 2 {
                match &arguments[0] {
                    Expression::Identifier(name) => Some(name),
                    _ => None,
                }
            } else {
                None
            }
        },
        _ => None,
    }
}

/// Whether a call is an assignment to an element of an array.
fn is_array_assignment(callee: &Expression, arguments: &Vec<Expression>) -> (r: bool)
    ensures
        r == crate::ast::is_array_assign_form(callee@, expressions_view(arguments@)),
{
    proof {
        lemma_expression_view(*callee);
        lemma_expressions_view(arguments@);
    }
    match callee {
        Expression::Identifier(word) => is_word(word, "__array_assign") && arguments.len() == 3,
        _ => false,
    }
}

impl Interpreter {
    /// A binary operation on two values.
    pub fn eval_binary_op(&self, left: &Value, op: &BinaryOp, right: &Value) -> (res: Result<
        Value,
        Fault,
    >)
        ensures
            result_view(res) == binary_op(self.world().floats, left@, *op, right@),
    {
        apply_binary(&self.floats, left, *op, right)
    }

    /// A copy of the program's own function of that name.
    pub(crate) fn resolve_local(&self, name: &String) -> (r: Option<Function>)
        ensures
            match r {
                Some(f) => find_function(
                    self.world().functions,
                    name@,
                    self.world().functions.len() as int,
                ) == Some(f@),
                None => find_function(
                    self.world().functions,
                    name@,
                    self.world().functions.len() as int,
                ) is None,
            },
    {
        lookup_function(&self.functions, name)
    }

    /// A copy of the function that a name in call position stands for.
    pub fn resolve_function(&self, name: &String) -> (r: Option<Function>)
        ensures
            match r {
                Some(f) => resolve(self.world(), name@) == Some(f@),
                None => resolve(self.world(), name@) is None,
            },
    {
        match lookup_function(&self.functions, name) {
            Some(f) => {
                return Some(f);
            },
            None => {},
        }
        let ghost modules = modules_view(self.imported_modules@);
        let mut i: usize = 0;
        while i < self.imported_modules.len()
            invariant
                i <= self.imported_modules.len(),
                modules == modules_view(self.imported_modules@),
                modules == self.world().modules,
                find_function(
                    self.world().functions,
                    name@,
                    self.world().functions.len() as int,
                ) is None,
                find_in_modules(modules, name@, 0) == find_in_modules(modules, name@, i as int),
            decreases self.imported_modules.len() - i,
        {
            assert(modules[i as int].functions == functions_view(
                self.imported_modules@[i as int].functions@,
            ));
            match lookup_function(&self.imported_modules[i].functions, name) {
                Some(f) => {
                    return Some(f);
                },
                None => {},
            }
            i += 1;
        }
        None
    }

    fn store_element(&mut self, name: &String, index: &Value, value: Value) -> (res: Result<
        Value,
        Fault,
    >)
        ensures
            final(self).same_setting(old(self)),
            ({
                let out = semantics::store_element(old(self).machine(), name@, index@, value@);
                final(self).machine() == out.machine && result_view(res) == out.result
            }),
    {
        match self.get_variable(name) {
            None => Err(
                Fault::error(RuntimeErrorKind::InvalidAssignmentTarget(Some(name.clone()))),
            ),
            Some(container) => {
                let kept = value.duplicate();
                match replace_element(container, index, value) {
                    Err(f) => Err(f),
                    Ok(array) => match self.assign_variable(name, array) {
                        Ok(()) => Ok(kept),
                        Err(f) => Err(f),
                    },
                }
            },
        }
    }

    /// Evaluates the expressions in order.
    pub fn eval_arguments(&mut self, expressions: &Vec<Expression>) -> (res: Result<
        Vec<Value>,
        Fault,
    >)
        ensures
            final(self).same_setting(old(self)),
            ({
                let out = eval_exprs(
                    old(self).world(),
                    old(self).machine(),
                    expressions_view(expressions@),
                    0,
                    old(self).fuel(),
                );
                &&& final(self).machine() == out.machine
                &&& match res {
                    Ok(values) => out.result == Ok::<Seq<ValueView>, FaultView>(
                        values_view(values@),
                    ),
                    Err(f) => out.result == Err::<Seq<ValueView>, FaultView>(f@),
                }
            }),
        decreases 3 * old(self).fuel() + 2, expressions, 0nat,
    {
        let ghost w = self.world();
        let ghost fuel = self.fuel();
        let ghost all = expressions_view(expressions@);
        let ghost total = eval_exprs(w, self.machine(), all, 0, fuel);
        proof {
            lemma_expressions_view(expressions@);
        }
        let mut values: Vec<Value> = Vec::new();
        let mut i: usize = 0;
        assert(values_view(values@) =~= Seq::empty());
        assert forall|vs: Seq<ValueView>| #[trigger] (values_view(values@) + vs) == vs by {
            assert(values_view(values@) + vs =~= vs);
        }
        while i < expressions.len()
            invariant
                i <= expressions.len(),
                self.same_setting(old(self)),
                w == old(self).world(),
                fuel == old(self).fuel(),
                all == expressions_view(expressions@),
                all.len() == expressions@.len(),
                forall|k: int| 0 <= k < expressions@.len() ==> #[trigger] all[k] == expressions@[k]@,
                total == eval_exprs(w, old(self).machine(), all, 0, fuel),
                ({
                    let rest = eval_exprs(w, self.machine(), all, i as int, fuel);
                    &&& total.machine == rest.machine
                    &&& total.result == match rest.result {
                        Ok(vs) => Ok::<Seq<ValueView>, FaultView>(values_view(values@) + vs),
                        Err(f) => Err(f),
                    }
                }),
            decreases expressions.len() - i,
        {
            let ghost before = values_view(values@);
            match self.eval_expr(&expressions[i]) {
                Err(f) => {
                    return Err(f);
                },
                Ok(v) => {
                    values.push(v);
                    proof {
                        assert(values_view(values@) =~= before.push(v@));
                        assert forall|vs: Seq<ValueView>|
                            before + (seq![v@] + vs) == #[trigger] (values_view(values@) + vs) by {
                            assert(before + (seq![v@] + vs) =~= values_view(values@) + vs);
                        }
                    }
                },
            }
            i += 1;
        }
        assert(values_view(values@) + Seq::<ValueView>::empty() =~= values_view(values@));
        Ok(values)
    }

    /// Evaluates an expression.
    pub fn eval_expr(&mut self, expr: &Expression) -> (res: Result<Value, Fault>)
        ensures
            final(self).same_setting(old(self)),
            ({
                let out = eval_expr(
                    old(self).world(),
                    old(self).machine(),
                    expr@,
                    old(self).fuel(),
                );
                final(self).machine() == out.machine && result_view(res) == out.result
            }),
        decreases 3 * old(self).fuel() + 2, expr, 0nat,
    {
        proof {
            lemma_expression_view(*expr);
        }
        match expr {
            Expression::Number(n) => Ok(Value::Number(*n)),
            Expression::Float(text) => {
                match ask_float(&self.floats, FloatQuery::Literal(text.clone())) {
                    Ok(bits) => Ok(Value::Float(bits)),
                    Err(f) => Err(f),
                }
            },
            Expression::Bool(b) => Ok(Value::Bool(*b)),
            Expression::String(s) => Ok(Value::String(s.clone())),
            Expression::Identifier(name) => {
                match self.get_variable(name) {
                    Some(v) => Ok(v),
                    None => Err(Fault::error(RuntimeErrorKind::UndefinedVariable(name.clone()))),
                }
            },
            Expression::Binary { left, op, right } => {
                let l = match self.eval_expr(left) {
                    Ok(v) => v,
                    Err(f) => {
                        return Err(f);
                    },
                };
                let r = match self.eval_expr(right) {
                    Ok(v) => v,
                    Err(f) => {
                        return Err(f);
                    },
                };
                self.eval_binary_op(&l, op, &r)
            },
            Expression::Unary { op, expr: operand } => {
                let v = match self.eval_expr(operand) {
                    Ok(v) => v,
                    Err(f) => {
                        return Err(f);
                    },
                };
                apply_unary(*op, &v)
            },
            Expression::Call { callee, arguments } => {
                proof {
                    lemma_expressions_view(arguments@);
                    lemma_expression_view(**callee);
                    if arguments@.len() > 0 {
                        lemma_expression_view(arguments@[0]);
                    }
                }
                match assignment_target(callee, arguments) {
                    Some(name) => {
                        let x = match self.eval_expr(&arguments[1]) {
                            Ok(v) => v,
                            Err(f) => {
                                return Err(f);
                            },
                        };
                        let kept = x.duplicate();
                        return match self.assign_variable(name, x) {
                            Ok(()) => Ok(kept),
                            Err(f) => Err(f),
                        };
                    },
                    None => {},
                }
                if is_array_assignment(callee, arguments) {
                    return match &arguments[0] {
                        Expression::Identifier(name) => {
                            let index = match self.eval_expr(&arguments[1]) {
                                Ok(v) => v,
                                Err(f) => {
                                    return Err(f);
                                },
                            };
                            let x = match self.eval_expr(&arguments[2]) {
                                Ok(v) => v,
                                Err(f) => {
                                    return Err(f);
                                },
                            };
                            self.store_element(name, &index, x)
                        },
                        _ => Err(Fault::error(RuntimeErrorKind::InvalidAssignmentTarget(None))),
                    };
                }
                let values = match self.eval_arguments(arguments) {
                    Ok(v) => v,
                    Err(f) => {
                        return Err(f);
                    },
                };
                match &**callee {
                    Expression::Identifier(name) => self.call_function(name, values),
                    _ => {
                        let c = match self.eval_expr(callee) {
                            Ok(v) => v,
                            Err(f) => {
                                return Err(f);
                            },
                        };
                        match c {
                            Value::Closure { params, body, env } => self.call_closure(
                                params,
                                body,
                                env,
                                values,
                            ),
                            other => Err(
                                type_mismatch(Mismatch::NotCallable { found: other.kind() }),
                            ),
                        }
                    },
                }
            },
            Expression::Array { elements } => {
                match self.eval_arguments(elements) {
                    Ok(values) => Ok(Value::Array(values)),
                    Err(f) => Err(f),
                }
            },
            Expression::ArrayAccess { array, index } => {
                let container = match self.eval_expr(array) {
                    Ok(v) => v,
                    Err(f) => {
                        return Err(f);
                    },
                };
                let at = match self.eval_expr(index) {
                    Ok(v) => v,
                    Err(f) => {
                        return Err(f);
                    },
                };
                index_into(&container, &at)
            },
            Expression::Closure { params, body } => Ok(
                Value::Closure {
                    params: duplicate_strings(params),
                    body: duplicate_statements(body),
                    env: duplicate_environment(&self.variables),
                },
            ),
        }
    }

    /// Calls the function that the name resolves to.
    pub fn call_function(&mut self, name: &String, args: Vec<Value>) -> (res: Result<Value, Fault>)
        ensures
            final(self).same_setting(old(self)),
            ({
                let out = call_function(
                    old(self).world(),
                    old(self).machine(),
                    name@,
                    values_view(args@),
                    old(self).fuel(),
                );
                final(self).machine() == out.machine && result_view(res) == out.result
            }),
        decreases 3 * old(self).fuel() + 1, args, 0nat,
    {
        match self.resolve_function(name) {
            Some(function) => self.execute_function(function, args),
            None => Err(Fault::error(RuntimeErrorKind::UndefinedFunction(name.clone()))),
        }
    }

    /// Calls a function with the given arguments.
    pub fn execute_function(&mut self, function: Function, args: Vec<Value>) -> (res: Result<
        Value,
        Fault,
    >)
        ensures
            final(self).same_setting(old(self)),
            ({
                let out = execute_function(
                    old(self).world(),
                    old(self).machine(),
                    function@,
                    values_view(args@),
                    old(self).fuel(),
                );
                final(self).machine() == out.machine && result_view(res) == out.result
            }),
        decreases 3 * old(self).fuel(), args, 0nat,
    {
        if args.len() != function.params.len() {
            return Err(
                Fault::error(
                    RuntimeErrorKind::ArityMismatch {
                        function: Some(function.name.clone()),
                        expected: function.params.len(),
                        found: args.len(),
                    },
                ),
            );
        }
        if self.depth == 0 {
            return Err(Fault::error(RuntimeErrorKind::RecursionLimitExceeded));
        }
        let scope = bind_parameters(&function.params, args);
        self.enter_scope(scope);
        self.depth -= 1;
        let res = self.run_function_body(&function.body, Some(&function.name));
        self.depth += 1;
        self.leave_scope();
        res
    }

    /// Calls a closure with the given arguments.
    pub fn call_closure(
        &mut self,
        params: Vec<String>,
        body: Vec<Statement>,
        captured_env: Vec<Scope>,
        args: Vec<Value>,
    ) -> (res: Result<Value, Fault>)
        ensures
            final(self).same_setting(old(self)),
            ({
                let out = call_closure(
                    old(self).world(),
                    old(self).machine(),
                    strings_view(params@),
                    statements_view(body@),
                    environment_view(captured_env@),
                    values_view(args@),
                    old(self).fuel(),
                );
                final(self).machine() == out.machine && result_view(res) == out.result
            }),
        decreases 3 * old(self).fuel(), args, 0nat,
    {
        if args.len() != params.len() {
            return Err(
                Fault::error(
                    RuntimeErrorKind::ArityMismatch {
                        function: None,
                        expected: params.len(),
                        found: args.len(),
                    },
                ),
            );
        }
        if self.depth == 0 {
            return Err(Fault::error(RuntimeErrorKind::RecursionLimitExceeded));
        }
        let scope = bind_parameters(&params, args);
        let mut saved = captured_env;
        core::mem::swap(&mut self.variables, &mut saved);
        self.enter_scope(scope);
        self.depth -= 1;
        let res = self.run_function_body(&body, None);
        self.depth += 1;
        core::mem::swap(&mut self.variables, &mut saved);
        res
    }

    /// Runs the body of a function or closure.
    pub fn run_function_body(&mut self, body: &Vec<Statement>, owner: Option<&String>) -> (res:
        Result<Value, Fault>)
        ensures
            final(self).same_setting(old(self)),
            ({
                let out = run_body(
                    old(self).world(),
                    old(self).machine(),
                    statements_view(body@),
                    0,
                    owner_view(owner),
                    old(self).fuel(),
                );
                final(self).machine() == out.machine && result_view(res) == out.result
            }),
        decreases 3 * old(self).fuel() + 2, body, 0nat,
    {
        let ghost w = self.world();
        let ghost fuel = self.fuel();
        let ghost all = statements_view(body@);
        let ghost total = run_body(w, self.machine(), all, 0, owner_view(owner), fuel);
        proof {
            lemma_statements_view(body@);
        }
        let mut i: usize = 0;
        while i < body.len()
            invariant
                i <= body.len(),
                self.same_setting(old(self)),
                w == old(self).world(),
                fuel == old(self).fuel(),
                all == statements_view(body@),
                all.len() == body@.len(),
                forall|k: int| 0 <= k < body@.len() ==> #[trigger] all[k] == body@[k]@,
                total == run_body(w, old(self).machine(), all, 0, owner_view(owner), fuel),
                total == run_body(w, self.machine(), all, i as int, owner_view(owner), fuel),
            decreases body.len() - i,
        {
            match self.eval_statement(&body[i]) {
                Ok(Some(v)) => {
                    return Ok(v);
                },
                Ok(None) => {},
                Err(f) => {
                    let function = match owner {
                        Some(name) => Some(name.clone()),
                        None => None,
                    };
                    return Err(f.annotate(function, i + 1));
                },
            }
            i += 1;
        }
        Ok(Value::Void)
    }

    /// Runs the statements in order, in the current scope.
    pub fn run_statements(&mut self, statements: &Vec<Statement>) -> (res: Result<
        Option<Value>,
        Fault,
    >)
        ensures
            final(self).same_setting(old(self)),
            ({
                let out = run_block(
                    old(self).world(),
                    old(self).machine(),
                    statements_view(statements@),
                    0,
                    old(self).fuel(),
                );
                final(self).machine() == out.machine && flow_view(res) == out.result
            }),
        decreases 3 * old(self).fuel() + 2, statements, 0nat,
    {
        let ghost w = self.world();
        let ghost fuel = self.fuel();
        let ghost all = statements_view(statements@);
        let ghost total = run_block(w, self.machine(), all, 0, fuel);
        proof {
            lemma_statements_view(statements@);
        }
        let mut i: usize = 0;
        while i < statements.len()
            invariant
                i <= statements.len(),
                self.same_setting(old(self)),
                w == old(self).world(),
                fuel == old(self).fuel(),
                all == statements_view(statements@),
                all.len() == statements@.len(),
                forall|k: int| 0 <= k < statements@.len() ==> #[trigger] all[k] == statements@[k]@,
                total == run_block(w, old(self).machine(), all, 0, fuel),
                total == run_block(w, self.machine(), all, i as int, fuel),
            decreases statements.len() - i,
        {
            match self.eval_statement(&statements[i]) {
                Ok(Some(v)) => {
                    return Ok(Some(v));
                },
                Ok(None) => {},
                Err(f) => {
                    return Err(f);
                },
            }
            i += 1;
        }
        Ok(None)
    }

    /// Runs one statement.
    pub fn eval_statement(&mut self, stmt: &Statement) -> (res: Result<Option<Value>, Fault>)
        ensures
            final(self).same_setting(old(self)),
            ({
                let out = eval_stmt(
                    old(self).world(),
                    old(self).machine(),
                    stmt@,
                    old(self).fuel(),
                );
                final(self).machine() == out.machine && flow_view(res) == out.result
            }),
        decreases 3 * old(self).fuel() + 2, stmt, LOOP_LIMIT + 2,
    {
        proof {
            lemma_statement_view(*stmt);
        }
        match stmt {
            Statement::Let { name, value } => {
                match self.eval_expr(value) {
                    Ok(v) => {
                        self.set_variable(name, v);
                        Ok(None)
                    },
                    Err(f) => Err(f),
                }
            },
            Statement::Assign { name, value } => {
                match self.eval_expr(value) {
                    Ok(v) => match self.assign_variable(name, v) {
                        Ok(()) => Ok(None),
                        Err(f) => Err(f),
                    },
                    Err(f) => Err(f),
                }
            },
            Statement::Print(expr) => {
                match self.eval_expr(expr) {
                    Ok(v) => match render_value(&self.floats, &v) {
                        Ok(line) => {
                            self.write_line(line);
                            Ok(None)
                        },
                        Err(f) => Err(f),
                    },
                    Err(f) => Err(f),
                }
            },
            Statement::ExprStmt(expr) => {
                match self.eval_expr(expr) {
                    Ok(_) => Ok(None),
                    Err(f) => Err(f),
                }
            },
            Statement::Expression(expr) => {
                match self.eval_expr(expr) {
                    Ok(_) => Ok(None),
                    Err(f) => Err(f),
                }
            },
            Statement::Return(expr) => {
                match self.eval_expr(expr) {
                    Ok(v) => Ok(Some(v)),
                    Err(f) => Err(f),
                }
            },
            Statement::If { condition, then_branch, else_branch } => {
                match self.eval_expr(condition) {
                    Err(f) => Err(f),
                    Ok(Value::Bool(true)) => self.run_statements(then_branch),
                    Ok(Value::Bool(false)) => match else_branch {
                        Some(branch) => self.run_statements(branch),
                        None => Ok(None),
                    },
                    Ok(other) => Err(type_mismatch(Mismatch::Condition { found: other.kind() })),
                }
            },
            Statement::While { .. } => self.run_while_loop(stmt),
            Statement::For { init, condition, update, body } => {
                self.enter_scope(Scope::new());
                let started = match init {
                    Some(first) => self.eval_statement(first),
                    None => Ok(None),
                };
                let res = match started {
                    Err(f) => Err(f),
                    Ok(_) => self.run_for_loop(stmt),
                };
                self.leave_scope();
                res
            },
            Statement::FunctionDef { .. } => Ok(None),
            Statement::Import(_) => Ok(None),
            Statement::Block(statements) => {
                self.enter_scope(Scope::new());
                let res = self.run_statements(statements);
                self.leave_scope();
                res
            },
            Statement::Try { body, catch } => {
                match self.run_statements(body) {
                    Err(Fault::Runtime(_)) => self.run_statements(catch),
                    other => other,
                }
            },
        }
    }

    /// Runs a `while` loop.
    fn run_while_loop(&mut self, stmt: &Statement) -> (res: Result<Option<Value>, Fault>)
        requires
            stmt is While,
        ensures
            final(self).same_setting(old(self)),
            ({
                let out = loop_while(
                    old(self).world(),
                    old(self).machine(),
                    stmt@,
                    0,
                    old(self).fuel(),
                );
                final(self).machine() == out.machine && flow_view(res) == out.result
            }),
        decreases 3 * old(self).fuel() + 2, stmt, LOOP_LIMIT + 1,
    {
        proof {
            lemma_statement_view(*stmt);
        }
        match stmt {
            Statement::While { condition, body } => {
                let ghost w = self.world();
                let ghost fuel = self.fuel();
                let ghost total = loop_while(w, self.machine(), stmt@, 0, fuel);
                let mut done: usize = 0;
                loop
                    invariant
                        done <= LOOP_LIMIT,
                        self.same_setting(old(self)),
                        w == old(self).world(),
                        fuel == old(self).fuel(),
                        stmt matches Statement::While { condition: c, body: b } && c == condition
                            && b == body,
                        stmt@ == crate::ast::statement_shape(*stmt),
                        total == loop_while(w, old(self).machine(), stmt@, 0, fuel),
                        total == loop_while(w, self.machine(), stmt@, done as nat, fuel),
                    decreases LOOP_LIMIT - done,
                {
                    match self.eval_expr(condition) {
                        Err(f) => {
                            return Err(f);
                        },
                        Ok(Value::Bool(true)) => {},
                        Ok(_) => {
                            return Ok(None);
                        },
                    }
                    if done >= LOOP_LIMIT {
                        return Err(Fault::error(RuntimeErrorKind::InfiniteLoopSuspected));
                    }
                    match self.run_statements(body) {
                        Ok(None) => {},
                        Ok(Some(v)) => {
                            return Ok(Some(v));
                        },
                        Err(f) => {
                            return Err(f);
                        },
                    }
                    done += 1;
                }
            },
            _ => Ok(None),
        }
    }

    /// Runs the body of a `for` loop and then its update clause.
    fn run_for_round(&mut self, stmt: &Statement) -> (res: Result<Option<Value>, Fault>)
        requires
            stmt is For,
        ensures
            final(self).same_setting(old(self)),
            ({
                let out = for_round(
                    old(self).world(),
                    old(self).machine(),
                    stmt@,
                    old(self).fuel(),
                );
                final(self).machine() == out.machine && flow_view(res) == out.result
            }),
        decreases 3 * old(self).fuel() + 2, stmt, 0nat,
    {
        proof {
            lemma_statement_view(*stmt);
        }
        match stmt {
            Statement::For { update, body, .. } => {
                match self.run_statements(body) {
                    Ok(None) => {},
                    other => {
                        return other;
                    },
                }
                match update {
                    Some(step) => match self.eval_statement(step) {
                        Ok(_) => Ok(None),
                        Err(f) => Err(f),
                    },
                    None => Ok(None),
                }
            },
            _ => Ok(None),
        }
    }

    /// Runs a `for` loop after its initializer.
    fn run_for_loop(&mut self, stmt: &Statement) -> (res: Result<Option<Value>, Fault>)
        requires
            stmt is For,
        ensures
            final(self).same_setting(old(self)),
            ({
                let out = loop_for(
                    old(self).world(),
                    old(self).machine(),
                    stmt@,
                    0,
                    old(self).fuel(),
                );
                final(self).machine() == out.machine && flow_view(res) == out.result
            }),
        decreases 3 * old(self).fuel() + 2, stmt, LOOP_LIMIT + 1,
    {
        proof {
            lemma_statement_view(*stmt);
        }
        match stmt {
            Statement::For { condition, .. } => {
                let cond = match condition {
                    None => {
                        return self.run_for_round(stmt);
                    },
                    Some(c) => c,
                };
                let ghost w = self.world();
                let ghost fuel = self.fuel();
                let ghost total = loop_for(w, self.machine(), stmt@, 0, fuel);
                let mut done: usize = 0;
                loop
                    invariant
                        done <= LOOP_LIMIT,
                        self.same_setting(old(self)),
                        w == old(self).world(),
                        fuel == old(self).fuel(),
                        stmt matches Statement::For { condition: c, .. } && c == condition,
                        stmt@ == crate::ast::statement_shape(*stmt),
                        condition == Some(*cond),
                        total == loop_for(w, old(self).machine(), stmt@, 0, fuel),
                        total == loop_for(w, self.machine(), stmt@, done as nat, fuel),
                    decreases LOOP_LIMIT - done,
                {
                    match self.eval_expr(cond) {
                        Err(f) => {
                            return Err(f);
                        },
                        Ok(Value::Bool(true)) => {},
                        Ok(_) => {
                            return Ok(None);
                        },
                    }
                    if done >= LOOP_LIMIT {
                        return Err(Fault::error(RuntimeErrorKind::InfiniteLoopSuspected));
                    }
                    match self.run_for_round(stmt) {
                        Ok(None) => {},
                        other => {
                            return other;
                        },
                    }
                    done += 1;
                }
            },
            _ => Ok(None),
        }
    }
}

/// The name of the owner of a body.
pub open spec fn owner_view(owner: Option<&String>) -> Option<Seq<char>> {
    match owner {
        Some(name) => Some(name@),
        None => None,
    }
}

/// The scope of a call: each parameter bound to its argument.
fn bind_parameters(params: &Vec<String>, args: Vec<Value>) -> (scope: Scope)
    requires
        params.len() == args.len(),
    ensures
        scope@ == parameter_scope(strings_view(params@), values_view(args@)),
{
    let ghost names = strings_view(params@);
    let ghost values = values_view(args@);
    let mut args = args;
    let mut scope = Scope::new();
    let mut i: usize = 0;
    assert(names.take(0) =~= Seq::empty());
    while i < params.len()
        invariant
            i <= params.len(),
            params.len() == args.len(),
            names == strings_view(params@),
            values.len() == args.len(),
            forall|j: int| i <= j < args.len() ==> args@[j]@ == values[j],
            scope@ == parameter_scope(names.take(i as int), values.take(i as int)),
        decreases params.len() - i,
    {
        let mut taken = Value::Void;
        core::mem::swap(&mut taken, &mut args[i]);
        scope.set(params[i].clone(), taken);
        proof {
            assert(names.take(i + 1).drop_last() =~= names.take(i as int));
            assert(values.take(i + 1).drop_last() =~= values.take(i as int));
        }
        i += 1;
    }
    assert(names.take(i as int) =~= names);
    assert(values.take(i as int) =~= values);
    scope
}

} // verus!
