//! What programs mean: the evaluator's behaviour as mathematical functions.
//!
//! Evaluation is a function of the world (the functions that can be called
//! and the known facts about floating-point numbers), the machine state (the
//! scopes and the lines printed so far), the syntax, and the number of calls
//! that may still be nested. It gives the state afterwards and either a
//! result or the fault that stopped it.

use vstd::prelude::*;
use crate::ast::{
    is_array_assign_form, is_assign_form, BinaryOp, ExpressionView, StatementView, UnaryOp,
};
use crate::fault::{
    annotated, plain_error, FaultView, Mismatch, RuntimeErrorKindView, ValueKind,
};
use crate::floats::{
    at_least_epsilon, below_epsilon, is_zero, known_bits, known_text, less, less_or_equal,
    negated, FloatFactView, FloatOp, FloatQueryView,
};
use crate::text::int_text;
use crate::value::{
    env_assign, env_declare, env_lookup, env_pop, kind_of, parameter_scope, EnvironmentView,
    ValueView,
};

verus! {

/// A function that can be called by name.
pub ghost struct FunctionView {
    pub file_prefix: Seq<char>,
    pub name: Seq<char>,
    pub is_main: bool,
    pub params: Seq<Seq<char>>,
    pub body: Seq<StatementView>,
}

/// The functions that an imported module contributes.
pub ghost struct ModuleView {
    pub name: Seq<char>,
    pub functions: Seq<FunctionView>,
}

/// What stays the same while a program runs.
pub ghost struct World {
    /// The program's own functions, in the order in which they were declared.
    pub functions: Seq<FunctionView>,
    /// The imported modules, in the order in which they were imported.
    pub modules: Seq<ModuleView>,
    /// The known facts about floating-point numbers.
    pub floats: Seq<FloatFactView>,
}

/// What changes while a program runs.
pub ghost struct Machine {
    /// The scopes, the innermost last.
    pub scopes: EnvironmentView,
    /// The lines printed so far.
    pub output: Seq<Seq<char>>,
}

/// The state after an evaluation, and its result or the fault that stopped it.
pub ghost struct Outcome<T> {
    pub machine: Machine,
    pub result: Result<T, FaultView>,
}

/// The most body executions that one loop may make.
pub open spec fn loop_limit() -> nat {
    100_000
}

pub open spec fn succeed<T>(machine: Machine, value: T) -> Outcome<T> {
    Outcome { machine, result: Ok(value) }
}

pub open spec fn fail<T>(machine: Machine, fault: FaultView) -> Outcome<T> {
    Outcome { machine, result: Err(fault) }
}

pub open spec fn mismatch(m: Mismatch) -> FaultView {
    plain_error(RuntimeErrorKindView::TypeMismatch(m))
}

/// The machine with one more scope, the innermost.
pub open spec fn entered(m: Machine, scope: Map<Seq<char>, ValueView>) -> Machine {
    Machine { scopes: m.scopes.push(scope), output: m.output }
}

/// The outcome after the innermost scope has been left.
pub open spec fn left<T>(o: Outcome<T>) -> Outcome<T> {
    Outcome {
        machine: Machine { scopes: env_pop(o.machine.scopes), output: o.machine.output },
        result: o.result,
    }
}

/// The last of the first `upto` functions that has the name.
pub open spec fn find_function(functions: Seq<FunctionView>, name: Seq<char>, upto: int) -> Option<
    FunctionView,
>
    decreases upto,
{
    if upto <= 0 || upto > functions.len() {
        None
    } else if functions[upto - 1].name == name {
        Some(functions[upto - 1])
    } else {
        find_function(functions, name, upto - 1)
    }
}

/// The function of that name in the first module from `from` on that has one.
pub open spec fn find_in_modules(modules: Seq<ModuleView>, name: Seq<char>, from: int) -> Option<
    FunctionView,
>
    decreases modules.len() - from,
{
    if from < 0 || from >= modules.len() {
        None
    } else {
        match find_function(modules[from].functions, name, modules[from].functions.len() as int) {
            Some(f) => Some(f),
            None => find_in_modules(modules, name, from + 1),
        }
    }
}

/// The function that a name in call position stands for: one of the
/// program's own before one of an imported module, and the modules in the
/// order in which they were imported. Variables play no part.
pub open spec fn resolve(w: World, name: Seq<char>) -> Option<FunctionView> {
    match find_function(w.functions, name, w.functions.len() as int) {
        Some(f) => Some(f),
        None => find_in_modules(w.modules, name, 0),
    }
}

/// The answer to a query, or the fault that names it.
pub open spec fn float_result(floats: Seq<FloatFactView>, query: FloatQueryView) -> Result<
    u64,
    FaultView,
> {
    match known_bits(floats, query) {
        Some(bits) => Ok(bits),
        None => Err(FaultView::NeedsFloat(query)),
    }
}

/// The text of a floating-point number, or the fault that asks for it.
pub open spec fn float_text(floats: Seq<FloatFactView>, bits: u64) -> Result<Seq<char>, FaultView> {
    match known_text(floats, bits) {
        Some(text) => Ok(text),
        None => Err(FaultView::NeedsFloat(FloatQueryView::Text(bits))),
    }
}

pub open spec fn division_by_zero(modulo: bool) -> FaultView {
    plain_error(RuntimeErrorKindView::DivisionOrModuloByZero { modulo })
}

/// The quotient rounded towards zero; the one quotient that does not fit
/// wraps around.
pub open spec fn quotient(l: i64, r: i64) -> i64
    recommends
        r != 0,
{
    match l.checked_div(r) {
        Some(q) => q,
        None => i64::MIN,
    }
}

/// The remainder of the division rounded towards zero.
pub open spec fn remainder(l: i64, r: i64) -> i64
    recommends
        r != 0,
{
    match l.checked_rem(r) {
        Some(q) => q,
        None => 0,
    }
}

/// A binary operation on two integers: machine arithmetic that wraps around.
pub open spec fn integer_op(l: i64, op: BinaryOp, r: i64) -> Result<ValueView, FaultView> {
    match op {
        BinaryOp::Add => Ok(ValueView::Number(l.wrapping_add(r))),
        BinaryOp::Subtract => Ok(ValueView::Number(l.wrapping_sub(r))),
        BinaryOp::Multiply => Ok(ValueView::Number(l.wrapping_mul(r))),
        BinaryOp::Divide => if r == 0 {
            Err(division_by_zero(false))
        } else {
            Ok(ValueView::Number(quotient(l, r)))
        },
        BinaryOp::Modulo => if r == 0 {
            Err(division_by_zero(true))
        } else {
            Ok(ValueView::Number(remainder(l, r)))
        },
        BinaryOp::Equal => Ok(ValueView::Bool(l == r)),
        BinaryOp::NotEqual => Ok(ValueView::Bool(l != r)),
        BinaryOp::LessThan => Ok(ValueView::Bool(l < r)),
        BinaryOp::GreaterThan => Ok(ValueView::Bool(l > r)),
        BinaryOp::LessThanOrEqual => Ok(ValueView::Bool(l <= r)),
        BinaryOp::GreaterThanOrEqual => Ok(ValueView::Bool(l >= r)),
        BinaryOp::And | BinaryOp::Or => Err(
            mismatch(Mismatch::Binary { op, left: ValueKind::Number, right: ValueKind::Number }),
        ),
    }
}

/// Whether the operator is defined on floating-point numbers.
pub open spec fn defined_on_floats(op: BinaryOp) -> bool {
    !(op is Modulo || op is And || op is Or)
}

pub open spec fn arithmetic(floats: Seq<FloatFactView>, op: FloatOp, l: u64, r: u64) -> Result<
    ValueView,
    FaultView,
> {
    match float_result(floats, FloatQueryView::Arithmetic { op, left: l, right: r }) {
        Ok(bits) => Ok(ValueView::Float(bits)),
        Err(f) => Err(f),
    }
}

/// A binary operation on two floating-point numbers. Division by zero is an
/// error. Two numbers are equal where their difference is below the machine
/// epsilon, and unequal where it is at least that.
pub open spec fn float_op(floats: Seq<FloatFactView>, l: u64, op: BinaryOp, r: u64) -> Result<
    ValueView,
    FaultView,
> {
    match op {
        BinaryOp::Add => arithmetic(floats, FloatOp::Add, l, r),
        BinaryOp::Subtract => arithmetic(floats, FloatOp::Subtract, l, r),
        BinaryOp::Multiply => arithmetic(floats, FloatOp::Multiply, l, r),
        BinaryOp::Divide => if is_zero(r) {
            Err(division_by_zero(false))
        } else {
            arithmetic(floats, FloatOp::Divide, l, r)
        },
        BinaryOp::Equal => match float_result(
            floats,
            FloatQueryView::Arithmetic { op: FloatOp::Subtract, left: l, right: r },
        ) {
            Ok(d) => Ok(ValueView::Bool(below_epsilon(d))),
            Err(f) => Err(f),
        },
        BinaryOp::NotEqual => match float_result(
            floats,
            FloatQueryView::Arithmetic { op: FloatOp::Subtract, left: l, right: r },
        ) {
            Ok(d) => Ok(ValueView::Bool(at_least_epsilon(d))),
            Err(f) => Err(f),
        },
        BinaryOp::LessThan => Ok(ValueView::Bool(less(l, r))),
        BinaryOp::GreaterThan => Ok(ValueView::Bool(less(r, l))),
        BinaryOp::LessThanOrEqual => Ok(ValueView::Bool(less_or_equal(l, r))),
        BinaryOp::GreaterThanOrEqual => Ok(ValueView::Bool(less_or_equal(r, l))),
        BinaryOp::Modulo | BinaryOp::And | BinaryOp::Or => Err(
            mismatch(Mismatch::Binary { op, left: ValueKind::Float, right: ValueKind::Float }),
        ),
    }
}

/// A binary operation on two booleans.
pub open spec fn bool_op(l: bool, op: BinaryOp, r: bool) -> Result<ValueView, FaultView> {
    match op {
        BinaryOp::And => Ok(ValueView::Bool(l && r)),
        BinaryOp::Or => Ok(ValueView::Bool(l || r)),
        BinaryOp::Equal => Ok(ValueView::Bool(l == r)),
        BinaryOp::NotEqual => Ok(ValueView::Bool(l != r)),
        _ => Err(mismatch(Mismatch::Binary { op, left: ValueKind::Bool, right: ValueKind::Bool })),
    }
}

/// A binary operation on two strings.
pub open spec fn string_op(l: Seq<char>, op: BinaryOp, r: Seq<char>) -> Result<ValueView, FaultView> {
    match op {
        BinaryOp::Add => Ok(ValueView::String(l + r)),
        BinaryOp::Equal => Ok(ValueView::Bool(l == r)),
        BinaryOp::NotEqual => Ok(ValueView::Bool(l != r)),
        _ => Err(
            mismatch(Mismatch::Binary { op, left: ValueKind::String, right: ValueKind::String }),
        ),
    }
}

/// A binary operation on two values, by the kinds of the operands. An
/// integer beside a floating-point number is converted first. A string and a
/// number can only be joined.
pub open spec fn binary_op(floats: Seq<FloatFactView>, l: ValueView, op: BinaryOp, r: ValueView) -> Result<
    ValueView,
    FaultView,
> {
    let unsupported = Err(mismatch(Mismatch::Binary { op, left: kind_of(l), right: kind_of(r) }));
    match (l, r) {
        (ValueView::Number(a), ValueView::Number(b)) => integer_op(a, op, b),
        (ValueView::Float(a), ValueView::Float(b)) => float_op(floats, a, op, b),
        (ValueView::Number(a), ValueView::Float(b)) => if !defined_on_floats(op) {
            unsupported
        } else if op is Divide && is_zero(b) {
            Err(division_by_zero(false))
        } else {
            match float_result(floats, FloatQueryView::FromInteger(a)) {
                Ok(converted) => float_op(floats, converted, op, b),
                Err(f) => Err(f),
            }
        },
        (ValueView::Float(a), ValueView::Number(b)) => if !defined_on_floats(op) {
            unsupported
        } else if op is Divide && b == 0 {
            Err(division_by_zero(false))
        } else {
            match float_result(floats, FloatQueryView::FromInteger(b)) {
                Ok(converted) => float_op(floats, a, op, converted),
                Err(f) => Err(f),
            }
        },
        (ValueView::Bool(a), ValueView::Bool(b)) => bool_op(a, op, b),
        (ValueView::String(a), ValueView::String(b)) => string_op(a, op, b),
        (ValueView::String(a), ValueView::Number(b)) => if op is Add {
            Ok(ValueView::String(a + int_text(b as int)))
        } else {
            unsupported
        },
        (ValueView::Number(a), ValueView::String(b)) => if op is Add {
            Ok(ValueView::String(int_text(a as int) + b))
        } else {
            unsupported
        },
        (ValueView::String(a), ValueView::Float(b)) => if op is Add {
            match float_text(floats, b) {
                Ok(text) => Ok(ValueView::String(a + text)),
                Err(f) => Err(f),
            }
        } else {
            unsupported
        },
        (ValueView::Float(a), ValueView::String(b)) => if op is Add {
            match float_text(floats, a) {
                Ok(text) => Ok(ValueView::String(text + b)),
                Err(f) => Err(f),
            }
        } else {
            unsupported
        },
        _ => unsupported,
    }
}

/// A unary operation on a value.
pub open spec fn unary_op(op: UnaryOp, v: ValueView) -> Result<ValueView, FaultView> {
    match (op, v) {
        (UnaryOp::Negate, ValueView::Number(n)) => Ok(ValueView::Number(0i64.wrapping_sub(n))),
        (UnaryOp::Negate, ValueView::Float(bits)) => Ok(ValueView::Float(negated(bits))),
        (UnaryOp::Not, ValueView::Bool(b)) => Ok(ValueView::Bool(!b)),
        _ => Err(mismatch(Mismatch::Unary { op, operand: kind_of(v) })),
    }
}

pub open spec fn bad_index(container: ValueKind, index: i64, length: nat) -> FaultView {
    plain_error(
        RuntimeErrorKindView::NegativeOrOutOfBoundsIndex {
            container,
            index,
            length: length as usize,
        },
    )
}

/// The element of an array, or the character of a string as a string of its
/// own, at an integer index from zero up to the length.
pub open spec fn index_value(container: ValueView, index: ValueView) -> Result<ValueView, FaultView> {
    match (container, index) {
        (ValueView::Array(items), ValueView::Number(i)) => if 0 <= i < items.len() {
            Ok(items[i as int])
        } else {
            Err(bad_index(ValueKind::Array, i, items.len()))
        },
        (ValueView::String(s), ValueView::Number(i)) => if 0 <= i < s.len() {
            Ok(ValueView::String(seq![s[i as int]]))
        } else {
            Err(bad_index(ValueKind::String, i, s.len()))
        },
        _ => Err(
            mismatch(Mismatch::NotIndexable { container: kind_of(container), index: kind_of(index) }),
        ),
    }
}

/// The array with one element replaced.
pub open spec fn updated_array(container: ValueView, index: ValueView, value: ValueView) -> Result<
    ValueView,
    FaultView,
> {
    match (container, index) {
        (ValueView::Array(items), ValueView::Number(i)) => if 0 <= i < items.len() {
            Ok(ValueView::Array(items.update(i as int, value)))
        } else {
            Err(bad_index(ValueKind::Array, i, items.len()))
        },
        _ => Err(
            mismatch(Mismatch::NotIndexable { container: kind_of(container), index: kind_of(index) }),
        ),
    }
}

/// The text that `print` writes for a value, and that joining a string and a
/// number uses.
pub open spec fn render(floats: Seq<FloatFactView>, v: ValueView) -> Result<Seq<char>, FaultView>
    decreases v, 0nat,
{
    match v {
        ValueView::Number(n) => Ok(int_text(n as int)),
        ValueView::Float(bits) => float_text(floats, bits),
        ValueView::Bool(b) => Ok(
            if b {
                "true"@
            } else {
                "false"@
            },
        ),
        ValueView::Void => Ok("void"@),
        ValueView::String(s) => Ok(s),
        ValueView::Array(items) => match render_items(floats, items, 0) {
            Ok(inner) => Ok("["@ + inner + "]"@),
            Err(f) => Err(f),
        },
        ValueView::Closure { .. } => Ok("<function>"@),
    }
}

/// The texts of the items from `from` on, each but the very first after a
/// comma and a space.
pub open spec fn render_items(floats: Seq<FloatFactView>, items: Seq<ValueView>, from: int) -> Result<
    Seq<char>,
    FaultView,
>
    decreases items, items.len() - from,
{
    if from < 0 || from >= items.len() {
        Ok(Seq::empty())
    } else {
        match render(floats, items[from]) {
            Err(f) => Err(f),
            Ok(head) => match render_items(floats, items, from + 1) {
                Err(f) => Err(f),
                Ok(rest) => Ok(
                    (if from > 0 {
                        ", "@
                    } else {
                        Seq::empty()
                    }) + head + rest,
                ),
            },
        }
    }
}

pub open spec fn eval_expr(w: World, m: Machine, e: ExpressionView, fuel: nat) -> Outcome<ValueView>
    decreases 3 * fuel + 2, e, 0nat,
{
    match e {
        ExpressionView::Number(n) => succeed(m, ValueView::Number(n)),
        ExpressionView::Float(text) => match float_result(
            w.floats,
            FloatQueryView::Literal(text),
        ) {
            Ok(bits) => succeed(m, ValueView::Float(bits)),
            Err(f) => fail(m, f),
        },
        ExpressionView::Bool(b) => succeed(m, ValueView::Bool(b)),
        ExpressionView::String(s) => succeed(m, ValueView::String(s)),
        ExpressionView::Identifier(name) => match env_lookup(m.scopes, name) {
            Some(v) => succeed(m, v),
            None => fail(m, plain_error(RuntimeErrorKindView::UndefinedVariable(name))),
        },
        ExpressionView::Binary { left, op, right } => {
            let l = eval_expr(w, m, *left, fuel);
            match l.result {
                Err(f) => fail(l.machine, f),
                Ok(lv) => {
                    let r = eval_expr(w, l.machine, *right, fuel);
                    match r.result {
                        Err(f) => fail(r.machine, f),
                        Ok(rv) => Outcome {
                            machine: r.machine,
                            result: binary_op(w.floats, lv, op, rv),
                        },
                    }
                },
            }
        },
        ExpressionView::Unary { op, expr } => {
            let v = eval_expr(w, m, *expr, fuel);
            match v.result {
                Err(f) => fail(v.machine, f),
                Ok(x) => Outcome { machine: v.machine, result: unary_op(op, x) },
            }
        },
        ExpressionView::Call { callee, arguments } => {
            if is_assign_form(*callee, arguments) {
                let name = arguments[0]->Identifier_0;
                let v = eval_expr(w, m, arguments[1], fuel);
                match v.result {
                    Err(f) => fail(v.machine, f),
                    Ok(x) => match env_assign(v.machine.scopes, name, x) {
                        Some(scopes) => succeed(
                            Machine { scopes, output: v.machine.output },
                            x,
                        ),
                        None => fail(
                            v.machine,
                            plain_error(RuntimeErrorKindView::InvalidAssignmentTarget(Some(name))),
                        ),
                    },
                }
            } else if is_array_assign_form(*callee, arguments) {
                match arguments[0] {
                    ExpressionView::Identifier(name) => {
                        let i = eval_expr(w, m, arguments[1], fuel);
                        match i.result {
                            Err(f) => fail(i.machine, f),
                            Ok(index) => {
                                let v = eval_expr(w, i.machine, arguments[2], fuel);
                                match v.result {
                                    Err(f) => fail(v.machine, f),
                                    Ok(x) => store_element(v.machine, name, index, x),
                                }
                            },
                        }
                    },
                    _ => fail(
                        m,
                        plain_error(RuntimeErrorKindView::InvalidAssignmentTarget(None)),
                    ),
                }
            } else {
                let args = eval_exprs(w, m, arguments, 0, fuel);
                match args.result {
                    Err(f) => fail(args.machine, f),
                    Ok(values) => match *callee {
                        ExpressionView::Identifier(name) => call_function(
                            w,
                            args.machine,
                            name,
                            values,
                            fuel,
                        ),
                        _ => {
                            let c = eval_expr(w, args.machine, *callee, fuel);
                            match c.result {
                                Err(f) => fail(c.machine, f),
                                Ok(ValueView::Closure { params, body, env }) => call_closure(
                                    w,
                                    c.machine,
                                    params,
                                    body,
                                    env,
                                    values,
                                    fuel,
                                ),
                                Ok(other) => fail(
                                    c.machine,
                                    mismatch(Mismatch::NotCallable { found: kind_of(other) }),
                                ),
                            }
                        },
                    },
                }
            }
        },
        ExpressionView::Array { elements } => {
            let items = eval_exprs(w, m, elements, 0, fuel);
            match items.result {
                Err(f) => fail(items.machine, f),
                Ok(values) => succeed(items.machine, ValueView::Array(values)),
            }
        },
        ExpressionView::ArrayAccess { array, index } => {
            let a = eval_expr(w, m, *array, fuel);
            match a.result {
                Err(f) => fail(a.machine, f),
                Ok(container) => {
                    let i = eval_expr(w, a.machine, *index, fuel);
                    match i.result {
                        Err(f) => fail(i.machine, f),
                        Ok(at) => Outcome { machine: i.machine, result: index_value(container, at) },
                    }
                },
            }
        },
        ExpressionView::Closure { params, body } => succeed(
            m,
            ValueView::Closure { params, body, env: m.scopes },
        ),
    }
}

/// Replaces one element of the array that a variable holds. The value of
/// the assignment is the value stored.
pub open spec fn store_element(m: Machine, name: Seq<char>, index: ValueView, value: ValueView) -> Outcome<
    ValueView,
> {
    match env_lookup(m.scopes, name) {
        None => fail(m, plain_error(RuntimeErrorKindView::InvalidAssignmentTarget(Some(name)))),
        Some(container) => match updated_array(container, index, value) {
            Err(f) => fail(m, f),
            Ok(array) => match env_assign(m.scopes, name, array) {
                Some(scopes) => succeed(Machine { scopes, output: m.output }, value),
                None => fail(
                    m,
                    plain_error(RuntimeErrorKindView::InvalidAssignmentTarget(Some(name))),
                ),
            },
        },
    }
}

/// The values of the expressions from `from` on, evaluated in order.
pub open spec fn eval_exprs(
    w: World,
    m: Machine,
    expressions: Seq<ExpressionView>,
    from: int,
    fuel: nat,
) -> Outcome<Seq<ValueView>>
    decreases 3 * fuel + 2, expressions, expressions.len() - from,
{
    if from < 0 || from >= expressions.len() {
        succeed(m, Seq::empty())
    } else {
        let head = eval_expr(w, m, expressions[from], fuel);
        match head.result {
            Err(f) => fail(head.machine, f),
            Ok(v) => {
                let rest = eval_exprs(w, head.machine, expressions, from + 1, fuel);
                match rest.result {
                    Err(f) => fail(rest.machine, f),
                    Ok(values) => succeed(rest.machine, seq![v] + values),
                }
            },
        }
    }
}

/// A call by name: of the function that the name resolves to.
pub open spec fn call_function(
    w: World,
    m: Machine,
    name: Seq<char>,
    args: Seq<ValueView>,
    fuel: nat,
) -> Outcome<ValueView>
    decreases 3 * fuel + 1, args, 0nat,
{
    match resolve(w, name) {
        Some(f) => execute_function(w, m, f, args, fuel),
        None => fail(m, plain_error(RuntimeErrorKindView::UndefinedFunction(name))),
    }
}

/// A call of a function: its body runs in one new scope that binds the
/// parameters, on top of the caller's scopes, and the scope is left again
/// whatever the body did. With no nesting left the call fails.
pub open spec fn execute_function(
    w: World,
    m: Machine,
    f: FunctionView,
    args: Seq<ValueView>,
    fuel: nat,
) -> Outcome<ValueView>
    decreases 3 * fuel, args, 0nat,
{
    if args.len() != f.params.len() {
        fail(
            m,
            plain_error(
                RuntimeErrorKindView::ArityMismatch {
                    function: Some(f.name),
                    expected: f.params.len() as usize,
                    found: args.len() as usize,
                },
            ),
        )
    } else if fuel == 0 {
        fail(m, plain_error(RuntimeErrorKindView::RecursionLimitExceeded))
    } else {
        left(
            run_body(
                w,
                entered(m, parameter_scope(f.params, args)),
                f.body,
                0,
                Some(f.name),
                (fuel - 1) as nat,
            ),
        )
    }
}

/// A call of a closure: its body runs in the scopes that the closure holds
/// and one new scope that binds the parameters. The caller's scopes come
/// back as they were.
pub open spec fn call_closure(
    w: World,
    m: Machine,
    params: Seq<Seq<char>>,
    body: Seq<StatementView>,
    env: EnvironmentView,
    args: Seq<ValueView>,
    fuel: nat,
) -> Outcome<ValueView>
    decreases 3 * fuel, args, 0nat,
{
    if args.len() != params.len() {
        fail(
            m,
            plain_error(
                RuntimeErrorKindView::ArityMismatch {
                    function: None,
                    expected: params.len() as usize,
                    found: args.len() as usize,
                },
            ),
        )
    } else if fuel == 0 {
        fail(m, plain_error(RuntimeErrorKindView::RecursionLimitExceeded))
    } else {
        let inside = Machine { scopes: env.push(parameter_scope(params, args)), output: m.output };
        let done = run_body(w, inside, body, 0, None, (fuel - 1) as nat);
        Outcome {
            machine: Machine { scopes: m.scopes, output: done.machine.output },
            result: done.result,
        }
    }
}

/// The statements of a body from `from` on: the first value returned ends
/// the body, the end of the body gives void, and a fault leaves with the
/// number of the statement that failed.
pub open spec fn run_body(
    w: World,
    m: Machine,
    body: Seq<StatementView>,
    from: int,
    owner: Option<Seq<char>>,
    fuel: nat,
) -> Outcome<ValueView>
    decreases 3 * fuel + 2, body, body.len() - from,
{
    if from < 0 || from >= body.len() {
        succeed(m, ValueView::Void)
    } else {
        let step = eval_stmt(w, m, body[from], fuel);
        match step.result {
            Err(f) => fail(step.machine, annotated(f, owner, (from + 1) as usize)),
            Ok(Some(v)) => succeed(step.machine, v),
            Ok(None) => run_body(w, step.machine, body, from + 1, owner, fuel),
        }
    }
}

/// The statements from `from` on, in the current scope: the first value
/// returned or fault ends the run.
pub open spec fn run_block(
    w: World,
    m: Machine,
    statements: Seq<StatementView>,
    from: int,
    fuel: nat,
) -> Outcome<Option<ValueView>>
    decreases 3 * fuel + 2, statements, statements.len() - from,
{
    if from < 0 || from >= statements.len() {
        succeed(m, None)
    } else {
        let step = eval_stmt(w, m, statements[from], fuel);
        match step.result {
            Err(f) => step,
            Ok(Some(v)) => step,
            Ok(None) => run_block(w, step.machine, statements, from + 1, fuel),
        }
    }
}

/// One statement. The result is the value that a `return` inside it gave,
/// if one was reached.
pub open spec fn eval_stmt(w: World, m: Machine, s: StatementView, fuel: nat) -> Outcome<
    Option<ValueView>,
>
    decreases 3 * fuel + 2, s, loop_limit() + 2,
{
    match s {
        StatementView::Let { name, value } => {
            let v = eval_expr(w, m, value, fuel);
            match v.result {
                Err(f) => fail(v.machine, f),
                Ok(x) => succeed(
                    Machine {
                        scopes: env_declare(v.machine.scopes, name, x),
                        output: v.machine.output,
                    },
                    None,
                ),
            }
        },
        StatementView::Assign { name, value } => {
            let v = eval_expr(w, m, value, fuel);
            match v.result {
                Err(f) => fail(v.machine, f),
                Ok(x) => match env_assign(v.machine.scopes, name, x) {
                    Some(scopes) => succeed(Machine { scopes, output: v.machine.output }, None),
                    None => fail(
                        v.machine,
                        plain_error(RuntimeErrorKindView::InvalidAssignmentTarget(Some(name))),
                    ),
                },
            }
        },
        StatementView::Print(e) => {
            let v = eval_expr(w, m, e, fuel);
            match v.result {
                Err(f) => fail(v.machine, f),
                Ok(x) => match render(w.floats, x) {
                    Ok(line) => succeed(
                        Machine { scopes: v.machine.scopes, output: v.machine.output.push(line) },
                        None,
                    ),
                    Err(f) => fail(v.machine, f),
                },
            }
        },
        StatementView::ExprStmt(e) => {
            let v = eval_expr(w, m, e, fuel);
            match v.result {
                Err(f) => fail(v.machine, f),
                Ok(_) => succeed(v.machine, None),
            }
        },
        StatementView::Expression(e) => {
            let v = eval_expr(w, m, e, fuel);
            match v.result {
                Err(f) => fail(v.machine, f),
                Ok(_) => succeed(v.machine, None),
            }
        },
        StatementView::Return(e) => {
            let v = eval_expr(w, m, e, fuel);
            match v.result {
                Err(f) => fail(v.machine, f),
                Ok(x) => succeed(v.machine, Some(x)),
            }
        },
        StatementView::If { condition, then_branch, else_branch } => {
            let c = eval_expr(w, m, condition, fuel);
            match c.result {
                Err(f) => fail(c.machine, f),
                Ok(ValueView::Bool(true)) => run_block(w, c.machine, then_branch, 0, fuel),
                Ok(ValueView::Bool(false)) => match else_branch {
                    Some(b) => run_block(w, c.machine, b, 0, fuel),
                    None => succeed(c.machine, None),
                },
                Ok(other) => fail(
                    c.machine,
                    mismatch(Mismatch::Condition { found: kind_of(other) }),
                ),
            }
        },
        StatementView::While { .. } => loop_while(w, m, s, 0, fuel),
        StatementView::For { init, .. } => {
            let inside = entered(m, Map::empty());
            let started = match init {
                Some(i) => eval_stmt(w, inside, *i, fuel),
                None => succeed(inside, None),
            };
            match started.result {
                Err(f) => left(fail(started.machine, f)),
                Ok(_) => left(loop_for(w, started.machine, s, 0, fuel)),
            }
        },
        StatementView::FunctionDef { .. } => succeed(m, None),
        StatementView::Import(_) => succeed(m, None),
        StatementView::Block(statements) => left(
            run_block(w, entered(m, Map::empty()), statements, 0, fuel),
        ),
        StatementView::Try { body, catch } => {
            let tried = run_block(w, m, body, 0, fuel);
            match tried.result {
                Err(FaultView::Runtime(_)) => run_block(w, tried.machine, catch, 0, fuel),
                _ => tried,
            }
        },
    }
}

/// A `while` loop that has run its body `done` times: while the condition is
/// `true` the body runs again, unless it has run as often as a loop may.
pub open spec fn loop_while(w: World, m: Machine, s: StatementView, done: nat, fuel: nat) -> Outcome<
    Option<ValueView>,
>
    decreases 3 * fuel + 2, s, loop_limit() + 1 - done,
{
    match s {
        StatementView::While { condition, body } => {
            let c = eval_expr(w, m, condition, fuel);
            match c.result {
                Err(f) => fail(c.machine, f),
                Ok(ValueView::Bool(true)) => if done >= loop_limit() {
                    fail(c.machine, plain_error(RuntimeErrorKindView::InfiniteLoopSuspected))
                } else {
                    let b = run_block(w, c.machine, body, 0, fuel);
                    match b.result {
                        Ok(None) => loop_while(w, b.machine, s, done + 1, fuel),
                        _ => b,
                    }
                },
                Ok(_) => succeed(c.machine, None),
            }
        },
        _ => succeed(m, None),
    }
}

/// The body of a `for` loop and then its update clause.
pub open spec fn for_round(w: World, m: Machine, s: StatementView, fuel: nat) -> Outcome<
    Option<ValueView>,
>
    decreases 3 * fuel + 2, s, 0nat,
{
    match s {
        StatementView::For { update, body, .. } => {
            let b = run_block(w, m, body, 0, fuel);
            match b.result {
                Ok(None) => match update {
                    Some(u) => {
                        let x = eval_stmt(w, b.machine, *u, fuel);
                        match x.result {
                            Err(f) => fail(x.machine, f),
                            Ok(_) => succeed(x.machine, None),
                        }
                    },
                    None => b,
                },
                _ => b,
            }
        },
        _ => succeed(m, None),
    }
}

/// A `for` loop, after its initializer, that has made `done` rounds. Without
/// a condition it makes one round. With one, it makes a round while the
/// condition is `true`, unless it has made as many as a loop may.
pub open spec fn loop_for(w: World, m: Machine, s: StatementView, done: nat, fuel: nat) -> Outcome<
    Option<ValueView>,
>
    decreases 3 * fuel + 2, s, loop_limit() + 1 - done,
{
    match s {
        StatementView::For { condition, .. } => match condition {
            None => if done == 0 {
                for_round(w, m, s, fuel)
            } else {
                succeed(m, None)
            },
            Some(cond) => {
                let c = eval_expr(w, m, cond, fuel);
                match c.result {
                    Err(f) => fail(c.machine, f),
                    Ok(ValueView::Bool(true)) => if done >= loop_limit() {
                        fail(c.machine, plain_error(RuntimeErrorKindView::InfiniteLoopSuspected))
                    } else {
                        let r = for_round(w, c.machine, s, fuel);
                        match r.result {
                            Ok(None) => loop_for(w, r.machine, s, done + 1, fuel),
                            _ => r,
                        }
                    },
                    Ok(_) => succeed(c.machine, None),
                }
            },
        },
        _ => succeed(m, None),
    }
}

} // verus!
