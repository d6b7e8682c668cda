//! Laws of the language: what holds of every program and every state.

use vstd::prelude::*;
use crate::ast::{is_array_assign_form, is_assign_form, BinaryOp, ExpressionView, StatementView};
use crate::fault::{plain_error, FaultView, RuntimeErrorKindView, ValueKind};
use crate::floats::{is_zero, FloatFactView};
use crate::grammar;
use crate::grammar::Grammar;
use crate::lexer::{lemma_lex_one_advances, lex_from, lex_one, Cursor, TokenView};
use crate::semantics::{
    bad_index, binary_op, call_closure, call_function, division_by_zero, eval_expr, eval_exprs,
    eval_stmt, fail, find_function, find_in_modules, index_value, integer_op, loop_limit,
    loop_while, quotient, remainder, render, resolve, run_block, succeed, Machine, ModuleView,
    Outcome, World,
};
use crate::value::{env_declare, env_lookup, env_pop, EnvironmentView, ValueView};

verus! {

/// Whether an operator is one of `+ - * / %`.
pub open spec fn is_arithmetic(op: BinaryOp) -> bool {
    op is Add || op is Subtract || op is Multiply || op is Divide || op is Modulo
}

/// Whether an expression is made of integer literals, `+ - * / %` and unary
/// minus alone.
pub open spec fn is_integer_arithmetic(e: ExpressionView) -> bool
    decreases e,
{
    match e {
        ExpressionView::Number(_) => true,
        ExpressionView::Binary { left, op, right } => is_arithmetic(op) && is_integer_arithmetic(
            *left,
        ) && is_integer_arithmetic(*right),
        ExpressionView::Unary { op, expr } => op is Negate && is_integer_arithmetic(*expr),
        _ => false,
    }
}

/// The value of an integer expression in machine arithmetic: sums,
/// differences and products wrap around, quotients round towards zero, and a
/// division or a remainder by zero is an error (`Err(true)` for a
/// remainder). The left operand comes first.
pub open spec fn machine_value(e: ExpressionView) -> Result<i64, bool>
    decreases e,
{
    match e {
        ExpressionView::Number(n) => Ok(n),
        ExpressionView::Binary { left, op, right } => match machine_value(*left) {
            Err(m) => Err(m),
            Ok(l) => match machine_value(*right) {
                Err(m) => Err(m),
                Ok(r) => match op {
                    BinaryOp::Add => Ok(l.wrapping_add(r)),
                    BinaryOp::Subtract => Ok(l.wrapping_sub(r)),
                    BinaryOp::Multiply => Ok(l.wrapping_mul(r)),
                    BinaryOp::Divide => if r == 0 {
                        Err(false)
                    } else {
                        Ok(quotient(l, r))
                    },
                    _ => if r == 0 {
                        Err(true)
                    } else {
                        Ok(remainder(l, r))
                    },
                },
            },
        },
        ExpressionView::Unary { expr, .. } => match machine_value(*expr) {
            Err(m) => Err(m),
            Ok(n) => Ok(0i64.wrapping_sub(n)),
        },
        _ => Ok(0),
    }
}

/// An integer expression evaluates to its value in machine arithmetic, in
/// every world and state and at every depth, and leaves the state as it was.
/// A division or remainder by zero is an error of the program.
pub proof fn law_integer_arithmetic(w: World, m: Machine, e: ExpressionView, fuel: nat)
    requires
        is_integer_arithmetic(e),
    ensures
        eval_expr(w, m, e, fuel) == (Outcome {
            machine: m,
            result: match machine_value(e) {
                Ok(n) => Ok(ValueView::Number(n)),
                Err(modulo) => Err(division_by_zero(modulo)),
            },
        }),
    decreases e,
{
    match e {
        ExpressionView::Binary { left, op, right } => {
            law_integer_arithmetic(w, m, *left, fuel);
            law_integer_arithmetic(w, m, *right, fuel);
        },
        ExpressionView::Unary { op, expr } => {
            law_integer_arithmetic(w, m, *expr, fuel);
        },
        _ => {},
    }
}

/// Dividing an integer expression by the literal `0`, or taking its
/// remainder, is an error of the program.
pub proof fn law_division_by_literal_zero(
    w: World,
    m: Machine,
    left: ExpressionView,
    op: BinaryOp,
    fuel: nat,
)
    requires
        is_integer_arithmetic(left),
        machine_value(left) is Ok,
        op is Divide || op is Modulo,
    ensures
        eval_expr(
            w,
            m,
            ExpressionView::Binary {
                left: Box::new(left),
                op,
                right: Box::new(ExpressionView::Number(0)),
            },
            fuel,
        ) == fail::<ValueView>(m, division_by_zero(op is Modulo)),
{
    law_integer_arithmetic(w, m, left, fuel);
    assert(eval_expr(w, m, ExpressionView::Number(0), fuel) == succeed(m, ValueView::Number(0)));
}

/// Dividing a number, integer or floating-point, by a floating-point zero
/// of either sign is the error that dividing an integer by zero is, whatever
/// is known about floating-point numbers.
pub proof fn law_float_division_by_zero(
    floats: Seq<FloatFactView>,
    dividend: ValueView,
    zero: u64,
)
    requires
        dividend is Number || dividend is Float,
        is_zero(zero),
    ensures
        binary_op(floats, dividend, BinaryOp::Divide, ValueView::Float(zero)) == Err::<
            ValueView,
            FaultView,
        >(division_by_zero(false)),
        integer_op(1, BinaryOp::Divide, 0) == Err::<ValueView, FaultView>(division_by_zero(false)),
{
}

/// A declaration in an inner scope leaves every outer binding as it was.
pub proof fn law_shadowing(env: EnvironmentView, name: Seq<char>, value: ValueView)
    requires
        env.len() >= 1,
    ensures
        env_pop(env_declare(env, name, value)) == env_pop(env),
        env_lookup(env_declare(env, name, value), name) == Some(value),
{
    assert(env_declare(env, name, value).drop_last() =~= env.drop_last());
}

/// A closure holds the scopes in which it was made.
pub proof fn law_closure_captures(
    w: World,
    m: Machine,
    params: Seq<Seq<char>>,
    body: Seq<StatementView>,
    fuel: nat,
)
    ensures
        eval_expr(w, m, ExpressionView::Closure { params, body }, fuel) == succeed(
            m,
            ValueView::Closure { params, body, env: m.scopes },
        ),
{
}

/// Whatever the body of a closure does to variables, the caller's scopes
/// are afterwards what they were before the call.
pub proof fn law_closure_isolation(
    w: World,
    m: Machine,
    params: Seq<Seq<char>>,
    body: Seq<StatementView>,
    env: EnvironmentView,
    args: Seq<ValueView>,
    fuel: nat,
)
    ensures
        call_closure(w, m, params, body, env, args, fuel).machine.scopes == m.scopes,
{
}

/// A name in call position stands for a function and never for a variable:
/// where no function has the name, the call fails, whatever the scopes hold.
pub proof fn law_call_by_name(
    w: World,
    m: Machine,
    name: Seq<char>,
    arguments: Seq<ExpressionView>,
    fuel: nat,
)
    requires
        resolve(w, name) is None,
        !is_assign_form(ExpressionView::Identifier(name), arguments),
        !is_array_assign_form(ExpressionView::Identifier(name), arguments),
        eval_exprs(w, m, arguments, 0, fuel).result is Ok,
    ensures
        eval_expr(
            w,
            m,
            ExpressionView::Call {
                callee: Box::new(ExpressionView::Identifier(name)),
                arguments,
            },
            fuel,
        ).result == Err::<ValueView, FaultView>(
            plain_error(RuntimeErrorKindView::UndefinedFunction(name)),
        ),
{
    let args = eval_exprs(w, m, arguments, 0, fuel);
    assert(call_function(w, args.machine, name, args.result->Ok_0, fuel) == fail::<ValueView>(
        args.machine,
        plain_error(RuntimeErrorKindView::UndefinedFunction(name)),
    ));
}

/// A `while` loop whose condition is the literal `true` and whose body is
/// empty, after `done` rounds.
proof fn lemma_idle_loop(w: World, m: Machine, done: nat, fuel: nat)
    requires
        done <= loop_limit(),
    ensures
        loop_while(
            w,
            m,
            StatementView::While { condition: ExpressionView::Bool(true), body: Seq::empty() },
            done,
            fuel,
        ) == fail::<Option<ValueView>>(
            m,
            plain_error(RuntimeErrorKindView::InfiniteLoopSuspected),
        ),
    decreases loop_limit() - done,
{
    let body = Seq::<StatementView>::empty();
    assert(eval_expr(w, m, ExpressionView::Bool(true), fuel) == succeed(m, ValueView::Bool(true)));
    assert(run_block(w, m, body, 0, fuel) == succeed::<Option<ValueView>>(m, None));
    if done < loop_limit() {
        lemma_idle_loop(w, m, done + 1, fuel);
    }
}

/// `while (true) {}` ends with the error that an endless loop is suspected,
/// and leaves the state as it was.
pub proof fn law_loop_guard(w: World, m: Machine, fuel: nat)
    ensures
        eval_stmt(
            w,
            m,
            StatementView::While { condition: ExpressionView::Bool(true), body: Seq::empty() },
            fuel,
        ) == fail::<Option<ValueView>>(
            m,
            plain_error(RuntimeErrorKindView::InfiniteLoopSuspected),
        ),
{
    lemma_idle_loop(w, m, 0, fuel);
}

/// The lines printed so far and `count` more lines of the same text.
pub open spec fn with_lines(output: Seq<Seq<char>>, line: Seq<char>, count: nat) -> Seq<Seq<char>>
    decreases count,
{
    if count == 0 {
        output
    } else {
        with_lines(output.push(line), line, (count - 1) as nat)
    }
}

/// The statement `while (true) { print text; }`.
pub open spec fn printing_loop(text: Seq<char>) -> StatementView {
    StatementView::While {
        condition: ExpressionView::Bool(true),
        body: seq![StatementView::Print(ExpressionView::String(text))],
    }
}

proof fn lemma_printing_loop(w: World, m: Machine, text: Seq<char>, done: nat, fuel: nat)
    requires
        done <= loop_limit(),
    ensures
        loop_while(w, m, printing_loop(text), done, fuel) == fail::<Option<ValueView>>(
            Machine {
                scopes: m.scopes,
                output: with_lines(m.output, text, (loop_limit() - done) as nat),
            },
            plain_error(RuntimeErrorKindView::InfiniteLoopSuspected),
        ),
    decreases loop_limit() - done,
{
    assert(eval_expr(w, m, ExpressionView::Bool(true), fuel) == succeed(m, ValueView::Bool(true)));
    if done < loop_limit() {
        let printed = Machine { scopes: m.scopes, output: m.output.push(text) };
        let body = seq![StatementView::Print(ExpressionView::String(text))];
        assert(eval_expr(w, m, ExpressionView::String(text), fuel) == succeed(
            m,
            ValueView::String(text),
        ));
        assert(render(w.floats, ValueView::String(text)) == Ok::<Seq<char>, FaultView>(text));
        assert(eval_stmt(w, m, body[0], fuel) == succeed::<Option<ValueView>>(printed, None));
        assert(run_block(w, printed, body, 1, fuel) == succeed::<Option<ValueView>>(
            printed,
            None,
        ));
        assert(run_block(w, m, body, 0, fuel) == succeed::<Option<ValueView>>(printed, None));
        lemma_printing_loop(w, printed, text, done + 1, fuel);
        assert(with_lines(m.output, text, (loop_limit() - done) as nat) == with_lines(
            printed.output,
            text,
            (loop_limit() - done - 1) as nat,
        ));
    }
}

/// `while (true) { print text; }` prints the text exactly as often as a loop
/// may run its body, and then ends with the error that an endless loop is
/// suspected.
pub proof fn law_loop_guard_is_exact(w: World, m: Machine, text: Seq<char>, fuel: nat)
    ensures
        eval_stmt(w, m, printing_loop(text), fuel) == fail::<Option<ValueView>>(
            Machine { scopes: m.scopes, output: with_lines(m.output, text, loop_limit()) },
            plain_error(RuntimeErrorKindView::InfiniteLoopSuspected),
        ),
{
    lemma_printing_loop(w, m, text, 0, fuel);
}

/// A function of the program itself is found before one of an imported
/// module, whatever the modules hold.
pub proof fn law_own_functions_first(w: World, name: Seq<char>)
    requires
        find_function(w.functions, name, w.functions.len() as int) is Some,
    ensures
        resolve(w, name) == find_function(w.functions, name, w.functions.len() as int),
{
}

/// Where the program itself has no function of the name, and the module
/// with index `first` is the first imported one that has, the name stands
/// for that module's function, whatever later modules hold.
pub proof fn law_first_import_wins(w: World, name: Seq<char>, first: int)
    requires
        find_function(w.functions, name, w.functions.len() as int) is None,
        0 <= first < w.modules.len(),
        find_function(w.modules[first].functions, name, w.modules[first].functions.len() as int)
            is Some,
        forall|i: int|
            0 <= i < first ==> find_function(
                #[trigger] w.modules[i].functions,
                name,
                w.modules[i].functions.len() as int,
            ) is None,
    ensures
        resolve(w, name) == find_function(
            w.modules[first].functions,
            name,
            w.modules[first].functions.len() as int,
        ),
{
    lemma_find_in_modules(w.modules, name, 0, first);
}

proof fn lemma_find_in_modules(modules: Seq<ModuleView>, name: Seq<char>, from: int, first: int)
    requires
        0 <= from <= first < modules.len(),
        find_function(modules[first].functions, name, modules[first].functions.len() as int)
            is Some,
        forall|i: int|
            from <= i < first ==> find_function(
                #[trigger] modules[i].functions,
                name,
                modules[i].functions.len() as int,
            ) is None,
    ensures
        find_in_modules(modules, name, from) == find_function(
            modules[first].functions,
            name,
            modules[first].functions.len() as int,
        ),
    decreases first - from,
{
    if from < first {
        lemma_find_in_modules(modules, name, from + 1, first);
    }
}

/// Where the body of a `try` fails with an error of the program, the
/// statement does what its `catch` body does from the state that the failure
/// left, and the error is gone.
pub proof fn law_try_catch(
    w: World,
    m: Machine,
    body: Seq<StatementView>,
    catch: Seq<StatementView>,
    fuel: nat,
)
    requires
        run_block(w, m, body, 0, fuel).result matches Err(FaultView::Runtime(_)),
    ensures
        eval_stmt(w, m, StatementView::Try { body, catch }, fuel) == run_block(
            w,
            run_block(w, m, body, 0, fuel).machine,
            catch,
            0,
            fuel,
        ),
{
}

/// Where the body of a `try` does not fail, the statement does what the
/// body does.
pub proof fn law_try_without_failure(
    w: World,
    m: Machine,
    body: Seq<StatementView>,
    catch: Seq<StatementView>,
    fuel: nat,
)
    requires
        run_block(w, m, body, 0, fuel).result is Ok,
    ensures
        eval_stmt(w, m, StatementView::Try { body, catch }, fuel) == run_block(w, m, body, 0, fuel),
{
}

/// An index into an array that is below zero, or not below the length, is
/// an error that names the index and the length; any other gives the
/// element.
pub proof fn law_array_bounds(items: Seq<ValueView>, index: i64)
    ensures
        index_value(ValueView::Array(items), ValueView::Number(index)) == if 0 <= index
            < items.len() {
            Ok::<ValueView, FaultView>(items[index as int])
        } else {
            Err::<ValueView, FaultView>(bad_index(ValueKind::Array, index, items.len()))
        },
{
}

/// An index into a string that is below zero, or not below the length, is
/// an error that names the index and the length; any other gives the
/// character as a string of its own.
pub proof fn law_string_bounds(text: Seq<char>, index: i64)
    ensures
        index_value(ValueView::String(text), ValueView::Number(index)) == if 0 <= index
            < text.len() {
            Ok::<ValueView, FaultView>(ValueView::String(seq![text[index as int]]))
        } else {
            Err::<ValueView, FaultView>(bad_index(ValueKind::String, index, text.len()))
        },
{
}

/// The tokens of a text that tokenizes end with the end marker, and hold it
/// nowhere else.
pub proof fn law_end_marker(input: Seq<char>, cur: Cursor)
    requires
        lex_from(input, cur).error is None,
    ensures
        lex_from(input, cur).tokens.len() >= 1,
        lex_from(input, cur).tokens.last() == TokenView::EOF,
        forall|i: int|
            0 <= i < lex_from(input, cur).tokens.len() - 1 ==> !(#[trigger] lex_from(
                input,
                cur,
            ).tokens[i] is EOF),
    decreases input.len() - cur.pos,
{
    if 0 <= cur.pos < input.len() {
        let step = lex_one(input, cur);
        lemma_lex_one_advances(input, cur);
        law_end_marker(input, step.end);
        let rest = lex_from(input, step.end).tokens;
        match step.value {
            Some(t) => {
                assert(!(t is EOF));
                let all = seq![t] + rest;
                assert(all.last() == rest.last());
                assert forall|i: int| 0 <= i < all.len() - 1 implies !(#[trigger] all[i] is EOF) by {
                    if i > 0 {
                        assert(all[i] == rest[i - 1]);
                    }
                }
            },
            None => {},
        }
    }
}

/// A declaration that parses reads at least one token: the parser never
/// stands still.
pub proof fn law_declaration_reads_a_token(g: Grammar, pos: int)
    ensures
        grammar::declaration(g, pos) matches Ok(d) ==> d.used >= 1,
{
    reveal_with_fuel(grammar::declaration, 2);
    reveal_with_fuel(grammar::statement, 2);
    reveal_with_fuel(grammar::expression_statement, 2);
}

} // verus!
