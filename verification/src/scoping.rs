//! The discipline of scopes: what evaluation may and may not do to the
//! stack of scopes.
//!
//! An expression leaves the names of every scope as they were. A statement
//! may add names to the innermost scope and to no other. A block, a `for`
//! loop and a call leave the stack as deep as it was, with the same names
//! in every scope: what was declared inside is gone.

use vstd::prelude::*;
use crate::ast::{is_array_assign_form, is_assign_form, ExpressionView, StatementView};
use crate::semantics::{
    call_closure, call_function, entered, eval_expr, eval_exprs, eval_stmt, execute_function,
    for_round, left, loop_for, loop_limit, loop_while, resolve, run_block, run_body,
    store_element, FunctionView, Machine, World,
};
use crate::value::{
    env_assign, env_declare, env_lookup, env_pop, parameter_scope, EnvironmentView, ValueView,
};

verus! {

/// Both stacks are equally deep, and each scope holds the same names as the
/// scope at the same depth of the other.
pub open spec fn same_names(a: EnvironmentView, b: EnvironmentView) -> bool {
    &&& a.len() == b.len()
    &&& forall|i: int| 0 <= i < a.len() ==> #[trigger] a[i].dom() == b[i].dom()
}

/// Both stacks are equally deep, each scope but the innermost holds the same
/// names in both, and the innermost scope of `b` holds at least the names of
/// the innermost scope of `a`.
pub open spec fn grown(a: EnvironmentView, b: EnvironmentView) -> bool {
    &&& a.len() == b.len()
    &&& forall|i: int| 0 <= i < a.len() - 1 ==> #[trigger] a[i].dom() == b[i].dom()
    &&& a.len() > 0 ==> a.last().dom().subset_of(b.last().dom())
}

proof fn lemma_grown_chain(a: EnvironmentView, b: EnvironmentView, c: EnvironmentView)
    requires
        grown(a, b),
        grown(b, c),
    ensures
        grown(a, c),
{
}

proof fn lemma_same_names_chain(a: EnvironmentView, b: EnvironmentView, c: EnvironmentView)
    requires
        same_names(a, b),
        same_names(b, c),
    ensures
        same_names(a, c),
{
}

/// Leaving a scope that was entered, whatever names it gained, gives back
/// the names that there were before.
proof fn lemma_enter_and_leave(
    a: EnvironmentView,
    scope: Map<Seq<char>, ValueView>,
    b: EnvironmentView,
)
    requires
        grown(a.push(scope), b),
    ensures
        same_names(a, env_pop(b)),
{
    assert forall|i: int| 0 <= i < a.len() implies #[trigger] a[i].dom() == env_pop(b)[i].dom() by {
        assert(a.push(scope)[i].dom() == b[i].dom());
    }
}

/// An assignment leaves the names of every scope as they were.
pub proof fn lemma_assign_same_names(env: EnvironmentView, name: Seq<char>, value: ValueView)
    requires
        env_assign(env, name, value) is Some,
    ensures
        same_names(env, env_assign(env, name, value)->0),
    decreases env.len(),
{
    if env.len() > 0 {
        if env.last().contains_key(name) {
            let after = env.update(env.len() - 1, env.last().insert(name, value));
            assert(env.last().insert(name, value).dom() =~= env.last().dom());
            assert forall|i: int| 0 <= i < env.len() implies #[trigger] env[i].dom()
                == after[i].dom() by {}
        } else {
            lemma_assign_same_names(env.drop_last(), name, value);
            let outer = env_assign(env.drop_last(), name, value)->0;
            let after = outer.push(env.last());
            assert forall|i: int| 0 <= i < env.len() implies #[trigger] env[i].dom()
                == after[i].dom() by {
                if i < env.len() - 1 {
                    assert(env.drop_last()[i].dom() == outer[i].dom());
                }
            }
        }
    }
}

/// A declaration adds its name to the innermost scope and to no other.
pub proof fn lemma_declare_grown(env: EnvironmentView, name: Seq<char>, value: ValueView)
    ensures
        grown(env, env_declare(env, name, value)),
{
}

proof fn lemma_store_element(m: Machine, name: Seq<char>, index: ValueView, value: ValueView)
    ensures
        same_names(m.scopes, store_element(m, name, index, value).machine.scopes),
{
    match env_lookup(m.scopes, name) {
        Some(container) => {
            match crate::semantics::updated_array(container, index, value) {
                Ok(array) => {
                    if env_assign(m.scopes, name, array) is Some {
                        lemma_assign_same_names(m.scopes, name, array);
                    }
                },
                Err(_) => {},
            }
        },
        None => {},
    }
}

/// An expression leaves the names of every scope as they were.
pub proof fn law_expression_keeps_names(w: World, m: Machine, e: ExpressionView, fuel: nat)
    ensures
        same_names(m.scopes, eval_expr(w, m, e, fuel).machine.scopes),
    decreases 3 * fuel + 2, e, 2nat,
{
    match e {
        ExpressionView::Binary { left, op, right } => {
            law_expression_keeps_names(w, m, *left, fuel);
            let l = eval_expr(w, m, *left, fuel);
            if l.result is Ok {
                law_expression_keeps_names(w, l.machine, *right, fuel);
            }
        },
        ExpressionView::Unary { op, expr } => {
            law_expression_keeps_names(w, m, *expr, fuel);
        },
        ExpressionView::Call { .. } => {
            lemma_call_expression(w, m, e, fuel);
        },
        ExpressionView::Array { elements } => {
            lemma_expressions_keep_names(w, m, elements, 0, fuel);
        },
        ExpressionView::ArrayAccess { array, index } => {
            law_expression_keeps_names(w, m, *array, fuel);
            let a = eval_expr(w, m, *array, fuel);
            if a.result is Ok {
                law_expression_keeps_names(w, a.machine, *index, fuel);
            }
        },
        _ => {},
    }
}

/// A call, of a function, of a closure or one that stands for an
/// assignment, leaves the names of every scope as they were.
proof fn lemma_call_expression(w: World, m: Machine, e: ExpressionView, fuel: nat)
    requires
        e is Call,
    ensures
        same_names(m.scopes, eval_expr(w, m, e, fuel).machine.scopes),
    decreases 3 * fuel + 2, e, 1nat,
{
    let callee = e->callee;
    let arguments = e->arguments;
    if is_assign_form(*callee, arguments) {
        law_expression_keeps_names(w, m, arguments[1], fuel);
        let v = eval_expr(w, m, arguments[1], fuel);
        if v.result is Ok {
            let name = arguments[0]->Identifier_0;
            let assigned = env_assign(v.machine.scopes, name, v.result->Ok_0);
            if assigned is Some {
                lemma_assign_same_names(v.machine.scopes, name, v.result->Ok_0);
                lemma_same_names_chain(m.scopes, v.machine.scopes, assigned->0);
            }
        }
    } else if is_array_assign_form(*callee, arguments) {
        if arguments[0] is Identifier {
            law_expression_keeps_names(w, m, arguments[1], fuel);
            let i = eval_expr(w, m, arguments[1], fuel);
            if i.result is Ok {
                law_expression_keeps_names(w, i.machine, arguments[2], fuel);
                let v = eval_expr(w, i.machine, arguments[2], fuel);
                lemma_same_names_chain(m.scopes, i.machine.scopes, v.machine.scopes);
                if v.result is Ok {
                    let name = arguments[0]->Identifier_0;
                    lemma_store_element(v.machine, name, i.result->Ok_0, v.result->Ok_0);
                    lemma_same_names_chain(
                        m.scopes,
                        v.machine.scopes,
                        store_element(v.machine, name, i.result->Ok_0, v.result->Ok_0).machine.scopes,
                    );
                }
            }
        }
    } else {
        lemma_plain_call(w, m, e, fuel);
    }
}

/// A call of a function or of a closure leaves the names of every scope as
/// they were.
proof fn lemma_plain_call(w: World, m: Machine, e: ExpressionView, fuel: nat)
    requires
        e is Call,
        !is_assign_form(*e->callee, e->arguments),
        !is_array_assign_form(*e->callee, e->arguments),
    ensures
        same_names(m.scopes, eval_expr(w, m, e, fuel).machine.scopes),
    decreases 3 * fuel + 2, e, 0nat,
{
    let callee = e->callee;
    let arguments = e->arguments;
    lemma_expressions_keep_names(w, m, arguments, 0, fuel);
    let args = eval_exprs(w, m, arguments, 0, fuel);
    if args.result is Ok {
        let values = args.result->Ok_0;
        match *callee {
            ExpressionView::Identifier(name) => {
                lemma_call_function(w, args.machine, name, values, fuel);
                lemma_same_names_chain(
                    m.scopes,
                    args.machine.scopes,
                    call_function(w, args.machine, name, values, fuel).machine.scopes,
                );
            },
            _ => {
                law_expression_keeps_names(w, args.machine, *callee, fuel);
                let c = eval_expr(w, args.machine, *callee, fuel);
                lemma_same_names_chain(m.scopes, args.machine.scopes, c.machine.scopes);
                match c.result {
                    Ok(ValueView::Closure { params, body, env }) => {
                        assert(call_closure(w, c.machine, params, body, env, values, fuel).machine.scopes
                            == c.machine.scopes);
                    },
                    _ => {},
                }
            },
        }
    }
}

proof fn lemma_expressions_keep_names(
    w: World,
    m: Machine,
    expressions: Seq<ExpressionView>,
    from: int,
    fuel: nat,
)
    ensures
        same_names(m.scopes, eval_exprs(w, m, expressions, from, fuel).machine.scopes),
    decreases 3 * fuel + 2, expressions, expressions.len() - from,
{
    if 0 <= from < expressions.len() {
        law_expression_keeps_names(w, m, expressions[from], fuel);
        let head = eval_expr(w, m, expressions[from], fuel);
        if head.result is Ok {
            lemma_expressions_keep_names(w, head.machine, expressions, from + 1, fuel);
        }
    }
}

proof fn lemma_call_function(w: World, m: Machine, name: Seq<char>, args: Seq<ValueView>, fuel: nat)
    ensures
        same_names(m.scopes, call_function(w, m, name, args, fuel).machine.scopes),
    decreases 3 * fuel + 1, args, 0nat,
{
    match resolve(w, name) {
        Some(f) => {
            law_call_keeps_names(w, m, f, args, fuel);
        },
        None => {},
    }
}

/// A call of a function leaves the stack of scopes as deep as it was, with
/// the same names in every scope: the parameters and what the body declared
/// are gone, whether the body returned, ran to its end or failed.
pub proof fn law_call_keeps_names(
    w: World,
    m: Machine,
    f: FunctionView,
    args: Seq<ValueView>,
    fuel: nat,
)
    ensures
        same_names(m.scopes, execute_function(w, m, f, args, fuel).machine.scopes),
    decreases 3 * fuel, args, 0nat,
{
    if args.len() == f.params.len() && fuel > 0 {
        let scope = parameter_scope(f.params, args);
        lemma_run_body(w, entered(m, scope), f.body, 0, Some(f.name), (fuel - 1) as nat);
        let body = run_body(w, entered(m, scope), f.body, 0, Some(f.name), (fuel - 1) as nat);
        lemma_enter_and_leave(m.scopes, scope, body.machine.scopes);
    }
}

proof fn lemma_run_body(
    w: World,
    m: Machine,
    body: Seq<StatementView>,
    from: int,
    owner: Option<Seq<char>>,
    fuel: nat,
)
    ensures
        grown(m.scopes, run_body(w, m, body, from, owner, fuel).machine.scopes),
    decreases 3 * fuel + 2, body, body.len() - from,
{
    if 0 <= from < body.len() {
        law_statement_keeps_outer_names(w, m, body[from], fuel);
        let step = eval_stmt(w, m, body[from], fuel);
        if step.result == Ok::<Option<ValueView>, crate::fault::FaultView>(None) {
            lemma_run_body(w, step.machine, body, from + 1, owner, fuel);
            lemma_grown_chain(
                m.scopes,
                step.machine.scopes,
                run_body(w, step.machine, body, from + 1, owner, fuel).machine.scopes,
            );
        }
    }
}

proof fn lemma_run_block(
    w: World,
    m: Machine,
    statements: Seq<StatementView>,
    from: int,
    fuel: nat,
)
    ensures
        grown(m.scopes, run_block(w, m, statements, from, fuel).machine.scopes),
    decreases 3 * fuel + 2, statements, statements.len() - from,
{
    if 0 <= from < statements.len() {
        law_statement_keeps_outer_names(w, m, statements[from], fuel);
        let step = eval_stmt(w, m, statements[from], fuel);
        if step.result == Ok::<Option<ValueView>, crate::fault::FaultView>(None) {
            lemma_run_block(w, step.machine, statements, from + 1, fuel);
            lemma_grown_chain(
                m.scopes,
                step.machine.scopes,
                run_block(w, step.machine, statements, from + 1, fuel).machine.scopes,
            );
        }
    }
}

/// A statement may add names to the innermost scope and to no other, and
/// leaves the stack as deep as it was.
pub proof fn law_statement_keeps_outer_names(w: World, m: Machine, s: StatementView, fuel: nat)
    ensures
        grown(m.scopes, eval_stmt(w, m, s, fuel).machine.scopes),
    decreases 3 * fuel + 2, s, loop_limit() + 3,
{
    match s {
        StatementView::Let { name, value } => {
            law_expression_keeps_names(w, m, value, fuel);
            let v = eval_expr(w, m, value, fuel);
            if v.result is Ok {
                lemma_declare_grown(v.machine.scopes, name, v.result->Ok_0);
            }
        },
        StatementView::Assign { name, value } => {
            law_expression_keeps_names(w, m, value, fuel);
            let v = eval_expr(w, m, value, fuel);
            if v.result is Ok && env_assign(v.machine.scopes, name, v.result->Ok_0) is Some {
                lemma_assign_same_names(v.machine.scopes, name, v.result->Ok_0);
            }
        },
        StatementView::Print(e) => {
            law_expression_keeps_names(w, m, e, fuel);
        },
        StatementView::ExprStmt(e) => {
            law_expression_keeps_names(w, m, e, fuel);
        },
        StatementView::Expression(e) => {
            law_expression_keeps_names(w, m, e, fuel);
        },
        StatementView::Return(e) => {
            law_expression_keeps_names(w, m, e, fuel);
        },
        StatementView::If { condition, then_branch, else_branch } => {
            law_expression_keeps_names(w, m, condition, fuel);
            let c = eval_expr(w, m, condition, fuel);
            lemma_run_block(w, c.machine, then_branch, 0, fuel);
            if else_branch is Some {
                lemma_run_block(w, c.machine, else_branch->0, 0, fuel);
            }
        },
        StatementView::While { .. } => {
            lemma_loop_while(w, m, s, 0, fuel);
        },
        StatementView::For { init, .. } => {
            law_for_keeps_names(w, m, s, fuel);
        },
        StatementView::Block(statements) => {
            law_block_keeps_names(w, m, statements, fuel);
        },
        StatementView::Try { body, catch } => {
            lemma_run_block(w, m, body, 0, fuel);
            let tried = run_block(w, m, body, 0, fuel);
            lemma_run_block(w, tried.machine, catch, 0, fuel);
        },
        _ => {},
    }
}

/// A block leaves the stack of scopes as deep as it was, with the same names
/// in every scope: a variable declared inside the block is not there after
/// it, whether the block ran to its end, returned or failed.
pub proof fn law_block_keeps_names(
    w: World,
    m: Machine,
    statements: Seq<StatementView>,
    fuel: nat,
)
    ensures
        same_names(
            m.scopes,
            eval_stmt(w, m, StatementView::Block(statements), fuel).machine.scopes,
        ),
    decreases 3 * fuel + 2, statements, statements.len() + 1,
{
    let inside = entered(m, Map::empty());
    lemma_run_block(w, inside, statements, 0, fuel);
    lemma_enter_and_leave(
        m.scopes,
        Map::empty(),
        run_block(w, inside, statements, 0, fuel).machine.scopes,
    );
}

/// A `for` loop leaves the stack of scopes as deep as it was, with the same
/// names in every scope: a variable declared by its initializer or in its
/// body is not there after it.
pub proof fn law_for_keeps_names(w: World, m: Machine, s: StatementView, fuel: nat)
    requires
        s is For,
    ensures
        same_names(m.scopes, eval_stmt(w, m, s, fuel).machine.scopes),
    decreases 3 * fuel + 2, s, loop_limit() + 2,
{
    let inside = entered(m, Map::empty());
    match s {
        StatementView::For { init, .. } => {
            match init {
                Some(i) => {
                    law_statement_keeps_outer_names(w, inside, *i, fuel);
                    let started = eval_stmt(w, inside, *i, fuel);
                    if started.result is Ok {
                        lemma_loop_for(w, started.machine, s, 0, fuel);
                        let done = loop_for(w, started.machine, s, 0, fuel);
                        lemma_grown_chain(
                            inside.scopes,
                            started.machine.scopes,
                            done.machine.scopes,
                        );
                        lemma_enter_and_leave(m.scopes, Map::empty(), done.machine.scopes);
                    } else {
                        lemma_enter_and_leave(m.scopes, Map::empty(), started.machine.scopes);
                    }
                },
                None => {
                    lemma_loop_for(w, inside, s, 0, fuel);
                    lemma_enter_and_leave(
                        m.scopes,
                        Map::empty(),
                        loop_for(w, inside, s, 0, fuel).machine.scopes,
                    );
                },
            }
        },
        _ => {},
    }
}

proof fn lemma_loop_while(w: World, m: Machine, s: StatementView, done: nat, fuel: nat)
    ensures
        grown(m.scopes, loop_while(w, m, s, done, fuel).machine.scopes),
    decreases 3 * fuel + 2, s, loop_limit() + 1 - done,
{
    match s {
        StatementView::While { condition, body } => {
            law_expression_keeps_names(w, m, condition, fuel);
            let c = eval_expr(w, m, condition, fuel);
            if c.result == Ok::<ValueView, crate::fault::FaultView>(ValueView::Bool(true)) && done
                < loop_limit() {
                lemma_run_block(w, c.machine, body, 0, fuel);
                let b = run_block(w, c.machine, body, 0, fuel);
                if b.result == Ok::<Option<ValueView>, crate::fault::FaultView>(None) {
                    lemma_loop_while(w, b.machine, s, done + 1, fuel);
                    lemma_grown_chain(
                        c.machine.scopes,
                        b.machine.scopes,
                        loop_while(w, b.machine, s, done + 1, fuel).machine.scopes,
                    );
                }
            }
        },
        _ => {},
    }
}

proof fn lemma_for_round(w: World, m: Machine, s: StatementView, fuel: nat)
    ensures
        grown(m.scopes, for_round(w, m, s, fuel).machine.scopes),
    decreases 3 * fuel + 2, s, 0nat,
{
    match s {
        StatementView::For { update, body, .. } => {
            lemma_run_block(w, m, body, 0, fuel);
            let b = run_block(w, m, body, 0, fuel);
            if b.result == Ok::<Option<ValueView>, crate::fault::FaultView>(None) && update
                is Some {
                law_statement_keeps_outer_names(w, b.machine, *update->0, fuel);
            }
        },
        _ => {},
    }
}

proof fn lemma_loop_for(w: World, m: Machine, s: StatementView, done: nat, fuel: nat)
    ensures
        grown(m.scopes, loop_for(w, m, s, done, fuel).machine.scopes),
    decreases 3 * fuel + 2, s, loop_limit() + 1 - done,
{
    match s {
        StatementView::For { condition, .. } => {
            match condition {
                None => {
                    if done == 0 {
                        lemma_for_round(w, m, s, fuel);
                    }
                },
                Some(cond) => {
                    law_expression_keeps_names(w, m, cond, fuel);
                    let c = eval_expr(w, m, cond, fuel);
                    if c.result == Ok::<ValueView, crate::fault::FaultView>(ValueView::Bool(true))
                        && done < loop_limit() {
                        lemma_for_round(w, c.machine, s, fuel);
                        let r = for_round(w, c.machine, s, fuel);
                        if r.result == Ok::<Option<ValueView>, crate::fault::FaultView>(None) {
                            lemma_loop_for(w, r.machine, s, done + 1, fuel);
                            lemma_grown_chain(
                                c.machine.scopes,
                                r.machine.scopes,
                                loop_for(w, r.machine, s, done + 1, fuel).machine.scopes,
                            );
                        }
                    }
                },
            }
        },
        _ => {},
    }
}

/// A variable that no scope holds before a block is held by none after it,
/// whatever the block declared.
pub proof fn law_block_variables_end(
    w: World,
    m: Machine,
    statements: Seq<StatementView>,
    name: Seq<char>,
    fuel: nat,
)
    requires
        env_lookup(m.scopes, name) is None,
    ensures
        env_lookup(
            eval_stmt(w, m, StatementView::Block(statements), fuel).machine.scopes,
            name,
        ) is None,
{
    law_block_keeps_names(w, m, statements, fuel);
    lemma_lookup_by_names(
        m.scopes,
        eval_stmt(w, m, StatementView::Block(statements), fuel).machine.scopes,
        name,
    );
}

/// A variable that no scope holds before a `for` loop is held by none after
/// it, whatever the loop declared.
pub proof fn law_for_variables_end(
    w: World,
    m: Machine,
    s: StatementView,
    name: Seq<char>,
    fuel: nat,
)
    requires
        s is For,
        env_lookup(m.scopes, name) is None,
    ensures
        env_lookup(eval_stmt(w, m, s, fuel).machine.scopes, name) is None,
{
    law_for_keeps_names(w, m, s, fuel);
    lemma_lookup_by_names(m.scopes, eval_stmt(w, m, s, fuel).machine.scopes, name);
}

/// Whether a name is bound depends on the names of the scopes alone.
proof fn lemma_lookup_by_names(a: EnvironmentView, b: EnvironmentView, name: Seq<char>)
    requires
        same_names(a, b),
    ensures
        env_lookup(a, name) is None <==> env_lookup(b, name) is None,
    decreases a.len(),
{
    if a.len() > 0 {
        assert(a[a.len() - 1].dom() == b[b.len() - 1].dom());
        assert(a.last().contains_key(name) == b.last().contains_key(name));
        assert forall|i: int| 0 <= i < a.drop_last().len() implies #[trigger] a.drop_last()[i].dom()
            == b.drop_last()[i].dom() by {
            assert(a[i].dom() == b[i].dom());
        }
        lemma_lookup_by_names(a.drop_last(), b.drop_last(), name);
    }
}

} // verus!
