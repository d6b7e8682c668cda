//! What the native back end lowers: the plan of a program's output.
//!
//! The back end lowers a narrow part of the language. Of a program it
//! takes the entry points, the function written with `main` and a function
//! named `app`, and of their bodies the `print` statements that stand
//! directly in them. Such a statement must print a string literal or an
//! integer literal. Every other statement is passed over.

use vstd::prelude::*;
use crate::ast::{
    lemma_expression_view, lemma_statement_view, lemma_statements_view, statements_view,
    Expression, ExpressionView, Statement, StatementView,
};
use crate::text::is_word;

verus! {

/// One thing that the generated program writes, followed by a line feed.
#[derive(Debug)]
pub enum Emit {
    Text(String),
    Integer(i64),
}

pub ghost enum EmitView {
    Text(Seq<char>),
    Integer(i64),
}

impl View for Emit {
    type V = EmitView;

    open spec fn view(&self) -> EmitView {
        match *self {
            Emit::Text(s) => EmitView::Text(s@),
            Emit::Integer(n) => EmitView::Integer(n),
        }
    }
}

/// The values of a sequence of emits.
pub open spec fn emits_view(emits: Seq<Emit>) -> Seq<EmitView> {
    emits.map_values(|e: Emit| e@)
}

/// Why a program cannot be lowered.
#[derive(Debug, Clone, Copy, PartialEq, Eq, Structural)]
pub enum LoweringError {
    /// A `print` in an entry point whose argument is neither a string
    /// literal nor an integer literal.
    UnsupportedPrint,
}

/// Whether a statement is an entry point: a function written with `main`,
/// or one named `app`.
pub open spec fn is_entry(s: StatementView) -> bool {
    s matches StatementView::FunctionDef { is_main, name, .. } && (is_main || name == "app"@)
}

/// What printing an expression comes to, if the back end can lower it.
pub open spec fn print_emit(e: ExpressionView) -> Option<EmitView> {
    match e {
        ExpressionView::String(s) => Some(EmitView::Text(s)),
        ExpressionView::Number(n) => Some(EmitView::Integer(n)),
        _ => None,
    }
}

/// What the statements of a body from `from` on write: the `print`
/// statements among them, in order. The first that cannot be lowered is an
/// error.
pub open spec fn body_emits(body: Seq<StatementView>, from: int) -> Result<
    Seq<EmitView>,
    LoweringError,
>
    decreases body.len() - from,
{
    if from < 0 || from >= body.len() {
        Ok(Seq::empty())
    } else {
        match body[from] {
            StatementView::Print(e) => match print_emit(e) {
                None => Err(LoweringError::UnsupportedPrint),
                Some(emit) => match body_emits(body, from + 1) {
                    Err(e) => Err(e),
                    Ok(rest) => Ok(seq![emit] + rest),
                },
            },
            _ => body_emits(body, from + 1),
        }
    }
}

/// What the statements of a program from `from` on write: what the bodies of
/// its entry points write, in order.
pub open spec fn program_emits(program: Seq<StatementView>, from: int) -> Result<
    Seq<EmitView>,
    LoweringError,
>
    decreases program.len() - from,
{
    if from < 0 || from >= program.len() {
        Ok(Seq::empty())
    } else if is_entry(program[from]) {
        match body_emits(program[from]->FunctionDef_body, 0) {
            Err(e) => Err(e),
            Ok(first) => match program_emits(program, from + 1) {
                Err(e) => Err(e),
                Ok(rest) => Ok(first + rest),
            },
        }
    } else {
        program_emits(program, from + 1)
    }
}

/// The value of a lowering.
pub open spec fn lowering_view(r: Result<Vec<Emit>, LoweringError>) -> Result<
    Seq<EmitView>,
    LoweringError,
> {
    match r {
        Ok(emits) => Ok(emits_view(emits@)),
        Err(e) => Err(e),
    }
}

/// Adds what the statements of a body write to `emits`.
fn lower_body(body: &Vec<Statement>, emits: &mut Vec<Emit>) -> (r: Result<(), LoweringError>)
    ensures
        match body_emits(statements_view(body@), 0) {
            Ok(added) => r is Ok && emits_view(final(emits)@) == emits_view(old(emits)@) + added,
            Err(e) => r == Err::<(), LoweringError>(e),
        },
{
    let ghost all = statements_view(body@);
    let ghost start = emits_view(emits@);
    proof {
        lemma_statements_view(body@);
        assert(start + Seq::<EmitView>::empty() =~= start);
    }
    let ghost mut added: Seq<EmitView> = Seq::empty();
    let mut i: usize = 0;
    while i < body.len()
        invariant
            i <= body.len(),
            all == statements_view(body@),
            all.len() == body@.len(),
            forall|k: int| 0 <= k < body@.len() ==> #[trigger] all[k] == body@[k]@,
            start == emits_view(old(emits)@),
            emits_view(emits@) == start + added,
            body_emits(all, 0) == match body_emits(all, i as int) {
                Ok(rest) => Ok::<Seq<EmitView>, LoweringError>(added + rest),
                Err(e) => Err(e),
            },
        decreases body.len() - i,
    {
        proof {
            lemma_statement_view(body@[i as int]);
        }
        match &body[i] {
            Statement::Print(e) => {
                proof {
                    lemma_expression_view(*e);
                }
                let emit = match e {
                    Expression::String(s) => Emit::Text(s.clone()),
                    Expression::Number(n) => Emit::Integer(*n),
                    _ => {
                        return Err(LoweringError::UnsupportedPrint);
                    },
                };
                let ghost before = emits_view(emits@);
                emits.push(emit);
                proof {
                    assert(emits_view(emits@) =~= before.push(emit@));
                    let grown = added.push(emit@);
                    assert(start + grown =~= (start + added).push(emit@));
                    match body_emits(all, i + 1) {
                        Ok(rest) => {
                            assert(added + (seq![emit@] + rest) =~= grown + rest);
                        },
                        Err(_) => {},
                    }
                    added = grown;
                }
            },
            _ => {},
        }
        i += 1;
    }
    proof {
        assert(added + Seq::<EmitView>::empty() =~= added);
    }
    Ok(())
}

/// Whether a statement is an entry point.
fn statement_is_entry(s: &Statement) -> (r: bool)
    ensures
        r == is_entry(s@),
{
    proof {
        lemma_statement_view(*s);
    }
    match s {
        Statement::FunctionDef { is_main, name, .. } => *is_main || is_word(name, "app"),
        _ => false,
    }
}

/// What the generated program writes: the plan that the back end carries
/// out.
pub fn lower(program: &Vec<Statement>) -> (r: Result<Vec<Emit>, LoweringError>)
    ensures
        lowering_view(r) == program_emits(statements_view(program@), 0),
{
    let ghost all = statements_view(program@);
    proof {
        lemma_statements_view(program@);
    }
    let mut emits: Vec<Emit> = Vec::new();
    assert(emits_view(emits@) =~= Seq::empty());
    let mut i: usize = 0;
    while i < program.len()
        invariant
            i <= program.len(),
            all == statements_view(program@),
            all.len() == program@.len(),
            forall|k: int| 0 <= k < program@.len() ==> #[trigger] all[k] == program@[k]@,
            program_emits(all, 0) == match program_emits(all, i as int) {
                Ok(rest) => Ok::<Seq<EmitView>, LoweringError>(emits_view(emits@) + rest),
                Err(e) => Err(e),
            },
        decreases program.len() - i,
    {
        let ghost before = emits_view(emits@);
        if statement_is_entry(&program[i]) {
            proof {
                lemma_statement_view(program@[i as int]);
            }
            match &program[i] {
                Statement::FunctionDef { body, .. } => {
                    match lower_body(body, &mut emits) {
                        Ok(_) => {},
                        Err(e) => {
                            return Err(e);
                        },
                    }
                    proof {
                        let first = body_emits(statements_view(body@), 0)->Ok_0;
                        match program_emits(all, i + 1) {
                            Ok(rest) => {
                                assert(before + (first + rest) =~= (before + first) + rest);
                            },
                            Err(_) => {},
                        }
                    }
                },
                _ => {},
            }
        }
        i += 1;
    }
    proof {
        assert(emits_view(emits@) + Seq::<EmitView>::empty() =~= emits_view(emits@));
    }
    Ok(emits)
}

} // verus!
