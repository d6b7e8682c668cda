//! The texts of errors, as they are shown to the user.

use vstd::prelude::*;
use crate::ast::{binary_symbol, unary_symbol};
use crate::fault::{
    Frame, FrameView, Mismatch, RuntimeError, RuntimeErrorKind, RuntimeErrorKindView,
    RuntimeErrorView, ValueKind,
};
use crate::grammar::{Expectation, ParseError};
use crate::import::{ImportError, ImportErrorView};
use crate::lexer::LexError;
use crate::text::{int_text, nat_text, push_int_text, push_nat_text, push_text};

verus! {

/// ` at line L, column C`.
pub open spec fn place_text(line: usize, column: usize) -> Seq<char> {
    " at line "@ + nat_text(line as nat) + ", column "@ + nat_text(column as nat)
}

fn push_place(out: &mut String, line: usize, column: usize)
    ensures
        final(out)@ == old(out)@ + place_text(line, column),
{
    push_text(out, " at line ");
    push_nat_text(out, line as u64);
    push_text(out, ", column ");
    push_nat_text(out, column as u64);
    assert(final(out)@ =~= old(out)@ + place_text(line, column));
}

/// The text of a lexical error.
pub open spec fn lex_message(e: LexError) -> Seq<char> {
    match e {
        LexError::UnterminatedComment => "Unterminated block comment"@,
        LexError::UnterminatedString { line } => "Unterminated string literal starting at line "@
            + nat_text(line as nat),
        LexError::InvalidEscape { ch, line, column } => "Invalid escape sequence '\\"@ + seq![ch]
            + "'"@ + place_text(line, column),
        LexError::UnexpectedCharacter { ch, line, column } => "Unexpected character '"@ + seq![ch]
            + "'"@ + place_text(line, column),
    }
}

impl LexError {
    /// The text of the error.
    pub fn message(&self) -> (s: String)
        ensures
            s@ == lex_message(*self),
    {
        let mut out = String::new();
        match *self {
            LexError::UnterminatedComment => {
                push_text(&mut out, "Unterminated block comment");
                assert(out@ =~= lex_message(*self));
            },
            LexError::UnterminatedString { line } => {
                push_text(&mut out, "Unterminated string literal starting at line ");
                push_nat_text(&mut out, line as u64);
                assert(out@ =~= lex_message(*self));
            },
            LexError::InvalidEscape { ch, line, column } => {
                push_text(&mut out, "Invalid escape sequence '\\");
                out.push(ch);
                push_text(&mut out, "'");
                push_place(&mut out, line, column);
                assert(out@ =~= lex_message(*self));
            },
            LexError::UnexpectedCharacter { ch, line, column } => {
                push_text(&mut out, "Unexpected character '");
                out.push(ch);
                push_text(&mut out, "'");
                push_place(&mut out, line, column);
                assert(out@ =~= lex_message(*self));
            },
        }
        out
    }
}

/// What the parser says it was looking for.
pub open spec fn expectation_text(e: Expectation) -> Seq<char> {
    match e {
        Expectation::SemicolonAfterVariableDeclaration => "Expected ';' after variable declaration"@,
        Expectation::ParenAfterFunctionName => "Expected '(' after function name"@,
        Expectation::ParenAfterParameters => "Expected ')' after parameters"@,
        Expectation::BraceBeforeFunctionBody => "Expected '{' before function body"@,
        Expectation::SemicolonAfterImport => "Expected ';' after import statement"@,
        Expectation::SemicolonAfterPrint => "Expected ';' after print statement"@,
        Expectation::SemicolonAfterReturn => "Expected ';' after return value"@,
        Expectation::BraceAfterBlock => "Expected '}' after block"@,
        Expectation::ParenAfterIf => "Expected '(' after 'if'"@,
        Expectation::ParenAfterIfCondition => "Expected ')' after if condition"@,
        Expectation::BraceBeforeIfBody => "Expected '{' before if body"@,
        Expectation::BraceBeforeElseBody => "Expected '{' before else body"@,
        Expectation::ParenAfterWhile => "Expected '(' after 'while'"@,
        Expectation::ParenAfterWhileCondition => "Expected ')' after while condition"@,
        Expectation::BraceBeforeWhileBody => "Expected '{' before while body"@,
        Expectation::ParenAfterFor => "Expected '(' after 'for'"@,
        Expectation::SemicolonAfterLoopCondition => "Expected ';' after loop condition"@,
        Expectation::ParenAfterForClauses => "Expected ')' after for clauses"@,
        Expectation::BraceBeforeForBody => "Expected '{' before for body"@,
        Expectation::BraceAfterTry => "Expected '{' after 'try'"@,
        Expectation::CatchAfterTryBlock => "Expected 'catch' after try block"@,
        Expectation::BraceAfterCatch => "Expected '{' after 'catch'"@,
        Expectation::SemicolonAfterAssignment => "Expected ';' after assignment"@,
        Expectation::SemicolonAfterExpression => "Expected ';' after expression"@,
        Expectation::BracketAfterIndex => "Expected ']' after array index"@,
        Expectation::ParenAfterArguments => "Expected ')' after arguments"@,
        Expectation::ParenAfterExpression => "Expected ')' after expression"@,
        Expectation::ParenAfterClosureFn => "Expected '(' after 'fn' in closure"@,
        Expectation::ParenAfterClosureParameters => "Expected ')' after closure parameters"@,
        Expectation::BraceBeforeClosureBody => "Expected '{' before closure body"@,
        Expectation::BracketAfterElements => "Expected ']' after array elements"@,
        Expectation::VariableName => "Expected variable name after 'let'"@,
        Expectation::FunctionName => "Expected function name after 'fn'"@,
        Expectation::ParameterName => "Expected parameter name"@,
        Expectation::ModuleName => "Expected module name after 'import'"@,
        Expectation::EqualsInLet => "Expected '=' after variable name in let declaration"@,
        Expectation::AssignmentTarget => "Invalid assignment target"@,
        Expectation::FewerArguments => "Cannot have more than 255 arguments"@,
        Expectation::Expression => "Expected expression"@,
        Expectation::Progress => "Expected a declaration"@,
    }
}

impl Expectation {
    /// What the parser says it was looking for.
    pub fn text(&self) -> (s: &'static str)
        ensures
            s@ == expectation_text(*self),
    {
        match self {
            Expectation::SemicolonAfterVariableDeclaration => {
                "Expected ';' after variable declaration"
            },
            Expectation::ParenAfterFunctionName => "Expected '(' after function name",
            Expectation::ParenAfterParameters => "Expected ')' after parameters",
            Expectation::BraceBeforeFunctionBody => "Expected '{' before function body",
            Expectation::SemicolonAfterImport => "Expected ';' after import statement",
            Expectation::SemicolonAfterPrint => "Expected ';' after print statement",
            Expectation::SemicolonAfterReturn => "Expected ';' after return value",
            Expectation::BraceAfterBlock => "Expected '}' after block",
            Expectation::ParenAfterIf => "Expected '(' after 'if'",
            Expectation::ParenAfterIfCondition => "Expected ')' after if condition",
            Expectation::BraceBeforeIfBody => "Expected '{' before if body",
            Expectation::BraceBeforeElseBody => "Expected '{' before else body",
            Expectation::ParenAfterWhile => "Expected '(' after 'while'",
            Expectation::ParenAfterWhileCondition => "Expected ')' after while condition",
            Expectation::BraceBeforeWhileBody => "Expected '{' before while body",
            Expectation::ParenAfterFor => "Expected '(' after 'for'",
            Expectation::SemicolonAfterLoopCondition => "Expected ';' after loop condition",
            Expectation::ParenAfterForClauses => "Expected ')' after for clauses",
            Expectation::BraceBeforeForBody => "Expected '{' before for body",
            Expectation::BraceAfterTry => "Expected '{' after 'try'",
            Expectation::CatchAfterTryBlock => "Expected 'catch' after try block",
            Expectation::BraceAfterCatch => "Expected '{' after 'catch'",
            Expectation::SemicolonAfterAssignment => "Expected ';' after assignment",
            Expectation::SemicolonAfterExpression => "Expected ';' after expression",
            Expectation::BracketAfterIndex => "Expected ']' after array index",
            Expectation::ParenAfterArguments => "Expected ')' after arguments",
            Expectation::ParenAfterExpression => "Expected ')' after expression",
            Expectation::ParenAfterClosureFn => "Expected '(' after 'fn' in closure",
            Expectation::ParenAfterClosureParameters => "Expected ')' after closure parameters",
            Expectation::BraceBeforeClosureBody => "Expected '{' before closure body",
            Expectation::BracketAfterElements => "Expected ']' after array elements",
            Expectation::VariableName => "Expected variable name after 'let'",
            Expectation::FunctionName => "Expected function name after 'fn'",
            Expectation::ParameterName => "Expected parameter name",
            Expectation::ModuleName => "Expected module name after 'import'",
            Expectation::EqualsInLet => "Expected '=' after variable name in let declaration",
            Expectation::AssignmentTarget => "Invalid assignment target",
            Expectation::FewerArguments => "Cannot have more than 255 arguments",
            Expectation::Expression => "Expected expression",
            Expectation::Progress => "Expected a declaration",
        }
    }
}

/// The text of a parse error: what was missing, and the place.
pub open spec fn parse_message(e: ParseError) -> Seq<char> {
    expectation_text(e.expected) + place_text(e.line, e.column)
}

impl ParseError {
    /// The text of the error.
    pub fn message(&self) -> (s: String)
        ensures
            s@ == parse_message(*self),
    {
        let mut out = String::new();
        push_text(&mut out, self.expected.text());
        push_place(&mut out, self.line, self.column);
        assert(out@ =~= parse_message(*self));
        out
    }
}

/// The name of a kind of value.
pub open spec fn kind_text(k: ValueKind) -> Seq<char> {
    match k {
        ValueKind::Number => "number"@,
        ValueKind::Float => "float"@,
        ValueKind::Bool => "boolean"@,
        ValueKind::Void => "void"@,
        ValueKind::String => "string"@,
        ValueKind::Array => "array"@,
        ValueKind::Closure => "closure"@,
    }
}

impl ValueKind {
    /// The name of the kind.
    pub fn name(&self) -> (s: &'static str)
        ensures
            s@ == kind_text(*self),
    {
        match self {
            ValueKind::Number => "number",
            ValueKind::Float => "float",
            ValueKind::Bool => "boolean",
            ValueKind::Void => "void",
            ValueKind::String => "string",
            ValueKind::Array => "array",
            ValueKind::Closure => "closure",
        }
    }
}

/// The text of a mismatch of kinds.
pub open spec fn mismatch_text(m: Mismatch) -> Seq<char> {
    match m {
        Mismatch::Binary { op, left, right } => "Unsupported operator '"@ + binary_symbol(op)
            + "' between "@ + kind_text(left) + " and "@ + kind_text(right),
        Mismatch::Unary { op, operand } => "Unsupported unary operator '"@ + unary_symbol(op)
            + "' for "@ + kind_text(operand),
        Mismatch::Condition { found } => "Condition must be a boolean, got "@ + kind_text(found),
        Mismatch::NotCallable { found } => "Callee must be a function identifier or closure, got "@
            + kind_text(found),
        Mismatch::NotIndexable { container, index } => "Cannot index "@ + kind_text(container)
            + " with "@ + kind_text(index),
    }
}

fn push_mismatch(out: &mut String, m: Mismatch)
    ensures
        final(out)@ == old(out)@ + mismatch_text(m),
{
    match m {
        Mismatch::Binary { op, left, right } => {
            push_text(out, "Unsupported operator '");
            push_text(out, op.symbol());
            push_text(out, "' between ");
            push_text(out, left.name());
            push_text(out, " and ");
            push_text(out, right.name());
        },
        Mismatch::Unary { op, operand } => {
            push_text(out, "Unsupported unary operator '");
            push_text(out, op.symbol());
            push_text(out, "' for ");
            push_text(out, operand.name());
        },
        Mismatch::Condition { found } => {
            push_text(out, "Condition must be a boolean, got ");
            push_text(out, found.name());
        },
        Mismatch::NotCallable { found } => {
            push_text(out, "Callee must be a function identifier or closure, got ");
            push_text(out, found.name());
        },
        Mismatch::NotIndexable { container, index } => {
            push_text(out, "Cannot index ");
            push_text(out, container.name());
            push_text(out, " with ");
            push_text(out, index.name());
        },
    }
    assert(final(out)@ =~= old(out)@ + mismatch_text(m));
}

/// The name of a container in a message about an index.
pub open spec fn container_text(k: ValueKind, capital: bool) -> Seq<char> {
    if k is String {
        if capital {
            "String"@
        } else {
            "string"@
        }
    } else if capital {
        "Array"@
    } else {
        "array"@
    }
}

fn container_name(k: ValueKind, capital: bool) -> (s: &'static str)
    ensures
        s@ == container_text(k, capital),
{
    match k {
        ValueKind::String => if capital {
            "String"
        } else {
            "string"
        },
        _ => if capital {
            "Array"
        } else {
            "array"
        },
    }
}

/// The text of what went wrong.
pub open spec fn kind_message(k: RuntimeErrorKindView) -> Seq<char> {
    match k {
        RuntimeErrorKindView::UndefinedVariable(name) => "Undefined variable '"@ + name + "'"@,
        RuntimeErrorKindView::UndefinedFunction(name) => "Undefined function '"@ + name + "'"@,
        RuntimeErrorKindView::ArityMismatch { function, expected, found } => (match function {
            Some(name) => "Function '"@ + name + "' expects "@,
            None => "Closure expects "@,
        }) + nat_text(expected as nat) + " args, got "@ + nat_text(found as nat),
        RuntimeErrorKindView::TypeMismatch(m) => mismatch_text(m),
        RuntimeErrorKindView::DivisionOrModuloByZero { modulo } => if modulo {
            "Modulo by zero"@
        } else {
            "Division by zero"@
        },
        RuntimeErrorKindView::NegativeOrOutOfBoundsIndex { container, index, length } => if index
            < 0 {
            container_text(container, true) + " index cannot be negative: "@ + int_text(
                index as int,
            )
        } else {
            container_text(container, true) + " index out of bounds: "@ + int_text(index as int)
                + " ("@ + container_text(container, false) + " length: "@ + nat_text(
                length as nat,
            ) + ")"@
        },
        RuntimeErrorKindView::InvalidAssignmentTarget(target) => match target {
            Some(name) => "Cannot assign to undefined variable '"@ + name + "'"@,
            None => "Invalid assignment target"@,
        },
        RuntimeErrorKindView::NoEntryPoint => {
            "No entry point found. Either 'main' function or 'app' function is required."@
        },
        RuntimeErrorKindView::InfiniteLoopSuspected => {
            "Possible infinite loop detected: exceeded 100000 iterations"@
        },
        RuntimeErrorKindView::RecursionLimitExceeded => "Recursion limit exceeded"@,
    }
}

fn push_kind(out: &mut String, k: &RuntimeErrorKind)
    ensures
        final(out)@ == old(out)@ + kind_message(k@),
{
    match k {
        RuntimeErrorKind::UndefinedVariable(name) => {
            push_text(out, "Undefined variable '");
            push_text(out, name.as_str());
            push_text(out, "'");
        },
        RuntimeErrorKind::UndefinedFunction(name) => {
            push_text(out, "Undefined function '");
            push_text(out, name.as_str());
            push_text(out, "'");
        },
        RuntimeErrorKind::ArityMismatch { function, expected, found } => {
            match function {
                Some(name) => {
                    push_text(out, "Function '");
                    push_text(out, name.as_str());
                    push_text(out, "' expects ");
                    assert(out@ =~= old(out)@ + ("Function '"@ + name@ + "' expects "@));
                },
                None => {
                    push_text(out, "Closure expects ");
                },
            }
            push_nat_text(out, *expected as u64);
            push_text(out, " args, got ");
            push_nat_text(out, *found as u64);
        },
        RuntimeErrorKind::TypeMismatch(m) => {
            push_mismatch(out, *m);
        },
        RuntimeErrorKind::DivisionOrModuloByZero { modulo } => {
            if *modulo {
                push_text(out, "Modulo by zero");
            } else {
                push_text(out, "Division by zero");
            }
        },
        RuntimeErrorKind::NegativeOrOutOfBoundsIndex { container, index, length } => {
            push_text(out, container_name(*container, true));
            if *index < 0 {
                push_text(out, " index cannot be negative: ");
                push_int_text(out, *index);
            } else {
                push_text(out, " index out of bounds: ");
                push_int_text(out, *index);
                push_text(out, " (");
                push_text(out, container_name(*container, false));
                push_text(out, " length: ");
                push_nat_text(out, *length as u64);
                push_text(out, ")");
            }
        },
        RuntimeErrorKind::InvalidAssignmentTarget(target) => {
            match target {
                Some(name) => {
                    push_text(out, "Cannot assign to undefined variable '");
                    push_text(out, name.as_str());
                    push_text(out, "'");
                },
                None => {
                    push_text(out, "Invalid assignment target");
                },
            }
        },
        RuntimeErrorKind::NoEntryPoint => {
            push_text(
                out,
                "No entry point found. Either 'main' function or 'app' function is required.",
            );
        },
        RuntimeErrorKind::InfiniteLoopSuspected => {
            push_text(out, "Possible infinite loop detected: exceeded 100000 iterations");
        },
        RuntimeErrorKind::RecursionLimitExceeded => {
            push_text(out, "Recursion limit exceeded");
        },
    }
    assert(final(out)@ =~= old(out)@ + kind_message(k@));
}

/// What a frame puts before the text of an error.
pub open spec fn frame_text(f: FrameView) -> Seq<char> {
    (match f.function {
        Some(name) => "In function '"@ + name + "', statement #"@,
        None => "In closure, statement #"@,
    }) + nat_text(f.statement as nat) + ": "@
}

fn push_frame(out: &mut String, f: &Frame)
    ensures
        final(out)@ == old(out)@ + frame_text(f@),
{
    match &f.function {
        Some(name) => {
            push_text(out, "In function '");
            push_text(out, name.as_str());
            push_text(out, "', statement #");
            assert(out@ =~= old(out)@ + ("In function '"@ + name@ + "', statement #"@));
        },
        None => {
            push_text(out, "In closure, statement #");
        },
    }
    push_nat_text(out, f.statement as u64);
    push_text(out, ": ");
    assert(final(out)@ =~= old(out)@ + frame_text(f@));
}

/// What the first `count` frames put before the text of an error: the
/// outermost call first.
pub open spec fn frames_text(frames: Seq<FrameView>, count: int) -> Seq<char>
    decreases count,
{
    if count <= 0 || count > frames.len() {
        Seq::empty()
    } else {
        frame_text(frames[count - 1]) + frames_text(frames, count - 1)
    }
}

/// The text of a runtime error: the calls that it passed through, the
/// outermost first, and what went wrong.
pub open spec fn runtime_message(e: RuntimeErrorView) -> Seq<char> {
    frames_text(e.frames, e.frames.len() as int) + kind_message(e.kind)
}

impl RuntimeError {
    /// The text of the error.
    pub fn message(&self) -> (s: String)
        ensures
            s@ == runtime_message(self@),
    {
        let mut out = String::new();
        let ghost frames = crate::fault::frames_view(self.frames@);
        let mut i: usize = self.frames.len();
        assert(out@ + frames_text(frames, i as int) =~= frames_text(frames, frames.len() as int));
        while i > 0
            invariant
                i <= self.frames.len(),
                frames == crate::fault::frames_view(self.frames@),
                out@ + frames_text(frames, i as int) == frames_text(frames, frames.len() as int),
            decreases i,
        {
            let ghost before = out@;
            push_frame(&mut out, &self.frames[i - 1]);
            proof {
                assert(frames[i - 1] == self.frames@[i - 1]@);
                assert(before + (frame_text(frames[i - 1]) + frames_text(frames, i - 1)) =~= (before
                    + frame_text(frames[i - 1])) + frames_text(frames, i - 1));
            }
            i -= 1;
        }
        assert(out@ + Seq::<char>::empty() =~= out@);
        push_kind(&mut out, &self.kind);
        out
    }
}

/// The text of a failed import.
pub open spec fn import_message(e: ImportErrorView) -> Seq<char> {
    match e {
        ImportErrorView::NotFound { module, path } => "Module '"@ + module + "' not found at path '"@
            + path + "'"@,
        ImportErrorView::Unreadable { module, reason } => "Error reading module '"@ + module
            + "': "@ + reason,
        ImportErrorView::Lex { module, error } => "Parser error on module '"@ + module + "': "@
            + lex_message(error),
        ImportErrorView::Parse { module, error } => "Parse error on module '"@ + module + "': "@
            + parse_message(error),
    }
}

impl ImportError {
    /// The text of the error.
    pub fn message(&self) -> (s: String)
        ensures
            s@ == import_message(self@),
    {
        let mut out = String::new();
        match self {
            ImportError::NotFound { module, path } => {
                push_text(&mut out, "Module '");
                push_text(&mut out, module.as_str());
                push_text(&mut out, "' not found at path '");
                push_text(&mut out, path.as_str());
                push_text(&mut out, "'");
            },
            ImportError::Unreadable { module, reason } => {
                push_text(&mut out, "Error reading module '");
                push_text(&mut out, module.as_str());
                push_text(&mut out, "': ");
                push_text(&mut out, reason.as_str());
            },
            ImportError::Lex { module, error } => {
                push_text(&mut out, "Parser error on module '");
                push_text(&mut out, module.as_str());
                push_text(&mut out, "': ");
                let inner = error.message();
                push_text(&mut out, inner.as_str());
            },
            ImportError::Parse { module, error } => {
                push_text(&mut out, "Parse error on module '");
                push_text(&mut out, module.as_str());
                push_text(&mut out, "': ");
                let inner = error.message();
                push_text(&mut out, inner.as_str());
            },
        }
        assert(out@ =~= import_message(self@));
        out
    }
}

} // verus!
