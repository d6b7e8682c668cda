//! The grammar: what the parser makes of a sequence of tokens.
//!
//! Each production is a function of the tokens and a position. It gives the
//! syntax that it read and the number of tokens that it took, or the first
//! error. Precedence, from loosest to tightest: assignment, `||`, `&&`,
//! equality, comparison, `+ -`, `* / %`, unary `- !`, calls and indexing,
//! primary expressions.

use vstd::prelude::*;
use crate::ast::{
    array_assign_call, assign_call, assigned_name, assigned_value, is_assignment, BinaryOp,
    ExpressionView, StatementView, UnaryOp,
};
use crate::lexer::TokenView;

verus! {

/// What the parser was looking for when it gave up.
#[derive(Debug, Clone, Copy, PartialEq, Eq, Structural)]
pub enum Expectation {
    SemicolonAfterVariableDeclaration,
    ParenAfterFunctionName,
    ParenAfterParameters,
    BraceBeforeFunctionBody,
    SemicolonAfterImport,
    SemicolonAfterPrint,
    SemicolonAfterReturn,
    BraceAfterBlock,
    ParenAfterIf,
    ParenAfterIfCondition,
    BraceBeforeIfBody,
    BraceBeforeElseBody,
    ParenAfterWhile,
    ParenAfterWhileCondition,
    BraceBeforeWhileBody,
    ParenAfterFor,
    SemicolonAfterLoopCondition,
    ParenAfterForClauses,
    BraceBeforeForBody,
    BraceAfterTry,
    CatchAfterTryBlock,
    BraceAfterCatch,
    SemicolonAfterAssignment,
    SemicolonAfterExpression,
    BracketAfterIndex,
    ParenAfterArguments,
    ParenAfterExpression,
    ParenAfterClosureFn,
    ParenAfterClosureParameters,
    BraceBeforeClosureBody,
    BracketAfterElements,
    VariableName,
    FunctionName,
    ParameterName,
    ModuleName,
    EqualsInLet,
    /// The left side of `=` is neither a variable nor an indexed element.
    AssignmentTarget,
    /// A call with more than 255 arguments.
    FewerArguments,
    Expression,
    /// A declaration that read no token.
    Progress,
}

/// A parse error: what was missing, and the place. Inside the input the
/// place is line 1, column 1; at its end it is the end of the last line.
#[derive(Debug, Clone, Copy, PartialEq, Eq, Structural)]
pub struct ParseError {
    pub expected: Expectation,
    pub line: usize,
    pub column: usize,
    /// The index of the token at which the parser gave up.
    pub token: usize,
}

/// What a parser works on.
pub ghost struct Grammar {
    /// The tokens.
    pub tokens: Seq<TokenView>,
    /// The tag that each function definition gets.
    pub prefix: Seq<char>,
    /// The place that an error at the end of the input reports.
    pub end_line: usize,
    pub end_column: usize,
}

/// What a production read, and how many tokens it took.
pub ghost struct Parsed<T> {
    pub value: T,
    pub used: nat,
}

pub type Parse<T> = Result<Parsed<T>, ParseError>;

/// The most arguments that a call may have.
pub open spec fn argument_limit() -> nat {
    255
}

/// The token at a position: past the last token, the end marker.
pub open spec fn token_at(g: Grammar, pos: int) -> TokenView {
    if 0 <= pos < g.tokens.len() {
        g.tokens[pos]
    } else {
        TokenView::EOF
    }
}

pub open spec fn at_end(g: Grammar, pos: int) -> bool {
    token_at(g, pos) is EOF
}

/// The number of tokens from a position to the end.
pub open spec fn remaining(g: Grammar, pos: int) -> nat {
    if pos <= g.tokens.len() {
        (g.tokens.len() - pos) as nat
    } else {
        0
    }
}

/// The rank of a level of precedence among the productions, for the order
/// in which they call one another.
pub open spec fn level_rank(level: nat) -> nat {
    if level < 6 {
        (33 - 2 * level) as nat
    } else {
        22
    }
}

pub open spec fn error_at(g: Grammar, pos: int, expected: Expectation) -> ParseError {
    if at_end(g, pos) {
        ParseError { expected, line: g.end_line, column: g.end_column, token: pos as usize }
    } else {
        ParseError { expected, line: 1, column: 1, token: pos as usize }
    }
}

/// Whether a token is a keyword, an operator or a punctuation mark: a token
/// that is told apart from every other by its kind alone.
pub open spec fn is_symbol(token: TokenView) -> bool {
    !(token is Number || token is Float || token is Bool || token is String
        || token is Identifier || token is EOF)
}

/// Whether what a production gave is what the grammar says: on success the
/// value and the new position, on failure the error, whose token index is
/// the position at which the parser stands.
pub open spec fn agrees<T>(spec: Parse<T>, got: Result<T, ParseError>, before: int, after: int) -> bool {
    match got {
        Ok(v) => spec is Ok && spec->Ok_0.value == v && after == before + spec->Ok_0.used,
        Err(e) => spec == Err::<Parsed<T>, ParseError>(e) && after == e.token,
    }
}

pub open spec fn done<T>(value: T, used: nat) -> Parse<T> {
    Ok(Parsed { value, used })
}

/// The token at the position must be the given one.
pub open spec fn expect(g: Grammar, pos: int, token: TokenView, expected: Expectation) -> Result<
    (),
    ParseError,
> {
    if token_at(g, pos) == token && !(token is EOF) {
        Ok(())
    } else {
        Err(error_at(g, pos, expected))
    }
}

/// The token at the position must be an identifier.
pub open spec fn identifier(g: Grammar, pos: int, expected: Expectation) -> Result<
    Seq<char>,
    ParseError,
> {
    match token_at(g, pos) {
        TokenView::Identifier(name) => Ok(name),
        _ => Err(error_at(g, pos, expected)),
    }
}

/// The binary operator that a token stands for at a level of precedence:
/// level 0 is `||`, level 5 is `* / %`.
#[verifier::opaque]
pub open spec fn level_operator(level: nat, token: TokenView) -> Option<BinaryOp> {
    if level == 0 {
        match token {
            TokenView::Or => Some(BinaryOp::Or),
            _ => None,
        }
    } else if level == 1 {
        match token {
            TokenView::And => Some(BinaryOp::And),
            _ => None,
        }
    } else if level == 2 {
        match token {
            TokenView::EqualEqual => Some(BinaryOp::Equal),
            TokenView::NotEqual => Some(BinaryOp::NotEqual),
            _ => None,
        }
    } else if level == 3 {
        match token {
            TokenView::LessThan => Some(BinaryOp::LessThan),
            TokenView::GreaterThan => Some(BinaryOp::GreaterThan),
            TokenView::LessThanOrEqual => Some(BinaryOp::LessThanOrEqual),
            TokenView::GreaterThanOrEqual => Some(BinaryOp::GreaterThanOrEqual),
            _ => None,
        }
    } else if level == 4 {
        match token {
            TokenView::Plus => Some(BinaryOp::Add),
            TokenView::Minus => Some(BinaryOp::Subtract),
            _ => None,
        }
    } else if level == 5 {
        match token {
            TokenView::Star => Some(BinaryOp::Multiply),
            TokenView::Slash => Some(BinaryOp::Divide),
            TokenView::Percent => Some(BinaryOp::Modulo),
            _ => None,
        }
    } else {
        None
    }
}

/// A whole program: declarations up to the end marker.
pub open spec fn program(g: Grammar, acc: Seq<StatementView>, pos: int) -> Result<
    Seq<StatementView>,
    ParseError,
>
    decreases remaining(g, pos), 41nat,
{
    if at_end(g, pos) {
        Ok(acc)
    } else {
        match declaration(g, pos) {
            Err(e) => Err(e),
            Ok(d) => if d.used == 0 {
                Err(error_at(g, pos, Expectation::Progress))
            } else {
                program(g, acc.push(d.value), pos + d.used)
            },
        }
    }
}

/// A module: of the top level only function definitions and imports count,
/// and every other token is passed over.
pub open spec fn module(g: Grammar, acc: Seq<StatementView>, pos: int) -> Result<
    Seq<StatementView>,
    ParseError,
>
    decreases remaining(g, pos), 41nat,
{
    if at_end(g, pos) {
        Ok(acc)
    } else if token_at(g, pos) is Fn || token_at(g, pos) is Import {
        match declaration(g, pos) {
            Err(e) => Err(e),
            Ok(d) => if d.used == 0 {
                Err(error_at(g, pos, Expectation::Progress))
            } else {
                module(g, acc.push(d.value), pos + d.used)
            },
        }
    } else {
        module(g, acc, pos + 1)
    }
}

/// The statements of a block after its `{`, and the `}`.
pub open spec fn block(g: Grammar, pos: int) -> Parse<Seq<StatementView>>
    decreases remaining(g, pos), 40nat,
{
    match block_items(g, pos, Seq::empty(), pos) {
        Err(e) => Err(e),
        Ok(items) => match expect(
            g,
            pos + items.used,
            TokenView::RBrace,
            Expectation::BraceAfterBlock,
        ) {
            Err(e) => Err(e),
            Ok(_) => done(items.value, items.used + 1),
        },
    }
}

pub open spec fn block_items(g: Grammar, start: int, acc: Seq<StatementView>, pos: int) -> Parse<
    Seq<StatementView>,
>
    decreases remaining(g, pos), 39nat,
{
    if token_at(g, pos) is RBrace || at_end(g, pos) {
        done(acc, (pos - start) as nat)
    } else {
        match declaration(g, pos) {
            Err(e) => Err(e),
            Ok(d) => if d.used == 0 {
                Err(error_at(g, pos, Expectation::Progress))
            } else {
                block_items(g, start, acc.push(d.value), pos + d.used)
            },
        }
    }
}

pub open spec fn declaration(g: Grammar, pos: int) -> Parse<StatementView>
    decreases remaining(g, pos), 38nat,
{
    match token_at(g, pos) {
        TokenView::Let => match let_declaration(g, pos + 1) {
            Err(e) => Err(e),
            Ok(d) => done(d.value, d.used + 1),
        },
        TokenView::Fn => match function_definition(g, pos + 1) {
            Err(e) => Err(e),
            Ok(d) => done(d.value, d.used + 1),
        },
        TokenView::Import => match import_declaration(g, pos + 1) {
            Err(e) => Err(e),
            Ok(d) => done(d.value, d.used + 1),
        },
        _ => statement(g, pos),
    }
}

pub open spec fn statement(g: Grammar, pos: int) -> Parse<StatementView>
    decreases remaining(g, pos), 37nat,
{
    match token_at(g, pos) {
        TokenView::LBrace => match block(g, pos + 1) {
            Err(e) => Err(e),
            Ok(b) => done(StatementView::Block(b.value), b.used + 1),
        },
        TokenView::If => match if_statement(g, pos + 1) {
            Err(e) => Err(e),
            Ok(s) => done(s.value, s.used + 1),
        },
        TokenView::While => match while_statement(g, pos + 1) {
            Err(e) => Err(e),
            Ok(s) => done(s.value, s.used + 1),
        },
        TokenView::For => match for_statement(g, pos + 1) {
            Err(e) => Err(e),
            Ok(s) => done(s.value, s.used + 1),
        },
        TokenView::Print => match print_statement(g, pos + 1) {
            Err(e) => Err(e),
            Ok(s) => done(s.value, s.used + 1),
        },
        TokenView::Return => match return_statement(g, pos + 1) {
            Err(e) => Err(e),
            Ok(s) => done(s.value, s.used + 1),
        },
        TokenView::Try => match try_statement(g, pos + 1) {
            Err(e) => Err(e),
            Ok(s) => done(s.value, s.used + 1),
        },
        _ => expression_statement(g, pos),
    }
}

/// After `let`: a name, `=`, an expression and `;`.
#[verifier::opaque]
pub open spec fn let_declaration(g: Grammar, pos: int) -> Parse<StatementView>
    decreases remaining(g, pos), 36nat,
{
    match identifier(g, pos, Expectation::VariableName) {
        Err(e) => Err(e),
        Ok(name) => if token_at(g, pos + 1) is Equal {
            match expression(g, pos + 2) {
                Err(e) => Err(e),
                Ok(value) => match expect(
                    g,
                    pos + 2 + value.used,
                    TokenView::Semicolon,
                    Expectation::SemicolonAfterVariableDeclaration,
                ) {
                    Err(e) => Err(e),
                    Ok(_) => done(
                        StatementView::Let { name, value: value.value },
                        value.used + 3,
                    ),
                },
            }
        } else {
            Err(error_at(g, pos + 1, Expectation::EqualsInLet))
        },
    }
}

/// After `fn`: `main` or a name, the parameters in parentheses, and a block.
/// A function written with `main` has the empty name.
pub open spec fn function_definition(g: Grammar, pos: int) -> Parse<StatementView>
    decreases remaining(g, pos), 36nat,
{
    let is_main = token_at(g, pos) is Main;
    let named = if is_main {
        Ok(Seq::empty())
    } else {
        identifier(g, pos, Expectation::FunctionName)
    };
    match named {
        Err(e) => Err(e),
        Ok(name) => match expect(
            g,
            pos + 1,
            TokenView::LParen,
            Expectation::ParenAfterFunctionName,
        ) {
            Err(e) => Err(e),
            Ok(_) => match parameters(g, pos + 2) {
                Err(e) => Err(e),
                Ok(params) => {
                    let close = pos + 2 + params.used;
                    match expect(g, close, TokenView::RParen, Expectation::ParenAfterParameters) {
                        Err(e) => Err(e),
                        Ok(_) => match expect(
                            g,
                            close + 1,
                            TokenView::LBrace,
                            Expectation::BraceBeforeFunctionBody,
                        ) {
                            Err(e) => Err(e),
                            Ok(_) => match block(g, close + 2) {
                                Err(e) => Err(e),
                                Ok(body) => done(
                                    StatementView::FunctionDef {
                                        file_prefix: g.prefix,
                                        is_main,
                                        name,
                                        params: params.value,
                                        body: body.value,
                                    },
                                    params.used + body.used + 4,
                                ),
                            },
                        },
                    }
                },
            },
        },
    }
}

/// Parameter names separated by commas, up to a `)` that is left in place.
pub open spec fn parameters(g: Grammar, pos: int) -> Parse<Seq<Seq<char>>> {
    if token_at(g, pos) is RParen {
        done(Seq::empty(), 0)
    } else {
        match identifier(g, pos, Expectation::ParameterName) {
            Err(e) => Err(e),
            Ok(name) => more_parameters(g, pos, seq![name], pos + 1),
        }
    }
}

pub open spec fn more_parameters(g: Grammar, start: int, acc: Seq<Seq<char>>, pos: int) -> Parse<
    Seq<Seq<char>>,
>
    decreases remaining(g, pos),
{
    if token_at(g, pos) is Comma {
        match identifier(g, pos + 1, Expectation::ParameterName) {
            Err(e) => Err(e),
            Ok(name) => more_parameters(g, start, acc.push(name), pos + 2),
        }
    } else {
        done(acc, (pos - start) as nat)
    }
}

/// After `import`: a module name and `;`.
pub open spec fn import_declaration(g: Grammar, pos: int) -> Parse<StatementView> {
    match identifier(g, pos, Expectation::ModuleName) {
        Err(e) => Err(e),
        Ok(name) => match expect(
            g,
            pos + 1,
            TokenView::Semicolon,
            Expectation::SemicolonAfterImport,
        ) {
            Err(e) => Err(e),
            Ok(_) => done(StatementView::Import(name), 2),
        },
    }
}

/// After `print`: an expression and `;`.
pub open spec fn print_statement(g: Grammar, pos: int) -> Parse<StatementView>
    decreases remaining(g, pos), 36nat,
{
    match expression(g, pos) {
        Err(e) => Err(e),
        Ok(value) => match expect(
            g,
            pos + value.used,
            TokenView::Semicolon,
            Expectation::SemicolonAfterPrint,
        ) {
            Err(e) => Err(e),
            Ok(_) => done(StatementView::Print(value.value), value.used + 1),
        },
    }
}

/// After `return`: `;`, or an expression and `;`. Without an expression the
/// statement returns the literal `false`.
pub open spec fn return_statement(g: Grammar, pos: int) -> Parse<StatementView>
    decreases remaining(g, pos), 36nat,
{
    if token_at(g, pos) is Semicolon {
        done(StatementView::Return(ExpressionView::Bool(false)), 1)
    } else {
        match expression(g, pos) {
            Err(e) => Err(e),
            Ok(value) => match expect(
                g,
                pos + value.used,
                TokenView::Semicolon,
                Expectation::SemicolonAfterReturn,
            ) {
                Err(e) => Err(e),
                Ok(_) => done(StatementView::Return(value.value), value.used + 1),
            },
        }
    }
}

/// A condition in parentheses and a block.
pub open spec fn condition_and_block(
    g: Grammar,
    pos: int,
    open: Expectation,
    close: Expectation,
    brace: Expectation,
) -> Parse<(ExpressionView, Seq<StatementView>)>
    decreases remaining(g, pos), 36nat,
{
    match expect(g, pos, TokenView::LParen, open) {
        Err(e) => Err(e),
        Ok(_) => match expression(g, pos + 1) {
            Err(e) => Err(e),
            Ok(condition) => {
                let after = pos + 1 + condition.used;
                match expect(g, after, TokenView::RParen, close) {
                    Err(e) => Err(e),
                    Ok(_) => match expect(g, after + 1, TokenView::LBrace, brace) {
                        Err(e) => Err(e),
                        Ok(_) => match block(g, after + 2) {
                            Err(e) => Err(e),
                            Ok(body) => done(
                                (condition.value, body.value),
                                condition.used + body.used + 3,
                            ),
                        },
                    },
                }
            },
        },
    }
}

/// After `if`: a condition, a block, and perhaps `else` with a block or with
/// another `if`, which becomes the one statement of the else branch.
pub open spec fn if_statement(g: Grammar, pos: int) -> Parse<StatementView>
    decreases remaining(g, pos), 37nat,
{
    match condition_and_block(
        g,
        pos,
        Expectation::ParenAfterIf,
        Expectation::ParenAfterIfCondition,
        Expectation::BraceBeforeIfBody,
    ) {
        Err(e) => Err(e),
        Ok(head) => {
            let after = pos + head.used;
            if token_at(g, after) is Else {
                if token_at(g, after + 1) is If {
                    match if_statement(g, after + 2) {
                        Err(e) => Err(e),
                        Ok(nested) => done(
                            StatementView::If {
                                condition: head.value.0,
                                then_branch: head.value.1,
                                else_branch: Some(seq![nested.value]),
                            },
                            head.used + nested.used + 2,
                        ),
                    }
                } else {
                    match expect(
                        g,
                        after + 1,
                        TokenView::LBrace,
                        Expectation::BraceBeforeElseBody,
                    ) {
                        Err(e) => Err(e),
                        Ok(_) => match block(g, after + 2) {
                            Err(e) => Err(e),
                            Ok(other) => done(
                                StatementView::If {
                                    condition: head.value.0,
                                    then_branch: head.value.1,
                                    else_branch: Some(other.value),
                                },
                                head.used + other.used + 2,
                            ),
                        },
                    }
                }
            } else {
                done(
                    StatementView::If {
                        condition: head.value.0,
                        then_branch: head.value.1,
                        else_branch: None,
                    },
                    head.used,
                )
            }
        },
    }
}

/// After `while`: a condition and a block.
pub open spec fn while_statement(g: Grammar, pos: int) -> Parse<StatementView>
    decreases remaining(g, pos), 37nat,
{
    match condition_and_block(
        g,
        pos,
        Expectation::ParenAfterWhile,
        Expectation::ParenAfterWhileCondition,
        Expectation::BraceBeforeWhileBody,
    ) {
        Err(e) => Err(e),
        Ok(head) => done(
            StatementView::While { condition: head.value.0, body: head.value.1 },
            head.used,
        ),
    }
}

/// The first clause of a `for`: `;` alone, a `let` declaration, or an
/// expression statement.
pub open spec fn for_init(g: Grammar, pos: int) -> Parse<Option<Box<StatementView>>>
    decreases remaining(g, pos), 37nat,
{
    match token_at(g, pos) {
        TokenView::Semicolon => done(None, 1),
        TokenView::Let => match let_declaration(g, pos + 1) {
            Err(e) => Err(e),
            Ok(d) => done(Some(Box::new(d.value)), d.used + 1),
        },
        _ => match expression_statement(g, pos) {
            Err(e) => Err(e),
            Ok(s) => done(Some(Box::new(s.value)), s.used),
        },
    }
}

/// An expression, unless the token at the position is the given one.
pub open spec fn optional_expression(g: Grammar, pos: int, closer: TokenView) -> Parse<
    Option<ExpressionView>,
>
    decreases remaining(g, pos), 36nat,
{
    if token_at(g, pos) == closer {
        done(None, 0)
    } else {
        match expression(g, pos) {
            Err(e) => Err(e),
            Ok(e) => done(Some(e.value), e.used),
        }
    }
}

/// After `for`: three clauses in parentheses, any of which may be left out,
/// and a block. The update becomes an expression statement.
pub open spec fn for_statement(g: Grammar, pos: int) -> Parse<StatementView>
    decreases remaining(g, pos), 40nat,
{
    match expect(g, pos, TokenView::LParen, Expectation::ParenAfterFor) {
        Err(e) => Err(e),
        Ok(_) => match for_init(g, pos + 1) {
            Err(e) => Err(e),
            Ok(init) => match for_condition(g, pos + 1 + init.used, init.value) {
                Err(e) => Err(e),
                Ok(rest) => done(rest.value, init.used + rest.used + 1),
            },
        },
    }
}

/// A `for` from its condition on: the condition, unless `;` comes next, and
/// `;`.
pub open spec fn for_condition(g: Grammar, pos: int, init: Option<Box<StatementView>>) -> Parse<
    StatementView,
>
    decreases remaining(g, pos), 39nat,
{
    match optional_expression(g, pos, TokenView::Semicolon) {
        Err(e) => Err(e),
        Ok(condition) => match expect(
            g,
            pos + condition.used,
            TokenView::Semicolon,
            Expectation::SemicolonAfterLoopCondition,
        ) {
            Err(e) => Err(e),
            Ok(_) => match for_update(g, pos + condition.used + 1, init, condition.value) {
                Err(e) => Err(e),
                Ok(rest) => done(rest.value, condition.used + rest.used + 1),
            },
        },
    }
}

/// A `for` from its update on: the update, unless `)` comes next, `)` and
/// the body.
pub open spec fn for_update(
    g: Grammar,
    pos: int,
    init: Option<Box<StatementView>>,
    condition: Option<ExpressionView>,
) -> Parse<StatementView>
    decreases remaining(g, pos), 38nat,
{
    match optional_expression(g, pos, TokenView::RParen) {
        Err(e) => Err(e),
        Ok(update) => {
            let close = pos + update.used;
            match expect(g, close, TokenView::RParen, Expectation::ParenAfterForClauses) {
                Err(e) => Err(e),
                Ok(_) => match expect(
                    g,
                    close + 1,
                    TokenView::LBrace,
                    Expectation::BraceBeforeForBody,
                ) {
                    Err(e) => Err(e),
                    Ok(_) => match block(g, close + 2) {
                        Err(e) => Err(e),
                        Ok(body) => done(
                            StatementView::For {
                                init,
                                condition,
                                update: match update.value {
                                    Some(u) => Some(Box::new(StatementView::Expression(u))),
                                    None => None,
                                },
                                body: body.value,
                            },
                            update.used + body.used + 2,
                        ),
                    },
                },
            }
        },
    }
}

/// After `try`: a block, `catch`, and a block.
pub open spec fn try_statement(g: Grammar, pos: int) -> Parse<StatementView>
    decreases remaining(g, pos), 36nat,
{
    match expect(g, pos, TokenView::LBrace, Expectation::BraceAfterTry) {
        Err(e) => Err(e),
        Ok(_) => match block(g, pos + 1) {
            Err(e) => Err(e),
            Ok(body) => {
                let after = pos + 1 + body.used;
                match expect(g, after, TokenView::Catch, Expectation::CatchAfterTryBlock) {
                    Err(e) => Err(e),
                    Ok(_) => match expect(
                        g,
                        after + 1,
                        TokenView::LBrace,
                        Expectation::BraceAfterCatch,
                    ) {
                        Err(e) => Err(e),
                        Ok(_) => match block(g, after + 2) {
                            Err(e) => Err(e),
                            Ok(catch) => done(
                                StatementView::Try { body: body.value, catch: catch.value },
                                body.used + catch.used + 3,
                            ),
                        },
                    },
                }
            },
        },
    }
}

/// An expression and `;`. An assignment to a variable becomes an assignment
/// statement.
pub open spec fn expression_statement(g: Grammar, pos: int) -> Parse<StatementView>
    decreases remaining(g, pos), 36nat,
{
    match expression(g, pos) {
        Err(e) => Err(e),
        Ok(e) => if is_assignment(e.value) {
            match expect(
                g,
                pos + e.used,
                TokenView::Semicolon,
                Expectation::SemicolonAfterAssignment,
            ) {
                Err(e) => Err(e),
                Ok(_) => done(
                    StatementView::Assign {
                        name: assigned_name(e.value),
                        value: assigned_value(e.value),
                    },
                    e.used + 1,
                ),
            }
        } else {
            match expect(
                g,
                pos + e.used,
                TokenView::Semicolon,
                Expectation::SemicolonAfterExpression,
            ) {
                Err(e) => Err(e),
                Ok(_) => done(StatementView::Expression(e.value), e.used + 1),
            }
        },
    }
}

pub open spec fn expression(g: Grammar, pos: int) -> Parse<ExpressionView>
    decreases remaining(g, pos), 35nat,
{
    assignment(g, pos)
}

/// A `||` expression, and perhaps `=` and the assigned expression, which
/// binds to the right. The target must be a variable or an indexed element.
pub open spec fn assignment(g: Grammar, pos: int) -> Parse<ExpressionView>
    decreases remaining(g, pos), 34nat,
{
    match binary(g, 0, pos) {
        Err(e) => Err(e),
        Ok(target) => if token_at(g, pos + target.used) is Equal {
            match target.value {
                ExpressionView::Identifier(name) => match assignment(g, pos + target.used + 1) {
                    Err(e) => Err(e),
                    Ok(value) => done(
                        assign_call(name, value.value),
                        target.used + value.used + 1,
                    ),
                },
                ExpressionView::ArrayAccess { array, index } => match assignment(
                    g,
                    pos + target.used + 1,
                ) {
                    Err(e) => Err(e),
                    Ok(value) => done(
                        array_assign_call(*array, *index, value.value),
                        target.used + value.used + 1,
                    ),
                },
                _ => Err(error_at(g, pos + target.used + 1, Expectation::AssignmentTarget)),
            }
        } else {
            Ok(target)
        },
    }
}

/// A chain of binary operators of one level of precedence, which binds to
/// the left, over operands of the next tighter level.
pub open spec fn binary(g: Grammar, level: nat, pos: int) -> Parse<ExpressionView>
    decreases remaining(g, pos), level_rank(level),
{
    if level >= 6 {
        unary(g, pos)
    } else {
        match binary(g, level + 1, pos) {
            Err(e) => Err(e),
            Ok(first) => binary_rest(g, level, pos, first.value, pos + first.used),
        }
    }
}

pub open spec fn binary_rest(g: Grammar, level: nat, start: int, left: ExpressionView, pos: int) -> Parse<
    ExpressionView,
>
    decreases remaining(g, pos), level_rank(level) - 1,
{
    if level >= 6 || at_end(g, pos) {
        done(left, (pos - start) as nat)
    } else {
        match level_operator(level, token_at(g, pos)) {
            None => done(left, (pos - start) as nat),
            Some(op) => match binary(g, level + 1, pos + 1) {
                Err(e) => Err(e),
                Ok(right) => binary_rest(
                    g,
                    level,
                    start,
                    ExpressionView::Binary {
                        left: Box::new(left),
                        op,
                        right: Box::new(right.value),
                    },
                    pos + 1 + right.used,
                ),
            },
        }
    }
}

pub open spec fn unary(g: Grammar, pos: int) -> Parse<ExpressionView>
    decreases remaining(g, pos), 21nat,
{
    match token_at(g, pos) {
        TokenView::Minus => match unary(g, pos + 1) {
            Err(e) => Err(e),
            Ok(operand) => done(
                ExpressionView::Unary { op: UnaryOp::Negate, expr: Box::new(operand.value) },
                operand.used + 1,
            ),
        },
        TokenView::Not => match unary(g, pos + 1) {
            Err(e) => Err(e),
            Ok(operand) => done(
                ExpressionView::Unary { op: UnaryOp::Not, expr: Box::new(operand.value) },
                operand.used + 1,
            ),
        },
        _ => call(g, pos),
    }
}

/// A primary expression followed by any number of argument lists and
/// indexes.
pub open spec fn call(g: Grammar, pos: int) -> Parse<ExpressionView>
    decreases remaining(g, pos), 20nat,
{
    match primary(g, pos) {
        Err(e) => Err(e),
        Ok(first) => call_rest(g, pos, first.value, pos + first.used),
    }
}

pub open spec fn call_rest(g: Grammar, start: int, callee: ExpressionView, pos: int) -> Parse<
    ExpressionView,
>
    decreases remaining(g, pos), 19nat,
{
    match token_at(g, pos) {
        TokenView::LParen => match finish_call(g, callee, pos + 1) {
            Err(e) => Err(e),
            Ok(made) => call_rest(g, start, made.value, pos + 1 + made.used),
        },
        TokenView::LBracket => match expression(g, pos + 1) {
            Err(e) => Err(e),
            Ok(index) => match expect(
                g,
                pos + 1 + index.used,
                TokenView::RBracket,
                Expectation::BracketAfterIndex,
            ) {
                Err(e) => Err(e),
                Ok(_) => call_rest(
                    g,
                    start,
                    ExpressionView::ArrayAccess {
                        array: Box::new(callee),
                        index: Box::new(index.value),
                    },
                    pos + 2 + index.used,
                ),
            },
        },
        _ => done(callee, (pos - start) as nat),
    }
}

/// The arguments of a call after its `(`, and the `)`.
pub open spec fn finish_call(g: Grammar, callee: ExpressionView, pos: int) -> Parse<ExpressionView>
    decreases remaining(g, pos), 37nat,
{
    match expression_list(g, pos, TokenView::RParen, Some(argument_limit())) {
        Err(e) => Err(e),
        Ok(arguments) => match expect(
            g,
            pos + arguments.used,
            TokenView::RParen,
            Expectation::ParenAfterArguments,
        ) {
            Err(e) => Err(e),
            Ok(_) => done(
                ExpressionView::Call { callee: Box::new(callee), arguments: arguments.value },
                arguments.used + 1,
            ),
        },
    }
}

/// The elements of an array literal after its `[`, and the `]`.
pub open spec fn array_literal(g: Grammar, pos: int) -> Parse<ExpressionView>
    decreases remaining(g, pos), 37nat,
{
    match expression_list(g, pos, TokenView::RBracket, None) {
        Err(e) => Err(e),
        Ok(elements) => match expect(
            g,
            pos + elements.used,
            TokenView::RBracket,
            Expectation::BracketAfterElements,
        ) {
            Err(e) => Err(e),
            Ok(_) => done(
                ExpressionView::Array { elements: elements.value },
                elements.used + 1,
            ),
        },
    }
}

/// Expressions separated by commas, up to a closing token that is left in
/// place; no more of them than the limit, if there is one.
pub open spec fn expression_list(g: Grammar, pos: int, closer: TokenView, limit: Option<nat>) -> Parse<
    Seq<ExpressionView>,
>
    decreases remaining(g, pos), 36nat,
{
    if token_at(g, pos) == closer && !(closer is EOF) {
        done(Seq::empty(), 0)
    } else {
        match expression(g, pos) {
            Err(e) => Err(e),
            Ok(first) => more_expressions(g, pos, seq![first.value], pos + first.used, limit),
        }
    }
}

pub open spec fn more_expressions(
    g: Grammar,
    start: int,
    acc: Seq<ExpressionView>,
    pos: int,
    limit: Option<nat>,
) -> Parse<Seq<ExpressionView>>
    decreases remaining(g, pos), 34nat,
{
    if token_at(g, pos) is Comma {
        if limit is Some && acc.len() >= limit->0 {
            Err(error_at(g, pos + 1, Expectation::FewerArguments))
        } else {
            match expression(g, pos + 1) {
                Err(e) => Err(e),
                Ok(next) => more_expressions(
                    g,
                    start,
                    acc.push(next.value),
                    pos + 1 + next.used,
                    limit,
                ),
            }
        }
    } else {
        done(acc, (pos - start) as nat)
    }
}

/// Whether a token is an expression by itself: a literal or a variable.
pub open spec fn is_atom(token: TokenView) -> bool {
    token is Number || token is Float || token is Bool || token is String || token is Identifier
}

/// The expression that a literal or a variable is.
pub open spec fn atom(token: TokenView) -> ExpressionView {
    match token {
        TokenView::Number(n) => ExpressionView::Number(n),
        TokenView::Float(text) => ExpressionView::Float(text),
        TokenView::Bool(b) => ExpressionView::Bool(b),
        TokenView::String(s) => ExpressionView::String(s),
        TokenView::Identifier(name) => ExpressionView::Identifier(name),
        _ => ExpressionView::Bool(false),
    }
}

/// A literal, a variable, an array literal, an expression in parentheses, or
/// a closure.
pub open spec fn primary(g: Grammar, pos: int) -> Parse<ExpressionView>
    decreases remaining(g, pos), 18nat,
{
    match token_at(g, pos) {
        TokenView::Number(_)
        | TokenView::Float(_)
        | TokenView::Bool(_)
        | TokenView::String(_)
        | TokenView::Identifier(_) => done(atom(token_at(g, pos)), 1),
        TokenView::LBracket => match array_literal(g, pos + 1) {
            Err(e) => Err(e),
            Ok(a) => done(a.value, a.used + 1),
        },
        TokenView::LParen => match expression(g, pos + 1) {
            Err(e) => Err(e),
            Ok(inner) => match expect(
                g,
                pos + 1 + inner.used,
                TokenView::RParen,
                Expectation::ParenAfterExpression,
            ) {
                Err(e) => Err(e),
                Ok(_) => done(inner.value, inner.used + 2),
            },
        },
        TokenView::Fn => match closure(g, pos + 1) {
            Err(e) => Err(e),
            Ok(c) => done(c.value, c.used + 1),
        },
        _ => Err(error_at(g, pos, Expectation::Expression)),
    }
}

/// After `fn` in an expression: the parameters in parentheses and a block.
#[verifier::opaque]
pub open spec fn closure(g: Grammar, pos: int) -> Parse<ExpressionView>
    decreases remaining(g, pos), 37nat,
{
    match expect(g, pos, TokenView::LParen, Expectation::ParenAfterClosureFn) {
        Err(e) => Err(e),
        Ok(_) => match parameters(g, pos + 1) {
            Err(e) => Err(e),
            Ok(params) => {
                let close = pos + 1 + params.used;
                match expect(g, close, TokenView::RParen, Expectation::ParenAfterClosureParameters) {
                    Err(e) => Err(e),
                    Ok(_) => match expect(
                        g,
                        close + 1,
                        TokenView::LBrace,
                        Expectation::BraceBeforeClosureBody,
                    ) {
                        Err(e) => Err(e),
                        Ok(_) => match block(g, close + 2) {
                            Err(e) => Err(e),
                            Ok(body) => done(
                                ExpressionView::Closure { params: params.value, body: body.value },
                                params.used + body.used + 3,
                            ),
                        },
                    },
                }
            },
        },
    }
}

} // verus!
