//! The productions of the grammar, as methods of the parser.

use vstd::prelude::*;
use crate::ast::{
    expressions_view, no_expressions, no_names, no_statements, optional_expression_view,
    optional_statement_view, push_expression, push_name, push_statement, statements_view,
    strings_view, AssignmentTarget, Expression, ExpressionView, Statement, StatementView, UnaryOp,
};
use crate::grammar;
use crate::grammar::{agrees, level_rank, token_at, Expectation, ParseError};
use crate::lexer::TokenView;
use crate::parser::{
    expression_result, expressions_result, names_result, statement_result, statements_result,
    Parser,
};

verus! {

impl Parser {
    /// Parses a whole program.
    pub fn parse(&mut self) -> (r: Result<Vec<Statement>, ParseError>)
        ensures
            final(self).grammar() == old(self).grammar(),
            statements_result(r) == grammar::program(
                old(self).grammar(),
                Seq::empty(),
                old(self).position(),
            ),
            r is Ok ==> grammar::at_end(final(self).grammar(), final(self).position()),
    {
        let ghost g = self.grammar();
        let ghost total = grammar::program(g, Seq::empty(), self.position());
        let mut statements = no_statements();
        while !self.is_at_end()
            invariant
                self.grammar() == g,
                g == old(self).grammar(),
                total == grammar::program(g, Seq::empty(), old(self).position()),
                total == grammar::program(g, statements_view(statements@), self.position()),
            decreases self.left(),
        {
            let before = self.place();
            let d = match self.declaration() {
                Ok(v) => v,
                Err(e) => {
                    return Err(e);
                },
            };
            if self.place() == before {
                return Err(self.error(Expectation::Progress));
            }
            push_statement(&mut statements, d);
        }
        Ok(statements)
    }

    /// Parses a module: only the function definitions and imports of the
    /// top level.
    pub fn parse_module(&mut self) -> (r: Result<Vec<Statement>, ParseError>)
        ensures
            final(self).grammar() == old(self).grammar(),
            statements_result(r) == grammar::module(
                old(self).grammar(),
                Seq::empty(),
                old(self).position(),
            ),
            r is Ok ==> grammar::at_end(final(self).grammar(), final(self).position()),
    {
        let ghost g = self.grammar();
        let ghost total = grammar::module(g, Seq::empty(), self.position());
        let mut statements = no_statements();
        while !self.is_at_end()
            invariant
                self.grammar() == g,
                g == old(self).grammar(),
                total == grammar::module(g, Seq::empty(), old(self).position()),
                total == grammar::module(g, statements_view(statements@), self.position()),
            decreases self.left(),
        {
            if self.at_fn() || self.at_import() {
                let before = self.place();
                let d = match self.declaration() {
                    Ok(v) => v,
                    Err(e) => {
                        return Err(e);
                    },
                };
                if self.place() == before {
                    return Err(self.error(Expectation::Progress));
                }
                push_statement(&mut statements, d);
            } else {
                self.advance();
            }
        }
        Ok(statements)
    }

    fn declaration(&mut self) -> (r: Result<Statement, ParseError>)
        ensures
            final(self).grammar() == old(self).grammar(),
            final(self).left() <= old(self).left(),
            agrees(
                grammar::declaration(old(self).grammar(), old(self).position()),
                statement_result(r),
                old(self).position(),
                final(self).position(),
            ),
        decreases old(self).left(), 38nat,
    {
        reveal_with_fuel(grammar::let_declaration, 1);
        if self.at_let() {
            self.advance();
            self.let_declaration()
        } else if self.at_fn() {
            self.advance();
            self.function_definition()
        } else if self.at_import() {
            self.advance();
            self.import_declaration()
        } else {
            self.statement()
        }
    }

    fn let_declaration(&mut self) -> (r: Result<Statement, ParseError>)
        ensures
            final(self).grammar() == old(self).grammar(),
            final(self).left() <= old(self).left(),
            agrees(
                grammar::let_declaration(old(self).grammar(), old(self).position()),
                statement_result(r),
                old(self).position(),
                final(self).position(),
            ),
        decreases old(self).left(), 36nat,
    {
        proof {
            lemma_let_declaration_unfold(self.grammar(), self.position());
        }
        let name = match self.consume_identifier(Expectation::VariableName) {
            Ok(v) => v,
            Err(e) => {
                return Err(e);
            },
        };
        if !self.at_equal() {
            return Err(self.error(Expectation::EqualsInLet));
        }
        self.advance();
        let value = match self.expression() {
            Ok(v) => v,
            Err(e) => {
                return Err(e);
            },
        };
        match self.take_semicolon(Expectation::SemicolonAfterVariableDeclaration) {
            Ok(_) => {},
            Err(e) => {
                return Err(e);
            },
        }
        Ok(Statement::new_let(name, value))
    }

    fn function_definition(&mut self) -> (r: Result<Statement, ParseError>)
        ensures
            final(self).grammar() == old(self).grammar(),
            final(self).left() <= old(self).left(),
            agrees(
                grammar::function_definition(old(self).grammar(), old(self).position()),
                statement_result(r),
                old(self).position(),
                final(self).position(),
            ),
        decreases old(self).left(), 36nat,
    {
        let is_main = self.at_main();
        let name = if is_main {
            self.advance();
            String::new()
        } else {
            match self.consume_identifier(Expectation::FunctionName) {
                Ok(v) => v,
                Err(e) => {
                    return Err(e);
                },
            }
        };
        match self.take_l_paren(Expectation::ParenAfterFunctionName) {
            Ok(_) => {},
            Err(e) => {
                return Err(e);
            },
        }
        let params = match self.parameters() {
            Ok(v) => v,
            Err(e) => {
                return Err(e);
            },
        };
        match self.take_r_paren(Expectation::ParenAfterParameters) {
            Ok(_) => {},
            Err(e) => {
                return Err(e);
            },
        }
        match self.take_l_brace(Expectation::BraceBeforeFunctionBody) {
            Ok(_) => {},
            Err(e) => {
                return Err(e);
            },
        }
        let body = match self.block() {
            Ok(v) => v,
            Err(e) => {
                return Err(e);
            },
        };
        Ok(Statement::new_function(self.prefix(), is_main, name, params, body))
    }

    /// Parameter names separated by commas, up to a `)`.
    fn parameters(&mut self) -> (r: Result<Vec<String>, ParseError>)
        ensures
            final(self).grammar() == old(self).grammar(),
            final(self).left() <= old(self).left(),
            agrees(
                grammar::parameters(old(self).grammar(), old(self).position()),
                names_result(r),
                old(self).position(),
                final(self).position(),
            ),
    {
        let ghost g = self.grammar();
        let ghost start = self.position();
        let mut params = no_names();
        if self.at_r_paren() {
            return Ok(params);
        }
        let first = match self.consume_identifier(Expectation::ParameterName) {
            Ok(v) => v,
            Err(e) => {
                return Err(e);
            },
        };
        assert(Seq::<Seq<char>>::empty().push(first@) =~= seq![first@]);
        push_name(&mut params, first);
        while self.at_comma()
            invariant
                self.grammar() == g,
                start == old(self).position(),
                g == old(self).grammar(),
                start <= self.position(),
                grammar::parameters(g, start) == grammar::more_parameters(
                    g,
                    start,
                    strings_view(params@),
                    self.position(),
                ),
            decreases self.left(),
        {
            self.advance();
            let name = match self.consume_identifier(Expectation::ParameterName) {
                Ok(v) => v,
                Err(e) => {
                    return Err(e);
                },
            };
            push_name(&mut params, name);
        }
        Ok(params)
    }

    fn import_declaration(&mut self) -> (r: Result<Statement, ParseError>)
        ensures
            final(self).grammar() == old(self).grammar(),
            final(self).left() <= old(self).left(),
            agrees(
                grammar::import_declaration(old(self).grammar(), old(self).position()),
                statement_result(r),
                old(self).position(),
                final(self).position(),
            ),
    {
        let name = match self.consume_identifier(Expectation::ModuleName) {
            Ok(v) => v,
            Err(e) => {
                return Err(e);
            },
        };
        match self.take_semicolon(Expectation::SemicolonAfterImport) {
            Ok(_) => {},
            Err(e) => {
                return Err(e);
            },
        }
        Ok(Statement::new_import(name))
    }

    fn statement(&mut self) -> (r: Result<Statement, ParseError>)
        ensures
            final(self).grammar() == old(self).grammar(),
            final(self).left() <= old(self).left(),
            agrees(
                grammar::statement(old(self).grammar(), old(self).position()),
                statement_result(r),
                old(self).position(),
                final(self).position(),
            ),
        decreases old(self).left(), 37nat,
    {
        if self.at_l_brace() {
            self.advance();
            let body = match self.block() {
                Ok(v) => v,
                Err(e) => {
                    return Err(e);
                },
            };
            Ok(Statement::new_block(body))
        } else if self.at_if() {
            self.advance();
            self.if_statement()
        } else if self.at_while() {
            self.advance();
            self.while_statement()
        } else if self.at_for() {
            self.advance();
            self.for_statement()
        } else if self.at_print() {
            self.advance();
            self.print_statement()
        } else if self.at_return() {
            self.advance();
            self.return_statement()
        } else if self.at_try() {
            self.advance();
            self.try_statement()
        } else {
            self.expression_statement()
        }
    }

    fn print_statement(&mut self) -> (r: Result<Statement, ParseError>)
        ensures
            final(self).grammar() == old(self).grammar(),
            final(self).left() <= old(self).left(),
            agrees(
                grammar::print_statement(old(self).grammar(), old(self).position()),
                statement_result(r),
                old(self).position(),
                final(self).position(),
            ),
        decreases old(self).left(), 36nat,
    {
        let value = match self.expression() {
            Ok(v) => v,
            Err(e) => {
                return Err(e);
            },
        };
        match self.take_semicolon(Expectation::SemicolonAfterPrint) {
            Ok(_) => {},
            Err(e) => {
                return Err(e);
            },
        }
        Ok(Statement::new_print(value))
    }

    fn return_statement(&mut self) -> (r: Result<Statement, ParseError>)
        ensures
            final(self).grammar() == old(self).grammar(),
            final(self).left() <= old(self).left(),
            agrees(
                grammar::return_statement(old(self).grammar(), old(self).position()),
                statement_result(r),
                old(self).position(),
                final(self).position(),
            ),
        decreases old(self).left(), 36nat,
    {
        if self.at_semicolon() {
            self.advance();
            return Ok(Statement::new_return(Expression::new_bool(false)));
        }
        let value = match self.expression() {
            Ok(v) => v,
            Err(e) => {
                return Err(e);
            },
        };
        match self.take_semicolon(Expectation::SemicolonAfterReturn) {
            Ok(_) => {},
            Err(e) => {
                return Err(e);
            },
        }
        Ok(Statement::new_return(value))
    }

    /// The statements of a block after its `{`, and the `}`.
    fn block(&mut self) -> (r: Result<Vec<Statement>, ParseError>)
        ensures
            final(self).grammar() == old(self).grammar(),
            final(self).left() <= old(self).left(),
            agrees(
                grammar::block(old(self).grammar(), old(self).position()),
                statements_result(r),
                old(self).position(),
                final(self).position(),
            ),
        decreases old(self).left(), 40nat,
    {
        let ghost g = self.grammar();
        let ghost start = self.position();
        let mut statements = no_statements();
        while !self.at_r_brace() && !self.is_at_end()
            invariant
                self.grammar() == g,
                g == old(self).grammar(),
                start == old(self).position(),
                start <= self.position(),
                grammar::block_items(g, start, Seq::empty(), start) == grammar::block_items(
                    g,
                    start,
                    statements_view(statements@),
                    self.position(),
                ),
            decreases self.left(),
        {
            let before = self.place();
            let d = match self.declaration() {
                Ok(v) => v,
                Err(e) => {
                    return Err(e);
                },
            };
            if self.place() == before {
                return Err(self.error(Expectation::Progress));
            }
            push_statement(&mut statements, d);
        }
        match self.take_r_brace(Expectation::BraceAfterBlock) {
            Ok(_) => {},
            Err(e) => {
                return Err(e);
            },
        }
        Ok(statements)
    }

    /// A condition in parentheses and a block.
    fn condition_and_block(&mut self, open: Expectation, close: Expectation, brace: Expectation) -> (r:
        Result<(Expression, Vec<Statement>), ParseError>)
        ensures
            final(self).grammar() == old(self).grammar(),
            final(self).left() <= old(self).left(),
            agrees(
                grammar::condition_and_block(
                    old(self).grammar(),
                    old(self).position(),
                    open,
                    close,
                    brace,
                ),
                match r {
                    Ok(pair) => Ok((pair.0@, statements_view(pair.1@))),
                    Err(e) => Err(e),
                },
                old(self).position(),
                final(self).position(),
            ),
        decreases old(self).left(), 36nat,
    {
        match self.take_l_paren(open) {
            Ok(_) => {},
            Err(e) => {
                return Err(e);
            },
        }
        let condition = match self.expression() {
            Ok(v) => v,
            Err(e) => {
                return Err(e);
            },
        };
        match self.take_r_paren(close) {
            Ok(_) => {},
            Err(e) => {
                return Err(e);
            },
        }
        match self.take_l_brace(brace) {
            Ok(_) => {},
            Err(e) => {
                return Err(e);
            },
        }
        let body = match self.block() {
            Ok(v) => v,
            Err(e) => {
                return Err(e);
            },
        };
        Ok((condition, body))
    }

    fn if_statement(&mut self) -> (r: Result<Statement, ParseError>)
        ensures
            final(self).grammar() == old(self).grammar(),
            final(self).left() <= old(self).left(),
            agrees(
                grammar::if_statement(old(self).grammar(), old(self).position()),
                statement_result(r),
                old(self).position(),
                final(self).position(),
            ),
        decreases old(self).left(), 37nat,
    {
        let (condition, then_branch) = match self.condition_and_block(
            Expectation::ParenAfterIf,
            Expectation::ParenAfterIfCondition,
            Expectation::BraceBeforeIfBody,
        ) {
            Ok(v) => v,
            Err(e) => {
                return Err(e);
            },
        };
        let else_branch = if self.at_else() {
            self.advance();
            if self.at_if() {
                self.advance();
                let nested = match self.if_statement() {
                    Ok(v) => v,
                    Err(e) => {
                        return Err(e);
                    },
                };
                let mut branch = no_statements();
                assert(Seq::<StatementView>::empty().push(nested@) =~= seq![nested@]);
                push_statement(&mut branch, nested);
                Some(branch)
            } else {
                match self.take_l_brace(Expectation::BraceBeforeElseBody) {
                    Ok(_) => {},
                    Err(e) => {
                        return Err(e);
                    },
                }
                match self.block() {
                    Ok(v) => Some(v),
                    Err(e) => {
                        return Err(e);
                    },
                }
            }
        } else {
            None
        };
        Ok(Statement::new_if(condition, then_branch, else_branch))
    }

    fn while_statement(&mut self) -> (r: Result<Statement, ParseError>)
        ensures
            final(self).grammar() == old(self).grammar(),
            final(self).left() <= old(self).left(),
            agrees(
                grammar::while_statement(old(self).grammar(), old(self).position()),
                statement_result(r),
                old(self).position(),
                final(self).position(),
            ),
        decreases old(self).left(), 37nat,
    {
        let (condition, body) = match self.condition_and_block(
            Expectation::ParenAfterWhile,
            Expectation::ParenAfterWhileCondition,
            Expectation::BraceBeforeWhileBody,
        ) {
            Ok(v) => v,
            Err(e) => {
                return Err(e);
            },
        };
        Ok(Statement::new_while(condition, body))
    }

    /// The first clause of a `for`.
    fn for_init(&mut self) -> (r: Result<Option<Statement>, ParseError>)
        ensures
            final(self).grammar() == old(self).grammar(),
            final(self).left() <= old(self).left(),
            agrees(
                grammar::for_init(old(self).grammar(), old(self).position()),
                match r {
                    Ok(s) => Ok(optional_statement_view(s)),
                    Err(e) => Err(e),
                },
                old(self).position(),
                final(self).position(),
            ),
        decreases old(self).left(), 37nat,
    {
        reveal_with_fuel(grammar::let_declaration, 1);
        if self.at_semicolon() {
            self.advance();
            Ok(None)
        } else if self.at_let() {
            self.advance();
            let d = match self.let_declaration() {
                Ok(v) => v,
                Err(e) => {
                    return Err(e);
                },
            };
            Ok(Some(d))
        } else {
            let s = match self.expression_statement() {
                Ok(v) => v,
                Err(e) => {
                    return Err(e);
                },
            };
            Ok(Some(s))
        }
    }

    /// The condition of a `for`: an expression, unless `;` comes next.
    fn condition_clause(&mut self) -> (r: Result<Option<Expression>, ParseError>)
        ensures
            final(self).grammar() == old(self).grammar(),
            final(self).left() <= old(self).left(),
            agrees(
                grammar::optional_expression(
                    old(self).grammar(),
                    old(self).position(),
                    TokenView::Semicolon,
                ),
                match r {
                    Ok(e) => Ok(optional_expression_view(e)),
                    Err(e) => Err(e),
                },
                old(self).position(),
                final(self).position(),
            ),
        decreases old(self).left(), 36nat,
    {
        if self.at_semicolon() {
            return Ok(None);
        }
        match self.expression() {
            Ok(v) => Ok(Some(v)),
            Err(e) => Err(e),
        }
    }

    /// The update of a `for`: an expression, unless `)` comes next.
    fn update_clause(&mut self) -> (r: Result<Option<Expression>, ParseError>)
        ensures
            final(self).grammar() == old(self).grammar(),
            final(self).left() <= old(self).left(),
            agrees(
                grammar::optional_expression(
                    old(self).grammar(),
                    old(self).position(),
                    TokenView::RParen,
                ),
                match r {
                    Ok(e) => Ok(optional_expression_view(e)),
                    Err(e) => Err(e),
                },
                old(self).position(),
                final(self).position(),
            ),
        decreases old(self).left(), 36nat,
    {
        if self.at_r_paren() {
            return Ok(None);
        }
        match self.expression() {
            Ok(v) => Ok(Some(v)),
            Err(e) => Err(e),
        }
    }

    fn for_statement(&mut self) -> (r: Result<Statement, ParseError>)
        ensures
            final(self).grammar() == old(self).grammar(),
            final(self).left() <= old(self).left(),
            agrees(
                grammar::for_statement(old(self).grammar(), old(self).position()),
                statement_result(r),
                old(self).position(),
                final(self).position(),
            ),
        decreases old(self).left(), 40nat,
    {
        match self.take_l_paren(Expectation::ParenAfterFor) {
            Ok(_) => {},
            Err(e) => {
                return Err(e);
            },
        }
        let init = match self.for_init() {
            Ok(v) => v,
            Err(e) => {
                return Err(e);
            },
        };
        self.for_condition(init)
    }

    /// A `for` from its condition on.
    fn for_condition(&mut self, init: Option<Statement>) -> (r: Result<Statement, ParseError>)
        ensures
            final(self).grammar() == old(self).grammar(),
            final(self).left() <= old(self).left(),
            agrees(
                grammar::for_condition(
                    old(self).grammar(),
                    old(self).position(),
                    optional_statement_view(init),
                ),
                statement_result(r),
                old(self).position(),
                final(self).position(),
            ),
        decreases old(self).left(), 39nat,
    {
        let condition = match self.condition_clause() {
            Ok(v) => v,
            Err(e) => {
                return Err(e);
            },
        };
        match self.take_semicolon(Expectation::SemicolonAfterLoopCondition) {
            Ok(_) => {},
            Err(e) => {
                return Err(e);
            },
        }
        self.for_update(init, condition)
    }

    /// A `for` from its update on.
    fn for_update(&mut self, init: Option<Statement>, condition: Option<Expression>) -> (r: Result<
        Statement,
        ParseError,
    >)
        ensures
            final(self).grammar() == old(self).grammar(),
            final(self).left() <= old(self).left(),
            agrees(
                grammar::for_update(
                    old(self).grammar(),
                    old(self).position(),
                    optional_statement_view(init),
                    optional_expression_view(condition),
                ),
                statement_result(r),
                old(self).position(),
                final(self).position(),
            ),
        decreases old(self).left(), 38nat,
    {
        let ghost g = self.grammar();
        let ghost start = self.position();
        let update = match self.update_clause() {
            Ok(v) => v,
            Err(e) => {
                return Err(e);
            },
        };
        let ghost used = grammar::optional_expression(g, start, TokenView::RParen)->Ok_0.used;
        match self.take_r_paren(Expectation::ParenAfterForClauses) {
            Ok(_) => {},
            Err(e) => {
                return Err(e);
            },
        }
        match self.take_l_brace(Expectation::BraceBeforeForBody) {
            Ok(_) => {},
            Err(e) => {
                return Err(e);
            },
        }
        assert(self.position() == start + used + 2);
        assert(self.left() < old(self).left());
        let body = match self.block() {
            Ok(v) => v,
            Err(e) => {
                return Err(e);
            },
        };
        proof {
            lemma_for_update(
                g,
                start,
                optional_statement_view(init),
                optional_expression_view(condition),
                optional_expression_view(update),
                used,
                statements_view(body@),
                grammar::block(g, start + used + 2)->Ok_0.used,
            );
        }
        Ok(Statement::new_for_loop(init, condition, update, body))
    }

    fn try_statement(&mut self) -> (r: Result<Statement, ParseError>)
        ensures
            final(self).grammar() == old(self).grammar(),
            final(self).left() <= old(self).left(),
            agrees(
                grammar::try_statement(old(self).grammar(), old(self).position()),
                statement_result(r),
                old(self).position(),
                final(self).position(),
            ),
        decreases old(self).left(), 36nat,
    {
        match self.take_l_brace(Expectation::BraceAfterTry) {
            Ok(_) => {},
            Err(e) => {
                return Err(e);
            },
        }
        let body = match self.block() {
            Ok(v) => v,
            Err(e) => {
                return Err(e);
            },
        };
        match self.take_catch(Expectation::CatchAfterTryBlock) {
            Ok(_) => {},
            Err(e) => {
                return Err(e);
            },
        }
        match self.take_l_brace(Expectation::BraceAfterCatch) {
            Ok(_) => {},
            Err(e) => {
                return Err(e);
            },
        }
        let catch = match self.block() {
            Ok(v) => v,
            Err(e) => {
                return Err(e);
            },
        };
        Ok(Statement::new_try(body, catch))
    }

    fn expression_statement(&mut self) -> (r: Result<Statement, ParseError>)
        ensures
            final(self).grammar() == old(self).grammar(),
            final(self).left() <= old(self).left(),
            agrees(
                grammar::expression_statement(old(self).grammar(), old(self).position()),
                statement_result(r),
                old(self).position(),
                final(self).position(),
            ),
        decreases old(self).left(), 36nat,
    {
        let expr = match self.expression() {
            Ok(v) => v,
            Err(e) => {
                return Err(e);
            },
        };
        match expr.into_assignment() {
            Ok(parts) => {
                match self.take_semicolon(Expectation::SemicolonAfterAssignment) {
                    Ok(_) => {},
                    Err(e) => {
                        return Err(e);
                    },
                }
                Ok(Statement::new_assign(parts.0, parts.1))
            },
            Err(other) => {
                match self.take_semicolon(Expectation::SemicolonAfterExpression) {
                    Ok(_) => {},
                    Err(e) => {
                        return Err(e);
                    },
                }
                Ok(Statement::new_expression(other))
            },
        }
    }

    fn expression(&mut self) -> (r: Result<Expression, ParseError>)
        ensures
            final(self).grammar() == old(self).grammar(),
            final(self).left() <= old(self).left(),
            agrees(
                grammar::expression(old(self).grammar(), old(self).position()),
                expression_result(r),
                old(self).position(),
                final(self).position(),
            ),
        decreases old(self).left(), 35nat,
    {
        self.assignment()
    }

    fn assignment(&mut self) -> (r: Result<Expression, ParseError>)
        ensures
            final(self).grammar() == old(self).grammar(),
            final(self).left() <= old(self).left(),
            agrees(
                grammar::assignment(old(self).grammar(), old(self).position()),
                expression_result(r),
                old(self).position(),
                final(self).position(),
            ),
        decreases old(self).left(), 34nat,
    {
        let expr = match self.binary_level(0) {
            Ok(v) => v,
            Err(e) => {
                return Err(e);
            },
        };
        if self.at_equal() {
            self.advance();
            match expr.into_target() {
                AssignmentTarget::Variable(name) => {
                    let value = match self.assignment() {
                        Ok(v) => v,
                        Err(e) => {
                            return Err(e);
                        },
                    };
                    Ok(Expression::new_assignment(name, value))
                },
                AssignmentTarget::Element(array, index) => {
                    let value = match self.assignment() {
                        Ok(v) => v,
                        Err(e) => {
                            return Err(e);
                        },
                    };
                    Ok(Expression::new_element_assignment(array, index, value))
                },
                AssignmentTarget::Other => Err(self.error(Expectation::AssignmentTarget)),
            }
        } else {
            Ok(expr)
        }
    }

    /// A chain of binary operators of one level of precedence.
    fn binary_level(&mut self, level: u8) -> (r: Result<Expression, ParseError>)
        ensures
            final(self).grammar() == old(self).grammar(),
            final(self).left() <= old(self).left(),
            agrees(
                grammar::binary(old(self).grammar(), level as nat, old(self).position()),
                expression_result(r),
                old(self).position(),
                final(self).position(),
            ),
        decreases old(self).left(), level_rank(level as nat),
    {
        if level >= 6 {
            return self.unary();
        }
        let ghost g = self.grammar();
        let ghost start = self.position();
        let mut left = match self.binary_level(level + 1) {
            Ok(v) => v,
            Err(e) => {
                return Err(e);
            },
        };
        loop
            invariant
                level < 6,
                self.grammar() == g,
                g == old(self).grammar(),
                start == old(self).position(),
                start <= self.position(),
                grammar::binary(g, level as nat, start) == grammar::binary_rest(
                    g,
                    level as nat,
                    start,
                    left@,
                    self.position(),
                ),
            decreases self.left(),
        {
            if self.is_at_end() {
                return Ok(left);
            }
            let op = match self.operator_at(level) {
                Some(op) => op,
                None => {
                    return Ok(left);
                },
            };
            self.advance();
            let right = match self.binary_level(level + 1) {
                Ok(v) => v,
                Err(e) => {
                    return Err(e);
                },
            };
            left = Expression::new_binary(left, op, right);
        }
    }

    fn unary(&mut self) -> (r: Result<Expression, ParseError>)
        ensures
            final(self).grammar() == old(self).grammar(),
            final(self).left() <= old(self).left(),
            agrees(
                grammar::unary(old(self).grammar(), old(self).position()),
                expression_result(r),
                old(self).position(),
                final(self).position(),
            ),
        decreases old(self).left(), 21nat,
    {
        if self.at_minus() {
            self.advance();
            let operand = match self.unary() {
                Ok(v) => v,
                Err(e) => {
                    return Err(e);
                },
            };
            Ok(Expression::new_unary(UnaryOp::Negate, operand))
        } else if self.at_not() {
            self.advance();
            let operand = match self.unary() {
                Ok(v) => v,
                Err(e) => {
                    return Err(e);
                },
            };
            Ok(Expression::new_unary(UnaryOp::Not, operand))
        } else {
            self.call()
        }
    }

    fn call(&mut self) -> (r: Result<Expression, ParseError>)
        ensures
            final(self).grammar() == old(self).grammar(),
            final(self).left() <= old(self).left(),
            agrees(
                grammar::call(old(self).grammar(), old(self).position()),
                expression_result(r),
                old(self).position(),
                final(self).position(),
            ),
        decreases old(self).left(), 20nat,
    {
        let ghost g = self.grammar();
        let ghost start = self.position();
        let mut expr = match self.primary() {
            Ok(v) => v,
            Err(e) => {
                return Err(e);
            },
        };
        loop
            invariant
                self.grammar() == g,
                g == old(self).grammar(),
                start == old(self).position(),
                start <= self.position(),
                grammar::call(g, start) == grammar::call_rest(g, start, expr@, self.position()),
            decreases self.left(),
        {
            if self.at_l_paren() {
                self.advance();
                expr = match self.finish_call(expr) {
                    Ok(v) => v,
                    Err(e) => {
                        return Err(e);
                    },
                };
            } else if self.at_l_bracket() {
                self.advance();
                let index = match self.expression() {
                    Ok(v) => v,
                    Err(e) => {
                        return Err(e);
                    },
                };
                match self.take_r_bracket(Expectation::BracketAfterIndex) {
                    Ok(_) => {},
                    Err(e) => {
                        return Err(e);
                    },
                }
                expr = Expression::new_array_access(expr, index);
            } else {
                return Ok(expr);
            }
        }
    }

    /// The arguments of a call after its `(`, and the `)`.
    fn finish_call(&mut self, callee: Expression) -> (r: Result<Expression, ParseError>)
        ensures
            final(self).grammar() == old(self).grammar(),
            final(self).left() <= old(self).left(),
            agrees(
                grammar::finish_call(old(self).grammar(), callee@, old(self).position()),
                expression_result(r),
                old(self).position(),
                final(self).position(),
            ),
        decreases old(self).left(), 37nat,
    {
        let arguments = match self.expression_list(true) {
            Ok(v) => v,
            Err(e) => {
                return Err(e);
            },
        };
        match self.take_r_paren(Expectation::ParenAfterArguments) {
            Ok(_) => {},
            Err(e) => {
                return Err(e);
            },
        }
        Ok(Expression::new_call(callee, arguments))
    }

    /// The elements of an array literal after its `[`, and the `]`.
    fn array_literal(&mut self) -> (r: Result<Expression, ParseError>)
        ensures
            final(self).grammar() == old(self).grammar(),
            final(self).left() <= old(self).left(),
            agrees(
                grammar::array_literal(old(self).grammar(), old(self).position()),
                expression_result(r),
                old(self).position(),
                final(self).position(),
            ),
        decreases old(self).left(), 37nat,
    {
        let elements = match self.expression_list(false) {
            Ok(v) => v,
            Err(e) => {
                return Err(e);
            },
        };
        match self.take_r_bracket(Expectation::BracketAfterElements) {
            Ok(_) => {},
            Err(e) => {
                return Err(e);
            },
        }
        Ok(Expression::new_array(elements))
    }

    /// Expressions separated by commas, up to a closing token.
    fn expression_list(&mut self, in_call: bool) -> (r: Result<Vec<Expression>, ParseError>)
        ensures
            final(self).grammar() == old(self).grammar(),
            final(self).left() <= old(self).left(),
            agrees(
                grammar::expression_list(
                    old(self).grammar(),
                    old(self).position(),
                    list_closer(in_call),
                    list_limit(in_call),
                ),
                expressions_result(r),
                old(self).position(),
                final(self).position(),
            ),
        decreases old(self).left(), 36nat,
    {
        let ghost g = self.grammar();
        let ghost start = self.position();
        let mut items = no_expressions();
        let closed = if in_call {
            self.at_r_paren()
        } else {
            self.at_r_bracket()
        };
        if closed {
            return Ok(items);
        }
        let first = match self.expression() {
            Ok(v) => v,
            Err(e) => {
                return Err(e);
            },
        };
        assert(Seq::<ExpressionView>::empty().push(first@) =~= seq![first@]);
        push_expression(&mut items, first);
        while self.at_comma()
            invariant
                self.grammar() == g,
                g == old(self).grammar(),
                start == old(self).position(),
                start <= self.position(),
                items@.len() == expressions_view(items@).len(),
                grammar::expression_list(g, start, list_closer(in_call), list_limit(in_call))
                    == grammar::more_expressions(
                    g,
                    start,
                    expressions_view(items@),
                    self.position(),
                    list_limit(in_call),
                ),
            decreases self.left(),
        {
            self.advance();
            if in_call && items.len() >= 255 {
                return Err(self.error(Expectation::FewerArguments));
            }
            let next = match self.expression() {
                Ok(v) => v,
                Err(e) => {
                    return Err(e);
                },
            };
            push_expression(&mut items, next);
        }
        Ok(items)
    }

    fn primary(&mut self) -> (r: Result<Expression, ParseError>)
        ensures
            final(self).grammar() == old(self).grammar(),
            final(self).left() <= old(self).left(),
            agrees(
                grammar::primary(old(self).grammar(), old(self).position()),
                expression_result(r),
                old(self).position(),
                final(self).position(),
            ),
        decreases old(self).left(), 18nat,
    {
        reveal_with_fuel(grammar::closure, 1);
        match self.take_atom() {
            Some(e) => {
                return Ok(e);
            },
            None => {},
        }
        if self.at_l_bracket() {
            self.advance();
            return self.array_literal();
        }
        if self.at_l_paren() {
            self.advance();
            let inner = match self.expression() {
                Ok(v) => v,
                Err(e) => {
                    return Err(e);
                },
            };
            match self.take_r_paren(Expectation::ParenAfterExpression) {
                Ok(_) => {},
                Err(e) => {
                    return Err(e);
                },
            }
            return Ok(inner);
        }
        if self.at_fn() {
            self.advance();
            return self.closure();
        }
        Err(self.error(Expectation::Expression))
    }

    /// After `fn` in an expression: the parameters and the body of a closure.
    fn closure(&mut self) -> (r: Result<Expression, ParseError>)
        ensures
            final(self).grammar() == old(self).grammar(),
            final(self).left() <= old(self).left(),
            agrees(
                grammar::closure(old(self).grammar(), old(self).position()),
                expression_result(r),
                old(self).position(),
                final(self).position(),
            ),
        decreases old(self).left(), 37nat,
    {
        let ghost g = self.grammar();
        let ghost start = self.position();
        proof {
            lemma_closure_unfold(g, start);
        }
        match self.take_l_paren(Expectation::ParenAfterClosureFn) {
            Ok(_) => {},
            Err(e) => {
                return Err(e);
            },
        }
        let params = match self.parameters() {
            Ok(v) => v,
            Err(e) => {
                return Err(e);
            },
        };
        let ghost used = grammar::parameters(g, start + 1)->Ok_0.used;
        match self.take_r_paren(Expectation::ParenAfterClosureParameters) {
            Ok(_) => {},
            Err(e) => {
                return Err(e);
            },
        }
        match self.take_l_brace(Expectation::BraceBeforeClosureBody) {
            Ok(_) => {},
            Err(e) => {
                return Err(e);
            },
        }
        assert(self.position() == start + used + 3);
        assert(self.left() < old(self).left());
        let body = match self.block() {
            Ok(v) => v,
            Err(e) => {
                return Err(e);
            },
        };
        Ok(Expression::new_closure(params, body))
    }
}

/// A `let` declaration, by its parts.
proof fn lemma_let_declaration_unfold(g: grammar::Grammar, pos: int)
    ensures
        grammar::let_declaration(g, pos) == match grammar::identifier(
            g,
            pos,
            Expectation::VariableName,
        ) {
            Err(e) => Err(e),
            Ok(name) => if token_at(g, pos + 1) is Equal {
                match grammar::expression(g, pos + 2) {
                    Err(e) => Err(e),
                    Ok(value) => match grammar::expect(
                        g,
                        pos + 2 + value.used,
                        TokenView::Semicolon,
                        Expectation::SemicolonAfterVariableDeclaration,
                    ) {
                        Err(e) => Err(e),
                        Ok(_) => grammar::done(
                            StatementView::Let { name, value: value.value },
                            value.used + 3,
                        ),
                    },
                }
            } else {
                Err(grammar::error_at(g, pos + 1, Expectation::EqualsInLet))
            },
        },
{
    reveal_with_fuel(grammar::let_declaration, 2);
}

/// A closure, by its parts.
proof fn lemma_closure_unfold(g: grammar::Grammar, pos: int)
    ensures
        grammar::closure(g, pos) == match grammar::expect(
            g,
            pos,
            TokenView::LParen,
            Expectation::ParenAfterClosureFn,
        ) {
            Err(e) => Err(e),
            Ok(_) => match grammar::parameters(g, pos + 1) {
                Err(e) => Err(e),
                Ok(params) => {
                    let close = pos + 1 + params.used;
                    match grammar::expect(
                        g,
                        close,
                        TokenView::RParen,
                        Expectation::ParenAfterClosureParameters,
                    ) {
                        Err(e) => Err(e),
                        Ok(_) => match grammar::expect(
                            g,
                            close + 1,
                            TokenView::LBrace,
                            Expectation::BraceBeforeClosureBody,
                        ) {
                            Err(e) => Err(e),
                            Ok(_) => match grammar::block(g, close + 2) {
                                Err(e) => Err(e),
                                Ok(body) => grammar::done(
                                    ExpressionView::Closure {
                                        params: params.value,
                                        body: body.value,
                                    },
                                    params.used + body.used + 3,
                                ),
                            },
                        },
                    }
                },
            },
        },
{
    reveal_with_fuel(grammar::closure, 2);
}

/// What a `for` from its update on comes to where each part is read.
proof fn lemma_for_update(
    g: grammar::Grammar,
    pos: int,
    init: Option<Box<StatementView>>,
    condition: Option<ExpressionView>,
    update: Option<ExpressionView>,
    used: nat,
    body: Seq<StatementView>,
    body_used: nat,
)
    requires
        grammar::optional_expression(g, pos, TokenView::RParen) == Ok::<
            grammar::Parsed<Option<ExpressionView>>,
            ParseError,
        >(grammar::Parsed { value: update, used }),
        token_at(g, pos + used) is RParen,
        token_at(g, pos + used + 1) is LBrace,
        grammar::block(g, pos + used + 2) == Ok::<grammar::Parsed<Seq<StatementView>>, ParseError>(
            grammar::Parsed { value: body, used: body_used },
        ),
    ensures
        grammar::for_update(g, pos, init, condition) == Ok::<
            grammar::Parsed<StatementView>,
            ParseError,
        >(
            grammar::Parsed {
                value: StatementView::For {
                    init,
                    condition,
                    update: match update {
                        Some(x) => Some(Box::new(StatementView::Expression(x))),
                        None => None,
                    },
                    body,
                },
                used: used + body_used + 2,
            },
        ),
{
}

/// The token that closes a list of expressions: `)` after the arguments of
/// a call, `]` after the elements of an array.
pub open spec fn list_closer(in_call: bool) -> TokenView {
    if in_call {
        TokenView::RParen
    } else {
        TokenView::RBracket
    }
}

/// The most expressions that a list may hold: a call is limited, an array is
/// not.
pub open spec fn list_limit(in_call: bool) -> Option<nat> {
    if in_call {
        Some(grammar::argument_limit())
    } else {
        None
    }
}

} // verus!
