//! The parser: from tokens to the syntax tree, by recursive descent.

use vstd::prelude::*;
use crate::ast::{
    expressions_view, statements_view, strings_view, BinaryOp, Expression, ExpressionView,
    Statement, StatementView,
};
use crate::grammar;
use crate::grammar::{
    at_end, error_at, is_symbol, remaining, token_at, Expectation, Grammar, ParseError,
};
use crate::lexer::{bump, token_kind, token_views, tokens_of, LexError, Lexer, Token, TokenView};

verus! {

/// The lines of a text, as `str::lines` of std gives them.
pub uninterp spec fn text_lines(source: Seq<char>) -> Seq<Seq<char>>;

/// `str::lines` of std: the lines of the text without their line endings,
/// in order. What it gives depends on the text alone and is named
/// `text_lines`.
#[verifier::external_body]
fn lines_of(source: &str) -> (lines: Vec<String>)
    ensures
        strings_view(lines@) == text_lines(source@),
{
    source.lines().map(String::from).collect()
}

/// `Path::file_stem` of std, on a path given as text: the name of the file
/// without its extension, where the path has one. Nothing is claimed of it:
/// what a path is made of differs between systems.
#[verifier::external_body]
fn path_file_stem(path: &str) -> (stem: Option<String>) {
    match std::path::Path::new(path).file_stem() {
        Some(stem) => stem.to_str().map(String::from),
        None => None,
    }
}

/// The place that an error at the end of the input reports: the number of
/// lines, and one more than the length in bytes of the last line. Without
/// lines both are zero.
pub open spec fn end_position(source: Seq<char>) -> (usize, usize) {
    let lines = text_lines(source);
    if lines.len() == 0 {
        (0, 0)
    } else {
        (lines.len() as usize, bump(vstd::utf8::encode_utf8(lines.last()).len() as usize, 1))
    }
}

impl Lexer {
    /// The line and column that an error at the token with index `current`
    /// reports: past the last token the end of the source text, and line 1,
    /// column 1 anywhere else.
    pub fn get_position_for_error(tokens: &[Token], current: usize, source_code: &str) -> (p: (
        usize,
        usize,
    ))
        ensures
            p == if current >= tokens@.len() {
                end_position(source_code@)
            } else {
                (1usize, 1usize)
            },
    {
        if current >= tokens.len() {
            let lines = lines_of(source_code);
            let n = lines.len();
            if n == 0 {
                return (0, 0);
            }
            let last = &lines[n - 1];
            assert(last@ == text_lines(source_code@).last());
            return (n, last.as_str().len().saturating_add(1));
        }
        (1, 1)
    }
}

pub open spec fn statement_result(r: Result<Statement, ParseError>) -> Result<
    StatementView,
    ParseError,
> {
    match r {
        Ok(s) => Ok(s@),
        Err(e) => Err(e),
    }
}

pub open spec fn expression_result(r: Result<Expression, ParseError>) -> Result<
    ExpressionView,
    ParseError,
> {
    match r {
        Ok(e) => Ok(e@),
        Err(e) => Err(e),
    }
}

pub open spec fn statements_result(r: Result<Vec<Statement>, ParseError>) -> Result<
    Seq<StatementView>,
    ParseError,
> {
    match r {
        Ok(s) => Ok(statements_view(s@)),
        Err(e) => Err(e),
    }
}

pub open spec fn expressions_result(r: Result<Vec<Expression>, ParseError>) -> Result<
    Seq<ExpressionView>,
    ParseError,
> {
    match r {
        Ok(s) => Ok(expressions_view(s@)),
        Err(e) => Err(e),
    }
}

pub open spec fn names_result(r: Result<Vec<String>, ParseError>) -> Result<
    Seq<Seq<char>>,
    ParseError,
> {
    match r {
        Ok(s) => Ok(strings_view(s@)),
        Err(e) => Err(e),
    }
}

/// The parser: the tokens of one source text and a position among them.
pub struct Parser {
    tokens: Vec<Token>,
    current: usize,
    file_path: String,
    file_prefix: String,
    end_line: usize,
    end_column: usize,
}

impl Parser {
    /// What the parser works on.
    pub closed spec fn grammar(&self) -> Grammar {
        Grammar {
            tokens: token_views(self.tokens@),
            prefix: self.file_prefix@,
            end_line: self.end_line,
            end_column: self.end_column,
        }
    }

    /// The index of the next token.
    pub closed spec fn index(&self) -> usize {
        self.current
    }

    /// The index of the next token, as an integer.
    pub open spec fn position(&self) -> int {
        self.index() as int
    }

    /// The path that the parser was made for.
    pub closed spec fn path(&self) -> Seq<char> {
        self.file_path@
    }

    /// The number of tokens that are left.
    pub open spec fn left(&self) -> nat {
        remaining(self.grammar(), self.position())
    }

    /// A parser for the source text of the file at `file_path`. The tag of
    /// its function definitions is the file's stem, and `main` where the path
    /// has none.
    pub fn new(file_path: &str, source_code: &str) -> (r: Result<Parser, LexError>)
        ensures
            match r {
                Ok(parser) => tokens_of(source_code@) == Ok::<Seq<TokenView>, LexError>(
                    parser.grammar().tokens,
                ) && parser.position() == 0 && parser.path() == file_path@ && (
                    parser.grammar().end_line,
                    parser.grammar().end_column,
                ) == end_position(source_code@),
                Err(e) => tokens_of(source_code@) == Err::<Seq<TokenView>, LexError>(e),
            },
    {
        let prefix = match path_file_stem(file_path) {
            Some(stem) => stem,
            None => String::from_str("main"),
        };
        match Parser::with_prefix(prefix.as_str(), source_code) {
            Ok(parser) => {
                let mut parser = parser;
                parser.file_path = String::from_str(file_path);
                Ok(parser)
            },
            Err(e) => Err(e),
        }
    }

    /// A parser for a source text whose function definitions get the given
    /// tag.
    pub fn with_prefix(prefix: &str, source_code: &str) -> (r: Result<Parser, LexError>)
        ensures
            match r {
                Ok(parser) => tokens_of(source_code@) == Ok::<Seq<TokenView>, LexError>(
                    parser.grammar().tokens,
                ) && parser.grammar().prefix == prefix@ && parser.position() == 0
                    && parser.path() == prefix@ && (
                    parser.grammar().end_line,
                    parser.grammar().end_column,
                ) == end_position(source_code@),
                Err(e) => tokens_of(source_code@) == Err::<Seq<TokenView>, LexError>(e),
            },
    {
        let mut lexer = Lexer::new(source_code);
        let tokens = match lexer.tokenize() {
            Ok(tokens) => tokens,
            Err(e) => {
                return Err(e);
            },
        };
        let end = Lexer::get_position_for_error(tokens.as_slice(), tokens.len(), source_code);
        Ok(
            Parser {
                tokens,
                current: 0,
                file_path: String::from_str(prefix),
                file_prefix: String::from_str(prefix),
                end_line: end.0,
                end_column: end.1,
            },
        )
    }

    pub fn is_at_end(&self) -> (r: bool)
        ensures
            r == at_end(self.grammar(), self.position()),
    {
        if self.current >= self.tokens.len() {
            true
        } else {
            self.tokens[self.current].kind() == 41
        }
    }

    /// Whether the next token is of the given kind and is not the end marker.
    pub fn check(&self, token: &Token) -> (r: bool)
        ensures
            r == (!at_end(self.grammar(), self.position()) && token_kind(
                token_at(self.grammar(), self.position()),
            ) == token_kind(token@)),
    {
        if self.is_at_end() {
            false
        } else {
            self.tokens[self.current].same_kind(token)
        }
    }

    /// Whether the next token is the given keyword, operator or punctuation
    /// mark.
    fn next_is(&self, token: &Token) -> (r: bool)
        requires
            is_symbol(token@),
        ensures
            r == (token_at(self.grammar(), self.position()) == token@),
    {
        self.check(token)
    }

    /// Steps over the next token, unless it is the end marker.
    pub fn advance(&mut self)
        ensures
            final(self).grammar() == old(self).grammar(),
            final(self).position() == if at_end(old(self).grammar(), old(self).position()) {
                old(self).position()
            } else {
                old(self).position() + 1
            },
            final(self).left() <= old(self).left(),
            !at_end(old(self).grammar(), old(self).position()) ==> final(self).left() < old(
                self,
            ).left(),
    {
        if self.current < self.tokens.len() && self.tokens[self.current].kind() != 41 {
            self.current += 1;
        }
    }

    /// The next token.
    pub fn peek(&self) -> (t: &Token)
        ensures
            t@ == token_at(self.grammar(), self.position()),
    {
        if self.current < self.tokens.len() {
            &self.tokens[self.current]
        } else {
            &Token::EOF
        }
    }

    /// The token before the next one.
    pub fn previous(&self) -> (t: &Token)
        requires
            0 < self.position() <= self.grammar().tokens.len(),
        ensures
            t@ == token_at(self.grammar(), self.position() - 1),
    {
        &self.tokens[self.current - 1]
    }

    /// Steps over the next token if it is of the kind of one of the given
    /// tokens.
    pub fn match_token(&mut self, tokens: &[Token]) -> (r: bool)
        ensures
            final(self).grammar() == old(self).grammar(),
            r == (!at_end(old(self).grammar(), old(self).position()) && exists|i: int|
                0 <= i < tokens@.len() && token_kind(#[trigger] tokens@[i]@) == token_kind(
                    token_at(old(self).grammar(), old(self).position()),
                )),
            final(self).position() == if r {
                old(self).position() + 1
            } else {
                old(self).position()
            },
    {
        let mut i: usize = 0;
        while i < tokens.len()
            invariant
                i <= tokens.len(),
                self.current == old(self).current,
                self.grammar() == old(self).grammar(),
                forall|j: int|
                    0 <= j < i ==> at_end(self.grammar(), self.position()) || token_kind(
                        #[trigger] tokens@[j]@,
                    ) != token_kind(token_at(self.grammar(), self.position())),
            decreases tokens.len() - i,
        {
            if self.check(&tokens[i]) {
                self.advance();
                return true;
            }
            i += 1;
        }
        false
    }

    /// The binary operator of the given level that the next token stands for.
    pub(crate) fn operator_at(&self, level: u8) -> (r: Option<BinaryOp>)
        ensures
            r == grammar::level_operator(level as nat, token_at(self.grammar(), self.position())),
    {
        reveal(grammar::level_operator);
        let token = self.peek();
        if level == 0 {
            match token {
                Token::Or => Some(BinaryOp::Or),
                _ => None,
            }
        } else if level == 1 {
            match token {
                Token::And => Some(BinaryOp::And),
                _ => None,
            }
        } else if level == 2 {
            match token {
                Token::EqualEqual => Some(BinaryOp::Equal),
                Token::NotEqual => Some(BinaryOp::NotEqual),
                _ => None,
            }
        } else if level == 3 {
            match token {
                Token::LessThan => Some(BinaryOp::LessThan),
                Token::GreaterThan => Some(BinaryOp::GreaterThan),
                Token::LessThanOrEqual => Some(BinaryOp::LessThanOrEqual),
                Token::GreaterThanOrEqual => Some(BinaryOp::GreaterThanOrEqual),
                _ => None,
            }
        } else if level == 4 {
            match token {
                Token::Plus => Some(BinaryOp::Add),
                Token::Minus => Some(BinaryOp::Subtract),
                _ => None,
            }
        } else if level == 5 {
            match token {
                Token::Star => Some(BinaryOp::Multiply),
                Token::Slash => Some(BinaryOp::Divide),
                Token::Percent => Some(BinaryOp::Modulo),
                _ => None,
            }
        } else {
            None
        }
    }

    /// Steps over the next token if it is a literal or a variable, and gives
    /// the expression that it is.
    pub(crate) fn take_atom(&mut self) -> (r: Option<Expression>)
        ensures
            final(self).grammar() == old(self).grammar(),
            match r {
                Some(e) => grammar::is_atom(token_at(old(self).grammar(), old(self).position()))
                    && e@ == grammar::atom(token_at(old(self).grammar(), old(self).position()))
                    && final(self).position() == old(self).position() + 1,
                None => !grammar::is_atom(token_at(old(self).grammar(), old(self).position()))
                    && final(self).position() == old(self).position(),
            },
            final(self).left() <= old(self).left(),
            r is Some ==> final(self).left() < old(self).left(),
    {
        let found = match self.peek() {
            Token::Number(n) => Some(Expression::new_number(*n)),
            Token::Float(text) => Some(Expression::new_float(text.clone())),
            Token::Bool(b) => Some(Expression::new_bool(*b)),
            Token::String(s) => Some(Expression::new_string(s.clone())),
            Token::Identifier(name) => Some(Expression::new_identifier(name.clone())),
            _ => None,
        };
        if found.is_some() {
            self.advance();
        }
        found
    }

    /// The index of the next token.
    pub(crate) fn place(&self) -> (p: usize)
        ensures
            p == self.position(),
    {
        self.current
    }

    /// A copy of the tag that each function definition gets.
    pub(crate) fn prefix(&self) -> (p: String)
        ensures
            p@ == self.grammar().prefix,
    {
        self.file_prefix.clone()
    }

    /// The error that the parser reports where it stands.
    pub(crate) fn error(&self, expected: Expectation) -> (e: ParseError)
        ensures
            e == error_at(self.grammar(), self.position(), expected),
    {
        if self.is_at_end() {
            ParseError {
                expected,
                line: self.end_line,
                column: self.end_column,
                token: self.current,
            }
        } else {
            ParseError { expected, line: 1, column: 1, token: self.current }
        }
    }

    /// Steps over the next token, which must be the given one.
    fn consume(&mut self, token: &Token, expected: Expectation) -> (r: Result<(), ParseError>)
        requires
            is_symbol(token@),
        ensures
            final(self).grammar() == old(self).grammar(),
            r == grammar::expect(old(self).grammar(), old(self).position(), token@, expected),
            final(self).position() == if r is Ok {
                old(self).position() + 1
            } else {
                old(self).position()
            },
            final(self).left() <= old(self).left(),
            r is Ok ==> final(self).left() < old(self).left(),
    {
        if self.next_is(token) {
            self.advance();
            Ok(())
        } else {
            Err(self.error(expected))
        }
    }

    pub(crate) fn at_let(&self) -> (r: bool)
        ensures
            r == (token_at(self.grammar(), self.position()) is Let),
    {
        self.next_is(&Token::Let)
    }

    pub(crate) fn at_fn(&self) -> (r: bool)
        ensures
            r == (token_at(self.grammar(), self.position()) is Fn),
    {
        self.next_is(&Token::Fn)
    }

    pub(crate) fn at_import(&self) -> (r: bool)
        ensures
            r == (token_at(self.grammar(), self.position()) is Import),
    {
        self.next_is(&Token::Import)
    }

    pub(crate) fn at_l_brace(&self) -> (r: bool)
        ensures
            r == (token_at(self.grammar(), self.position()) is LBrace),
    {
        self.next_is(&Token::LBrace)
    }

    pub(crate) fn at_if(&self) -> (r: bool)
        ensures
            r == (token_at(self.grammar(), self.position()) is If),
    {
        self.next_is(&Token::If)
    }

    pub(crate) fn at_while(&self) -> (r: bool)
        ensures
            r == (token_at(self.grammar(), self.position()) is While),
    {
        self.next_is(&Token::While)
    }

    pub(crate) fn at_for(&self) -> (r: bool)
        ensures
            r == (token_at(self.grammar(), self.position()) is For),
    {
        self.next_is(&Token::For)
    }

    pub(crate) fn at_print(&self) -> (r: bool)
        ensures
            r == (token_at(self.grammar(), self.position()) is Print),
    {
        self.next_is(&Token::Print)
    }

    pub(crate) fn at_return(&self) -> (r: bool)
        ensures
            r == (token_at(self.grammar(), self.position()) is Return),
    {
        self.next_is(&Token::Return)
    }

    pub(crate) fn at_try(&self) -> (r: bool)
        ensures
            r == (token_at(self.grammar(), self.position()) is Try),
    {
        self.next_is(&Token::Try)
    }

    pub(crate) fn at_main(&self) -> (r: bool)
        ensures
            r == (token_at(self.grammar(), self.position()) is Main),
    {
        self.next_is(&Token::Main)
    }

    pub(crate) fn at_r_paren(&self) -> (r: bool)
        ensures
            r == (token_at(self.grammar(), self.position()) is RParen),
    {
        self.next_is(&Token::RParen)
    }

    pub(crate) fn at_semicolon(&self) -> (r: bool)
        ensures
            r == (token_at(self.grammar(), self.position()) is Semicolon),
    {
        self.next_is(&Token::Semicolon)
    }

    pub(crate) fn at_else(&self) -> (r: bool)
        ensures
            r == (token_at(self.grammar(), self.position()) is Else),
    {
        self.next_is(&Token::Else)
    }

    pub(crate) fn at_equal(&self) -> (r: bool)
        ensures
            r == (token_at(self.grammar(), self.position()) is Equal),
    {
        self.next_is(&Token::Equal)
    }

    pub(crate) fn at_minus(&self) -> (r: bool)
        ensures
            r == (token_at(self.grammar(), self.position()) is Minus),
    {
        self.next_is(&Token::Minus)
    }

    pub(crate) fn at_not(&self) -> (r: bool)
        ensures
            r == (token_at(self.grammar(), self.position()) is Not),
    {
        self.next_is(&Token::Not)
    }

    pub(crate) fn at_l_paren(&self) -> (r: bool)
        ensures
            r == (token_at(self.grammar(), self.position()) is LParen),
    {
        self.next_is(&Token::LParen)
    }

    pub(crate) fn at_l_bracket(&self) -> (r: bool)
        ensures
            r == (token_at(self.grammar(), self.position()) is LBracket),
    {
        self.next_is(&Token::LBracket)
    }

    pub(crate) fn at_comma(&self) -> (r: bool)
        ensures
            r == (token_at(self.grammar(), self.position()) is Comma),
    {
        self.next_is(&Token::Comma)
    }

    pub(crate) fn at_r_brace(&self) -> (r: bool)
        ensures
            r == (token_at(self.grammar(), self.position()) is RBrace),
    {
        self.next_is(&Token::RBrace)
    }

    pub(crate) fn at_r_bracket(&self) -> (r: bool)
        ensures
            r == (token_at(self.grammar(), self.position()) is RBracket),
    {
        self.next_is(&Token::RBracket)
    }

    pub(crate) fn take_semicolon(&mut self, expected: Expectation) -> (r: Result<(), ParseError>)
        ensures
            final(self).grammar() == old(self).grammar(),
            r == grammar::expect(
                old(self).grammar(),
                old(self).position(),
                TokenView::Semicolon,
                expected,
            ),
            final(self).position() == if r is Ok {
                old(self).position() + 1
            } else {
                old(self).position()
            },
            final(self).left() <= old(self).left(),
            r is Ok ==> final(self).left() < old(self).left(),
    {
        self.consume(&Token::Semicolon, expected)
    }

    pub(crate) fn take_l_paren(&mut self, expected: Expectation) -> (r: Result<(), ParseError>)
        ensures
            final(self).grammar() == old(self).grammar(),
            r == grammar::expect(
                old(self).grammar(),
                old(self).position(),
                TokenView::LParen,
                expected,
            ),
            final(self).position() == if r is Ok {
                old(self).position() + 1
            } else {
                old(self).position()
            },
            final(self).left() <= old(self).left(),
            r is Ok ==> final(self).left() < old(self).left(),
    {
        self.consume(&Token::LParen, expected)
    }

    pub(crate) fn take_r_paren(&mut self, expected: Expectation) -> (r: Result<(), ParseError>)
        ensures
            final(self).grammar() == old(self).grammar(),
            r == grammar::expect(
                old(self).grammar(),
                old(self).position(),
                TokenView::RParen,
                expected,
            ),
            final(self).position() == if r is Ok {
                old(self).position() + 1
            } else {
                old(self).position()
            },
            final(self).left() <= old(self).left(),
            r is Ok ==> final(self).left() < old(self).left(),
    {
        self.consume(&Token::RParen, expected)
    }

    pub(crate) fn take_l_brace(&mut self, expected: Expectation) -> (r: Result<(), ParseError>)
        ensures
            final(self).grammar() == old(self).grammar(),
            r == grammar::expect(
                old(self).grammar(),
                old(self).position(),
                TokenView::LBrace,
                expected,
            ),
            final(self).position() == if r is Ok {
                old(self).position() + 1
            } else {
                old(self).position()
            },
            final(self).left() <= old(self).left(),
            r is Ok ==> final(self).left() < old(self).left(),
    {
        self.consume(&Token::LBrace, expected)
    }

    pub(crate) fn take_r_brace(&mut self, expected: Expectation) -> (r: Result<(), ParseError>)
        ensures
            final(self).grammar() == old(self).grammar(),
            r == grammar::expect(
                old(self).grammar(),
                old(self).position(),
                TokenView::RBrace,
                expected,
            ),
            final(self).position() == if r is Ok {
                old(self).position() + 1
            } else {
                old(self).position()
            },
            final(self).left() <= old(self).left(),
            r is Ok ==> final(self).left() < old(self).left(),
    {
        self.consume(&Token::RBrace, expected)
    }

    pub(crate) fn take_r_bracket(&mut self, expected: Expectation) -> (r: Result<(), ParseError>)
        ensures
            final(self).grammar() == old(self).grammar(),
            r == grammar::expect(
                old(self).grammar(),
                old(self).position(),
                TokenView::RBracket,
                expected,
            ),
            final(self).position() == if r is Ok {
                old(self).position() + 1
            } else {
                old(self).position()
            },
            final(self).left() <= old(self).left(),
            r is Ok ==> final(self).left() < old(self).left(),
    {
        self.consume(&Token::RBracket, expected)
    }

    pub(crate) fn take_catch(&mut self, expected: Expectation) -> (r: Result<(), ParseError>)
        ensures
            final(self).grammar() == old(self).grammar(),
            r == grammar::expect(
                old(self).grammar(),
                old(self).position(),
                TokenView::Catch,
                expected,
            ),
            final(self).position() == if r is Ok {
                old(self).position() + 1
            } else {
                old(self).position()
            },
            final(self).left() <= old(self).left(),
            r is Ok ==> final(self).left() < old(self).left(),
    {
        self.consume(&Token::Catch, expected)
    }

    /// Steps over the next token, which must be an identifier, and gives its
    /// name.
    pub fn consume_identifier(&mut self, expected: Expectation) -> (r: Result<String, ParseError>)
        ensures
            final(self).grammar() == old(self).grammar(),
            match r {
                Ok(name) => grammar::identifier(
                    old(self).grammar(),
                    old(self).position(),
                    expected,
                ) == Ok::<Seq<char>, ParseError>(name@) && final(self).position() == old(
                    self,
                ).position() + 1,
                Err(e) => grammar::identifier(old(self).grammar(), old(self).position(), expected)
                    == Err::<Seq<char>, ParseError>(e) && final(self).position() == old(
                    self,
                ).position(),
            },
            final(self).left() <= old(self).left(),
            r is Ok ==> final(self).left() < old(self).left(),
    {
        let found = match self.peek() {
            Token::Identifier(name) => Some(name.clone()),
            _ => None,
        };
        match found {
            Some(name) => {
                self.advance();
                Ok(name)
            },
            None => Err(self.error(expected)),
        }
    }
}

} // verus!
