//! The tokenizer: from source text to a sequence of tokens.

use vstd::prelude::*;
use crate::text::{
    char_is_alphanumeric, char_is_ascii_letter, char_is_digit, char_is_whitespace, chars_of,
    integer_literal_value, is_ascii_letter, is_digit, parse_integer_literal, range_spells,
    string_of_range,
};

verus! {

/// A lexical token. A floating-point literal keeps its text (digits, a dot,
/// digits); an integer literal holds its value.
#[derive(Debug, Clone, PartialEq)]
pub enum Token {
    Number(i64),
    Float(String),
    Bool(bool),
    String(String),
    Identifier(String),
    Let,
    Fn,
    Return,
    If,
    Else,
    While,
    For,
    Print,
    Main,
    Import,
    Try,
    Catch,
    Plus,
    Minus,
    Star,
    Slash,
    Percent,
    Equal,
    EqualEqual,
    NotEqual,
    LessThan,
    GreaterThan,
    LessThanOrEqual,
    GreaterThanOrEqual,
    And,
    Or,
    Not,
    LParen,
    RParen,
    LBrace,
    RBrace,
    LBracket,
    RBracket,
    Comma,
    Semicolon,
    Dot,
    EOF,
}

/// The mathematical value of a token.
pub ghost enum TokenView {
    Number(i64),
    Float(Seq<char>),
    Bool(bool),
    String(Seq<char>),
    Identifier(Seq<char>),
    Let,
    Fn,
    Return,
    If,
    Else,
    While,
    For,
    Print,
    Main,
    Import,
    Try,
    Catch,
    Plus,
    Minus,
    Star,
    Slash,
    Percent,
    Equal,
    EqualEqual,
    NotEqual,
    LessThan,
    GreaterThan,
    LessThanOrEqual,
    GreaterThanOrEqual,
    And,
    Or,
    Not,
    LParen,
    RParen,
    LBrace,
    RBrace,
    LBracket,
    RBracket,
    Comma,
    Semicolon,
    Dot,
    EOF,
}

impl View for Token {
    type V = TokenView;

    open spec fn view(&self) -> TokenView {
        match *self {
            Token::Number(n) => TokenView::Number(n),
            Token::Float(s) => TokenView::Float(s@),
            Token::Bool(b) => TokenView::Bool(b),
            Token::String(s) => TokenView::String(s@),
            Token::Identifier(s) => TokenView::Identifier(s@),
            Token::Let => TokenView::Let,
            Token::Fn => TokenView::Fn,
            Token::Return => TokenView::Return,
            Token::If => TokenView::If,
            Token::Else => TokenView::Else,
            Token::While => TokenView::While,
            Token::For => TokenView::For,
            Token::Print => TokenView::Print,
            Token::Main => TokenView::Main,
            Token::Import => TokenView::Import,
            Token::Try => TokenView::Try,
            Token::Catch => TokenView::Catch,
            Token::Plus => TokenView::Plus,
            Token::Minus => TokenView::Minus,
            Token::Star => TokenView::Star,
            Token::Slash => TokenView::Slash,
            Token::Percent => TokenView::Percent,
            Token::Equal => TokenView::Equal,
            Token::EqualEqual => TokenView::EqualEqual,
            Token::NotEqual => TokenView::NotEqual,
            Token::LessThan => TokenView::LessThan,
            Token::GreaterThan => TokenView::GreaterThan,
            Token::LessThanOrEqual => TokenView::LessThanOrEqual,
            Token::GreaterThanOrEqual => TokenView::GreaterThanOrEqual,
            Token::And => TokenView::And,
            Token::Or => TokenView::Or,
            Token::Not => TokenView::Not,
            Token::LParen => TokenView::LParen,
            Token::RParen => TokenView::RParen,
            Token::LBrace => TokenView::LBrace,
            Token::RBrace => TokenView::RBrace,
            Token::LBracket => TokenView::LBracket,
            Token::RBracket => TokenView::RBracket,
            Token::Comma => TokenView::Comma,
            Token::Semicolon => TokenView::Semicolon,
            Token::Dot => TokenView::Dot,
            Token::EOF => TokenView::EOF,
        }
    }
}

/// The values of a sequence of tokens.
pub open spec fn token_views(tokens: Seq<Token>) -> Seq<TokenView> {
    tokens.map_values(|t: Token| t@)
}

/// Why tokenizing stopped.
#[derive(Debug, Clone, Copy, PartialEq, Eq, Structural)]
pub enum LexError {
    /// A `/*` comment still open at the end of the input.
    UnterminatedComment,
    /// A string literal still open at the end of the input; `line` is the
    /// line on which the input ended.
    UnterminatedString { line: usize },
    /// A backslash in a string literal followed by `ch`, which is none of
    /// `n r t \ "`.
    InvalidEscape { ch: char, line: usize, column: usize },
    /// A character that starts no token.
    UnexpectedCharacter { ch: char, line: usize, column: usize },
}

/// A place in the input: the index of the next character, and the line and
/// column kept for messages.
pub ghost struct Cursor {
    pub pos: int,
    pub line: usize,
    pub column: usize,
}

/// The cursor before any character is read.
pub open spec fn start_cursor() -> Cursor {
    Cursor { pos: 0, line: 1, column: 1 }
}

/// `x + n`, held at `usize::MAX`.
pub open spec fn bump(x: usize, n: int) -> usize {
    if x + n > usize::MAX {
        usize::MAX
    } else if x + n < 0 {
        0
    } else {
        (x + n) as usize
    }
}

/// The cursor after `n` characters of one line.
pub open spec fn advance(cur: Cursor, n: int) -> Cursor {
    Cursor { pos: cur.pos + n, line: cur.line, column: bump(cur.column, n) }
}

/// The cursor after a line feed.
pub open spec fn next_line(cur: Cursor) -> Cursor {
    Cursor { pos: cur.pos + 1, line: bump(cur.line, 1), column: 1 }
}

/// The character at `pos`, if there is one.
pub open spec fn char_at(input: Seq<char>, pos: int) -> Option<char> {
    if 0 <= pos < input.len() {
        Some(input[pos])
    } else {
        None
    }
}

/// Where a `//` comment that starts at or before `pos` ends: at the next line
/// feed, which is left in place, or at the end of the input.
pub open spec fn after_line_comment(input: Seq<char>, pos: int) -> int
    decreases input.len() - pos,
{
    if pos < 0 || pos >= input.len() || input[pos] == '\n' {
        pos
    } else {
        after_line_comment(input, pos + 1)
    }
}

/// What a scan over part of the input gives: where it ended and, if it
/// failed, why.
pub ghost struct Scan<T> {
    pub value: T,
    pub end: Cursor,
    pub error: Option<LexError>,
}

/// The rest of a block comment, `nesting` levels deep. `/*` opens a further
/// level and `*/` closes one; neither moves the column.
pub open spec fn after_block_comment(input: Seq<char>, cur: Cursor, nesting: nat) -> Scan<()>
    decreases input.len() - cur.pos,
{
    if nesting == 0 {
        Scan { value: (), end: cur, error: None }
    } else if cur.pos < 0 || cur.pos >= input.len() {
        Scan { value: (), end: cur, error: Some(LexError::UnterminatedComment) }
    } else if input[cur.pos] == '*' && char_at(input, cur.pos + 1) == Some('/') {
        after_block_comment(
            input,
            Cursor { pos: cur.pos + 2, line: cur.line, column: cur.column },
            (nesting - 1) as nat,
        )
    } else if input[cur.pos] == '/' && char_at(input, cur.pos + 1) == Some('*') {
        after_block_comment(
            input,
            Cursor { pos: cur.pos + 2, line: cur.line, column: cur.column },
            nesting + 1,
        )
    } else if input[cur.pos] == '\n' {
        after_block_comment(input, next_line(cur), nesting)
    } else {
        after_block_comment(input, advance(cur, 1), nesting)
    }
}

/// The character that an escape sequence stands for.
pub open spec fn unescape(c: char) -> Option<char> {
    if c == 'n' {
        Some('\n')
    } else if c == 'r' {
        Some('\r')
    } else if c == 't' {
        Some('\t')
    } else if c == '\\' {
        Some('\\')
    } else if c == '"' {
        Some('"')
    } else {
        None
    }
}

/// The rest of a string literal after its opening quote: `acc` holds the
/// content read so far, `escaped` says that a backslash came last.
pub open spec fn scan_string(input: Seq<char>, cur: Cursor, acc: Seq<char>, escaped: bool) -> Scan<
    Seq<char>,
>
    decreases input.len() - cur.pos,
{
    if cur.pos < 0 || cur.pos >= input.len() {
        Scan { value: acc, end: cur, error: Some(LexError::UnterminatedString { line: cur.line }) }
    } else {
        let c = input[cur.pos];
        let next = advance(cur, 1);
        if escaped {
            match unescape(c) {
                Some(e) => scan_string(input, next, acc.push(e), false),
                None => Scan {
                    value: acc,
                    end: next,
                    error: Some(
                        LexError::InvalidEscape { ch: c, line: next.line, column: next.column },
                    ),
                },
            }
        } else if c == '\\' {
            scan_string(input, next, acc, true)
        } else if c == '"' {
            Scan { value: acc, end: next, error: None }
        } else if c == '\n' {
            scan_string(input, next_line(cur), acc.push(c), false)
        } else {
            scan_string(input, next, acc.push(c), false)
        }
    }
}

/// Where a numeric literal ends, and whether it has a fraction. A dot
/// belongs to the literal only if no dot came before and a digit follows.
pub open spec fn number_end(input: Seq<char>, pos: int, fraction: bool) -> (int, bool)
    decreases input.len() - pos,
{
    if pos < 0 || pos >= input.len() {
        (pos, fraction)
    } else if is_digit(input[pos]) {
        number_end(input, pos + 1, fraction)
    } else if input[pos] == '.' && !fraction && pos + 1 < input.len() && is_digit(input[pos + 1]) {
        number_end(input, pos + 1, true)
    } else {
        (pos, fraction)
    }
}

/// A character that may continue an identifier.
pub open spec fn is_word_char(c: char) -> bool {
    char_is_alphanumeric(c) || c == '_'
}

/// Where the run of identifier characters from `pos` ends.
pub open spec fn word_end(input: Seq<char>, pos: int) -> int
    decreases input.len() - pos,
{
    if 0 <= pos < input.len() && is_word_char(input[pos]) {
        word_end(input, pos + 1)
    } else {
        pos
    }
}

/// The token of a word: a keyword, a boolean literal or an identifier.
pub open spec fn word_token(word: Seq<char>) -> TokenView {
    if word == "let"@ {
        TokenView::Let
    } else if word == "fn"@ {
        TokenView::Fn
    } else if word == "return"@ {
        TokenView::Return
    } else if word == "if"@ {
        TokenView::If
    } else if word == "else"@ {
        TokenView::Else
    } else if word == "while"@ {
        TokenView::While
    } else if word == "for"@ {
        TokenView::For
    } else if word == "print"@ {
        TokenView::Print
    } else if word == "true"@ {
        TokenView::Bool(true)
    } else if word == "false"@ {
        TokenView::Bool(false)
    } else if word == "main"@ {
        TokenView::Main
    } else if word == "import"@ {
        TokenView::Import
    } else if word == "try"@ {
        TokenView::Try
    } else if word == "catch"@ {
        TokenView::Catch
    } else {
        TokenView::Identifier(word)
    }
}

/// The token of a character that is a token by itself whatever follows.
pub open spec fn symbol_token(c: char) -> Option<TokenView> {
    if c == '+' {
        Some(TokenView::Plus)
    } else if c == '-' {
        Some(TokenView::Minus)
    } else if c == '*' {
        Some(TokenView::Star)
    } else if c == '/' {
        Some(TokenView::Slash)
    } else if c == '%' {
        Some(TokenView::Percent)
    } else if c == '.' {
        Some(TokenView::Dot)
    } else if c == '(' {
        Some(TokenView::LParen)
    } else if c == ')' {
        Some(TokenView::RParen)
    } else if c == '{' {
        Some(TokenView::LBrace)
    } else if c == '}' {
        Some(TokenView::RBrace)
    } else if c == '[' {
        Some(TokenView::LBracket)
    } else if c == ']' {
        Some(TokenView::RBracket)
    } else if c == ',' {
        Some(TokenView::Comma)
    } else if c == ';' {
        Some(TokenView::Semicolon)
    } else {
        None
    }
}

/// A character that starts a one- or two-character operator, with the
/// character that makes it the longer one, and both tokens. The shorter is
/// `None` where the character alone is no token.
pub open spec fn paired_token(c: char) -> Option<(char, TokenView, Option<TokenView>)> {
    if c == '=' {
        Some(('=', TokenView::EqualEqual, Some(TokenView::Equal)))
    } else if c == '!' {
        Some(('=', TokenView::NotEqual, Some(TokenView::Not)))
    } else if c == '<' {
        Some(('=', TokenView::LessThanOrEqual, Some(TokenView::LessThan)))
    } else if c == '>' {
        Some(('=', TokenView::GreaterThanOrEqual, Some(TokenView::GreaterThan)))
    } else if c == '&' {
        Some(('&', TokenView::And, None))
    } else if c == '|' {
        Some(('|', TokenView::Or, None))
    } else {
        None
    }
}

/// One step of the tokenizer at a cursor inside the input: white space and
/// comments give no token.
pub open spec fn lex_one(input: Seq<char>, cur: Cursor) -> Scan<Option<TokenView>>
    recommends
        0 <= cur.pos < input.len(),
{
    let c = input[cur.pos];
    let follower = char_at(input, cur.pos + 1);
    if char_is_whitespace(c) {
        Scan { value: None, end: if c == '\n' { next_line(cur) } else { advance(cur, 1) }, error: None }
    } else if c == '/' && follower == Some('/') {
        Scan {
            value: None,
            end: Cursor {
                pos: after_line_comment(input, cur.pos),
                line: cur.line,
                column: cur.column,
            },
            error: None,
        }
    } else if c == '/' && follower == Some('*') {
        let rest = after_block_comment(
            input,
            Cursor { pos: cur.pos + 2, line: cur.line, column: cur.column },
            1,
        );
        Scan { value: None, end: rest.end, error: rest.error }
    } else if symbol_token(c) is Some {
        Scan { value: symbol_token(c), end: advance(cur, 1), error: None }
    } else if paired_token(c) is Some {
        let (second, long, short) = paired_token(c)->0;
        if follower == Some(second) {
            Scan { value: Some(long), end: advance(cur, 2), error: None }
        } else if short is Some {
            Scan { value: short, end: advance(cur, 1), error: None }
        } else {
            Scan {
                value: None,
                end: cur,
                error: Some(
                    LexError::UnexpectedCharacter { ch: c, line: cur.line, column: cur.column },
                ),
            }
        }
    } else if c == '"' {
        let rest = scan_string(input, advance(cur, 1), Seq::empty(), false);
        Scan { value: Some(TokenView::String(rest.value)), end: rest.end, error: rest.error }
    } else if is_digit(c) {
        let (end, fraction) = number_end(input, cur.pos, false);
        let literal = input.subrange(cur.pos, end);
        Scan {
            value: Some(
                if fraction {
                    TokenView::Float(literal)
                } else {
                    TokenView::Number(integer_literal_value(literal))
                },
            ),
            end: advance(cur, end - cur.pos),
            error: None,
        }
    } else if is_ascii_letter(c) || c == '_' {
        let end = word_end(input, cur.pos + 1);
        Scan {
            value: Some(word_token(input.subrange(cur.pos, end))),
            end: advance(cur, end - cur.pos),
            error: None,
        }
    } else {
        Scan {
            value: None,
            end: cur,
            error: Some(LexError::UnexpectedCharacter { ch: c, line: cur.line, column: cur.column }),
        }
    }
}

pub proof fn lemma_after_line_comment_bounds(input: Seq<char>, pos: int)
    requires
        0 <= pos <= input.len(),
    ensures
        pos <= after_line_comment(input, pos) <= input.len(),
    decreases input.len() - pos,
{
    if pos < input.len() && input[pos] != '\n' {
        lemma_after_line_comment_bounds(input, pos + 1);
    }
}

pub proof fn lemma_after_block_comment_bounds(input: Seq<char>, cur: Cursor, nesting: nat)
    requires
        0 <= cur.pos <= input.len(),
    ensures
        cur.pos <= after_block_comment(input, cur, nesting).end.pos <= input.len(),
    decreases input.len() - cur.pos,
{
    if nesting == 0 || cur.pos >= input.len() {
    } else if input[cur.pos] == '*' && char_at(input, cur.pos + 1) == Some('/') {
        lemma_after_block_comment_bounds(
            input,
            Cursor { pos: cur.pos + 2, line: cur.line, column: cur.column },
            (nesting - 1) as nat,
        );
    } else if input[cur.pos] == '/' && char_at(input, cur.pos + 1) == Some('*') {
        lemma_after_block_comment_bounds(
            input,
            Cursor { pos: cur.pos + 2, line: cur.line, column: cur.column },
            nesting + 1,
        );
    } else if input[cur.pos] == '\n' {
        lemma_after_block_comment_bounds(input, next_line(cur), nesting);
    } else {
        lemma_after_block_comment_bounds(input, advance(cur, 1), nesting);
    }
}

pub proof fn lemma_scan_string_bounds(input: Seq<char>, cur: Cursor, acc: Seq<char>, escaped: bool)
    requires
        0 <= cur.pos <= input.len(),
    ensures
        cur.pos <= scan_string(input, cur, acc, escaped).end.pos <= input.len(),
    decreases input.len() - cur.pos,
{
    if cur.pos < input.len() {
        let c = input[cur.pos];
        let next = advance(cur, 1);
        if escaped {
            if unescape(c) is Some {
                lemma_scan_string_bounds(input, next, acc.push(unescape(c)->0), false);
            }
        } else if c == '\\' {
            lemma_scan_string_bounds(input, next, acc, true);
        } else if c == '"' {
        } else if c == '\n' {
            lemma_scan_string_bounds(input, next_line(cur), acc.push(c), false);
        } else {
            lemma_scan_string_bounds(input, next, acc.push(c), false);
        }
    }
}

pub proof fn lemma_number_end_bounds(input: Seq<char>, pos: int, fraction: bool)
    requires
        0 <= pos <= input.len(),
    ensures
        pos <= number_end(input, pos, fraction).0 <= input.len(),
    decreases input.len() - pos,
{
    if pos < input.len() {
        if is_digit(input[pos]) {
            lemma_number_end_bounds(input, pos + 1, fraction);
        } else if input[pos] == '.' && !fraction && pos + 1 < input.len() && is_digit(
            input[pos + 1],
        ) {
            lemma_number_end_bounds(input, pos + 1, true);
        }
    }
}

pub proof fn lemma_word_end_bounds(input: Seq<char>, pos: int)
    requires
        0 <= pos <= input.len(),
    ensures
        pos <= word_end(input, pos) <= input.len(),
    decreases input.len() - pos,
{
    if pos < input.len() && is_word_char(input[pos]) {
        lemma_word_end_bounds(input, pos + 1);
    }
}

/// A step that succeeds reads at least one character and stays inside the
/// input.
pub proof fn lemma_lex_one_advances(input: Seq<char>, cur: Cursor)
    requires
        0 <= cur.pos < input.len(),
    ensures
        lex_one(input, cur).error is None ==> cur.pos < lex_one(input, cur).end.pos,
        cur.pos <= lex_one(input, cur).end.pos <= input.len(),
{
    let c = input[cur.pos];
    lemma_after_line_comment_bounds(input, cur.pos + 1);
    if cur.pos + 2 <= input.len() {
        lemma_after_block_comment_bounds(
            input,
            Cursor { pos: cur.pos + 2, line: cur.line, column: cur.column },
            1,
        );
    }
    lemma_scan_string_bounds(input, advance(cur, 1), Seq::empty(), false);
    lemma_number_end_bounds(input, cur.pos + 1, false);
    lemma_word_end_bounds(input, cur.pos + 1);
}

/// What tokenizing gives: the tokens read, where reading stopped and, if it
/// failed, why.
pub ghost struct Lexed {
    pub tokens: Seq<TokenView>,
    pub end: Cursor,
    pub error: Option<LexError>,
}

/// The tokens of the input from `cur` on, closed by the end marker. The
/// first error stops the tokenizer.
pub open spec fn lex_from(input: Seq<char>, cur: Cursor) -> Lexed
    decreases input.len() - cur.pos,
{
    if cur.pos < 0 || cur.pos >= input.len() {
        Lexed { tokens: seq![TokenView::EOF], end: cur, error: None }
    } else {
        let step = lex_one(input, cur);
        if step.error is Some {
            Lexed { tokens: Seq::empty(), end: step.end, error: step.error }
        } else {
            proof {
                lemma_lex_one_advances(input, cur);
            }
            let rest = lex_from(input, step.end);
            Lexed {
                tokens: match step.value {
                    Some(t) => seq![t] + rest.tokens,
                    None => rest.tokens,
                },
                end: rest.end,
                error: rest.error,
            }
        }
    }
}

/// The tokens of a whole source text.
pub open spec fn tokens_of(input: Seq<char>) -> Result<Seq<TokenView>, LexError> {
    let lexed = lex_from(input, start_cursor());
    match lexed.error {
        Some(e) => Err(e),
        None => Ok(lexed.tokens),
    }
}


/// The tokenizer: the characters of the source text and a cursor into them.
pub struct Lexer {
    chars: Vec<char>,
    pos: usize,
    line: usize,
    column: usize,
}

impl Lexer {
    /// The source text.
    pub closed spec fn source(&self) -> Seq<char> {
        self.chars@
    }

    /// The place of the next character.
    pub closed spec fn cursor(&self) -> Cursor {
        Cursor { pos: self.pos as int, line: self.line, column: self.column }
    }

    /// A tokenizer at the start of `input`.
    pub fn new(input: &str) -> (lexer: Self)
        ensures
            lexer.source() == input@,
            lexer.cursor() == start_cursor(),
    {
        Lexer { chars: chars_of(input), pos: 0, line: 1, column: 1 }
    }

    /// The line and column of the next character.
    pub fn get_position(&self) -> (p: (usize, usize))
        ensures
            p == (self.cursor().line, self.cursor().column),
    {
        (self.line, self.column)
    }

    /// The next character, if any is left.
    pub fn peek_char(&self) -> (c: Option<char>)
        ensures
            c == char_at(self.source(), self.cursor().pos),
    {
        if self.pos < self.chars.len() {
            Some(self.chars[self.pos])
        } else {
            None
        }
    }

    /// The character `offset` places after the next one, if there is one.
    pub fn peek_char_at(&self, offset: usize) -> (c: Option<char>)
        ensures
            c == char_at(self.source(), self.cursor().pos + offset),
    {
        if self.pos < self.chars.len() && offset < self.chars.len() - self.pos {
            Some(self.chars[self.pos + offset])
        } else {
            None
        }
    }

    /// Steps over the next character, if any is left. Line and column stay.
    pub fn consume_char(&mut self)
        ensures
            final(self).source() == old(self).source(),
            final(self).cursor() == (Cursor {
                pos: if old(self).cursor().pos < old(self).source().len() {
                    old(self).cursor().pos + 1
                } else {
                    old(self).cursor().pos
                },
                line: old(self).cursor().line,
                column: old(self).cursor().column,
            }),
    {
        if self.pos < self.chars.len() {
            self.pos += 1;
        }
    }

    fn follows(&self, c: char) -> (r: bool)
        ensures
            r == (char_at(self.source(), self.cursor().pos + 1) == Some(c)),
    {
        match self.peek_char_at(1) {
            Some(d) => d == c,
            None => false,
        }
    }

    fn step_in_line(&mut self, n: usize)
        requires
            old(self).pos + n <= old(self).chars.len(),
        ensures
            final(self).source() == old(self).source(),
            final(self).cursor() == advance(old(self).cursor(), n as int),
    {
        self.pos += n;
        self.column = self.column.saturating_add(n);
    }

    fn step_over_line_feed(&mut self)
        requires
            old(self).pos < old(self).chars.len(),
        ensures
            final(self).source() == old(self).source(),
            final(self).cursor() == next_line(old(self).cursor()),
    {
        self.pos += 1;
        self.line = self.line.saturating_add(1);
        self.column = 1;
    }

    /// Reads the whole input from the cursor on.
    pub fn tokenize(&mut self) -> (r: Result<Vec<Token>, LexError>)
        ensures
            final(self).source() == old(self).source(),
            final(self).cursor() == lex_from(old(self).source(), old(self).cursor()).end,
            match r {
                Ok(tokens) => lex_from(old(self).source(), old(self).cursor()).error is None
                    && token_views(tokens@) == lex_from(
                    old(self).source(),
                    old(self).cursor(),
                ).tokens,
                Err(e) => lex_from(old(self).source(), old(self).cursor()).error == Some(e),
            },
    {
        let mut tokens: Vec<Token> = Vec::new();
        let ghost input = self.chars@;
        let ghost start = self.cursor();
        assert(token_views(tokens@) =~= Seq::empty());
        assert(lex_from(input, start).tokens =~= token_views(tokens@) + lex_from(
            input,
            self.cursor(),
        ).tokens);
        while self.pos < self.chars.len()
            invariant
                self.chars@ == input,
                input == old(self).chars@,
                start == old(self).cursor(),
                lex_from(input, start).error == lex_from(input, self.cursor()).error,
                lex_from(input, start).end == lex_from(input, self.cursor()).end,
                lex_from(input, start).tokens == token_views(tokens@) + lex_from(
                    input,
                    self.cursor(),
                ).tokens,
            decreases self.chars.len() - self.pos,
        {
            let ghost cur = self.cursor();
            let ghost step = lex_one(input, cur);
            proof {
                lemma_lex_one_advances(input, cur);
            }
            let ch = self.chars[self.pos];
            let token: Option<Token>;
            if ch.is_whitespace() {
                if ch == '\n' {
                    self.step_over_line_feed();
                } else {
                    self.step_in_line(1);
                }
                token = None;
            } else if ch == '/' && self.follows('/') {
                self.skip_line_comment();
                token = None;
            } else if ch == '/' && self.follows('*') {
                match self.skip_block_comment() {
                    Ok(()) => {},
                    Err(e) => {
                        return Err(e);
                    },
                }
                token = None;
            } else if ch == '+' {
                self.step_in_line(1);
                token = Some(Token::Plus);
            } else if ch == '-' {
                self.step_in_line(1);
                token = Some(Token::Minus);
            } else if ch == '*' {
                self.step_in_line(1);
                token = Some(Token::Star);
            } else if ch == '/' {
                self.step_in_line(1);
                token = Some(Token::Slash);
            } else if ch == '%' {
                self.step_in_line(1);
                token = Some(Token::Percent);
            } else if ch == '.' {
                self.step_in_line(1);
                token = Some(Token::Dot);
            } else if ch == '(' {
                self.step_in_line(1);
                token = Some(Token::LParen);
            } else if ch == ')' {
                self.step_in_line(1);
                token = Some(Token::RParen);
            } else if ch == '{' {
                self.step_in_line(1);
                token = Some(Token::LBrace);
            } else if ch == '}' {
                self.step_in_line(1);
                token = Some(Token::RBrace);
            } else if ch == '[' {
                self.step_in_line(1);
                token = Some(Token::LBracket);
            } else if ch == ']' {
                self.step_in_line(1);
                token = Some(Token::RBracket);
            } else if ch == ',' {
                self.step_in_line(1);
                token = Some(Token::Comma);
            } else if ch == ';' {
                self.step_in_line(1);
                token = Some(Token::Semicolon);
            } else if ch == '=' {
                if self.follows('=') {
                    self.step_in_line(2);
                    token = Some(Token::EqualEqual);
                } else {
                    self.step_in_line(1);
                    token = Some(Token::Equal);
                }
            } else if ch == '!' {
                if self.follows('=') {
                    self.step_in_line(2);
                    token = Some(Token::NotEqual);
                } else {
                    self.step_in_line(1);
                    token = Some(Token::Not);
                }
            } else if ch == '<' {
                if self.follows('=') {
                    self.step_in_line(2);
                    token = Some(Token::LessThanOrEqual);
                } else {
                    self.step_in_line(1);
                    token = Some(Token::LessThan);
                }
            } else if ch == '>' {
                if self.follows('=') {
                    self.step_in_line(2);
                    token = Some(Token::GreaterThanOrEqual);
                } else {
                    self.step_in_line(1);
                    token = Some(Token::GreaterThan);
                }
            } else if ch == '&' {
                if self.follows('&') {
                    self.step_in_line(2);
                    token = Some(Token::And);
                } else {
                    return Err(
                        LexError::UnexpectedCharacter {
                            ch,
                            line: self.line,
                            column: self.column,
                        },
                    );
                }
            } else if ch == '|' {
                if self.follows('|') {
                    self.step_in_line(2);
                    token = Some(Token::Or);
                } else {
                    return Err(
                        LexError::UnexpectedCharacter {
                            ch,
                            line: self.line,
                            column: self.column,
                        },
                    );
                }
            } else if ch == '"' {
                match self.read_string() {
                    Ok(t) => {
                        token = Some(t);
                    },
                    Err(e) => {
                        return Err(e);
                    },
                }
            } else if char_is_digit(ch) {
                token = Some(self.read_number());
            } else if char_is_ascii_letter(ch) || ch == '_' {
                token = Some(self.read_identifier_or_keyword());
            } else {
                return Err(
                    LexError::UnexpectedCharacter { ch, line: self.line, column: self.column },
                );
            }
            assert(step.error is None);
            assert(self.cursor() == step.end);
            match token {
                Some(t) => {
                    assert(step.value == Some(t@));
                    let ghost before = tokens@;
                    tokens.push(t);
                    assert(token_views(tokens@) =~= token_views(before).push(t@));
                    assert(lex_from(input, start).tokens =~= token_views(tokens@) + lex_from(
                        input,
                        self.cursor(),
                    ).tokens);
                },
                None => {
                    assert(step.value is None);
                },
            }
        }
        let ghost before = tokens@;
        tokens.push(Token::EOF);
        assert(token_views(tokens@) =~= token_views(before).push(TokenView::EOF));
        assert(lex_from(input, start).tokens =~= token_views(tokens@));
        Ok(tokens)
    }

    fn skip_line_comment(&mut self)
        ensures
            final(self).source() == old(self).source(),
            final(self).cursor() == (Cursor {
                pos: after_line_comment(old(self).source(), old(self).cursor().pos),
                line: old(self).cursor().line,
                column: old(self).cursor().column,
            }),
    {
        let ghost start = self.pos as int;
        while self.pos < self.chars.len() && self.chars[self.pos] != '\n'
            invariant
                self.chars@ == old(self).chars@,
                self.line == old(self).line,
                self.column == old(self).column,
                after_line_comment(self.chars@, start) == after_line_comment(
                    self.chars@,
                    self.pos as int,
                ),
            decreases self.chars.len() - self.pos,
        {
            self.pos += 1;
        }
    }

    fn skip_block_comment(&mut self) -> (r: Result<(), LexError>)
        requires
            old(self).pos + 2 <= old(self).chars.len(),
        ensures
            final(self).source() == old(self).source(),
            ({
                let opened = Cursor {
                    pos: old(self).cursor().pos + 2,
                    line: old(self).cursor().line,
                    column: old(self).cursor().column,
                };
                let scan = after_block_comment(old(self).source(), opened, 1);
                &&& final(self).cursor() == scan.end
                &&& match r {
                    Ok(_) => scan.error is None,
                    Err(e) => scan.error == Some(e),
                }
            }),
    {
        self.pos += 2;
        let ghost opened = self.cursor();
        let mut nesting: usize = 1;
        while nesting > 0
            invariant
                self.chars@ == old(self).chars@,
                opened == (Cursor {
                    pos: old(self).pos + 2,
                    line: old(self).line,
                    column: old(self).column,
                }),
                self.pos <= self.chars.len(),
                nesting <= self.pos,
                after_block_comment(self.chars@, opened, 1) == after_block_comment(
                    self.chars@,
                    self.cursor(),
                    nesting as nat,
                ),
            decreases self.chars.len() - self.pos, nesting,
        {
            if self.pos >= self.chars.len() {
                return Err(LexError::UnterminatedComment);
            }
            let c = self.chars[self.pos];
            if c == '*' && self.follows('/') {
                self.pos += 2;
                nesting -= 1;
            } else if c == '/' && self.follows('*') {
                self.pos += 2;
                nesting += 1;
            } else if c == '\n' {
                self.step_over_line_feed();
            } else {
                self.step_in_line(1);
            }
        }
        Ok(())
    }

    fn read_string(&mut self) -> (r: Result<Token, LexError>)
        requires
            old(self).pos < old(self).chars.len(),
        ensures
            final(self).source() == old(self).source(),
            ({
                let scan = scan_string(
                    old(self).source(),
                    advance(old(self).cursor(), 1),
                    Seq::empty(),
                    false,
                );
                &&& final(self).cursor() == scan.end
                &&& match r {
                    Ok(t) => scan.error is None && t@ == TokenView::String(scan.value),
                    Err(e) => scan.error == Some(e),
                }
            }),
    {
        self.step_in_line(1);
        let ghost opened = self.cursor();
        let mut content = String::new();
        let mut escaped = false;
        while self.pos < self.chars.len()
            invariant
                self.chars@ == old(self).chars@,
                opened == advance(old(self).cursor(), 1),
                scan_string(self.chars@, opened, Seq::empty(), false) == scan_string(
                    self.chars@,
                    self.cursor(),
                    content@,
                    escaped,
                ),
            decreases self.chars.len() - self.pos,
        {
            let c = self.chars[self.pos];
            if escaped {
                self.step_in_line(1);
                let plain = if c == 'n' {
                    '\n'
                } else if c == 'r' {
                    '\r'
                } else if c == 't' {
                    '\t'
                } else if c == '\\' {
                    '\\'
                } else if c == '"' {
                    '"'
                } else {
                    return Err(
                        LexError::InvalidEscape { ch: c, line: self.line, column: self.column },
                    );
                };
                content.push(plain);
                escaped = false;
            } else if c == '\\' {
                self.step_in_line(1);
                escaped = true;
            } else if c == '"' {
                self.step_in_line(1);
                return Ok(Token::String(content));
            } else if c == '\n' {
                self.step_over_line_feed();
                content.push(c);
            } else {
                self.step_in_line(1);
                content.push(c);
            }
        }
        Err(LexError::UnterminatedString { line: self.line })
    }

    fn read_number(&mut self) -> (t: Token)
        requires
            old(self).pos < old(self).chars.len(),
            is_digit(old(self).chars@[old(self).pos as int]),
        ensures
            final(self).source() == old(self).source(),
            ({
                let from = old(self).cursor().pos;
                let (end, fraction) = number_end(old(self).source(), from, false);
                let literal = old(self).source().subrange(from, end);
                &&& final(self).cursor() == advance(old(self).cursor(), end - from)
                &&& t@ == if fraction {
                    TokenView::Float(literal)
                } else {
                    TokenView::Number(integer_literal_value(literal))
                }
            }),
    {
        let start = self.pos;
        let ghost begun = self.cursor();
        let mut fraction = false;
        loop
            invariant
                self.chars@ == old(self).chars@,
                start == old(self).pos,
                begun == old(self).cursor(),
                start <= self.pos <= self.chars.len(),
                self.cursor() == advance(begun, self.pos - start),
                number_end(self.chars@, start as int, false) == number_end(
                    self.chars@,
                    self.pos as int,
                    fraction,
                ),
                !fraction ==> forall|j: int| start <= j < self.pos ==> is_digit(#[trigger] self.chars@[j]),
            ensures
                number_end(self.chars@, start as int, false) == (self.pos as int, fraction),
            decreases self.chars.len() - self.pos,
        {
            if self.pos >= self.chars.len() {
                break;
            }
            let c = self.chars[self.pos];
            if char_is_digit(c) {
                self.step_in_line(1);
            } else if c == '.' && !fraction {
                let digit_follows = match self.peek_char_at(1) {
                    Some(d) => char_is_digit(d),
                    None => false,
                };
                if digit_follows {
                    fraction = true;
                    self.step_in_line(1);
                } else {
                    break;
                }
            } else {
                break;
            }
        }
        if fraction {
            Token::Float(string_of_range(&self.chars, start, self.pos))
        } else {
            Token::Number(parse_integer_literal(&self.chars, start, self.pos))
        }
    }

    fn read_identifier_or_keyword(&mut self) -> (t: Token)
        requires
            old(self).pos < old(self).chars.len(),
        ensures
            final(self).source() == old(self).source(),
            ({
                let from = old(self).cursor().pos;
                let end = word_end(old(self).source(), from + 1);
                &&& final(self).cursor() == advance(old(self).cursor(), end - from)
                &&& t@ == word_token(old(self).source().subrange(from, end))
            }),
    {
        let start = self.pos;
        let ghost begun = self.cursor();
        self.step_in_line(1);
        while self.pos < self.chars.len() && (self.chars[self.pos].is_alphanumeric()
            || self.chars[self.pos] == '_')
            invariant
                self.chars@ == old(self).chars@,
                start == old(self).pos,
                begun == old(self).cursor(),
                start < self.pos <= self.chars.len(),
                self.cursor() == advance(begun, self.pos - start),
                word_end(self.chars@, start + 1) == word_end(self.chars@, self.pos as int),
            decreases self.chars.len() - self.pos,
        {
            self.step_in_line(1);
        }
        let end = self.pos;
        if range_spells(&self.chars, start, end, "let") {
            Token::Let
        } else if range_spells(&self.chars, start, end, "fn") {
            Token::Fn
        } else if range_spells(&self.chars, start, end, "return") {
            Token::Return
        } else if range_spells(&self.chars, start, end, "if") {
            Token::If
        } else if range_spells(&self.chars, start, end, "else") {
            Token::Else
        } else if range_spells(&self.chars, start, end, "while") {
            Token::While
        } else if range_spells(&self.chars, start, end, "for") {
            Token::For
        } else if range_spells(&self.chars, start, end, "print") {
            Token::Print
        } else if range_spells(&self.chars, start, end, "true") {
            Token::Bool(true)
        } else if range_spells(&self.chars, start, end, "false") {
            Token::Bool(false)
        } else if range_spells(&self.chars, start, end, "main") {
            Token::Main
        } else if range_spells(&self.chars, start, end, "import") {
            Token::Import
        } else if range_spells(&self.chars, start, end, "try") {
            Token::Try
        } else if range_spells(&self.chars, start, end, "catch") {
            Token::Catch
        } else {
            Token::Identifier(string_of_range(&self.chars, start, end))
        }
    }
}


/// A number that tells the kinds of tokens apart, whatever they hold.
pub open spec fn token_kind(t: TokenView) -> int {
    match t {
        TokenView::Number(_) => 0,
        TokenView::Float(_) => 1,
        TokenView::Bool(_) => 2,
        TokenView::String(_) => 3,
        TokenView::Identifier(_) => 4,
        TokenView::Let => 5,
        TokenView::Fn => 6,
        TokenView::Return => 7,
        TokenView::If => 8,
        TokenView::Else => 9,
        TokenView::While => 10,
        TokenView::For => 11,
        TokenView::Print => 12,
        TokenView::Main => 13,
        TokenView::Import => 14,
        TokenView::Try => 15,
        TokenView::Catch => 16,
        TokenView::Plus => 17,
        TokenView::Minus => 18,
        TokenView::Star => 19,
        TokenView::Slash => 20,
        TokenView::Percent => 21,
        TokenView::Equal => 22,
        TokenView::EqualEqual => 23,
        TokenView::NotEqual => 24,
        TokenView::LessThan => 25,
        TokenView::GreaterThan => 26,
        TokenView::LessThanOrEqual => 27,
        TokenView::GreaterThanOrEqual => 28,
        TokenView::And => 29,
        TokenView::Or => 30,
        TokenView::Not => 31,
        TokenView::LParen => 32,
        TokenView::RParen => 33,
        TokenView::LBrace => 34,
        TokenView::RBrace => 35,
        TokenView::LBracket => 36,
        TokenView::RBracket => 37,
        TokenView::Comma => 38,
        TokenView::Semicolon => 39,
        TokenView::Dot => 40,
        TokenView::EOF => 41,
    }
}

impl Token {
    /// A number that tells the kinds of tokens apart, whatever they hold.
    pub fn kind(&self) -> (k: u8)
        ensures
            k == token_kind(self@),
    {
        match self {
            Token::Number(_) => 0,
            Token::Float(_) => 1,
            Token::Bool(_) => 2,
            Token::String(_) => 3,
            Token::Identifier(_) => 4,
            Token::Let => 5,
            Token::Fn => 6,
            Token::Return => 7,
            Token::If => 8,
            Token::Else => 9,
            Token::While => 10,
            Token::For => 11,
            Token::Print => 12,
            Token::Main => 13,
            Token::Import => 14,
            Token::Try => 15,
            Token::Catch => 16,
            Token::Plus => 17,
            Token::Minus => 18,
            Token::Star => 19,
            Token::Slash => 20,
            Token::Percent => 21,
            Token::Equal => 22,
            Token::EqualEqual => 23,
            Token::NotEqual => 24,
            Token::LessThan => 25,
            Token::GreaterThan => 26,
            Token::LessThanOrEqual => 27,
            Token::GreaterThanOrEqual => 28,
            Token::And => 29,
            Token::Or => 30,
            Token::Not => 31,
            Token::LParen => 32,
            Token::RParen => 33,
            Token::LBrace => 34,
            Token::RBrace => 35,
            Token::LBracket => 36,
            Token::RBracket => 37,
            Token::Comma => 38,
            Token::Semicolon => 39,
            Token::Dot => 40,
            Token::EOF => 41,
        }
    }

    /// Whether both tokens are of one kind, whatever they hold.
    pub fn same_kind(&self, other: &Token) -> (r: bool)
        ensures
            r == (token_kind(self@) == token_kind(other@)),
    {
        self.kind() == other.kind()
    }
}

} // verus!
