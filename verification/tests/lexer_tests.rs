use kode::lexer::{LexError, Lexer, Token};

fn tokens(source: &str) -> Vec<Token> {
    Lexer::new(source).tokenize().expect("tokens")
}

fn ident(name: &str) -> Token {
    Token::Identifier(name.to_string())
}

#[test]
fn empty_input_gives_the_end_marker() {
    assert_eq!(tokens(""), vec![Token::EOF]);
}

#[test]
fn the_end_marker_is_always_last() {
    let all = tokens("let x = 1;");
    assert_eq!(all.last(), Some(&Token::EOF));
    assert_eq!(all.iter().filter(|t| **t == Token::EOF).count(), 1);
}

#[test]
fn a_declaration_is_five_tokens_and_the_end() {
    assert_eq!(
        tokens("let x = 42;"),
        vec![Token::Let, ident("x"), Token::Equal, Token::Number(42), Token::Semicolon, Token::EOF]
    );
}

#[test]
fn two_character_operators_win_over_their_prefixes() {
    assert_eq!(
        tokens("== = != ! <= < >= > && ||"),
        vec![
            Token::EqualEqual,
            Token::Equal,
            Token::NotEqual,
            Token::Not,
            Token::LessThanOrEqual,
            Token::LessThan,
            Token::GreaterThanOrEqual,
            Token::GreaterThan,
            Token::And,
            Token::Or,
            Token::EOF
        ]
    );
    assert_eq!(tokens("==="), vec![Token::EqualEqual, Token::Equal, Token::EOF]);
}

#[test]
fn every_symbol_is_a_token() {
    assert_eq!(
        tokens("+ - * / % . ( ) { } [ ] , ;"),
        vec![
            Token::Plus,
            Token::Minus,
            Token::Star,
            Token::Slash,
            Token::Percent,
            Token::Dot,
            Token::LParen,
            Token::RParen,
            Token::LBrace,
            Token::RBrace,
            Token::LBracket,
            Token::RBracket,
            Token::Comma,
            Token::Semicolon,
            Token::EOF
        ]
    );
}

#[test]
fn a_lone_ampersand_is_an_error() {
    let mut lexer = Lexer::new("a & b");
    assert_eq!(
        lexer.tokenize(),
        Err(LexError::UnexpectedCharacter { ch: '&', line: 1, column: 3 })
    );
}

#[test]
fn a_lone_bar_is_an_error() {
    let mut lexer = Lexer::new("\n  |");
    assert_eq!(
        lexer.tokenize(),
        Err(LexError::UnexpectedCharacter { ch: '|', line: 2, column: 3 })
    );
}

#[test]
fn an_unknown_character_is_an_error_with_its_place() {
    let mut lexer = Lexer::new("let x = #;");
    assert_eq!(
        lexer.tokenize(),
        Err(LexError::UnexpectedCharacter { ch: '#', line: 1, column: 9 })
    );
}

#[test]
fn keywords_are_not_identifiers() {
    assert_eq!(
        tokens("let fn return if else while for print main import try catch"),
        vec![
            Token::Let,
            Token::Fn,
            Token::Return,
            Token::If,
            Token::Else,
            Token::While,
            Token::For,
            Token::Print,
            Token::Main,
            Token::Import,
            Token::Try,
            Token::Catch,
            Token::EOF
        ]
    );
}

#[test]
fn true_and_false_are_boolean_literals() {
    assert_eq!(tokens("true false"), vec![Token::Bool(true), Token::Bool(false), Token::EOF]);
}

#[test]
fn identifiers_hold_letters_digits_and_underscores() {
    assert_eq!(
        tokens("_a x1 letter __array_assign"),
        vec![ident("_a"), ident("x1"), ident("letter"), ident("__array_assign"), Token::EOF]
    );
}

#[test]
fn an_identifier_goes_on_over_letters_of_any_script() {
    assert_eq!(tokens("caf\u{e9}9"), vec![ident("caf\u{e9}9"), Token::EOF]);
}

#[test]
fn a_letter_outside_ascii_starts_no_identifier() {
    let mut lexer = Lexer::new("\u{e9}a");
    assert_eq!(
        lexer.tokenize(),
        Err(LexError::UnexpectedCharacter { ch: '\u{e9}', line: 1, column: 1 })
    );
}

#[test]
fn white_space_of_any_kind_is_skipped() {
    assert_eq!(
        tokens("1\t2\r\n3\u{a0}4\u{2003}5"),
        vec![
            Token::Number(1),
            Token::Number(2),
            Token::Number(3),
            Token::Number(4),
            Token::Number(5),
            Token::EOF
        ]
    );
}

#[test]
fn integer_literals_hold_their_value() {
    assert_eq!(
        tokens("0 7 9223372036854775807"),
        vec![Token::Number(0), Token::Number(7), Token::Number(i64::MAX), Token::EOF]
    );
}

#[test]
fn an_integer_literal_that_does_not_fit_is_zero() {
    assert_eq!(tokens("9223372036854775808"), vec![Token::Number(0), Token::EOF]);
    assert_eq!(tokens("99999999999999999999999"), vec![Token::Number(0), Token::EOF]);
}

#[test]
fn a_floating_point_literal_keeps_its_text() {
    assert_eq!(tokens("3.14"), vec![Token::Float("3.14".to_string()), Token::EOF]);
    assert_eq!(tokens("0.0"), vec![Token::Float("0.0".to_string()), Token::EOF]);
}

#[test]
fn a_dot_without_a_digit_after_it_is_no_part_of_a_number() {
    assert_eq!(tokens("1."), vec![Token::Number(1), Token::Dot, Token::EOF]);
    assert_eq!(tokens("1.x"), vec![Token::Number(1), Token::Dot, ident("x"), Token::EOF]);
}

#[test]
fn a_second_dot_ends_a_number() {
    assert_eq!(
        tokens("1.2.3"),
        vec![Token::Float("1.2".to_string()), Token::Dot, Token::Number(3), Token::EOF]
    );
}

#[test]
fn a_string_literal_holds_its_content() {
    assert_eq!(tokens("\"hello\""), vec![Token::String("hello".to_string()), Token::EOF]);
    assert_eq!(tokens("\"\""), vec![Token::String(String::new()), Token::EOF]);
}

#[test]
fn escape_sequences_stand_for_their_characters() {
    assert_eq!(
        tokens(r#""a\nb\rc\td\\e\"f""#),
        vec![Token::String("a\nb\rc\td\\e\"f".to_string()), Token::EOF]
    );
}

#[test]
fn any_other_escape_is_an_error() {
    let mut lexer = Lexer::new(r#""a\qb""#);
    assert_eq!(lexer.tokenize(), Err(LexError::InvalidEscape { ch: 'q', line: 1, column: 5 }));
}

#[test]
fn a_string_without_its_closing_quote_is_an_error() {
    let mut lexer = Lexer::new("\"abc");
    assert_eq!(lexer.tokenize(), Err(LexError::UnterminatedString { line: 1 }));
    let mut lexer = Lexer::new("\"a\nb\nc");
    assert_eq!(lexer.tokenize(), Err(LexError::UnterminatedString { line: 3 }));
}

#[test]
fn a_string_may_span_lines() {
    let mut lexer = Lexer::new("\"a\nb\" x");
    assert_eq!(
        lexer.tokenize(),
        Ok(vec![Token::String("a\nb".to_string()), ident("x"), Token::EOF])
    );
    assert_eq!(lexer.get_position(), (2, 5));
}

#[test]
fn a_line_comment_ends_at_the_line_feed() {
    assert_eq!(
        tokens("1 // two three\n4"),
        vec![Token::Number(1), Token::Number(4), Token::EOF]
    );
    assert_eq!(tokens("// only a comment"), vec![Token::EOF]);
}

#[test]
fn block_comments_nest() {
    assert_eq!(
        tokens("1 /* a /* b */ c */ 2"),
        vec![Token::Number(1), Token::Number(2), Token::EOF]
    );
}

#[test]
fn a_block_comment_left_open_is_an_error() {
    let mut lexer = Lexer::new("1 /* a /* b */ c");
    assert_eq!(lexer.tokenize(), Err(LexError::UnterminatedComment));
    let mut lexer = Lexer::new("/*");
    assert_eq!(lexer.tokenize(), Err(LexError::UnterminatedComment));
}

#[test]
fn a_slash_alone_is_division() {
    assert_eq!(
        tokens("6 / 2"),
        vec![Token::Number(6), Token::Slash, Token::Number(2), Token::EOF]
    );
}

#[test]
fn a_new_lexer_stands_at_line_one_column_one() {
    let lexer = Lexer::new("abc");
    assert_eq!(lexer.get_position(), (1, 1));
}

#[test]
fn the_position_follows_lines_and_columns() {
    let mut lexer = Lexer::new("let x\n  = 10;");
    lexer.tokenize().expect("tokens");
    assert_eq!(lexer.get_position(), (2, 8));
}

#[test]
fn a_line_comment_does_not_move_the_column() {
    let mut lexer = Lexer::new("ab // c");
    lexer.tokenize().expect("tokens");
    assert_eq!(lexer.get_position(), (1, 4));
}

#[test]
fn peeking_does_not_move() {
    let lexer = Lexer::new("ab");
    assert_eq!(lexer.peek_char(), Some('a'));
    assert_eq!(lexer.peek_char(), Some('a'));
    assert_eq!(lexer.peek_char_at(0), Some('a'));
    assert_eq!(lexer.peek_char_at(1), Some('b'));
    assert_eq!(lexer.peek_char_at(2), None);
    assert_eq!(lexer.peek_char_at(usize::MAX), None);
}

#[test]
fn consuming_steps_over_one_character() {
    let mut lexer = Lexer::new("a\u{e9}b");
    lexer.consume_char();
    assert_eq!(lexer.peek_char(), Some('\u{e9}'));
    lexer.consume_char();
    assert_eq!(lexer.peek_char(), Some('b'));
    lexer.consume_char();
    assert_eq!(lexer.peek_char(), None);
    lexer.consume_char();
    assert_eq!(lexer.peek_char(), None);
    assert_eq!(lexer.get_position(), (1, 1));
}

#[test]
fn tokenizing_again_gives_only_the_end_marker() {
    let mut lexer = Lexer::new("x y");
    lexer.tokenize().expect("tokens");
    assert_eq!(lexer.tokenize(), Ok(vec![Token::EOF]));
}

#[test]
fn tokens_of_one_kind_are_told_by_their_kind() {
    assert!(Token::Number(1).same_kind(&Token::Number(2)));
    assert!(ident("a").same_kind(&ident("b")));
    assert!(!Token::Number(1).same_kind(&Token::Float("1.0".to_string())));
    assert!(!Token::Let.same_kind(&Token::Fn));
    assert_eq!(Token::Number(0).kind(), 0);
    assert_eq!(Token::EOF.kind(), 41);
}

#[test]
fn error_positions_inside_the_tokens_are_line_one_column_one() {
    let all = tokens("let x = 1;");
    assert_eq!(Lexer::get_position_for_error(&all, 0, "let x = 1;"), (1, 1));
    assert_eq!(Lexer::get_position_for_error(&all, all.len() - 1, "let x = 1;"), (1, 1));
}

#[test]
fn error_positions_past_the_tokens_are_the_end_of_the_text() {
    let source = "let x = 1;\nlet y";
    let all = tokens(source);
    assert_eq!(Lexer::get_position_for_error(&all, all.len(), source), (2, 6));
    assert_eq!(Lexer::get_position_for_error(&all, all.len() + 5, source), (2, 6));
}

#[test]
fn the_end_of_an_empty_text_is_line_zero_column_zero() {
    assert_eq!(Lexer::get_position_for_error(&[], 0, ""), (0, 0));
}

#[test]
fn a_final_line_feed_opens_no_line() {
    assert_eq!(Lexer::get_position_for_error(&[], 0, "ab\ncd\n"), (2, 3));
    assert_eq!(Lexer::get_position_for_error(&[], 0, "ab\r\ncde"), (2, 4));
}
