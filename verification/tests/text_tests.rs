use kode::lexer::LexError;
use kode::text::{
    char_is_ascii_letter, char_is_digit, chars_of, is_word, parse_integer_literal, push_int_text,
    push_nat_text, push_text, range_spells, string_of, string_of_range,
};

#[test]
fn digits_are_the_ten_ascii_digits() {
    assert!(char_is_digit('0'));
    assert!(char_is_digit('9'));
    assert!(!char_is_digit('a'));
    assert!(!char_is_digit('\u{660}'));
}

#[test]
fn ascii_letters_are_the_two_alphabets() {
    assert!(char_is_ascii_letter('a'));
    assert!(char_is_ascii_letter('Z'));
    assert!(!char_is_ascii_letter('_'));
    assert!(!char_is_ascii_letter('\u{e9}'));
}

#[test]
fn characters_and_strings_convert_both_ways() {
    let chars = chars_of("h\u{e9}llo");
    assert_eq!(chars, vec!['h', '\u{e9}', 'l', 'l', 'o']);
    assert_eq!(string_of(&chars), "h\u{e9}llo");
    assert_eq!(string_of_range(&chars, 1, 3), "\u{e9}l");
    assert_eq!(string_of_range(&chars, 2, 2), "");
}

#[test]
fn a_range_spells_a_word_or_does_not() {
    let chars = chars_of("let letter");
    assert!(range_spells(&chars, 0, 3, "let"));
    assert!(range_spells(&chars, 4, 7, "let"));
    assert!(!range_spells(&chars, 4, 10, "let"));
    assert!(!range_spells(&chars, 0, 3, "lex"));
}

#[test]
fn a_string_is_a_word_or_is_not() {
    assert!(is_word(&"app".to_string(), "app"));
    assert!(!is_word(&"apple".to_string(), "app"));
    assert!(!is_word(&"ap".to_string(), "app"));
    assert!(is_word(&String::new(), ""));
}

#[test]
fn integer_literals_are_read_in_decimal() {
    let chars = chars_of("x120y");
    assert_eq!(parse_integer_literal(&chars, 1, 4), 120);
    assert_eq!(parse_integer_literal(&chars, 1, 1), 0);
    let big = chars_of("9223372036854775807");
    assert_eq!(parse_integer_literal(&big, 0, big.len()), i64::MAX);
    let too_big = chars_of("9223372036854775808");
    assert_eq!(parse_integer_literal(&too_big, 0, too_big.len()), 0);
    let zeros = chars_of("0007");
    assert_eq!(parse_integer_literal(&zeros, 0, 4), 7);
}

#[test]
fn numerals_are_written_in_decimal() {
    let mut out = String::from("n=");
    push_nat_text(&mut out, 0);
    push_text(&mut out, ",");
    push_nat_text(&mut out, 907);
    push_text(&mut out, ",");
    push_nat_text(&mut out, u64::MAX);
    assert_eq!(out, "n=0,907,18446744073709551615");
}

#[test]
fn negative_numerals_have_a_minus_sign() {
    let mut out = String::new();
    push_int_text(&mut out, -15);
    push_text(&mut out, " ");
    push_int_text(&mut out, i64::MIN);
    push_text(&mut out, " ");
    push_int_text(&mut out, i64::MAX);
    push_text(&mut out, " ");
    push_int_text(&mut out, 0);
    assert_eq!(out, "-15 -9223372036854775808 9223372036854775807 0");
}

#[test]
fn lexical_errors_have_texts() {
    assert_eq!(LexError::UnterminatedComment.message(), "Unterminated block comment");
    assert_eq!(
        LexError::UnterminatedString { line: 3 }.message(),
        "Unterminated string literal starting at line 3"
    );
    assert_eq!(
        LexError::InvalidEscape { ch: 'q', line: 1, column: 5 }.message(),
        "Invalid escape sequence '\\q' at line 1, column 5"
    );
    assert_eq!(
        LexError::UnexpectedCharacter { ch: '&', line: 2, column: 10 }.message(),
        "Unexpected character '&' at line 2, column 10"
    );
}
