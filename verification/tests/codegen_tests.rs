use kode::codegen::{lower, Emit, LoweringError};
use kode::parser::Parser;

fn plan(source: &str) -> Result<Vec<String>, LoweringError> {
    let mut parser = Parser::new("program.kode", source).expect("tokens");
    let program = parser.parse().expect("syntax");
    lower(&program).map(|emits| {
        emits
            .iter()
            .map(|e| match e {
                Emit::Text(s) => format!("text {}", s),
                Emit::Integer(n) => format!("integer {}", n),
            })
            .collect()
    })
}

fn lines(expected: &[&str]) -> Vec<String> {
    expected.iter().map(|s| s.to_string()).collect()
}

#[test]
fn the_prints_of_main_are_lowered() {
    assert_eq!(
        plan(r#"fn main(){ print "hello"; print 42; }"#),
        Ok(lines(&["text hello", "integer 42"]))
    );
}

#[test]
fn the_prints_of_app_are_lowered() {
    assert_eq!(plan(r#"fn app(){ print 1; }"#), Ok(lines(&["integer 1"])));
}

#[test]
fn both_entry_points_are_lowered_in_order() {
    assert_eq!(
        plan(r#"fn app(){ print 1; } fn other(){ print 2; } fn main(){ print 3; }"#),
        Ok(lines(&["integer 1", "integer 3"]))
    );
}

#[test]
fn every_other_statement_is_passed_over() {
    assert_eq!(
        plan(r#"print 0; let x = 1; fn main(){ let y = 2; if (true) { print 5; } { print 6; } fn app(){ print 7; } print "end"; } print x;"#),
        Ok(lines(&["text end"]))
    );
}

#[test]
fn a_program_without_an_entry_point_writes_nothing() {
    assert_eq!(plan("fn helper(){ print 1; }"), Ok(lines(&[])));
    assert_eq!(plan(""), Ok(lines(&[])));
}

#[test]
fn a_print_of_anything_but_a_literal_cannot_be_lowered() {
    assert_eq!(plan("fn main(){ print 1; print 1 + 2; }"), Err(LoweringError::UnsupportedPrint));
    assert_eq!(plan("fn main(){ print x; }"), Err(LoweringError::UnsupportedPrint));
    assert_eq!(plan("fn main(){ print true; }"), Err(LoweringError::UnsupportedPrint));
    assert_eq!(plan("fn main(){ print 1.5; }"), Err(LoweringError::UnsupportedPrint));
    assert_eq!(plan("fn helper(){ print x; }"), Ok(lines(&[])));
}
