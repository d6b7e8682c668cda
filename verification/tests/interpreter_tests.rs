use kode::fault::{Fault, Frame, Mismatch, RuntimeError, RuntimeErrorKind, ValueKind};
use kode::import::{ImportError, ModuleSource, SourceContent};
use kode::interpreter::Interpreter;
use kode::parser::Parser;
use kode::program::RunError;
use kode::ast::{BinaryOp, UnaryOp};

struct Ran {
    result: Result<(), RunError>,
    output: Vec<String>,
}

fn run_with(source: &str, modules: &[(&str, &str)]) -> Ran {
    let mut parser = Parser::new("program.kode", source).expect("tokens");
    let program = parser.parse().expect("syntax");
    let mut interpreter = Interpreter::new();
    for (name, text) in modules {
        interpreter.add_source(ModuleSource {
            name: name.to_string(),
            path: format!("./{}.kode", name),
            content: SourceContent::Text(text.to_string()),
        });
    }
    let result = interpreter.run(program);
    Ran { result, output: interpreter.output().clone() }
}

fn run(source: &str) -> Ran {
    run_with(source, &[])
}

fn prints(source: &str) -> Vec<String> {
    let ran = run(source);
    match ran.result {
        Ok(()) => ran.output,
        Err(e) => panic!("failed: {:?}", e),
    }
}

fn lines(expected: &[&str]) -> Vec<String> {
    expected.iter().map(|s| s.to_string()).collect()
}

fn error_of(source: &str) -> RuntimeError {
    match run(source).result {
        Err(RunError::Fault(Fault::Runtime(e))) => e,
        other => panic!("no runtime error: {:?}", other),
    }
}

fn kind_of(source: &str) -> RuntimeErrorKind {
    error_of(source).kind
}

#[test]
fn prints_an_array_element() {
    assert_eq!(prints("fn main(){ let a = [1,2,3]; print a[1]; }"), lines(&["2"]));
}

#[test]
fn integer_arithmetic_is_machine_arithmetic() {
    assert_eq!(
        prints("fn main(){ print 1 + 2 * 3; print 7 / 2; print 7 % 3; print 2 - 5; }"),
        lines(&["7", "3", "1", "-3"])
    );
}

#[test]
fn division_rounds_towards_zero() {
    assert_eq!(
        prints("fn main(){ print (0 - 7) / 2; print (0 - 7) % 2; print 7 / (0 - 2); print 7 % (0 - 2); }"),
        lines(&["-3", "-1", "-3", "1"])
    );
}

#[test]
fn sums_and_products_wrap_around() {
    assert_eq!(
        prints("fn main(){ print 9223372036854775807 + 1; print 9223372036854775807 * 2; print 0 - 9223372036854775807 - 2; }"),
        lines(&["-9223372036854775808", "-2", "9223372036854775807"])
    );
}

#[test]
fn the_one_quotient_that_does_not_fit_wraps_around() {
    assert_eq!(
        prints("fn main(){ let m = 0 - 9223372036854775807 - 1; print m / (0 - 1); print m % (0 - 1); print -m; }"),
        lines(&["-9223372036854775808", "0", "-9223372036854775808"])
    );
}

#[test]
fn division_by_zero_is_an_error_of_the_program() {
    assert_eq!(
        error_of("fn main(){ print 1 / 0; }"),
        RuntimeError {
            kind: RuntimeErrorKind::DivisionOrModuloByZero { modulo: false },
            frames: vec![Frame { function: Some("main".to_string()), statement: 1 }],
        }
    );
    assert_eq!(
        kind_of("fn main(){ print 1 % 0; }"),
        RuntimeErrorKind::DivisionOrModuloByZero { modulo: true }
    );
}

#[test]
fn comparisons_of_integers_give_booleans() {
    assert_eq!(
        prints("fn main(){ print 1 < 2; print 2 <= 2; print 1 > 2; print 2 >= 3; print 1 == 1; print 1 != 1; }"),
        lines(&["true", "true", "false", "false", "true", "false"])
    );
}

#[test]
fn booleans_have_and_or_and_equality() {
    assert_eq!(
        prints("fn main(){ print true && false; print true || false; print true == true; print true != true; print !true; }"),
        lines(&["false", "true", "true", "false", "false"])
    );
}

#[test]
fn strings_join_and_compare() {
    assert_eq!(
        prints(r#"fn main(){ print "a" + "b"; print "a" == "a"; print "a" != "a"; print "n=" + 12; print 12 + "!"; print "" + (0 - 3); }"#),
        lines(&["ab", "true", "false", "n=12", "12!", "-3"])
    );
}

#[test]
fn operands_of_the_wrong_kinds_are_a_type_mismatch() {
    assert_eq!(
        kind_of("fn main(){ print 1 + true; }"),
        RuntimeErrorKind::TypeMismatch(Mismatch::Binary {
            op: BinaryOp::Add,
            left: ValueKind::Number,
            right: ValueKind::Bool
        })
    );
    assert_eq!(
        kind_of("fn main(){ print 1 && 2; }"),
        RuntimeErrorKind::TypeMismatch(Mismatch::Binary {
            op: BinaryOp::And,
            left: ValueKind::Number,
            right: ValueKind::Number
        })
    );
    assert_eq!(
        kind_of(r#"fn main(){ print "a" - "b"; }"#),
        RuntimeErrorKind::TypeMismatch(Mismatch::Binary {
            op: BinaryOp::Subtract,
            left: ValueKind::String,
            right: ValueKind::String
        })
    );
    assert_eq!(
        kind_of(r#"fn main(){ print "a" * 2; }"#),
        RuntimeErrorKind::TypeMismatch(Mismatch::Binary {
            op: BinaryOp::Multiply,
            left: ValueKind::String,
            right: ValueKind::Number
        })
    );
    assert_eq!(
        kind_of("fn main(){ print true < false; }"),
        RuntimeErrorKind::TypeMismatch(Mismatch::Binary {
            op: BinaryOp::LessThan,
            left: ValueKind::Bool,
            right: ValueKind::Bool
        })
    );
    assert_eq!(
        kind_of("fn main(){ print [1] == [1]; }"),
        RuntimeErrorKind::TypeMismatch(Mismatch::Binary {
            op: BinaryOp::Equal,
            left: ValueKind::Array,
            right: ValueKind::Array
        })
    );
}

#[test]
fn unary_operators_want_their_kind() {
    assert_eq!(prints("fn main(){ print -5; print -(0 - 5); }"), lines(&["-5", "5"]));
    assert_eq!(
        kind_of("fn main(){ print !1; }"),
        RuntimeErrorKind::TypeMismatch(Mismatch::Unary { op: UnaryOp::Not, operand: ValueKind::Number })
    );
    assert_eq!(
        kind_of("fn main(){ print -true; }"),
        RuntimeErrorKind::TypeMismatch(Mismatch::Unary { op: UnaryOp::Negate, operand: ValueKind::Bool })
    );
}

#[test]
fn values_are_written_as_print_writes_them() {
    assert_eq!(
        prints(r#"fn f(){ } fn main(){ print [1, "a", true, [2, 3], []]; print fn(){ }; print f(); print [f(), fn(){ }]; }"#),
        lines(&["[1, a, true, [2, 3], []]", "<function>", "void", "[void, <function>]"])
    );
}

#[test]
fn a_variable_declared_in_a_block_ends_with_the_block() {
    assert_eq!(
        kind_of("fn main(){ { let y = 1; } print y; }"),
        RuntimeErrorKind::UndefinedVariable("y".to_string())
    );
}

#[test]
fn a_variable_declared_by_a_for_loop_ends_with_the_loop() {
    assert_eq!(
        kind_of("fn main(){ for (let i = 0; i < 2; i = i + 1) { let inner = i; } print i; }"),
        RuntimeErrorKind::UndefinedVariable("i".to_string())
    );
    assert_eq!(
        kind_of("fn main(){ for (let i = 0; i < 2; i = i + 1) { let inner = i; } print inner; }"),
        RuntimeErrorKind::UndefinedVariable("inner".to_string())
    );
}

#[test]
fn shadowing_leaves_the_outer_binding_alone() {
    assert_eq!(
        prints("fn main(){ let x = 1; { let x = 2; print x; } print x; }"),
        lines(&["2", "1"])
    );
}

#[test]
fn an_assignment_in_a_block_reaches_the_outer_binding() {
    assert_eq!(
        prints("fn main(){ let x = 1; { x = 2; } print x; }"),
        lines(&["2"])
    );
}

#[test]
fn the_branches_of_an_if_open_no_scope() {
    assert_eq!(
        prints("fn main(){ if (true) { let x = 1; } print x; }"),
        lines(&["1"])
    );
}

#[test]
fn a_closure_sees_the_variables_as_they_were_when_it_was_made() {
    assert_eq!(
        prints("fn main(){ let x = 1; let c = fn(){ return x; }; x = 2; let a = [c]; print a[0](); print x; }"),
        lines(&["1", "2"])
    );
}

#[test]
fn what_a_closure_assigns_never_reaches_the_caller() {
    assert_eq!(
        prints("fn main(){ let x = 1; let a = [fn(){ x = 5; return x; }]; print a[0](); print x; }"),
        lines(&["5", "1"])
    );
}

#[test]
fn a_closure_takes_arguments() {
    assert_eq!(
        prints("fn main(){ let a = [fn(p, q){ return p * q; }]; print a[0](6, 7); }"),
        lines(&["42"])
    );
}

#[test]
fn a_name_in_call_position_is_never_a_variable() {
    assert_eq!(
        error_of("fn main(){ let f = fn(){ return 1; }; f(); }"),
        RuntimeError {
            kind: RuntimeErrorKind::UndefinedFunction("f".to_string()),
            frames: vec![Frame { function: Some("main".to_string()), statement: 2 }],
        }
    );
}

#[test]
fn a_closure_in_an_array_can_be_called() {
    assert_eq!(
        prints("fn main(){ let f = fn(){ return 1; }; let arr = [f]; print arr[0](); }"),
        lines(&["1"])
    );
}

#[test]
fn calling_what_is_no_closure_is_a_type_mismatch() {
    assert_eq!(
        kind_of("fn main(){ let a = [1]; a[0](); }"),
        RuntimeErrorKind::TypeMismatch(Mismatch::NotCallable { found: ValueKind::Number })
    );
}

#[test]
fn a_loop_that_never_ends_is_stopped_after_100000_rounds() {
    assert_eq!(
        prints("fn main(){ let n = 0; try { while (true) { n = n + 1; } } catch { print n; } }"),
        lines(&["100000"])
    );
    assert_eq!(
        error_of("fn main(){ while (true) { } }"),
        RuntimeError {
            kind: RuntimeErrorKind::InfiniteLoopSuspected,
            frames: vec![Frame { function: Some("main".to_string()), statement: 1 }],
        }
    );
}

#[test]
fn a_loop_of_100000_rounds_ends_well() {
    assert_eq!(
        prints("fn main(){ let n = 0; while (n < 100000) { n = n + 1; } print n; }"),
        lines(&["100000"])
    );
}

#[test]
fn a_for_loop_that_never_ends_is_stopped_too() {
    assert_eq!(
        prints("fn main(){ let n = 0; try { for (; true; n = n + 1) { } } catch { print n; } }"),
        lines(&["100000"])
    );
}

#[test]
fn a_for_loop_counts() {
    assert_eq!(
        prints("fn main(){ for (let i = 0; i < 3; i = i + 1) { print i; } }"),
        lines(&["0", "1", "2"])
    );
}

#[test]
fn a_for_loop_without_a_condition_runs_once() {
    assert_eq!(
        prints("fn main(){ let n = 0; for (;; n = n + 10) { n = n + 1; } print n; }"),
        lines(&["11"])
    );
}

#[test]
fn a_while_loop_ends_when_its_condition_is_not_true() {
    assert_eq!(
        prints("fn main(){ let n = 3; while (n > 0) { n = n - 1; } print n; while (7) { print 1; } }"),
        lines(&["0"])
    );
}

#[test]
fn the_condition_of_an_if_must_be_a_boolean() {
    assert_eq!(
        kind_of("fn main(){ if (1) { print 1; } }"),
        RuntimeErrorKind::TypeMismatch(Mismatch::Condition { found: ValueKind::Number })
    );
    assert_eq!(
        prints("fn main(){ if (1 < 2) { print 1; } else { print 2; } if (1 > 2) { print 3; } else if (true) { print 4; } if (false) { print 5; } }"),
        lines(&["1", "4"])
    );
}

#[test]
fn a_caught_error_lets_the_program_go_on() {
    assert_eq!(
        prints(r#"fn main(){ try { print 1; print 1 / 0; print 2; } catch { print "caught"; } print "after"; }"#),
        lines(&["1", "caught", "after"])
    );
}

#[test]
fn a_try_without_an_error_skips_its_catch() {
    assert_eq!(
        prints(r#"fn main(){ try { print 1; } catch { print "caught"; } }"#),
        lines(&["1"])
    );
}

#[test]
fn an_error_in_a_catch_is_an_error() {
    assert_eq!(
        kind_of("fn main(){ try { print 1 / 0; } catch { print nothing; } }"),
        RuntimeErrorKind::UndefinedVariable("nothing".to_string())
    );
}

#[test]
fn an_error_caught_outside_a_block_has_left_the_block() {
    assert_eq!(
        kind_of("fn main(){ try { { let z = 1; print 1 / 0; } } catch { } print z; }"),
        RuntimeErrorKind::UndefinedVariable("z".to_string())
    );
    assert_eq!(
        prints("fn main(){ let z = 0; try { { let z = 1; print 1 / 0; } } catch { } let w = 2; print z; print w; }"),
        lines(&["0", "2"])
    );
}

#[test]
fn any_runtime_error_can_be_caught() {
    assert_eq!(
        prints(
            r#"fn f(a){ return a; } fn main(){
                try { print nothing; } catch { print 1; }
                try { nothing(); } catch { print 2; }
                try { f(); } catch { print 3; }
                try { print 1 + true; } catch { print 4; }
                try { let a = [1]; print a[3]; } catch { print 5; }
                try { nothing = 1; } catch { print 6; }
                try { while (true) { } } catch { print 7; }
            }"#
        ),
        lines(&["1", "2", "3", "4", "5", "6", "7"])
    );
}

#[test]
fn a_return_in_a_try_or_a_catch_leaves_the_function() {
    assert_eq!(
        prints("fn f(){ try { return 1; } catch { return 2; } return 3; } fn g(){ try { print 1 / 0; } catch { return 2; } return 3; } fn main(){ print f(); print g(); }"),
        lines(&["1", "2"])
    );
}

#[test]
fn an_index_out_of_bounds_names_the_index_and_the_length() {
    assert_eq!(
        kind_of("fn main(){ let a = [1,2,3]; print a[3]; }"),
        RuntimeErrorKind::NegativeOrOutOfBoundsIndex { container: ValueKind::Array, index: 3, length: 3 }
    );
    assert_eq!(
        kind_of("fn main(){ let a = [1,2,3]; print a[0 - 1]; }"),
        RuntimeErrorKind::NegativeOrOutOfBoundsIndex { container: ValueKind::Array, index: -1, length: 3 }
    );
    assert_eq!(
        prints("fn main(){ let a = [1,2,3]; print a[0]; print a[2]; }"),
        lines(&["1", "3"])
    );
}

#[test]
fn a_string_is_indexed_by_characters() {
    assert_eq!(
        prints("fn main(){ let s = \"h\u{e9}llo\"; print s[1]; print s[4]; print s[0] + s[0]; }"),
        lines(&["\u{e9}", "o", "hh"])
    );
    assert_eq!(
        kind_of(r#"fn main(){ let s = "abc"; print s[3]; }"#),
        RuntimeErrorKind::NegativeOrOutOfBoundsIndex { container: ValueKind::String, index: 3, length: 3 }
    );
    assert_eq!(
        kind_of(r#"fn main(){ let s = "abc"; print s[0 - 2]; }"#),
        RuntimeErrorKind::NegativeOrOutOfBoundsIndex { container: ValueKind::String, index: -2, length: 3 }
    );
}

#[test]
fn only_arrays_and_strings_are_indexed_and_only_by_integers() {
    assert_eq!(
        kind_of("fn main(){ print 5[0]; }"),
        RuntimeErrorKind::TypeMismatch(Mismatch::NotIndexable { container: ValueKind::Number, index: ValueKind::Number })
    );
    assert_eq!(
        kind_of("fn main(){ let a = [1]; print a[true]; }"),
        RuntimeErrorKind::TypeMismatch(Mismatch::NotIndexable { container: ValueKind::Array, index: ValueKind::Bool })
    );
}

#[test]
fn an_element_of_an_array_can_be_assigned() {
    assert_eq!(
        prints("fn main(){ let a = [1,2,3]; a[1] = 9; print a; print (a[0] = 7); print a; }"),
        lines(&["[1, 9, 3]", "7", "[7, 9, 3]"])
    );
}

#[test]
fn an_element_outside_the_array_cannot_be_assigned() {
    assert_eq!(
        kind_of("fn main(){ let a = [1,2,3]; a[3] = 9; }"),
        RuntimeErrorKind::NegativeOrOutOfBoundsIndex { container: ValueKind::Array, index: 3, length: 3 }
    );
    assert_eq!(
        kind_of("fn main(){ let a = 5; a[0] = 9; }"),
        RuntimeErrorKind::TypeMismatch(Mismatch::NotIndexable { container: ValueKind::Number, index: ValueKind::Number })
    );
}

#[test]
fn an_element_of_what_is_no_variable_cannot_be_assigned() {
    assert_eq!(
        kind_of("fn f(){ return [1]; } fn main(){ f()[0] = 9; }"),
        RuntimeErrorKind::InvalidAssignmentTarget(None)
    );
    assert_eq!(
        kind_of("fn main(){ nothing[0] = 9; }"),
        RuntimeErrorKind::InvalidAssignmentTarget(Some("nothing".to_string()))
    );
}

#[test]
fn an_assignment_needs_a_variable_that_exists() {
    assert_eq!(
        kind_of("fn main(){ x = 1; }"),
        RuntimeErrorKind::InvalidAssignmentTarget(Some("x".to_string()))
    );
    assert_eq!(
        kind_of("fn main(){ print (x = 1); }"),
        RuntimeErrorKind::InvalidAssignmentTarget(Some("x".to_string()))
    );
}

#[test]
fn an_assignment_inside_an_expression_assigns() {
    assert_eq!(
        prints("fn main(){ let x = 0; let y = 0; y = x = 5; print x; print y; print (x = 7) + 1; print x; }"),
        lines(&["5", "5", "8", "7"])
    );
}

#[test]
fn functions_call_each_other_and_themselves() {
    assert_eq!(
        prints("fn fact(n){ if (n <= 1) { return 1; } return n * fact(n - 1); } fn main(){ print fact(10); }"),
        lines(&["3628800"])
    );
}

#[test]
fn a_function_without_a_return_gives_void() {
    assert_eq!(prints("fn f(){ let x = 1; } fn main(){ print f(); }"), lines(&["void"]));
}

#[test]
fn the_first_return_ends_the_body() {
    assert_eq!(
        prints("fn f(){ while (true) { for (;;) { { if (true) { return 4; } } } } print 0; return 5; } fn main(){ print f(); }"),
        lines(&["4"])
    );
}

#[test]
fn a_function_sees_the_variables_of_its_caller() {
    assert_eq!(
        prints("fn show(){ print x; x = x + 1; } fn main(){ let x = 5; show(); print x; }"),
        lines(&["5", "6"])
    );
}

#[test]
fn a_parameter_ends_with_the_call() {
    assert_eq!(
        kind_of("fn f(p){ return p; } fn main(){ print f(1); print p; }"),
        RuntimeErrorKind::UndefinedVariable("p".to_string())
    );
}

#[test]
fn a_later_definition_replaces_an_earlier_one() {
    assert_eq!(
        prints("fn f(){ return 1; } fn f(){ return 2; } fn main(){ print f(); }"),
        lines(&["2"])
    );
}

#[test]
fn the_number_of_arguments_must_be_the_number_of_parameters() {
    assert_eq!(
        kind_of("fn f(a, b){ return a; } fn main(){ f(1); }"),
        RuntimeErrorKind::ArityMismatch { function: Some("f".to_string()), expected: 2, found: 1 }
    );
    assert_eq!(
        kind_of("fn main(){ let a = [fn(p){ return p; }]; a[0](); }"),
        RuntimeErrorKind::ArityMismatch { function: None, expected: 1, found: 0 }
    );
}

#[test]
fn an_error_names_the_calls_that_it_passed_through() {
    let e = error_of("fn g(){ let a = 1; print 1 / 0; } fn f(){ g(); } fn main(){ print 0; f(); }");
    assert_eq!(
        e.frames,
        vec![
            Frame { function: Some("g".to_string()), statement: 2 },
            Frame { function: Some("f".to_string()), statement: 1 },
            Frame { function: Some("main".to_string()), statement: 2 },
        ]
    );
    assert_eq!(
        e.message(),
        "In function 'main', statement #2: In function 'f', statement #1: In function 'g', statement #2: Division by zero"
    );
}

#[test]
fn an_error_in_a_closure_names_the_closure() {
    let e = error_of("fn main(){ let a = [fn(){ print 1; print nothing; }]; a[0](); }");
    assert_eq!(
        e.message(),
        "In function 'main', statement #2: In closure, statement #2: Undefined variable 'nothing'"
    );
}

#[test]
fn runtime_errors_have_texts() {
    let text = |source: &str| error_of(source).message();
    assert_eq!(text("fn main(){ f(); }"), "In function 'main', statement #1: Undefined function 'f'");
    assert_eq!(
        text("fn f(a){ } fn main(){ f(); }"),
        "In function 'main', statement #1: Function 'f' expects 1 args, got 0"
    );
    assert_eq!(
        text("fn main(){ print 1 % 0; }"),
        "In function 'main', statement #1: Modulo by zero"
    );
    assert_eq!(
        text("fn main(){ let a = [1,2,3]; print a[3]; }"),
        "In function 'main', statement #2: Array index out of bounds: 3 (array length: 3)"
    );
    assert_eq!(
        text("fn main(){ let a = [1,2,3]; print a[0 - 1]; }"),
        "In function 'main', statement #2: Array index cannot be negative: -1"
    );
    assert_eq!(
        text(r#"fn main(){ print "ab"[5]; }"#),
        "In function 'main', statement #1: String index out of bounds: 5 (string length: 2)"
    );
    assert_eq!(
        text("fn main(){ x = 1; }"),
        "In function 'main', statement #1: Cannot assign to undefined variable 'x'"
    );
    assert_eq!(
        text("fn main(){ while (true) { } }"),
        "In function 'main', statement #1: Possible infinite loop detected: exceeded 100000 iterations"
    );
    assert_eq!(
        text("fn main(){ print 1 + true; }"),
        "In function 'main', statement #1: Unsupported operator '+' between number and boolean"
    );
    assert_eq!(
        text("fn main(){ print !1; }"),
        "In function 'main', statement #1: Unsupported unary operator '!' for number"
    );
    assert_eq!(
        error_of("let x = 1;").message(),
        "No entry point found. Either 'main' function or 'app' function is required."
    );
}

#[test]
fn calls_that_nest_too_deep_are_an_error() {
    let mut parser = Parser::new("p.kode", "fn f(n){ return f(n + 1); } fn main(){ f(0); }").expect("tokens");
    let program = parser.parse().expect("syntax");
    let mut interpreter = Interpreter::new();
    interpreter.set_call_depth(20);
    match interpreter.run(program) {
        Err(RunError::Fault(Fault::Runtime(e))) => {
            assert_eq!(e.kind, RuntimeErrorKind::RecursionLimitExceeded);
            assert_eq!(e.frames.len(), 20);
        },
        other => panic!("no runtime error: {:?}", other),
    }
}

#[test]
fn calls_may_nest_as_deep_as_is_allowed() {
    let source = "fn down(n){ if (n == 0) { return 0; } return 1 + down(n - 1); } fn main(){ print down(18); }";
    let mut parser = Parser::new("p.kode", source).expect("tokens");
    let program = parser.parse().expect("syntax");
    let mut interpreter = Interpreter::new();
    interpreter.set_call_depth(20);
    interpreter.run(program).expect("run");
    assert_eq!(interpreter.output().clone(), lines(&["18"]));
}

#[test]
fn with_no_depth_left_nothing_can_be_called() {
    let mut parser = Parser::new("p.kode", "fn main(){ print 1; }").expect("tokens");
    let program = parser.parse().expect("syntax");
    let mut interpreter = Interpreter::new();
    interpreter.set_call_depth(0);
    match interpreter.run(program) {
        Err(RunError::Fault(Fault::Runtime(e))) => {
            assert_eq!(e.kind, RuntimeErrorKind::RecursionLimitExceeded);
            assert!(e.frames.is_empty());
        },
        other => panic!("no runtime error: {:?}", other),
    }
}

#[test]
fn a_program_starts_at_main() {
    assert_eq!(
        prints(r#"fn app(){ print "app"; } fn main(){ print "main"; }"#),
        lines(&["main"])
    );
}

#[test]
fn without_main_a_program_starts_at_app() {
    assert_eq!(prints(r#"fn app(){ print "app"; }"#), lines(&["app"]));
}

#[test]
fn a_function_named_main_without_the_keyword_cannot_be_written() {
    assert_eq!(prints(r#"fn main(){ print "m"; } fn other(){ }"#), lines(&["m"]));
}

#[test]
fn without_an_entry_point_a_program_does_not_start() {
    let e = error_of("fn helper(){ } let x = 1; print x;");
    assert_eq!(e.kind, RuntimeErrorKind::NoEntryPoint);
    assert!(e.frames.is_empty());
}

#[test]
fn statements_of_the_top_level_are_not_run() {
    assert_eq!(prints("print 1; fn main(){ print 2; } print 3;"), lines(&["2"]));
}

#[test]
fn an_imported_function_is_called_by_its_bare_name() {
    let ran = run_with(
        "import math; fn main(){ print add(1, 2); }",
        &[("math", "fn add(a,b){ return a + b; }")],
    );
    assert!(ran.result.is_ok());
    assert_eq!(ran.output, lines(&["3"]));
}

#[test]
fn a_function_of_the_program_comes_before_an_imported_one() {
    let ran = run_with(
        "import math; fn add(a,b){ return 0; } fn main(){ print add(1, 2); }",
        &[("math", "fn add(a,b){ return a + b; }")],
    );
    assert_eq!(ran.output, lines(&["0"]));
    let ran = run_with(
        "fn add(a,b){ return 0; } import math; fn main(){ print add(1, 2); }",
        &[("math", "fn add(a,b){ return a + b; }")],
    );
    assert_eq!(ran.output, lines(&["0"]));
}

#[test]
fn of_two_imports_with_one_name_the_first_wins() {
    let modules = [("one", "fn pick(){ return 1; }"), ("two", "fn pick(){ return 2; }")];
    let ran = run_with("import one; import two; fn main(){ print pick(); }", &modules);
    assert_eq!(ran.output, lines(&["1"]));
    let ran = run_with("import two; import one; fn main(){ print pick(); }", &modules);
    assert_eq!(ran.output, lines(&["2"]));
}

#[test]
fn the_top_level_of_a_module_is_not_run() {
    let ran = run_with(
        "import m; fn main(){ print f(); }",
        &[("m", "print 1; let x = 2; fn f(){ return 3; } print 4;")],
    );
    assert!(ran.result.is_ok());
    assert_eq!(ran.output, lines(&["3"]));
}

#[test]
fn the_main_of_a_module_is_no_entry_point() {
    let ran = run_with("import m;", &[("m", "fn main(){ print 1; }")]);
    match ran.result {
        Err(RunError::Fault(Fault::Runtime(e))) => assert_eq!(e.kind, RuntimeErrorKind::NoEntryPoint),
        other => panic!("no runtime error: {:?}", other),
    }
}

#[test]
fn imports_of_a_module_are_not_followed() {
    let modules = [("outer", "import inner; fn o(){ return i(); }"), ("inner", "fn i(){ return 1; }")];
    let ran = run_with("import outer; fn main(){ print o(); }", &modules);
    match ran.result {
        Err(RunError::Fault(Fault::Runtime(e))) => {
            assert_eq!(e.kind, RuntimeErrorKind::UndefinedFunction("i".to_string()))
        },
        other => panic!("no runtime error: {:?}", other),
    }
}

#[test]
fn an_import_inside_a_function_does_nothing() {
    let ran = run_with("fn main(){ import m; print 1; }", &[]);
    assert!(ran.result.is_ok());
    assert_eq!(ran.output, lines(&["1"]));
}

#[test]
fn a_module_that_is_not_there_is_an_import_error() {
    match run("import nowhere; fn main(){ }").result {
        Err(RunError::Import(ImportError::NotFound { module, path })) => {
            assert_eq!(module, "nowhere");
            assert_eq!(path, "./nowhere.kode");
        },
        other => panic!("no import error: {:?}", other),
    }
}

fn run_with_source(content: SourceContent) -> Result<(), RunError> {
    let mut parser = Parser::new("p.kode", "import m; fn main(){ }").expect("tokens");
    let program = parser.parse().expect("syntax");
    let mut interpreter = Interpreter::new();
    interpreter.set_base_path("lib/");
    interpreter.add_source(ModuleSource {
        name: "m".to_string(),
        path: "lib/m.kode".to_string(),
        content,
    });
    interpreter.run(program)
}

#[test]
fn a_missing_file_is_an_import_error() {
    match run_with_source(SourceContent::Missing) {
        Err(RunError::Import(e)) => {
            assert_eq!(e.message(), "Module 'm' not found at path 'lib/m.kode'")
        },
        other => panic!("no import error: {:?}", other),
    }
}

#[test]
fn an_unreadable_file_is_an_import_error() {
    match run_with_source(SourceContent::Unreadable("permission denied".to_string())) {
        Err(RunError::Import(e)) => {
            assert_eq!(e.message(), "Error reading module 'm': permission denied")
        },
        other => panic!("no import error: {:?}", other),
    }
}

#[test]
fn a_module_that_does_not_tokenize_is_an_import_error() {
    match run_with_source(SourceContent::Text("fn f() { # }".to_string())) {
        Err(RunError::Import(e)) => assert_eq!(
            e.message(),
            "Parser error on module 'm': Unexpected character '#' at line 1, column 10"
        ),
        other => panic!("no import error: {:?}", other),
    }
}

#[test]
fn a_module_that_does_not_parse_is_an_import_error() {
    match run_with_source(SourceContent::Text("fn f( { }".to_string())) {
        Err(RunError::Import(e)) => assert_eq!(
            e.message(),
            "Parse error on module 'm': Expected parameter name at line 1, column 1"
        ),
        other => panic!("no import error: {:?}", other),
    }
}

#[test]
fn the_base_path_is_kept() {
    let mut interpreter = Interpreter::new();
    assert_eq!(interpreter.base_path(), ".");
    interpreter.set_base_path("scripts");
    assert_eq!(interpreter.base_path(), "scripts");
}

#[test]
fn running_twice_keeps_the_functions_and_the_output() {
    let mut interpreter = Interpreter::new();
    let mut parser = Parser::new("a.kode", "fn helper(){ return 7; } fn main(){ print 1; }").expect("tokens");
    interpreter.run(parser.parse().expect("syntax")).expect("run");
    let mut parser = Parser::new("b.kode", "fn main(){ print helper(); }").expect("tokens");
    interpreter.run(parser.parse().expect("syntax")).expect("run");
    assert_eq!(interpreter.output().clone(), lines(&["1", "7"]));
}

#[test]
fn calls_without_end_are_stopped_at_the_usual_depth() {
    let e = error_of("fn f(n){ let a = [n, n + 1]; return 1 + f(a[1]); } fn main(){ print f(0); }");
    assert_eq!(e.kind, RuntimeErrorKind::RecursionLimitExceeded);
    assert_eq!(e.frames.len(), kode::interpreter::DEFAULT_CALL_DEPTH);
}

#[test]
fn closures_nest_as_deep_as_functions() {
    let e = error_of("fn f(){ let a = [fn(){ return f(); }]; return a[0](); } fn main(){ f(); }");
    assert_eq!(e.kind, RuntimeErrorKind::RecursionLimitExceeded);
    assert_eq!(e.frames.len(), kode::interpreter::DEFAULT_CALL_DEPTH);
}
