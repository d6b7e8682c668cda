use kode::ast::{BinaryOp, Expression, Statement, UnaryOp};
use kode::fault::{Fault, RuntimeErrorKind, ValueKind};
use kode::floats::FloatTable;
use kode::import::source_file_path;
use kode::interpreter::{index_into, render_value, replace_element, Interpreter};
use kode::parser::Parser;
use kode::program::imports_of;
use kode::value::{Scope, Value};

fn name(s: &str) -> String {
    s.to_string()
}

#[test]
fn a_new_scope_is_empty() {
    let scope = Scope::new();
    assert!(!scope.contains(&name("x")));
    assert!(scope.get(&name("x")).is_none());
}

#[test]
fn a_scope_binds_names_to_values() {
    let mut scope = Scope::new();
    scope.set(name("x"), Value::Number(1));
    scope.set(name("y"), Value::Bool(true));
    assert!(scope.contains(&name("x")));
    assert!(!scope.contains(&name("z")));
    assert_eq!(format!("{:?}", scope.get(&name("x"))), "Some(Number(1))");
    assert_eq!(format!("{:?}", scope.get(&name("y"))), "Some(Bool(true))");
}

#[test]
fn setting_again_replaces_the_value() {
    let mut scope = Scope::new();
    scope.set(name("x"), Value::Number(1));
    scope.set(name("y"), Value::Number(2));
    scope.set(name("x"), Value::Number(3));
    assert_eq!(format!("{:?}", scope.get(&name("x"))), "Some(Number(3))");
    assert_eq!(format!("{:?}", scope.get(&name("y"))), "Some(Number(2))");
    let copy = scope.duplicate();
    assert_eq!(format!("{:?}", copy.get(&name("x"))), "Some(Number(3))");
}

#[test]
fn values_know_their_kind() {
    assert_eq!(Value::Number(1).kind(), ValueKind::Number);
    assert_eq!(Value::Float(0).kind(), ValueKind::Float);
    assert_eq!(Value::Bool(true).kind(), ValueKind::Bool);
    assert_eq!(Value::Void.kind(), ValueKind::Void);
    assert_eq!(Value::String(String::new()).kind(), ValueKind::String);
    assert_eq!(Value::Array(Vec::new()).kind(), ValueKind::Array);
    assert_eq!(
        Value::Closure { params: Vec::new(), body: Vec::new(), env: Vec::new() }.kind(),
        ValueKind::Closure
    );
    assert_eq!(ValueKind::Bool.name(), "boolean");
}

#[test]
fn a_copy_of_a_value_is_the_same_value() {
    let value = Value::Array(vec![
        Value::Number(1),
        Value::String(name("a")),
        Value::Array(vec![Value::Void]),
    ]);
    assert_eq!(format!("{:?}", value.duplicate()), format!("{:?}", value));
}

#[test]
fn values_are_indexed() {
    let array = Value::Array(vec![Value::Number(10), Value::Number(20)]);
    assert_eq!(format!("{:?}", index_into(&array, &Value::Number(1))), "Ok(Number(20))");
    match index_into(&array, &Value::Number(2)) {
        Err(Fault::Runtime(e)) => assert_eq!(
            e.kind,
            RuntimeErrorKind::NegativeOrOutOfBoundsIndex {
                container: ValueKind::Array,
                index: 2,
                length: 2
            }
        ),
        other => panic!("{:?}", other),
    }
    match index_into(&array, &Value::Number(i64::MIN)) {
        Err(Fault::Runtime(e)) => assert_eq!(
            e.kind,
            RuntimeErrorKind::NegativeOrOutOfBoundsIndex {
                container: ValueKind::Array,
                index: i64::MIN,
                length: 2
            }
        ),
        other => panic!("{:?}", other),
    }
    let text = Value::String(name("abc"));
    assert_eq!(format!("{:?}", index_into(&text, &Value::Number(2))), r#"Ok(String("c"))"#);
}

#[test]
fn an_element_is_replaced() {
    let array = Value::Array(vec![Value::Number(10), Value::Number(20)]);
    assert_eq!(
        format!("{:?}", replace_element(array, &Value::Number(0), Value::Bool(true))),
        "Ok(Array([Bool(true), Number(20)]))"
    );
    assert!(replace_element(Value::String(name("abc")), &Value::Number(0), Value::Void).is_err());
}

#[test]
fn values_are_written_out() {
    let table = FloatTable::new();
    let text = |v: Value| render_value(&table, &v).expect("text");
    assert_eq!(text(Value::Number(-12)), "-12");
    assert_eq!(text(Value::Bool(false)), "false");
    assert_eq!(text(Value::Void), "void");
    assert_eq!(text(Value::String(name("s"))), "s");
    assert_eq!(text(Value::Array(vec![])), "[]");
    assert_eq!(
        text(Value::Array(vec![Value::Number(1), Value::Array(vec![Value::Number(2)])])),
        "[1, [2]]"
    );
    assert!(render_value(&table, &Value::Float(0)).is_err());
}

#[test]
fn variables_are_declared_assigned_and_read() {
    let mut interpreter = Interpreter::new();
    assert!(interpreter.get_variable(&name("x")).is_none());
    assert!(interpreter.assign_variable(&name("x"), Value::Number(0)).is_err());
    interpreter.set_variable(&name("x"), Value::Number(1));
    assert_eq!(format!("{:?}", interpreter.get_variable(&name("x"))), "Some(Number(1))");
    assert!(interpreter.assign_variable(&name("x"), Value::Number(2)).is_ok());
    assert_eq!(format!("{:?}", interpreter.get_variable(&name("x"))), "Some(Number(2))");
}

#[test]
fn expressions_are_evaluated() {
    let mut interpreter = Interpreter::new();
    interpreter.set_variable(&name("x"), Value::Number(4));
    let e = Expression::new_binary(
        Expression::new_identifier(name("x")),
        BinaryOp::Multiply,
        Expression::new_unary(UnaryOp::Negate, Expression::new_number(3)),
    );
    assert_eq!(format!("{:?}", interpreter.eval_expr(&e)), "Ok(Number(-12))");
    let list = Expression::new_array(vec![Expression::new_bool(true), Expression::new_string(name("s"))]);
    assert_eq!(
        format!("{:?}", interpreter.eval_expr(&list)),
        r#"Ok(Array([Bool(true), String("s")]))"#
    );
    let at = Expression::new_array_access(list.duplicate(), Expression::new_number(1));
    assert_eq!(format!("{:?}", interpreter.eval_expr(&at)), r#"Ok(String("s"))"#);
}

#[test]
fn statements_are_evaluated() {
    let mut interpreter = Interpreter::new();
    let declare = Statement::new_let(name("n"), Expression::new_number(1));
    assert_eq!(format!("{:?}", interpreter.eval_statement(&declare)), "Ok(None)");
    let give = Statement::new_return(Expression::new_identifier(name("n")));
    assert_eq!(format!("{:?}", interpreter.eval_statement(&give)), "Ok(Some(Number(1)))");
    let block = Statement::new_block(vec![
        Statement::new_let(name("inner"), Expression::new_number(2)),
        Statement::new_print(Expression::new_identifier(name("inner"))),
    ]);
    assert_eq!(format!("{:?}", interpreter.eval_statement(&block)), "Ok(None)");
    assert!(interpreter.get_variable(&name("inner")).is_none());
    assert_eq!(interpreter.output().clone(), vec![name("2")]);
    assert_eq!(format!("{:?}", block.duplicate()), format!("{:?}", block));
}

#[test]
fn operators_are_written_as_in_source_text() {
    assert_eq!(BinaryOp::Add.symbol(), "+");
    assert_eq!(BinaryOp::Subtract.symbol(), "-");
    assert_eq!(BinaryOp::Multiply.symbol(), "*");
    assert_eq!(BinaryOp::Divide.symbol(), "/");
    assert_eq!(BinaryOp::Modulo.symbol(), "%");
    assert_eq!(BinaryOp::Equal.symbol(), "==");
    assert_eq!(BinaryOp::NotEqual.symbol(), "!=");
    assert_eq!(BinaryOp::LessThan.symbol(), "<");
    assert_eq!(BinaryOp::GreaterThan.symbol(), ">");
    assert_eq!(BinaryOp::LessThanOrEqual.symbol(), "<=");
    assert_eq!(BinaryOp::GreaterThanOrEqual.symbol(), ">=");
    assert_eq!(BinaryOp::And.symbol(), "&&");
    assert_eq!(BinaryOp::Or.symbol(), "||");
    assert_eq!(UnaryOp::Negate.symbol(), "-");
    assert_eq!(UnaryOp::Not.symbol(), "!");
}

#[test]
fn the_imports_of_a_program_are_those_of_its_top_level() {
    let source = "import a; fn main(){ import inner; } let x = 1; import b; import a;";
    let mut parser = Parser::new("p.kode", source).expect("tokens");
    let program = parser.parse().expect("syntax");
    assert_eq!(imports_of(&program), vec![name("a"), name("b"), name("a")]);
}

#[test]
fn the_file_of_a_module_is_in_the_base_directory() {
    assert_eq!(source_file_path(".", "math"), "./math.kode");
    assert_eq!(source_file_path("lib/", "math"), "lib/math.kode");
    assert_eq!(source_file_path("", "math"), "math.kode");
    assert_eq!(source_file_path("/a/b", "m"), "/a/b/m.kode");
}
