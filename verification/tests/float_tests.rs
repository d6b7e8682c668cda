use kode::ast::{BinaryOp, UnaryOp};
use kode::fault::{Fault, Mismatch, RuntimeErrorKind, ValueKind};
use kode::floats::{
    float_at_least_epsilon, float_below_epsilon, float_is_nan, float_is_zero, float_less,
    float_less_or_equal, float_magnitude, float_negated, FloatFact, FloatOp, FloatQuery,
    FloatTable,
};
use kode::interpreter::{apply_binary, apply_unary, ask_float, ask_float_text, Interpreter};
use kode::parser::Parser;
use kode::program::RunError;
use kode::value::Value;

fn bits(x: f64) -> u64 {
    x.to_bits()
}

fn answer(query: &FloatQuery) -> FloatFact {
    match query {
        FloatQuery::Literal(text) => FloatFact::Literal {
            text: text.clone(),
            bits: text.parse::<f64>().unwrap_or(0.0).to_bits(),
        },
        FloatQuery::FromInteger(value) => {
            FloatFact::FromInteger { value: *value, bits: (*value as f64).to_bits() }
        },
        FloatQuery::Arithmetic { op, left, right } => {
            let l = f64::from_bits(*left);
            let r = f64::from_bits(*right);
            let result = match op {
                FloatOp::Add => l + r,
                FloatOp::Subtract => l - r,
                FloatOp::Multiply => l * r,
                FloatOp::Divide => l / r,
            };
            FloatFact::Arithmetic { op: *op, left: *left, right: *right, bits: result.to_bits() }
        },
        FloatQuery::Text(b) => {
            FloatFact::Text { bits: *b, text: format!("{}", f64::from_bits(*b)) }
        },
    }
}

fn table_of(facts: &[FloatFact]) -> FloatTable {
    let mut table = FloatTable::new();
    for fact in facts {
        table.record(fact.clone());
    }
    table
}

struct Ran {
    result: Result<(), RunError>,
    output: Vec<String>,
    asked: usize,
}

fn run(source: &str) -> Ran {
    let mut facts: Vec<FloatFact> = Vec::new();
    loop {
        let mut parser = Parser::new("program.kode", source).expect("tokens");
        let program = parser.parse().expect("syntax");
        let mut interpreter = Interpreter::new();
        interpreter.set_floats(table_of(&facts));
        match interpreter.run(program) {
            Err(RunError::Fault(Fault::NeedsFloat(query))) => {
                assert!(facts.len() < 1000, "too many questions");
                facts.push(answer(&query));
            },
            result => {
                return Ran { result, output: interpreter.output().clone(), asked: facts.len() };
            },
        }
    }
}

fn prints(source: &str) -> Vec<String> {
    let ran = run(source);
    match ran.result {
        Ok(()) => ran.output,
        Err(e) => panic!("failed: {:?}", e),
    }
}

fn kind_of(source: &str) -> RuntimeErrorKind {
    match run(source).result {
        Err(RunError::Fault(Fault::Runtime(e))) => e.kind,
        other => panic!("no runtime error: {:?}", other),
    }
}

fn lines(expected: &[&str]) -> Vec<String> {
    expected.iter().map(|s| s.to_string()).collect()
}

#[test]
fn the_sign_is_the_top_bit() {
    assert_eq!(float_magnitude(bits(-1.5)), bits(1.5));
    assert_eq!(float_magnitude(bits(1.5)), bits(1.5));
    assert_eq!(float_negated(bits(1.5)), bits(-1.5));
    assert_eq!(float_negated(bits(-1.5)), bits(1.5));
    assert_eq!(float_negated(bits(0.0)), bits(-0.0));
    assert_eq!(float_negated(bits(f64::INFINITY)), bits(f64::NEG_INFINITY));
}

#[test]
fn zero_has_two_signs() {
    assert!(float_is_zero(bits(0.0)));
    assert!(float_is_zero(bits(-0.0)));
    assert!(!float_is_zero(bits(f64::MIN_POSITIVE)));
    assert!(!float_is_zero(1));
    assert!(!float_is_zero(bits(f64::NAN)));
}

#[test]
fn a_nan_is_told_by_its_bits() {
    assert!(float_is_nan(bits(f64::NAN)));
    assert!(float_is_nan(bits(-f64::NAN)));
    assert!(!float_is_nan(bits(f64::INFINITY)));
    assert!(!float_is_nan(bits(f64::NEG_INFINITY)));
    assert!(!float_is_nan(bits(f64::MAX)));
    assert!(!float_is_nan(bits(0.0)));
}

#[test]
fn the_order_of_the_bits_is_the_order_of_the_numbers() {
    let samples = [
        f64::NEG_INFINITY,
        f64::MIN,
        -2.5,
        -1.0,
        -f64::MIN_POSITIVE,
        -0.0,
        0.0,
        f64::MIN_POSITIVE,
        f64::EPSILON,
        1.0,
        2.5,
        f64::MAX,
        f64::INFINITY,
        f64::NAN,
    ];
    for a in samples {
        for b in samples {
            assert_eq!(float_less(bits(a), bits(b)), a < b, "{} < {}", a, b);
            assert_eq!(float_less_or_equal(bits(a), bits(b)), a <= b, "{} <= {}", a, b);
        }
    }
}

#[test]
fn the_epsilon_is_two_to_the_minus_52() {
    let samples = [0.0, -0.0, 1e-17, -1e-17, f64::EPSILON, -f64::EPSILON, 1.0, f64::INFINITY, f64::NAN];
    assert_eq!(bits(f64::EPSILON), 0x3cb0_0000_0000_0000);
    for d in samples {
        assert_eq!(float_below_epsilon(bits(d)), d.abs() < f64::EPSILON, "{}", d);
        assert_eq!(float_at_least_epsilon(bits(d)), d.abs() >= f64::EPSILON, "{}", d);
    }
}

#[test]
fn a_table_answers_with_its_first_fact() {
    let table = table_of(&[
        FloatFact::Literal { text: "1.5".to_string(), bits: 7 },
        FloatFact::Literal { text: "1.5".to_string(), bits: 8 },
        FloatFact::FromInteger { value: 3, bits: 9 },
        FloatFact::Arithmetic { op: FloatOp::Add, left: 1, right: 2, bits: 10 },
        FloatFact::Text { bits: 7, text: "seven".to_string() },
    ]);
    assert_eq!(table.len(), 5);
    assert_eq!(table.bits(&FloatQuery::Literal("1.5".to_string())), Some(7));
    assert_eq!(table.bits(&FloatQuery::Literal("1.50".to_string())), None);
    assert_eq!(table.bits(&FloatQuery::FromInteger(3)), Some(9));
    assert_eq!(table.bits(&FloatQuery::FromInteger(4)), None);
    assert_eq!(
        table.bits(&FloatQuery::Arithmetic { op: FloatOp::Add, left: 1, right: 2 }),
        Some(10)
    );
    assert_eq!(
        table.bits(&FloatQuery::Arithmetic { op: FloatOp::Add, left: 2, right: 1 }),
        None
    );
    assert_eq!(
        table.bits(&FloatQuery::Arithmetic { op: FloatOp::Subtract, left: 1, right: 2 }),
        None
    );
    assert_eq!(table.bits(&FloatQuery::Text(7)), None);
    assert_eq!(table.text(7), Some("seven".to_string()));
    assert_eq!(table.text(8), None);
}

#[test]
fn a_question_without_an_answer_stops_the_evaluator() {
    let table = FloatTable::new();
    match ask_float(&table, FloatQuery::FromInteger(2)) {
        Err(Fault::NeedsFloat(FloatQuery::FromInteger(2))) => {},
        other => panic!("answered: {:?}", other),
    }
    match ask_float_text(&table, 5) {
        Err(Fault::NeedsFloat(FloatQuery::Text(5))) => {},
        other => panic!("answered: {:?}", other),
    }
    let mut parser = Parser::new("p.kode", "fn main(){ print 1; print 1.5; print 2; }").expect("tokens");
    let mut interpreter = Interpreter::new();
    match interpreter.run(parser.parse().expect("syntax")) {
        Err(RunError::Fault(Fault::NeedsFloat(FloatQuery::Literal(text)))) => assert_eq!(text, "1.5"),
        other => panic!("ran: {:?}", other),
    }
    assert_eq!(interpreter.output().clone(), lines(&["1"]));
}

#[test]
fn a_question_without_an_answer_is_not_caught() {
    let mut parser = Parser::new("p.kode", "fn main(){ try { print 1.5; } catch { print 0; } }").expect("tokens");
    let mut interpreter = Interpreter::new();
    match interpreter.run(parser.parse().expect("syntax")) {
        Err(RunError::Fault(Fault::NeedsFloat(FloatQuery::Literal(text)))) => assert_eq!(text, "1.5"),
        other => panic!("ran: {:?}", other),
    }
    assert!(interpreter.output().is_empty());
}

#[test]
fn floating_point_arithmetic_is_the_hosts() {
    assert_eq!(
        prints("fn main(){ print 1.5 + 2.5; print 0.1 + 0.2; print 1.5 - 2.0; print 1.5 * 2.0; print 1.0 / 4.0; }"),
        lines(&["4", "0.30000000000000004", "-0.5", "3", "0.25"])
    );
}

#[test]
fn an_integer_beside_a_floating_point_number_is_converted() {
    assert_eq!(
        prints("fn main(){ print 1 + 0.5; print 0.5 + 1; print 3 * 0.5; print 1 / 2.0; print 2.0 / 4; print 1 < 1.5; print 1.5 >= 2; }"),
        lines(&["1.5", "1.5", "1.5", "0.5", "0.5", "true", "false"])
    );
}

#[test]
fn dividing_by_a_floating_point_zero_is_the_error_it_is_for_integers() {
    let expected = RuntimeErrorKind::DivisionOrModuloByZero { modulo: false };
    assert_eq!(kind_of("fn main(){ print 1 / 0.0; }"), expected);
    assert_eq!(kind_of("fn main(){ print 1.5 / 0.0; }"), expected);
    assert_eq!(kind_of("fn main(){ print 1.5 / 0; }"), expected);
    assert_eq!(kind_of("fn main(){ print 1.5 / -0.0; }"), expected);
    assert_eq!(kind_of("fn main(){ print 1 / 0; }"), expected);
}

#[test]
fn the_divisor_is_looked_at_before_the_dividend_is_converted() {
    let ran = run("fn main(){ print 1 / 0.0; }");
    assert_eq!(ran.asked, 1);
}

#[test]
fn floating_point_numbers_are_equal_where_they_are_closer_than_the_epsilon() {
    assert_eq!(
        prints("fn main(){ print 0.1 + 0.2 == 0.3; print 0.1 + 0.2 != 0.3; print 1.0 == 1.5; print 1.0 != 1.5; print 1 == 1.0; print 2.0 != 2; }"),
        lines(&["true", "false", "false", "true", "true", "false"])
    );
}

#[test]
fn floating_point_numbers_are_ordered() {
    assert_eq!(
        prints("fn main(){ print 1.5 < 2.5; print 2.5 <= 2.5; print 1.5 > 2.5; print 2.5 >= 3.5; print -1.5 < 1.5; }"),
        lines(&["true", "true", "false", "false", "true"])
    );
}

#[test]
fn a_floating_point_number_negates() {
    assert_eq!(prints("fn main(){ print -1.5; print -(-2.5); }"), lines(&["-1.5", "2.5"]));
}

#[test]
fn a_string_and_a_floating_point_number_join() {
    assert_eq!(
        prints(r#"fn main(){ print "x=" + 1.5; print 2.5 + "!"; print [1.5, 2]; }"#),
        lines(&["x=1.5", "2.5!", "[1.5, 2]"])
    );
}

#[test]
fn floating_point_numbers_have_no_remainder_and_no_logic() {
    assert_eq!(
        kind_of("fn main(){ print 1.5 % 2.0; }"),
        RuntimeErrorKind::TypeMismatch(Mismatch::Binary {
            op: BinaryOp::Modulo,
            left: ValueKind::Float,
            right: ValueKind::Float
        })
    );
    assert_eq!(
        kind_of("fn main(){ print 1 % 2.0; }"),
        RuntimeErrorKind::TypeMismatch(Mismatch::Binary {
            op: BinaryOp::Modulo,
            left: ValueKind::Number,
            right: ValueKind::Float
        })
    );
    assert_eq!(
        kind_of("fn main(){ print 2.0 && 1; }"),
        RuntimeErrorKind::TypeMismatch(Mismatch::Binary {
            op: BinaryOp::And,
            left: ValueKind::Float,
            right: ValueKind::Number
        })
    );
    assert_eq!(
        kind_of(r#"fn main(){ print "a" - 1.5; }"#),
        RuntimeErrorKind::TypeMismatch(Mismatch::Binary {
            op: BinaryOp::Subtract,
            left: ValueKind::String,
            right: ValueKind::Float
        })
    );
}

#[test]
fn a_binary_operation_can_be_applied_to_values() {
    let table = table_of(&[FloatFact::Arithmetic {
        op: FloatOp::Add,
        left: bits(1.0),
        right: bits(2.0),
        bits: bits(3.0),
    }]);
    match apply_binary(&table, &Value::Float(bits(1.0)), BinaryOp::Add, &Value::Float(bits(2.0))) {
        Ok(Value::Float(sum)) => assert_eq!(sum, bits(3.0)),
        other => panic!("{:?}", other),
    }
    match apply_binary(&table, &Value::Float(bits(2.0)), BinaryOp::Add, &Value::Float(bits(1.0))) {
        Err(Fault::NeedsFloat(FloatQuery::Arithmetic { op: FloatOp::Add, left, right })) => {
            assert_eq!((left, right), (bits(2.0), bits(1.0)))
        },
        other => panic!("{:?}", other),
    }
    match apply_binary(&table, &Value::Number(6), BinaryOp::Multiply, &Value::Number(7)) {
        Ok(Value::Number(42)) => {},
        other => panic!("{:?}", other),
    }
    match apply_binary(&table, &Value::Float(bits(1.0)), BinaryOp::LessThan, &Value::Float(bits(2.0))) {
        Ok(Value::Bool(true)) => {},
        other => panic!("{:?}", other),
    }
    let interpreter = Interpreter::new();
    match interpreter.eval_binary_op(&Value::Number(1), &BinaryOp::Subtract, &Value::Number(3)) {
        Ok(Value::Number(-2)) => {},
        other => panic!("{:?}", other),
    }
}

#[test]
fn a_unary_operation_can_be_applied_to_a_value() {
    match apply_unary(UnaryOp::Negate, &Value::Float(bits(2.0))) {
        Ok(Value::Float(b)) => assert_eq!(b, bits(-2.0)),
        other => panic!("{:?}", other),
    }
    match apply_unary(UnaryOp::Negate, &Value::Number(i64::MIN)) {
        Ok(Value::Number(i64::MIN)) => {},
        other => panic!("{:?}", other),
    }
    match apply_unary(UnaryOp::Not, &Value::Bool(false)) {
        Ok(Value::Bool(true)) => {},
        other => panic!("{:?}", other),
    }
}
