use kode::ast::Statement;
use kode::grammar::{Expectation, ParseError};
use kode::lexer::{LexError, Token};
use kode::parser::Parser;

fn parse(source: &str) -> Result<Vec<Statement>, ParseError> {
    Parser::new("program.kode", source).expect("tokens").parse()
}

fn shown(source: &str) -> String {
    format!("{:?}", parse(source).expect("syntax"))
}

fn failure(source: &str) -> ParseError {
    match parse(source) {
        Ok(statements) => panic!("parsed: {:?}", statements),
        Err(e) => e,
    }
}

#[test]
fn an_empty_program_has_no_statements() {
    assert_eq!(shown(""), "[]");
    assert_eq!(shown("  // nothing\n"), "[]");
}

#[test]
fn a_declaration_binds_a_name_to_an_expression() {
    assert_eq!(shown("let x = 1;"), r#"[Let { name: "x", value: Number(1) }]"#);
}

#[test]
fn products_bind_tighter_than_sums() {
    assert_eq!(
        shown("print 1 + 2 * 3;"),
        "[Print(Binary { left: Number(1), op: Add, right: Binary { left: Number(2), op: Multiply, right: Number(3) } })]"
    );
    assert_eq!(
        shown("print 1 * 2 + 3;"),
        "[Print(Binary { left: Binary { left: Number(1), op: Multiply, right: Number(2) }, op: Add, right: Number(3) })]"
    );
}

#[test]
fn binary_operators_bind_to_the_left() {
    assert_eq!(
        shown("print 1 - 2 - 3;"),
        "[Print(Binary { left: Binary { left: Number(1), op: Subtract, right: Number(2) }, op: Subtract, right: Number(3) })]"
    );
    assert_eq!(
        shown("print 8 / 4 % 3;"),
        "[Print(Binary { left: Binary { left: Number(8), op: Divide, right: Number(4) }, op: Modulo, right: Number(3) })]"
    );
}

#[test]
fn the_levels_of_precedence_are_ordered() {
    assert_eq!(
        shown("print a || b && c == d < e + f * -g;"),
        concat_all(&[
            "[Print(Binary { left: Identifier(\"a\"), op: Or, right: ",
            "Binary { left: Identifier(\"b\"), op: And, right: ",
            "Binary { left: Identifier(\"c\"), op: Equal, right: ",
            "Binary { left: Identifier(\"d\"), op: LessThan, right: ",
            "Binary { left: Identifier(\"e\"), op: Add, right: ",
            "Binary { left: Identifier(\"f\"), op: Multiply, right: ",
            "Unary { op: Negate, expr: Identifier(\"g\") } } } } } } })]",
        ])
    );
}

fn concat_all(parts: &[&str]) -> String {
    let mut out = String::new();
    for part in parts {
        out.push_str(part);
    }
    out
}

#[test]
fn every_comparison_has_its_operator() {
    assert_eq!(
        shown("print a != b; print a > b; print a <= b; print a >= b;"),
        concat_all(&[
            "[Print(Binary { left: Identifier(\"a\"), op: NotEqual, right: Identifier(\"b\") }), ",
            "Print(Binary { left: Identifier(\"a\"), op: GreaterThan, right: Identifier(\"b\") }), ",
            "Print(Binary { left: Identifier(\"a\"), op: LessThanOrEqual, right: Identifier(\"b\") }), ",
            "Print(Binary { left: Identifier(\"a\"), op: GreaterThanOrEqual, right: Identifier(\"b\") })]",
        ])
    );
}

#[test]
fn parentheses_group() {
    assert_eq!(
        shown("print (1 + 2) * 3;"),
        "[Print(Binary { left: Binary { left: Number(1), op: Add, right: Number(2) }, op: Multiply, right: Number(3) })]"
    );
}

#[test]
fn unary_operators_nest() {
    assert_eq!(
        shown("print -!x;"),
        r#"[Print(Unary { op: Negate, expr: Unary { op: Not, expr: Identifier("x") } })]"#
    );
}

#[test]
fn literals_of_every_kind_are_expressions() {
    assert_eq!(
        shown(r#"print 1; print 2.5; print true; print "s"; print x;"#),
        r#"[Print(Number(1)), Print(Float("2.5")), Print(Bool(true)), Print(String("s")), Print(Identifier("x"))]"#
    );
}

#[test]
fn calls_and_indexes_follow_a_primary_expression() {
    assert_eq!(
        shown("f(1)[2](3);"),
        concat_all(&[
            "[Expression(Call { callee: ArrayAccess { array: Call { callee: Identifier(\"f\"), ",
            "arguments: [Number(1)] }, index: Number(2) }, arguments: [Number(3)] })]",
        ])
    );
    assert_eq!(
        shown("f();"),
        r#"[Expression(Call { callee: Identifier("f"), arguments: [] })]"#
    );
    assert_eq!(
        shown("f(a, b);"),
        r#"[Expression(Call { callee: Identifier("f"), arguments: [Identifier("a"), Identifier("b")] })]"#
    );
}

#[test]
fn array_literals_hold_their_elements() {
    assert_eq!(shown("print [];"), "[Print(Array { elements: [] })]");
    assert_eq!(
        shown("print [1, [2], x];"),
        r#"[Print(Array { elements: [Number(1), Array { elements: [Number(2)] }, Identifier("x")] })]"#
    );
}

#[test]
fn an_assignment_at_the_top_of_a_statement_is_an_assignment_statement() {
    assert_eq!(shown("x = 5;"), r#"[Assign { name: "x", value: Number(5) }]"#);
}

#[test]
fn a_comparison_statement_is_no_assignment() {
    assert_eq!(
        shown("x == 5;"),
        r#"[Expression(Binary { left: Identifier("x"), op: Equal, right: Number(5) })]"#
    );
}

#[test]
fn assignment_binds_to_the_right() {
    assert_eq!(
        shown("y = x = 5;"),
        concat_all(&[
            "[Assign { name: \"y\", value: Call { callee: Identifier(\"__assign\"), ",
            "arguments: [Identifier(\"x\"), Number(5)] } }]",
        ])
    );
}

#[test]
fn an_assignment_inside_an_expression_is_a_call_of_the_intrinsic() {
    assert_eq!(
        shown("print (x = 1);"),
        r#"[Print(Call { callee: Identifier("__assign"), arguments: [Identifier("x"), Number(1)] })]"#
    );
}

#[test]
fn an_assignment_to_an_element_is_a_call_of_the_array_intrinsic() {
    assert_eq!(
        shown("a[0] = 1;"),
        concat_all(&[
            "[Expression(Call { callee: Identifier(\"__array_assign\"), ",
            "arguments: [Identifier(\"a\"), Number(0), Number(1)] })]",
        ])
    );
}

#[test]
fn anything_else_is_no_assignment_target() {
    let e = failure("1 = 2;");
    assert_eq!(e.expected, Expectation::AssignmentTarget);
    assert_eq!(e.token, 2);
    assert_eq!(failure("f() = 2;").expected, Expectation::AssignmentTarget);
}

#[test]
fn a_return_without_an_expression_returns_false() {
    assert_eq!(
        shown("fn f() { return; }"),
        concat_all(&[
            "[FunctionDef { file_prefix: \"program\", is_main: false, name: \"f\", params: [], ",
            "body: [Return(Bool(false))] }]",
        ])
    );
    assert_eq!(shown("return 1 + x;"), r#"[Return(Binary { left: Number(1), op: Add, right: Identifier("x") })]"#);
}

#[test]
fn a_function_written_with_main_has_the_empty_name() {
    assert_eq!(
        shown("fn main() { }"),
        r#"[FunctionDef { file_prefix: "program", is_main: true, name: "", params: [], body: [] }]"#
    );
}

#[test]
fn a_function_has_a_name_parameters_and_a_body() {
    assert_eq!(
        shown("fn add(a, b) { return a + b; }"),
        concat_all(&[
            "[FunctionDef { file_prefix: \"program\", is_main: false, name: \"add\", ",
            "params: [\"a\", \"b\"], body: [Return(Binary { left: Identifier(\"a\"), op: Add, ",
            "right: Identifier(\"b\") })] }]",
        ])
    );
}

#[test]
fn the_tag_of_a_function_is_the_stem_of_the_file() {
    let mut parser = Parser::new("lib/math.kode", "fn f() {}").expect("tokens");
    assert_eq!(
        format!("{:?}", parser.parse().expect("syntax")),
        r#"[FunctionDef { file_prefix: "math", is_main: false, name: "f", params: [], body: [] }]"#
    );
}

#[test]
fn without_a_file_name_the_tag_is_main() {
    let mut parser = Parser::new("", "fn f() {}").expect("tokens");
    assert_eq!(
        format!("{:?}", parser.parse().expect("syntax")),
        r#"[FunctionDef { file_prefix: "main", is_main: false, name: "f", params: [], body: [] }]"#
    );
}

#[test]
fn a_parser_can_be_given_its_tag() {
    let mut parser = Parser::with_prefix("tag", "fn main() {}").expect("tokens");
    assert_eq!(
        format!("{:?}", parser.parse().expect("syntax")),
        r#"[FunctionDef { file_prefix: "tag", is_main: true, name: "", params: [], body: [] }]"#
    );
}

#[test]
fn a_closure_is_an_expression() {
    assert_eq!(
        shown("let c = fn(a) { return a; };"),
        concat_all(&[
            "[Let { name: \"c\", value: Closure { params: [\"a\"], ",
            "body: [Return(Identifier(\"a\"))] } }]",
        ])
    );
    assert_eq!(
        shown("let c = fn() { };"),
        r#"[Let { name: "c", value: Closure { params: [], body: [] } }]"#
    );
}

#[test]
fn a_block_is_a_statement() {
    assert_eq!(
        shown("{ let x = 1; { } }"),
        r#"[Block([Let { name: "x", value: Number(1) }, Block([])])]"#
    );
}

#[test]
fn an_if_may_have_an_else() {
    assert_eq!(
        shown("if (a) { print 1; }"),
        r#"[If { condition: Identifier("a"), then_branch: [Print(Number(1))], else_branch: None }]"#
    );
    assert_eq!(
        shown("if (a) { } else { print 2; }"),
        r#"[If { condition: Identifier("a"), then_branch: [], else_branch: Some([Print(Number(2))]) }]"#
    );
}

#[test]
fn an_else_if_is_an_if_in_the_else_branch() {
    assert_eq!(
        shown("if (a) { } else if (b) { } else { }"),
        concat_all(&[
            "[If { condition: Identifier(\"a\"), then_branch: [], else_branch: Some([If { ",
            "condition: Identifier(\"b\"), then_branch: [], else_branch: Some([]) }]) }]",
        ])
    );
}

#[test]
fn a_while_has_a_condition_and_a_body() {
    assert_eq!(
        shown("while (true) { }"),
        "[While { condition: Bool(true), body: [] }]"
    );
}

#[test]
fn a_for_has_three_clauses() {
    assert_eq!(
        shown("for (let i = 0; i < 3; i = i + 1) { print i; }"),
        concat_all(&[
            "[For { init: Some(Let { name: \"i\", value: Number(0) }), ",
            "condition: Some(Binary { left: Identifier(\"i\"), op: LessThan, right: Number(3) }), ",
            "update: Some(Expression(Call { callee: Identifier(\"__assign\"), arguments: ",
            "[Identifier(\"i\"), Binary { left: Identifier(\"i\"), op: Add, right: Number(1) }] })), ",
            "body: [Print(Identifier(\"i\"))] }]",
        ])
    );
}

#[test]
fn every_clause_of_a_for_may_be_left_out() {
    assert_eq!(
        shown("for (;;) { }"),
        "[For { init: None, condition: None, update: None, body: [] }]"
    );
    assert_eq!(
        shown("for (i = 0;;) { }"),
        r#"[For { init: Some(Assign { name: "i", value: Number(0) }), condition: None, update: None, body: [] }]"#
    );
    assert_eq!(
        shown("for (; i < 2;) { }"),
        concat_all(&[
            "[For { init: None, condition: Some(Binary { left: Identifier(\"i\"), op: LessThan, ",
            "right: Number(2) }), update: None, body: [] }]",
        ])
    );
    assert_eq!(
        shown("for (;; f()) { }"),
        concat_all(&[
            "[For { init: None, condition: None, update: Some(Expression(Call { callee: ",
            "Identifier(\"f\"), arguments: [] })), body: [] }]",
        ])
    );
}

#[test]
fn a_try_has_a_body_and_a_catch() {
    assert_eq!(
        shown("try { print 1; } catch { print 2; }"),
        "[Try { body: [Print(Number(1))], catch: [Print(Number(2))] }]"
    );
}

#[test]
fn an_import_names_a_module() {
    assert_eq!(shown("import math;"), r#"[Import("math")]"#);
}

#[test]
fn a_module_keeps_functions_and_imports_only() {
    let source = "let x = 1; import a; print x; fn f() { let y = 2; } x = 3; fn main() { }";
    let mut parser = Parser::new("m.kode", source).expect("tokens");
    assert_eq!(
        format!("{:?}", parser.parse_module().expect("syntax")),
        concat_all(&[
            "[Import(\"a\"), FunctionDef { file_prefix: \"m\", is_main: false, name: \"f\", ",
            "params: [], body: [Let { name: \"y\", value: Number(2) }] }, ",
            "FunctionDef { file_prefix: \"m\", is_main: true, name: \"\", params: [], body: [] }]",
        ])
    );
}

#[test]
fn a_module_does_not_check_what_it_passes_over() {
    let mut parser = Parser::new("m.kode", "let = = ; ) fn f() { }").expect("tokens");
    assert_eq!(
        format!("{:?}", parser.parse_module().expect("syntax")),
        r#"[FunctionDef { file_prefix: "m", is_main: false, name: "f", params: [], body: [] }]"#
    );
}

#[test]
fn a_missing_semicolon_at_the_end_reports_the_end_of_the_text() {
    assert_eq!(
        failure("let x = 1"),
        ParseError {
            expected: Expectation::SemicolonAfterVariableDeclaration,
            line: 1,
            column: 10,
            token: 4
        }
    );
    assert_eq!(
        failure("let x = 1;\nprint x"),
        ParseError { expected: Expectation::SemicolonAfterPrint, line: 2, column: 8, token: 7 }
    );
}

#[test]
fn an_error_inside_the_text_reports_line_one_column_one() {
    assert_eq!(
        failure("let x 1;"),
        ParseError { expected: Expectation::EqualsInLet, line: 1, column: 1, token: 2 }
    );
    assert_eq!(
        failure("print 1 2;"),
        ParseError { expected: Expectation::SemicolonAfterPrint, line: 1, column: 1, token: 2 }
    );
}

#[test]
fn each_construct_names_what_it_misses() {
    assert_eq!(failure("let 1 = 2;").expected, Expectation::VariableName);
    assert_eq!(failure("fn (a) { }").expected, Expectation::FunctionName);
    assert_eq!(failure("print fn(a { };").expected, Expectation::ParenAfterClosureParameters);
    assert_eq!(failure("fn 1() { }").expected, Expectation::FunctionName);
    assert_eq!(failure("fn f { }").expected, Expectation::ParenAfterFunctionName);
    assert_eq!(failure("fn f(1) { }").expected, Expectation::ParameterName);
    assert_eq!(failure("fn f(a,) { }").expected, Expectation::ParameterName);
    assert_eq!(failure("fn f(a b) { }").expected, Expectation::ParenAfterParameters);
    assert_eq!(failure("fn f() print 1;").expected, Expectation::BraceBeforeFunctionBody);
    assert_eq!(failure("fn f() { print 1;").expected, Expectation::BraceAfterBlock);
    assert_eq!(failure("import 1;").expected, Expectation::ModuleName);
    assert_eq!(failure("import m").expected, Expectation::SemicolonAfterImport);
    assert_eq!(failure("return 1").expected, Expectation::SemicolonAfterReturn);
    assert_eq!(failure("if a { }").expected, Expectation::ParenAfterIf);
    assert_eq!(failure("if (a { }").expected, Expectation::ParenAfterIfCondition);
    assert_eq!(failure("if (a) print 1;").expected, Expectation::BraceBeforeIfBody);
    assert_eq!(failure("if (a) { } else print 1;").expected, Expectation::BraceBeforeElseBody);
    assert_eq!(failure("while a { }").expected, Expectation::ParenAfterWhile);
    assert_eq!(failure("while (a { }").expected, Expectation::ParenAfterWhileCondition);
    assert_eq!(failure("while (a) print 1;").expected, Expectation::BraceBeforeWhileBody);
    assert_eq!(failure("for i { }").expected, Expectation::ParenAfterFor);
    assert_eq!(failure("for (; a) { }").expected, Expectation::SemicolonAfterLoopCondition);
    assert_eq!(failure("for (;; a { }").expected, Expectation::ParenAfterForClauses);
    assert_eq!(failure("for (;;) print 1;").expected, Expectation::BraceBeforeForBody);
    assert_eq!(failure("try print 1;").expected, Expectation::BraceAfterTry);
    assert_eq!(failure("try { } print 1;").expected, Expectation::CatchAfterTryBlock);
    assert_eq!(failure("try { } catch print 1;").expected, Expectation::BraceAfterCatch);
    assert_eq!(failure("x = 1").expected, Expectation::SemicolonAfterAssignment);
    assert_eq!(failure("x + 1").expected, Expectation::SemicolonAfterExpression);
    assert_eq!(failure("print a[1;").expected, Expectation::BracketAfterIndex);
    assert_eq!(failure("print f(1;").expected, Expectation::ParenAfterArguments);
    assert_eq!(failure("print (1;").expected, Expectation::ParenAfterExpression);
    assert_eq!(failure("print fn { };").expected, Expectation::ParenAfterClosureFn);
    assert_eq!(failure("print fn() 1;").expected, Expectation::BraceBeforeClosureBody);
    assert_eq!(failure("print [1;").expected, Expectation::BracketAfterElements);
    assert_eq!(failure("print ;").expected, Expectation::Expression);
    assert_eq!(failure("print").expected, Expectation::Expression);
    assert_eq!(failure(")").expected, Expectation::Expression);
}

fn call_with(arguments: usize) -> String {
    let mut source = String::from("f(");
    for i in 0..arguments {
        if i > 0 {
            source.push_str(", ");
        }
        source.push('1');
    }
    source.push_str(");");
    source
}

#[test]
fn a_call_may_have_255_arguments() {
    assert!(parse(&call_with(255)).is_ok());
}

#[test]
fn a_call_may_not_have_256_arguments() {
    assert_eq!(failure(&call_with(256)).expected, Expectation::FewerArguments);
}

#[test]
fn an_array_may_have_more_than_255_elements() {
    let source = call_with(300).replace("f(", "print [").replace(");", "];");
    assert!(parse(&source).is_ok());
}

#[test]
fn a_lexical_error_stops_the_parser_before_it_starts() {
    match Parser::new("p.kode", "let x = @;") {
        Ok(_) => panic!("tokens"),
        Err(e) => assert_eq!(e, LexError::UnexpectedCharacter { ch: '@', line: 1, column: 9 }),
    }
}

#[test]
fn parse_errors_have_texts() {
    assert_eq!(
        failure("let x = 1").message(),
        "Expected ';' after variable declaration at line 1, column 10"
    );
    assert_eq!(
        failure("print (1;").message(),
        "Expected ')' after expression at line 1, column 1"
    );
    assert_eq!(Expectation::FewerArguments.text(), "Cannot have more than 255 arguments");
}

#[test]
fn the_parser_steps_over_tokens() {
    let mut parser = Parser::new("p.kode", "let x").expect("tokens");
    assert!(!parser.is_at_end());
    assert_eq!(parser.peek(), &Token::Let);
    assert!(parser.check(&Token::Let));
    assert!(!parser.check(&Token::Fn));
    parser.advance();
    assert_eq!(parser.previous(), &Token::Let);
    assert_eq!(parser.peek(), &Token::Identifier("x".to_string()));
    assert!(parser.check(&Token::Identifier(String::new())));
    assert_eq!(parser.consume_identifier(Expectation::VariableName), Ok("x".to_string()));
    assert!(parser.is_at_end());
    assert_eq!(parser.peek(), &Token::EOF);
    assert!(!parser.check(&Token::EOF));
    parser.advance();
    assert_eq!(parser.previous(), &Token::Identifier("x".to_string()));
    assert_eq!(
        parser.consume_identifier(Expectation::ModuleName),
        Err(ParseError { expected: Expectation::ModuleName, line: 1, column: 6, token: 2 })
    );
}

#[test]
fn the_parser_matches_one_of_several_tokens() {
    let mut parser = Parser::new("p.kode", "+ 1").expect("tokens");
    assert!(!parser.match_token(&[Token::Minus, Token::Star]));
    assert_eq!(parser.peek(), &Token::Plus);
    assert!(parser.match_token(&[Token::Minus, Token::Plus]));
    assert!(parser.match_token(&[Token::Number(0)]));
    assert!(!parser.match_token(&[Token::EOF]));
    assert!(!parser.match_token(&[]));
}
