//! The syntax tree that the parser builds and the evaluator walks.

use vstd::prelude::*;

verus! {

/// A whole program.
#[derive(Debug)]
pub enum Program {
    Statements(Vec<Statement>),
}

/// A statement.
#[derive(Debug)]
#[allow(inconsistent_fields)]
pub enum Statement {
    Let { name: String, value: Expression },
    Assign { name: String, value: Expression },
    FunctionDef {
        file_prefix: String,
        is_main: bool,
        name: String,
        params: Vec<String>,
        body: Vec<Statement>,
    },
    Return(Expression),
    If { condition: Expression, then_branch: Vec<Statement>, else_branch: Option<Vec<Statement>> },
    While { condition: Expression, body: Vec<Statement> },
    For {
        init: Option<Box<Statement>>,
        condition: Option<Expression>,
        update: Option<Box<Statement>>,
        body: Vec<Statement>,
    },
    ExprStmt(Expression),
    Block(Vec<Statement>),
    Print(Expression),
    Expression(Expression),
    Import(String),
    Try { body: Vec<Statement>, catch: Vec<Statement> },
}

/// An expression. A floating-point literal keeps its text.
#[derive(Debug)]
#[allow(inconsistent_fields)]
pub enum Expression {
    Number(i64),
    Float(String),
    Bool(bool),
    String(String),
    Identifier(String),
    Binary { left: Box<Expression>, op: BinaryOp, right: Box<Expression> },
    Unary { op: UnaryOp, expr: Box<Expression> },
    Call { callee: Box<Expression>, arguments: Vec<Expression> },
    Array { elements: Vec<Expression> },
    ArrayAccess { array: Box<Expression>, index: Box<Expression> },
    Closure { params: Vec<String>, body: Vec<Statement> },
}

/// A binary operator.
#[derive(Debug, Clone, Copy, PartialEq, Eq, Structural)]
pub enum BinaryOp {
    Add,
    Subtract,
    Multiply,
    Divide,
    Modulo,
    Equal,
    NotEqual,
    LessThan,
    GreaterThan,
    LessThanOrEqual,
    GreaterThanOrEqual,
    And,
    Or,
}

/// A unary operator.
#[derive(Debug, Clone, Copy, PartialEq, Eq, Structural)]
pub enum UnaryOp {
    Negate,
    Not,
}

/// A type of the language.
#[derive(Debug)]
pub enum Type {
    Int,
    Float,
    Bool,
    String,
    Array(Box<Type>),
    Void,
    Function { params: Vec<Type>, return_type: Box<Type> },
}

/// The mathematical value of a statement.
#[allow(inconsistent_fields)]
pub ghost enum StatementView {
    Let { name: Seq<char>, value: ExpressionView },
    Assign { name: Seq<char>, value: ExpressionView },
    FunctionDef {
        file_prefix: Seq<char>,
        is_main: bool,
        name: Seq<char>,
        params: Seq<Seq<char>>,
        body: Seq<StatementView>,
    },
    Return(ExpressionView),
    If {
        condition: ExpressionView,
        then_branch: Seq<StatementView>,
        else_branch: Option<Seq<StatementView>>,
    },
    While { condition: ExpressionView, body: Seq<StatementView> },
    For {
        init: Option<Box<StatementView>>,
        condition: Option<ExpressionView>,
        update: Option<Box<StatementView>>,
        body: Seq<StatementView>,
    },
    ExprStmt(ExpressionView),
    Block(Seq<StatementView>),
    Print(ExpressionView),
    Expression(ExpressionView),
    Import(Seq<char>),
    Try { body: Seq<StatementView>, catch: Seq<StatementView> },
}

/// The mathematical value of an expression.
#[allow(inconsistent_fields)]
pub ghost enum ExpressionView {
    Number(i64),
    Float(Seq<char>),
    Bool(bool),
    String(Seq<char>),
    Identifier(Seq<char>),
    Binary { left: Box<ExpressionView>, op: BinaryOp, right: Box<ExpressionView> },
    Unary { op: UnaryOp, expr: Box<ExpressionView> },
    Call { callee: Box<ExpressionView>, arguments: Seq<ExpressionView> },
    Array { elements: Seq<ExpressionView> },
    ArrayAccess { array: Box<ExpressionView>, index: Box<ExpressionView> },
    Closure { params: Seq<Seq<char>>, body: Seq<StatementView> },
}

/// The values of a sequence of strings.
pub open spec fn strings_view(strings: Seq<String>) -> Seq<Seq<char>> {
    strings.map_values(|s: String| s@)
}

#[verifier::opaque]
pub open spec fn statement_view(s: Statement) -> StatementView
    decreases s,
{
    match s {
        Statement::Let { name, value } => StatementView::Let {
            name: name@,
            value: expression_view(value),
        },
        Statement::Assign { name, value } => StatementView::Assign {
            name: name@,
            value: expression_view(value),
        },
        Statement::FunctionDef { file_prefix, is_main, name, params, body } => {
            StatementView::FunctionDef {
                file_prefix: file_prefix@,
                is_main,
                name: name@,
                params: strings_view(params@),
                body: statements_view(body@),
            }
        },
        Statement::Return(e) => StatementView::Return(expression_view(e)),
        Statement::If { condition, then_branch, else_branch } => StatementView::If {
            condition: expression_view(condition),
            then_branch: statements_view(then_branch@),
            else_branch: match else_branch {
                Some(b) => Some(statements_view(b@)),
                None => None,
            },
        },
        Statement::While { condition, body } => StatementView::While {
            condition: expression_view(condition),
            body: statements_view(body@),
        },
        Statement::For { init, condition, update, body } => StatementView::For {
            init: match init {
                Some(i) => Some(Box::new(statement_view(*i))),
                None => None,
            },
            condition: match condition {
                Some(c) => Some(expression_view(c)),
                None => None,
            },
            update: match update {
                Some(u) => Some(Box::new(statement_view(*u))),
                None => None,
            },
            body: statements_view(body@),
        },
        Statement::ExprStmt(e) => StatementView::ExprStmt(expression_view(e)),
        Statement::Block(b) => StatementView::Block(statements_view(b@)),
        Statement::Print(e) => StatementView::Print(expression_view(e)),
        Statement::Expression(e) => StatementView::Expression(expression_view(e)),
        Statement::Import(name) => StatementView::Import(name@),
        Statement::Try { body, catch } => StatementView::Try {
            body: statements_view(body@),
            catch: statements_view(catch@),
        },
    }
}

/// The values of a sequence of statements.
#[verifier::opaque]
pub open spec fn statements_view(statements: Seq<Statement>) -> Seq<StatementView>
    decreases statements,
{
    Seq::new(
        statements.len(),
        |i: int|
            if 0 <= i < statements.len() {
                statement_view(statements[i])
            } else {
                StatementView::Import(Seq::empty())
            },
    )
}

#[verifier::opaque]
pub open spec fn expression_view(e: Expression) -> ExpressionView
    decreases e,
{
    match e {
        Expression::Number(n) => ExpressionView::Number(n),
        Expression::Float(text) => ExpressionView::Float(text@),
        Expression::Bool(b) => ExpressionView::Bool(b),
        Expression::String(s) => ExpressionView::String(s@),
        Expression::Identifier(name) => ExpressionView::Identifier(name@),
        Expression::Binary { left, op, right } => ExpressionView::Binary {
            left: Box::new(expression_view(*left)),
            op,
            right: Box::new(expression_view(*right)),
        },
        Expression::Unary { op, expr } => ExpressionView::Unary {
            op,
            expr: Box::new(expression_view(*expr)),
        },
        Expression::Call { callee, arguments } => ExpressionView::Call {
            callee: Box::new(expression_view(*callee)),
            arguments: expressions_view(arguments@),
        },
        Expression::Array { elements } => ExpressionView::Array {
            elements: expressions_view(elements@),
        },
        Expression::ArrayAccess { array, index } => ExpressionView::ArrayAccess {
            array: Box::new(expression_view(*array)),
            index: Box::new(expression_view(*index)),
        },
        Expression::Closure { params, body } => ExpressionView::Closure {
            params: strings_view(params@),
            body: statements_view(body@),
        },
    }
}

/// The values of a sequence of expressions.
#[verifier::opaque]
pub open spec fn expressions_view(expressions: Seq<Expression>) -> Seq<ExpressionView>
    decreases expressions,
{
    Seq::new(
        expressions.len(),
        |i: int|
            if 0 <= i < expressions.len() {
                expression_view(expressions[i])
            } else {
                ExpressionView::Bool(false)
            },
    )
}

impl View for Statement {
    type V = StatementView;

    open spec fn view(&self) -> StatementView {
        statement_view(*self)
    }
}

impl View for Expression {
    type V = ExpressionView;

    open spec fn view(&self) -> ExpressionView {
        expression_view(*self)
    }
}

pub proof fn lemma_strings_push(strings: Seq<String>, s: String)
    ensures
        strings_view(strings.push(s)) == strings_view(strings).push(s@),
{
    assert(strings_view(strings.push(s)) =~= strings_view(strings).push(s@));
}

pub proof fn lemma_statements_push(statements: Seq<Statement>, s: Statement)
    ensures
        statements_view(statements.push(s)) == statements_view(statements).push(s@),
{
    reveal_with_fuel(statement_view, 2);
    reveal_with_fuel(statements_view, 2);
    reveal_with_fuel(expression_view, 2);
    reveal_with_fuel(expressions_view, 2);
    assert(statements_view(statements.push(s)) =~= statements_view(statements).push(s@));
}

pub proof fn lemma_expressions_push(expressions: Seq<Expression>, e: Expression)
    ensures
        expressions_view(expressions.push(e)) == expressions_view(expressions).push(e@),
{
    reveal_with_fuel(statement_view, 2);
    reveal_with_fuel(statements_view, 2);
    reveal_with_fuel(expression_view, 2);
    reveal_with_fuel(expressions_view, 2);
    assert(expressions_view(expressions.push(e)) =~= expressions_view(expressions).push(e@));
}

/// The view of a statement, in terms of the views of its parts.
pub open spec fn statement_shape(s: Statement) -> StatementView {
    match s {
            Statement::Let { name, value } => StatementView::Let { name: name@, value: value@ },
            Statement::Assign { name, value } => StatementView::Assign {
                name: name@,
                value: value@,
            },
            Statement::FunctionDef { file_prefix, is_main, name, params, body } => {
                StatementView::FunctionDef {
                    file_prefix: file_prefix@,
                    is_main,
                    name: name@,
                    params: strings_view(params@),
                    body: statements_view(body@),
                }
            },
            Statement::Return(e) => StatementView::Return(e@),
            Statement::If { condition, then_branch, else_branch } => StatementView::If {
                condition: condition@,
                then_branch: statements_view(then_branch@),
                else_branch: match else_branch {
                    Some(b) => Some(statements_view(b@)),
                    None => None,
                },
            },
            Statement::While { condition, body } => StatementView::While {
                condition: condition@,
                body: statements_view(body@),
            },
            Statement::For { init, condition, update, body } => StatementView::For {
                init: match init {
                    Some(i) => Some(Box::new(i@)),
                    None => None,
                },
                condition: match condition {
                    Some(c) => Some(c@),
                    None => None,
                },
                update: match update {
                    Some(u) => Some(Box::new(u@)),
                    None => None,
                },
                body: statements_view(body@),
            },
            Statement::ExprStmt(e) => StatementView::ExprStmt(e@),
            Statement::Block(b) => StatementView::Block(statements_view(b@)),
            Statement::Print(e) => StatementView::Print(e@),
            Statement::Expression(e) => StatementView::Expression(e@),
            Statement::Import(name) => StatementView::Import(name@),
            Statement::Try { body, catch } => StatementView::Try {
                body: statements_view(body@),
                catch: statements_view(catch@),
            },
    }
}

/// The view of a statement is made of the views of its parts.
pub proof fn lemma_statement_view(s: Statement)
    ensures
        s@ == statement_shape(s),
{
    reveal_with_fuel(statement_view, 2);
    reveal_with_fuel(statements_view, 2);
    reveal_with_fuel(expression_view, 2);
    reveal_with_fuel(expressions_view, 2);
}

/// The view of an expression, in terms of the views of its parts.
pub open spec fn expression_shape(e: Expression) -> ExpressionView {
    match e {
            Expression::Number(n) => ExpressionView::Number(n),
            Expression::Float(text) => ExpressionView::Float(text@),
            Expression::Bool(b) => ExpressionView::Bool(b),
            Expression::String(s) => ExpressionView::String(s@),
            Expression::Identifier(name) => ExpressionView::Identifier(name@),
            Expression::Binary { left, op, right } => ExpressionView::Binary {
                left: Box::new(left@),
                op,
                right: Box::new(right@),
            },
            Expression::Unary { op, expr } => ExpressionView::Unary { op, expr: Box::new(expr@) },
            Expression::Call { callee, arguments } => ExpressionView::Call {
                callee: Box::new(callee@),
                arguments: expressions_view(arguments@),
            },
            Expression::Array { elements } => ExpressionView::Array {
                elements: expressions_view(elements@),
            },
            Expression::ArrayAccess { array, index } => ExpressionView::ArrayAccess {
                array: Box::new(array@),
                index: Box::new(index@),
            },
            Expression::Closure { params, body } => ExpressionView::Closure {
                params: strings_view(params@),
                body: statements_view(body@),
            },
    }
}

/// The view of an expression is made of the views of its parts.
pub proof fn lemma_expression_view(e: Expression)
    ensures
        e@ == expression_shape(e),
{
    reveal_with_fuel(statement_view, 2);
    reveal_with_fuel(statements_view, 2);
    reveal_with_fuel(expression_view, 2);
    reveal_with_fuel(expressions_view, 2);
}

/// The views of a sequence of statements are the views of its statements.
pub proof fn lemma_statements_view(statements: Seq<Statement>)
    ensures
        statements_view(statements).len() == statements.len(),
        forall|i: int|
            0 <= i < statements.len() ==> #[trigger] statements_view(statements)[i]
                == statements[i]@,
{
    reveal_with_fuel(statement_view, 2);
    reveal_with_fuel(statements_view, 2);
    reveal_with_fuel(expression_view, 2);
    reveal_with_fuel(expressions_view, 2);
}

/// The views of a sequence of expressions are the views of its expressions.
pub proof fn lemma_expressions_view(expressions: Seq<Expression>)
    ensures
        expressions_view(expressions).len() == expressions.len(),
        forall|i: int|
            0 <= i < expressions.len() ==> #[trigger] expressions_view(expressions)[i]
                == expressions[i]@,
{
    reveal_with_fuel(statement_view, 2);
    reveal_with_fuel(statements_view, 2);
    reveal_with_fuel(expression_view, 2);
    reveal_with_fuel(expressions_view, 2);
}

/// A copy of a list of strings.
pub fn duplicate_strings(strings: &Vec<String>) -> (copy: Vec<String>)
    ensures
        strings_view(copy@) == strings_view(strings@),
{
    let mut copy: Vec<String> = Vec::new();
    let mut i: usize = 0;
    while i < strings.len()
        invariant
            i <= strings.len(),
            copy.len() == i,
            forall|j: int| 0 <= j < i ==> copy@[j]@ == strings@[j]@,
        decreases strings.len() - i,
    {
        copy.push(strings[i].clone());
        i += 1;
    }
    assert(strings_view(copy@) =~= strings_view(strings@));
    copy
}

impl Statement {
    /// A copy of the statement.
    pub fn duplicate(&self) -> (copy: Statement)
        ensures
            copy@ == self@,
        decreases self,
    {
        reveal_with_fuel(statement_view, 2);
        reveal_with_fuel(statements_view, 2);
        reveal_with_fuel(expression_view, 2);
        reveal_with_fuel(expressions_view, 2);
        match self {
            Statement::Let { name, value } => Statement::Let {
                name: name.clone(),
                value: value.duplicate(),
            },
            Statement::Assign { name, value } => Statement::Assign {
                name: name.clone(),
                value: value.duplicate(),
            },
            Statement::FunctionDef { file_prefix, is_main, name, params, body } => {
                Statement::FunctionDef {
                    file_prefix: file_prefix.clone(),
                    is_main: *is_main,
                    name: name.clone(),
                    params: duplicate_strings(params),
                    body: duplicate_statements(body),
                }
            },
            Statement::Return(e) => Statement::Return(e.duplicate()),
            Statement::If { condition, then_branch, else_branch } => Statement::If {
                condition: condition.duplicate(),
                then_branch: duplicate_statements(then_branch),
                else_branch: match else_branch {
                    Some(b) => Some(duplicate_statements(b)),
                    None => None,
                },
            },
            Statement::While { condition, body } => Statement::While {
                condition: condition.duplicate(),
                body: duplicate_statements(body),
            },
            Statement::For { init, condition, update, body } => Statement::For {
                init: match init {
                    Some(i) => Some(Box::new(i.duplicate())),
                    None => None,
                },
                condition: match condition {
                    Some(c) => Some(c.duplicate()),
                    None => None,
                },
                update: match update {
                    Some(u) => Some(Box::new(u.duplicate())),
                    None => None,
                },
                body: duplicate_statements(body),
            },
            Statement::ExprStmt(e) => Statement::ExprStmt(e.duplicate()),
            Statement::Block(b) => Statement::Block(duplicate_statements(b)),
            Statement::Print(e) => Statement::Print(e.duplicate()),
            Statement::Expression(e) => Statement::Expression(e.duplicate()),
            Statement::Import(name) => Statement::Import(name.clone()),
            Statement::Try { body, catch } => Statement::Try {
                body: duplicate_statements(body),
                catch: duplicate_statements(catch),
            },
        }
    }
}

/// A copy of a list of statements.
pub fn duplicate_statements(statements: &Vec<Statement>) -> (copy: Vec<Statement>)
    ensures
        statements_view(copy@) == statements_view(statements@),
    decreases statements,
{
    reveal_with_fuel(statement_view, 2);
    reveal_with_fuel(statements_view, 2);
    reveal_with_fuel(expression_view, 2);
    reveal_with_fuel(expressions_view, 2);
    let mut copy: Vec<Statement> = Vec::new();
    let mut i: usize = 0;
    while i < statements.len()
        invariant
            i <= statements.len(),
            copy.len() == i,
            forall|j: int| 0 <= j < i ==> copy@[j]@ == statements@[j]@,
        decreases statements.len() - i,
    {
        copy.push(statements[i].duplicate());
        i += 1;
    }
    assert(statements_view(copy@) =~= statements_view(statements@));
    copy
}

impl Expression {
    /// A copy of the expression.
    pub fn duplicate(&self) -> (copy: Expression)
        ensures
            copy@ == self@,
        decreases self,
    {
        reveal_with_fuel(statement_view, 2);
        reveal_with_fuel(statements_view, 2);
        reveal_with_fuel(expression_view, 2);
        reveal_with_fuel(expressions_view, 2);
        match self {
            Expression::Number(n) => Expression::Number(*n),
            Expression::Float(text) => Expression::Float(text.clone()),
            Expression::Bool(b) => Expression::Bool(*b),
            Expression::String(s) => Expression::String(s.clone()),
            Expression::Identifier(name) => Expression::Identifier(name.clone()),
            Expression::Binary { left, op, right } => Expression::Binary {
                left: Box::new(left.duplicate()),
                op: *op,
                right: Box::new(right.duplicate()),
            },
            Expression::Unary { op, expr } => Expression::Unary {
                op: *op,
                expr: Box::new(expr.duplicate()),
            },
            Expression::Call { callee, arguments } => Expression::Call {
                callee: Box::new(callee.duplicate()),
                arguments: duplicate_expressions(arguments),
            },
            Expression::Array { elements } => Expression::Array {
                elements: duplicate_expressions(elements),
            },
            Expression::ArrayAccess { array, index } => Expression::ArrayAccess {
                array: Box::new(array.duplicate()),
                index: Box::new(index.duplicate()),
            },
            Expression::Closure { params, body } => Expression::Closure {
                params: duplicate_strings(params),
                body: duplicate_statements(body),
            },
        }
    }
}

/// A copy of a list of expressions.
pub fn duplicate_expressions(expressions: &Vec<Expression>) -> (copy: Vec<Expression>)
    ensures
        expressions_view(copy@) == expressions_view(expressions@),
    decreases expressions,
{
    reveal_with_fuel(statement_view, 2);
    reveal_with_fuel(statements_view, 2);
    reveal_with_fuel(expression_view, 2);
    reveal_with_fuel(expressions_view, 2);
    let mut copy: Vec<Expression> = Vec::new();
    let mut i: usize = 0;
    while i < expressions.len()
        invariant
            i <= expressions.len(),
            copy.len() == i,
            forall|j: int| 0 <= j < i ==> copy@[j]@ == expressions@[j]@,
        decreases expressions.len() - i,
    {
        copy.push(expressions[i].duplicate());
        i += 1;
    }
    assert(expressions_view(copy@) =~= expressions_view(expressions@));
    copy
}

/// The sign of a binary operator.
pub open spec fn binary_symbol(op: BinaryOp) -> Seq<char> {
    match op {
        BinaryOp::Add => "+"@,
        BinaryOp::Subtract => "-"@,
        BinaryOp::Multiply => "*"@,
        BinaryOp::Divide => "/"@,
        BinaryOp::Modulo => "%"@,
        BinaryOp::Equal => "=="@,
        BinaryOp::NotEqual => "!="@,
        BinaryOp::LessThan => "<"@,
        BinaryOp::GreaterThan => ">"@,
        BinaryOp::LessThanOrEqual => "<="@,
        BinaryOp::GreaterThanOrEqual => ">="@,
        BinaryOp::And => "&&"@,
        BinaryOp::Or => "||"@,
    }
}

/// The sign of a unary operator.
pub open spec fn unary_symbol(op: UnaryOp) -> Seq<char> {
    match op {
        UnaryOp::Negate => "-"@,
        UnaryOp::Not => "!"@,
    }
}

impl BinaryOp {
    /// The operator as it is written in source text.
    pub fn symbol(&self) -> (s: &'static str)
        ensures
            s@ == binary_symbol(*self),
    {
        match self {
            BinaryOp::Add => "+",
            BinaryOp::Subtract => "-",
            BinaryOp::Multiply => "*",
            BinaryOp::Divide => "/",
            BinaryOp::Modulo => "%",
            BinaryOp::Equal => "==",
            BinaryOp::NotEqual => "!=",
            BinaryOp::LessThan => "<",
            BinaryOp::GreaterThan => ">",
            BinaryOp::LessThanOrEqual => "<=",
            BinaryOp::GreaterThanOrEqual => ">=",
            BinaryOp::And => "&&",
            BinaryOp::Or => "||",
        }
    }
}

impl UnaryOp {
    /// The operator as it is written in source text.
    pub fn symbol(&self) -> (s: &'static str)
        ensures
            s@ == unary_symbol(*self),
    {
        match self {
            UnaryOp::Negate => "-",
            UnaryOp::Not => "!",
        }
    }
}


/// The value of an optional statement, boxed.
pub open spec fn optional_statement_view(s: Option<Statement>) -> Option<Box<StatementView>> {
    match s {
        Some(s) => Some(Box::new(s@)),
        None => None,
    }
}

/// The value of an optional expression.
pub open spec fn optional_expression_view(e: Option<Expression>) -> Option<ExpressionView> {
    match e {
        Some(e) => Some(e@),
        None => None,
    }
}

/// The value of an optional list of statements.
pub open spec fn optional_statements_view(s: Option<Vec<Statement>>) -> Option<Seq<StatementView>> {
    match s {
        Some(s) => Some(statements_view(s@)),
        None => None,
    }
}

impl Statement {
    pub fn new_let(name: String, value: Expression) -> (s: Statement)
        ensures
            s@ == (StatementView::Let { name: name@, value: value@ }),
    {
        reveal_with_fuel(statement_view, 2);
        reveal_with_fuel(statements_view, 2);
        reveal_with_fuel(expression_view, 2);
        reveal_with_fuel(expressions_view, 2);
        Statement::Let { name, value }
    }

    pub fn new_assign(name: String, value: Expression) -> (s: Statement)
        ensures
            s@ == (StatementView::Assign { name: name@, value: value@ }),
    {
        reveal_with_fuel(statement_view, 2);
        reveal_with_fuel(statements_view, 2);
        reveal_with_fuel(expression_view, 2);
        reveal_with_fuel(expressions_view, 2);
        Statement::Assign { name, value }
    }

    pub fn new_function(
        file_prefix: String,
        is_main: bool,
        name: String,
        params: Vec<String>,
        body: Vec<Statement>,
    ) -> (s: Statement)
        ensures
            s@ == (StatementView::FunctionDef {
                file_prefix: file_prefix@,
                is_main,
                name: name@,
                params: strings_view(params@),
                body: statements_view(body@),
            }),
    {
        reveal_with_fuel(statement_view, 2);
        reveal_with_fuel(statements_view, 2);
        reveal_with_fuel(expression_view, 2);
        reveal_with_fuel(expressions_view, 2);
        Statement::FunctionDef { file_prefix, is_main, name, params, body }
    }

    pub fn new_return(value: Expression) -> (s: Statement)
        ensures
            s@ == StatementView::Return(value@),
    {
        reveal_with_fuel(statement_view, 2);
        reveal_with_fuel(statements_view, 2);
        reveal_with_fuel(expression_view, 2);
        reveal_with_fuel(expressions_view, 2);
        Statement::Return(value)
    }

    pub fn new_if(
        condition: Expression,
        then_branch: Vec<Statement>,
        else_branch: Option<Vec<Statement>>,
    ) -> (s: Statement)
        ensures
            s@ == (StatementView::If {
                condition: condition@,
                then_branch: statements_view(then_branch@),
                else_branch: optional_statements_view(else_branch),
            }),
    {
        reveal_with_fuel(statement_view, 2);
        reveal_with_fuel(statements_view, 2);
        reveal_with_fuel(expression_view, 2);
        reveal_with_fuel(expressions_view, 2);
        Statement::If { condition, then_branch, else_branch }
    }

    pub fn new_while(condition: Expression, body: Vec<Statement>) -> (s: Statement)
        ensures
            s@ == (StatementView::While { condition: condition@, body: statements_view(body@) }),
    {
        reveal_with_fuel(statement_view, 2);
        reveal_with_fuel(statements_view, 2);
        reveal_with_fuel(expression_view, 2);
        reveal_with_fuel(expressions_view, 2);
        Statement::While { condition, body }
    }

    pub fn new_for(
        init: Option<Statement>,
        condition: Option<Expression>,
        update: Option<Statement>,
        body: Vec<Statement>,
    ) -> (s: Statement)
        ensures
            s@ == (StatementView::For {
                init: optional_statement_view(init),
                condition: optional_expression_view(condition),
                update: optional_statement_view(update),
                body: statements_view(body@),
            }),
    {
        reveal_with_fuel(statement_view, 2);
        reveal_with_fuel(statements_view, 2);
        reveal_with_fuel(expression_view, 2);
        reveal_with_fuel(expressions_view, 2);
        Statement::For {
            init: match init {
                Some(i) => Some(Box::new(i)),
                None => None,
            },
            condition,
            update: match update {
                Some(u) => Some(Box::new(u)),
                None => None,
            },
            body,
        }
    }

    /// A `for` statement whose update clause is the given expression.
    pub fn new_for_loop(
        init: Option<Statement>,
        condition: Option<Expression>,
        update: Option<Expression>,
        body: Vec<Statement>,
    ) -> (s: Statement)
        ensures
            s@ == (StatementView::For {
                init: optional_statement_view(init),
                condition: optional_expression_view(condition),
                update: match optional_expression_view(update) {
                    Some(u) => Some(Box::new(StatementView::Expression(u))),
                    None => None,
                },
                body: statements_view(body@),
            }),
    {
        let update = match update {
            Some(e) => Some(Statement::new_expression(e)),
            None => None,
        };
        Statement::new_for(init, condition, update, body)
    }

    pub fn new_block(statements: Vec<Statement>) -> (s: Statement)
        ensures
            s@ == StatementView::Block(statements_view(statements@)),
    {
        reveal_with_fuel(statement_view, 2);
        reveal_with_fuel(statements_view, 2);
        reveal_with_fuel(expression_view, 2);
        reveal_with_fuel(expressions_view, 2);
        Statement::Block(statements)
    }

    pub fn new_print(value: Expression) -> (s: Statement)
        ensures
            s@ == StatementView::Print(value@),
    {
        reveal_with_fuel(statement_view, 2);
        reveal_with_fuel(statements_view, 2);
        reveal_with_fuel(expression_view, 2);
        reveal_with_fuel(expressions_view, 2);
        Statement::Print(value)
    }

    pub fn new_expression(value: Expression) -> (s: Statement)
        ensures
            s@ == StatementView::Expression(value@),
    {
        reveal_with_fuel(statement_view, 2);
        reveal_with_fuel(statements_view, 2);
        reveal_with_fuel(expression_view, 2);
        reveal_with_fuel(expressions_view, 2);
        Statement::Expression(value)
    }

    pub fn new_import(name: String) -> (s: Statement)
        ensures
            s@ == StatementView::Import(name@),
    {
        reveal_with_fuel(statement_view, 2);
        reveal_with_fuel(statements_view, 2);
        reveal_with_fuel(expression_view, 2);
        reveal_with_fuel(expressions_view, 2);
        Statement::Import(name)
    }

    pub fn new_try(body: Vec<Statement>, catch: Vec<Statement>) -> (s: Statement)
        ensures
            s@ == (StatementView::Try {
                body: statements_view(body@),
                catch: statements_view(catch@),
            }),
    {
        reveal_with_fuel(statement_view, 2);
        reveal_with_fuel(statements_view, 2);
        reveal_with_fuel(expression_view, 2);
        reveal_with_fuel(expressions_view, 2);
        Statement::Try { body, catch }
    }
}

impl Expression {
    pub fn new_number(n: i64) -> (e: Expression)
        ensures
            e@ == ExpressionView::Number(n),
    {
        reveal_with_fuel(statement_view, 2);
        reveal_with_fuel(statements_view, 2);
        reveal_with_fuel(expression_view, 2);
        reveal_with_fuel(expressions_view, 2);
        Expression::Number(n)
    }

    pub fn new_float(text: String) -> (e: Expression)
        ensures
            e@ == ExpressionView::Float(text@),
    {
        reveal_with_fuel(statement_view, 2);
        reveal_with_fuel(statements_view, 2);
        reveal_with_fuel(expression_view, 2);
        reveal_with_fuel(expressions_view, 2);
        Expression::Float(text)
    }

    pub fn new_bool(b: bool) -> (e: Expression)
        ensures
            e@ == ExpressionView::Bool(b),
    {
        reveal_with_fuel(statement_view, 2);
        reveal_with_fuel(statements_view, 2);
        reveal_with_fuel(expression_view, 2);
        reveal_with_fuel(expressions_view, 2);
        Expression::Bool(b)
    }

    pub fn new_string(s: String) -> (e: Expression)
        ensures
            e@ == ExpressionView::String(s@),
    {
        reveal_with_fuel(statement_view, 2);
        reveal_with_fuel(statements_view, 2);
        reveal_with_fuel(expression_view, 2);
        reveal_with_fuel(expressions_view, 2);
        Expression::String(s)
    }

    pub fn new_identifier(name: String) -> (e: Expression)
        ensures
            e@ == ExpressionView::Identifier(name@),
    {
        reveal_with_fuel(statement_view, 2);
        reveal_with_fuel(statements_view, 2);
        reveal_with_fuel(expression_view, 2);
        reveal_with_fuel(expressions_view, 2);
        Expression::Identifier(name)
    }

    pub fn new_binary(left: Expression, op: BinaryOp, right: Expression) -> (e: Expression)
        ensures
            e@ == (ExpressionView::Binary { left: Box::new(left@), op, right: Box::new(right@) }),
    {
        reveal_with_fuel(statement_view, 2);
        reveal_with_fuel(statements_view, 2);
        reveal_with_fuel(expression_view, 2);
        reveal_with_fuel(expressions_view, 2);
        Expression::Binary { left: Box::new(left), op, right: Box::new(right) }
    }

    pub fn new_unary(op: UnaryOp, operand: Expression) -> (e: Expression)
        ensures
            e@ == (ExpressionView::Unary { op, expr: Box::new(operand@) }),
    {
        reveal_with_fuel(statement_view, 2);
        reveal_with_fuel(statements_view, 2);
        reveal_with_fuel(expression_view, 2);
        reveal_with_fuel(expressions_view, 2);
        Expression::Unary { op, expr: Box::new(operand) }
    }

    pub fn new_call(callee: Expression, arguments: Vec<Expression>) -> (e: Expression)
        ensures
            e@ == (ExpressionView::Call {
                callee: Box::new(callee@),
                arguments: expressions_view(arguments@),
            }),
    {
        reveal_with_fuel(statement_view, 2);
        reveal_with_fuel(statements_view, 2);
        reveal_with_fuel(expression_view, 2);
        reveal_with_fuel(expressions_view, 2);
        Expression::Call { callee: Box::new(callee), arguments }
    }

    pub fn new_array(elements: Vec<Expression>) -> (e: Expression)
        ensures
            e@ == (ExpressionView::Array { elements: expressions_view(elements@) }),
    {
        reveal_with_fuel(statement_view, 2);
        reveal_with_fuel(statements_view, 2);
        reveal_with_fuel(expression_view, 2);
        reveal_with_fuel(expressions_view, 2);
        Expression::Array { elements }
    }

    pub fn new_array_access(array: Expression, index: Expression) -> (e: Expression)
        ensures
            e@ == (ExpressionView::ArrayAccess {
                array: Box::new(array@),
                index: Box::new(index@),
            }),
    {
        reveal_with_fuel(statement_view, 2);
        reveal_with_fuel(statements_view, 2);
        reveal_with_fuel(expression_view, 2);
        reveal_with_fuel(expressions_view, 2);
        Expression::ArrayAccess { array: Box::new(array), index: Box::new(index) }
    }

    pub fn new_closure(params: Vec<String>, body: Vec<Statement>) -> (e: Expression)
        ensures
            e@ == (ExpressionView::Closure {
                params: strings_view(params@),
                body: statements_view(body@),
            }),
    {
        reveal_with_fuel(statement_view, 2);
        reveal_with_fuel(statements_view, 2);
        reveal_with_fuel(expression_view, 2);
        reveal_with_fuel(expressions_view, 2);
        Expression::Closure { params, body }
    }
}

/// What can stand on the left of `=`.
pub enum AssignmentTarget {
    /// A variable.
    Variable(String),
    /// An element of an array: the array and the index.
    Element(Expression, Expression),
    /// Anything else.
    Other,
}

impl Expression {
    /// The expression as the target of an assignment.
    pub fn into_target(self) -> (t: AssignmentTarget)
        ensures
            match t {
                AssignmentTarget::Variable(name) => self@ == ExpressionView::Identifier(name@),
                AssignmentTarget::Element(array, index) => self@ == (ExpressionView::ArrayAccess {
                    array: Box::new(array@),
                    index: Box::new(index@),
                }),
                AssignmentTarget::Other => !(self@ is Identifier) && !(self@ is ArrayAccess),
            },
    {
        reveal_with_fuel(statement_view, 2);
        reveal_with_fuel(statements_view, 2);
        reveal_with_fuel(expression_view, 2);
        reveal_with_fuel(expressions_view, 2);
        match self {
            Expression::Identifier(name) => AssignmentTarget::Variable(name),
            Expression::ArrayAccess { array, index } => AssignmentTarget::Element(*array, *index),
            _ => AssignmentTarget::Other,
        }
    }
}

/// An empty list of statements.
pub fn no_statements() -> (v: Vec<Statement>)
    ensures
        statements_view(v@) == Seq::<StatementView>::empty(),
{
    reveal_with_fuel(statement_view, 2);
    reveal_with_fuel(statements_view, 2);
    reveal_with_fuel(expression_view, 2);
    reveal_with_fuel(expressions_view, 2);
    let v: Vec<Statement> = Vec::new();
    assert(statements_view(v@) =~= Seq::<StatementView>::empty());
    v
}

/// Adds a statement to the end of a list.
pub fn push_statement(v: &mut Vec<Statement>, s: Statement)
    ensures
        statements_view(final(v)@) == statements_view(old(v)@).push(s@),
{
    proof {
        lemma_statements_push(v@, s);
    }
    v.push(s);
}

/// An empty list of expressions.
pub fn no_expressions() -> (v: Vec<Expression>)
    ensures
        expressions_view(v@) == Seq::<ExpressionView>::empty(),
        v@.len() == 0,
{
    reveal_with_fuel(statement_view, 2);
    reveal_with_fuel(statements_view, 2);
    reveal_with_fuel(expression_view, 2);
    reveal_with_fuel(expressions_view, 2);
    let v: Vec<Expression> = Vec::new();
    assert(expressions_view(v@) =~= Seq::<ExpressionView>::empty());
    v
}

/// Adds an expression to the end of a list.
pub fn push_expression(v: &mut Vec<Expression>, e: Expression)
    ensures
        expressions_view(final(v)@) == expressions_view(old(v)@).push(e@),
        final(v)@.len() == old(v)@.len() + 1,
        expressions_view(final(v)@).len() == final(v)@.len(),
{
    proof {
        lemma_expressions_push(v@, e);
        lemma_expressions_view(v@.push(e));
    }
    v.push(e);
}

/// An empty list of names.
pub fn no_names() -> (v: Vec<String>)
    ensures
        strings_view(v@) == Seq::<Seq<char>>::empty(),
{
    let v: Vec<String> = Vec::new();
    assert(strings_view(v@) =~= Seq::<Seq<char>>::empty());
    v
}

/// Adds a name to the end of a list.
pub fn push_name(v: &mut Vec<String>, name: String)
    ensures
        strings_view(final(v)@) == strings_view(old(v)@).push(name@),
{
    proof {
        lemma_strings_push(v@, name);
    }
    v.push(name);
}

/// The name that an assignment to a variable inside an expression is a call of.
pub open spec fn assign_intrinsic() -> Seq<char> {
    "__assign"@
}

/// The name that an assignment to an element of an array is a call of.
pub open spec fn array_assign_intrinsic() -> Seq<char> {
    "__array_assign"@
}

/// Whether a call is an assignment to a variable.
pub open spec fn is_assign_form(callee: ExpressionView, arguments: Seq<ExpressionView>) -> bool {
    callee == ExpressionView::Identifier(assign_intrinsic()) && arguments.len() == 2
        && arguments[0] is Identifier
}

/// Whether a call is an assignment to an element of an array.
pub open spec fn is_array_assign_form(callee: ExpressionView, arguments: Seq<ExpressionView>) -> bool {
    callee == ExpressionView::Identifier(array_assign_intrinsic()) && arguments.len() == 3
}

/// An assignment to a variable, as the call that stands for it.
pub open spec fn assign_call(name: Seq<char>, value: ExpressionView) -> ExpressionView {
    ExpressionView::Call {
        callee: Box::new(ExpressionView::Identifier(assign_intrinsic())),
        arguments: seq![ExpressionView::Identifier(name), value],
    }
}

/// An assignment to an element of an array, as the call that stands for it.
pub open spec fn array_assign_call(
    array: ExpressionView,
    index: ExpressionView,
    value: ExpressionView,
) -> ExpressionView {
    ExpressionView::Call {
        callee: Box::new(ExpressionView::Identifier(array_assign_intrinsic())),
        arguments: seq![array, index, value],
    }
}

/// Whether an expression is an assignment to a variable.
pub open spec fn is_assignment(e: ExpressionView) -> bool {
    e matches ExpressionView::Call { callee, arguments } && is_assign_form(*callee, arguments)
}

/// The variable that an assignment assigns to.
pub open spec fn assigned_name(e: ExpressionView) -> Seq<char>
    recommends
        is_assignment(e),
{
    e->arguments[0]->Identifier_0
}

/// The value that an assignment assigns.
pub open spec fn assigned_value(e: ExpressionView) -> ExpressionView
    recommends
        is_assignment(e),
{
    e->arguments[1]
}

impl Expression {
    /// An assignment to a variable, as the call that stands for it.
    pub fn new_assignment(name: String, value: Expression) -> (e: Expression)
        ensures
            e@ == assign_call(name@, value@),
    {
        reveal_with_fuel(statement_view, 2);
        reveal_with_fuel(statements_view, 2);
        reveal_with_fuel(expression_view, 2);
        reveal_with_fuel(expressions_view, 2);
        let mut arguments: Vec<Expression> = Vec::new();
        arguments.push(Expression::Identifier(name));
        arguments.push(value);
        assert(expressions_view(arguments@) =~= seq![ExpressionView::Identifier(name@), value@]);
        Expression::Call {
            callee: Box::new(Expression::Identifier(String::from_str("__assign"))),
            arguments,
        }
    }

    /// An assignment to an element of an array, as the call that stands for
    /// it.
    pub fn new_element_assignment(array: Expression, index: Expression, value: Expression) -> (e:
        Expression)
        ensures
            e@ == array_assign_call(array@, index@, value@),
    {
        reveal_with_fuel(statement_view, 2);
        reveal_with_fuel(statements_view, 2);
        reveal_with_fuel(expression_view, 2);
        reveal_with_fuel(expressions_view, 2);
        let ghost a = array@;
        let ghost i = index@;
        let mut arguments: Vec<Expression> = Vec::new();
        arguments.push(array);
        arguments.push(index);
        arguments.push(value);
        assert(expressions_view(arguments@) =~= seq![a, i, value@]);
        Expression::Call {
            callee: Box::new(Expression::Identifier(String::from_str("__array_assign"))),
            arguments,
        }
    }

    /// The variable and the value of an assignment to a variable, or the
    /// expression itself where it is none.
    pub fn into_assignment(self) -> (r: Result<(String, Expression), Expression>)
        ensures
            match r {
                Ok(parts) => self@ == assign_call(parts.0@, parts.1@) && is_assignment(self@)
                    && assigned_name(self@) == parts.0@ && assigned_value(self@) == parts.1@,
                Err(e) => e@ == self@ && !is_assignment(self@),
            },
    {
        proof {
            lemma_expression_view(self);
        }
        match self {
            Expression::Call { callee, arguments } => {
                proof {
                    lemma_expression_view(*callee);
                    lemma_expressions_view(arguments@);
                    if arguments@.len() > 0 {
                        lemma_expression_view(arguments@[0]);
                    }
                }
                let named = match &*callee {
                    Expression::Identifier(word) => crate::text::is_word(word, "__assign"),
                    _ => false,
                };
                let shaped = named && arguments.len() == 2 && match &arguments[0] {
                    Expression::Identifier(_) => true,
                    _ => false,
                };
                if shaped {
                    let ghost before = expressions_view(arguments@);
                    let ghost first = arguments@[0];
                    let ghost second = arguments@[1];
                    let mut arguments = arguments;
                    let value = arguments.pop();
                    let target = arguments.pop();
                    match (target, value) {
                        (Some(Expression::Identifier(name)), Some(value)) => {
                            proof {
                                assert(value == second);
                                assert(first == Expression::Identifier(name));
                                assert(before.len() == 2);
                                assert(before[0] == ExpressionView::Identifier(name@));
                                assert(before[1] == value@);
                                assert(before =~= seq![
                                    ExpressionView::Identifier(name@),
                                    value@,
                                ]);
                            }
                            Ok((name, value))
                        },
                        (_, _) => Err(Expression::Bool(false)),
                    }
                } else {
                    let e = Expression::Call { callee, arguments };
                    proof {
                        lemma_expression_view(e);
                    }
                    Err(e)
                }
            },
            other => Err(other),
        }
    }
}

} // verus!
