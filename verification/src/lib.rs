//! A small imperative scripting language: tokenizer, parser and evaluator.
//!
//! Source text becomes tokens ([`lexer`]), tokens become a syntax tree
//! ([`parser`], by the productions of [`grammar`]), and the tree is walked
//! ([`interpreter`], [`program`]). What each step does is stated as a
//! mathematical function of its input: [`lexer::lex_from`] for the tokens,
//! [`grammar::program`] for the tree, [`semantics`] for evaluation. The
//! modules [`laws`] and [`scoping`] hold what follows for every program.
//!
//! The library prints nothing and reads no file. A run collects the lines
//! that the program prints, takes the sources of imported modules from its
//! caller, and takes the results of floating-point arithmetic from a table
//! of facts ([`floats`]) that the caller fills in.

pub mod text;
pub mod lexer;
pub mod ast;
pub mod floats;
pub mod fault;
pub mod value;
pub mod semantics;
pub mod interpreter;
pub mod grammar;
pub mod parser;
pub mod productions;
pub mod import;
pub mod program;
pub mod laws;
pub mod scoping;
pub mod codegen;
pub mod messages;
