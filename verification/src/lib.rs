//! A small expression-oriented scripting language: a recursive-descent
//! parser from a lexed token stream to an abstract syntax tree, and a
//! tree-walking evaluator over a flat name-to-value environment.
pub mod ast;
pub mod env;
pub mod interperter;
pub mod num;
pub mod parser;
