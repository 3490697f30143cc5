//! Constraint pipeline: a typed constraint algebra, its translation to
//! linear integer arithmetic with a checked model semantics, a schema
//! registry, and emission of validation code for seven target languages.

pub mod ast;
pub mod text;
pub mod schema;
pub mod codegen;
pub mod strategies;
pub mod generator;
pub mod smt;
pub mod intent;
pub mod frontend;
pub mod parser;
