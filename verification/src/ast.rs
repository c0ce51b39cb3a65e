//! The abstract syntax tree of Leo programs.

pub mod core_function;
pub mod types;
pub mod instruction;
pub mod function_stub;
pub mod circuit;
pub mod statement;
pub mod value;
