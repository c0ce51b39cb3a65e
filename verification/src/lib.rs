//! A verified core of the Leo compiler: its type representation, the core
//! library functions, the type-checking rules for core calls, bytecode
//! instructions and statements, the call graph and its cycles, checked integer
//! arithmetic, circuit values, and the supporting data types of its packages and
//! command-line tools.

pub mod span;
pub mod ast;
pub mod passes;
pub mod compiler;
pub mod asg;
pub mod package;
pub mod retriever;
pub mod cli;
pub mod symbols;
pub mod parser;
