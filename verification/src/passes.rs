//! The compiler passes over the abstract syntax tree.

pub mod errors;
pub mod symbol_table;
pub mod type_checker;
pub mod check_instruction;
pub mod call_graph;
pub mod check_statements;
pub mod check_blocks;
