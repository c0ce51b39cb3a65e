//! Bytecode instructions written inline in Leo programs.

use vstd::prelude::*;

use crate::ast::types::{Identifier, Type};
use crate::span::Span;

verus! {

/// The opcodes of the instructions.
#[derive(Clone, Copy, Debug, PartialEq, Eq, Structural)]
pub enum Opcode {
    Abs,
    AbsWrapped,
    Add,
    Div,
    Sub,
    AddWrapped,
    DivWrapped,
    Mul,
    MulWrapped,
    Rem,
    RemWrapped,
    SubWrapped,
    AssertEq,
    AssertNeq,
    CommitBHP256,
    CommitBHP512,
    CommitBHP768,
    CommitBHP1024,
    CommitPED64,
    CommitPED128,
    Double,
    GreaterThan,
    GreaterThanOrEqual,
    LessThan,
    LessThanOrEqual,
    HashBHP256,
    HashBHP512,
    HashBHP768,
    HashBHP1024,
    HashPED64,
    HashPED128,
    HashPSD2,
    HashPSD4,
    HashPSD8,
    Inv,
    Square,
    SquareRoot,
    IsEq,
    IsNeq,
    Modulo,
    Nand,
    Nor,
    Neg,
    And,
    Not,
    Or,
    Xor,
    Pow,
    PowWrapped,
    Shl,
    ShlWrapped,
    Shr,
    ShrWrapped,
    Ternary,
}

/// An operand of an instruction, with the type that checking its expression produced
/// (`None` where that check found no type).
#[derive(Debug)]
pub struct Operand {
    pub type_: Option<Type>,
    pub span: Span,
}

/// An instruction: an opcode, its operands and the registers it writes.
#[derive(Debug)]
pub struct Instruction {
    pub opcode: Opcode,
    pub operands: Vec<Operand>,
    pub destinations: Vec<Identifier>,
    pub span: Span,
}

} // verus!
