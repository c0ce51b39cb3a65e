//! The type rules of the bytecode instructions that Leo programs may contain.

use vstd::prelude::*;

use crate::ast::instruction::{Instruction, Opcode, Operand};
use crate::ast::types::{types_eq_flat, Identifier, IntegerType, Type};
use crate::passes::errors::{InstructionPart, TypeCheckerError};
use crate::passes::symbol_table::{SymbolTable, VariableSymbol, VariableType};
use crate::span::Symbol;
use crate::passes::type_checker::{declare_effect, eq_types_errors, type_errors, TypeChecker, TypeClass};

verus! {

/// The types that appear in the signatures of instructions.
#[derive(Clone, Copy, Debug, PartialEq, Eq, Structural)]
pub enum SimpleType {
    Boolean,
    Field,
    Group,
    Scalar,
    Int(IntegerType),
}

impl SimpleType {
    /// The type that the simple type stands for.
    pub open spec fn spec_to_type(self) -> Type {
        match self {
            SimpleType::Boolean => Type::Boolean,
            SimpleType::Field => Type::Field,
            SimpleType::Group => Type::Group,
            SimpleType::Scalar => Type::Scalar,
            SimpleType::Int(i) => Type::Integer(i),
        }
    }

    /// Returns the type that the simple type stands for.
    pub fn to_type(&self) -> (t: Type)
        ensures
            t == self.spec_to_type(),
    {
        match self {
            SimpleType::Boolean => Type::Boolean,
            SimpleType::Field => Type::Field,
            SimpleType::Group => Type::Group,
            SimpleType::Scalar => Type::Scalar,
            SimpleType::Int(i) => Type::Integer(*i),
        }
    }
}

/// A signature of an instruction: the types of its operands and the type of its destination.
pub type Signature = (Seq<SimpleType>, SimpleType);

/// The signatures of the instructions that are checked against a table, in the order in which
/// they are tried; empty for the other opcodes.
pub open spec fn signatures(op: Opcode) -> Seq<Signature> {
    match op {
        Opcode::Abs | Opcode::AbsWrapped => seq![
            (seq![SimpleType::Int(IntegerType::I8)], SimpleType::Int(IntegerType::I8)),
            (seq![SimpleType::Int(IntegerType::I16)], SimpleType::Int(IntegerType::I16)),
            (seq![SimpleType::Int(IntegerType::I32)], SimpleType::Int(IntegerType::I32)),
            (seq![SimpleType::Int(IntegerType::I64)], SimpleType::Int(IntegerType::I64)),
            (seq![SimpleType::Int(IntegerType::I128)], SimpleType::Int(IntegerType::I128)),
        ],
        Opcode::Add | Opcode::Div | Opcode::Sub => seq![
            (seq![SimpleType::Field, SimpleType::Field], SimpleType::Field),
            (seq![SimpleType::Int(IntegerType::I8), SimpleType::Int(IntegerType::I8)], SimpleType::Int(IntegerType::I8)),
            (seq![SimpleType::Int(IntegerType::I16), SimpleType::Int(IntegerType::I16)], SimpleType::Int(IntegerType::I16)),
            (seq![SimpleType::Int(IntegerType::I32), SimpleType::Int(IntegerType::I32)], SimpleType::Int(IntegerType::I32)),
            (seq![SimpleType::Int(IntegerType::I64), SimpleType::Int(IntegerType::I64)], SimpleType::Int(IntegerType::I64)),
            (seq![SimpleType::Int(IntegerType::I128), SimpleType::Int(IntegerType::I128)], SimpleType::Int(IntegerType::I128)),
            (seq![SimpleType::Int(IntegerType::U8), SimpleType::Int(IntegerType::U8)], SimpleType::Int(IntegerType::U8)),
            (seq![SimpleType::Int(IntegerType::U16), SimpleType::Int(IntegerType::U16)], SimpleType::Int(IntegerType::U16)),
            (seq![SimpleType::Int(IntegerType::U32), SimpleType::Int(IntegerType::U32)], SimpleType::Int(IntegerType::U32)),
            (seq![SimpleType::Int(IntegerType::U64), SimpleType::Int(IntegerType::U64)], SimpleType::Int(IntegerType::U64)),
            (seq![SimpleType::Int(IntegerType::U128), SimpleType::Int(IntegerType::U128)], SimpleType::Int(IntegerType::U128)),
        ],
        Opcode::AddWrapped | Opcode::DivWrapped | Opcode::MulWrapped | Opcode::Rem | Opcode::RemWrapped | Opcode::SubWrapped => seq![
            (seq![SimpleType::Int(IntegerType::I8), SimpleType::Int(IntegerType::I8)], SimpleType::Int(IntegerType::I8)),
            (seq![SimpleType::Int(IntegerType::I16), SimpleType::Int(IntegerType::I16)], SimpleType::Int(IntegerType::I16)),
            (seq![SimpleType::Int(IntegerType::I32), SimpleType::Int(IntegerType::I32)], SimpleType::Int(IntegerType::I32)),
            (seq![SimpleType::Int(IntegerType::I64), SimpleType::Int(IntegerType::I64)], SimpleType::Int(IntegerType::I64)),
            (seq![SimpleType::Int(IntegerType::I128), SimpleType::Int(IntegerType::I128)], SimpleType::Int(IntegerType::I128)),
            (seq![SimpleType::Int(IntegerType::U8), SimpleType::Int(IntegerType::U8)], SimpleType::Int(IntegerType::U8)),
            (seq![SimpleType::Int(IntegerType::U16), SimpleType::Int(IntegerType::U16)], SimpleType::Int(IntegerType::U16)),
            (seq![SimpleType::Int(IntegerType::U32), SimpleType::Int(IntegerType::U32)], SimpleType::Int(IntegerType::U32)),
            (seq![SimpleType::Int(IntegerType::U64), SimpleType::Int(IntegerType::U64)], SimpleType::Int(IntegerType::U64)),
            (seq![SimpleType::Int(IntegerType::U128), SimpleType::Int(IntegerType::U128)], SimpleType::Int(IntegerType::U128)),
        ],
        Opcode::Double => seq![
            (seq![SimpleType::Field], SimpleType::Field),
            (seq![SimpleType::Group], SimpleType::Group),
        ],
        Opcode::GreaterThan | Opcode::GreaterThanOrEqual | Opcode::LessThan | Opcode::LessThanOrEqual => seq![
            (seq![SimpleType::Field, SimpleType::Field], SimpleType::Boolean),
            (seq![SimpleType::Int(IntegerType::I8), SimpleType::Int(IntegerType::I8)], SimpleType::Boolean),
            (seq![SimpleType::Int(IntegerType::I16), SimpleType::Int(IntegerType::I16)], SimpleType::Boolean),
            (seq![SimpleType::Int(IntegerType::I32), SimpleType::Int(IntegerType::I32)], SimpleType::Boolean),
            (seq![SimpleType::Int(IntegerType::I64), SimpleType::Int(IntegerType::I64)], SimpleType::Boolean),
            (seq![SimpleType::Int(IntegerType::I128), SimpleType::Int(IntegerType::I128)], SimpleType::Boolean),
            (seq![SimpleType::Int(IntegerType::U8), SimpleType::Int(IntegerType::U8)], SimpleType::Boolean),
            (seq![SimpleType::Int(IntegerType::U16), SimpleType::Int(IntegerType::U16)], SimpleType::Boolean),
            (seq![SimpleType::Int(IntegerType::U32), SimpleType::Int(IntegerType::U32)], SimpleType::Boolean),
            (seq![SimpleType::Int(IntegerType::U64), SimpleType::Int(IntegerType::U64)], SimpleType::Boolean),
            (seq![SimpleType::Int(IntegerType::U128), SimpleType::Int(IntegerType::U128)], SimpleType::Boolean),
            (seq![SimpleType::Scalar, SimpleType::Scalar], SimpleType::Boolean),
        ],
        Opcode::Inv | Opcode::Square | Opcode::SquareRoot => seq![
            (seq![SimpleType::Field], SimpleType::Field),
        ],
        Opcode::Modulo => seq![
            (seq![SimpleType::Int(IntegerType::U8), SimpleType::Int(IntegerType::U8)], SimpleType::Int(IntegerType::U8)),
            (seq![SimpleType::Int(IntegerType::U16), SimpleType::Int(IntegerType::U16)], SimpleType::Int(IntegerType::U16)),
            (seq![SimpleType::Int(IntegerType::U32), SimpleType::Int(IntegerType::U32)], SimpleType::Int(IntegerType::U32)),
            (seq![SimpleType::Int(IntegerType::U64), SimpleType::Int(IntegerType::U64)], SimpleType::Int(IntegerType::U64)),
            (seq![SimpleType::Int(IntegerType::U128), SimpleType::Int(IntegerType::U128)], SimpleType::Int(IntegerType::U128)),
        ],
        Opcode::Mul => seq![
            (seq![SimpleType::Field, SimpleType::Field], SimpleType::Field),
            (seq![SimpleType::Group, SimpleType::Scalar], SimpleType::Group),
            (seq![SimpleType::Scalar, SimpleType::Group], SimpleType::Group),
            (seq![SimpleType::Int(IntegerType::I8), SimpleType::Int(IntegerType::I8)], SimpleType::Int(IntegerType::I8)),
            (seq![SimpleType::Int(IntegerType::I16), SimpleType::Int(IntegerType::I16)], SimpleType::Int(IntegerType::I16)),
            (seq![SimpleType::Int(IntegerType::I32), SimpleType::Int(IntegerType::I32)], SimpleType::Int(IntegerType::I32)),
            (seq![SimpleType::Int(IntegerType::I64), SimpleType::Int(IntegerType::I64)], SimpleType::Int(IntegerType::I64)),
            (seq![SimpleType::Int(IntegerType::I128), SimpleType::Int(IntegerType::I128)], SimpleType::Int(IntegerType::I128)),
            (seq![SimpleType::Int(IntegerType::U8), SimpleType::Int(IntegerType::U8)], SimpleType::Int(IntegerType::U8)),
            (seq![SimpleType::Int(IntegerType::U16), SimpleType::Int(IntegerType::U16)], SimpleType::Int(IntegerType::U16)),
            (seq![SimpleType::Int(IntegerType::U32), SimpleType::Int(IntegerType::U32)], SimpleType::Int(IntegerType::U32)),
            (seq![SimpleType::Int(IntegerType::U64), SimpleType::Int(IntegerType::U64)], SimpleType::Int(IntegerType::U64)),
            (seq![SimpleType::Int(IntegerType::U128), SimpleType::Int(IntegerType::U128)], SimpleType::Int(IntegerType::U128)),
        ],
        Opcode::Nand | Opcode::Nor => seq![
            (seq![SimpleType::Boolean, SimpleType::Boolean], SimpleType::Boolean),
        ],
        Opcode::Neg => seq![
            (seq![SimpleType::Field], SimpleType::Field),
            (seq![SimpleType::Group], SimpleType::Group),
            (seq![SimpleType::Int(IntegerType::I8)], SimpleType::Int(IntegerType::I8)),
            (seq![SimpleType::Int(IntegerType::I16)], SimpleType::Int(IntegerType::I16)),
            (seq![SimpleType::Int(IntegerType::I32)], SimpleType::Int(IntegerType::I32)),
            (seq![SimpleType::Int(IntegerType::I64)], SimpleType::Int(IntegerType::I64)),
            (seq![SimpleType::Int(IntegerType::I128)], SimpleType::Int(IntegerType::I128)),
        ],
        Opcode::And | Opcode::Not | Opcode::Or | Opcode::Xor => seq![
            (seq![SimpleType::Boolean, SimpleType::Boolean], SimpleType::Boolean),
            (seq![SimpleType::Int(IntegerType::I8), SimpleType::Int(IntegerType::I8)], SimpleType::Int(IntegerType::I8)),
            (seq![SimpleType::Int(IntegerType::I16), SimpleType::Int(IntegerType::I16)], SimpleType::Int(IntegerType::I16)),
            (seq![SimpleType::Int(IntegerType::I32), SimpleType::Int(IntegerType::I32)], SimpleType::Int(IntegerType::I32)),
            (seq![SimpleType::Int(IntegerType::I64), SimpleType::Int(IntegerType::I64)], SimpleType::Int(IntegerType::I64)),
            (seq![SimpleType::Int(IntegerType::I128), SimpleType::Int(IntegerType::I128)], SimpleType::Int(IntegerType::I128)),
            (seq![SimpleType::Int(IntegerType::U8), SimpleType::Int(IntegerType::U8)], SimpleType::Int(IntegerType::U8)),
            (seq![SimpleType::Int(IntegerType::U16), SimpleType::Int(IntegerType::U16)], SimpleType::Int(IntegerType::U16)),
            (seq![SimpleType::Int(IntegerType::U32), SimpleType::Int(IntegerType::U32)], SimpleType::Int(IntegerType::U32)),
            (seq![SimpleType::Int(IntegerType::U64), SimpleType::Int(IntegerType::U64)], SimpleType::Int(IntegerType::U64)),
            (seq![SimpleType::Int(IntegerType::U128), SimpleType::Int(IntegerType::U128)], SimpleType::Int(IntegerType::U128)),
        ],
        Opcode::Pow | Opcode::PowWrapped | Opcode::Shl | Opcode::ShlWrapped | Opcode::Shr | Opcode::ShrWrapped => seq![
            (seq![SimpleType::Int(IntegerType::I8), SimpleType::Int(IntegerType::U8)], SimpleType::Int(IntegerType::I8)),
            (seq![SimpleType::Int(IntegerType::I8), SimpleType::Int(IntegerType::U16)], SimpleType::Int(IntegerType::I8)),
            (seq![SimpleType::Int(IntegerType::I8), SimpleType::Int(IntegerType::U32)], SimpleType::Int(IntegerType::I8)),
            (seq![SimpleType::Int(IntegerType::I16), SimpleType::Int(IntegerType::U8)], SimpleType::Int(IntegerType::I16)),
            (seq![SimpleType::Int(IntegerType::I16), SimpleType::Int(IntegerType::U16)], SimpleType::Int(IntegerType::I16)),
            (seq![SimpleType::Int(IntegerType::I16), SimpleType::Int(IntegerType::U32)], SimpleType::Int(IntegerType::I16)),
            (seq![SimpleType::Int(IntegerType::I32), SimpleType::Int(IntegerType::U8)], SimpleType::Int(IntegerType::I32)),
            (seq![SimpleType::Int(IntegerType::I32), SimpleType::Int(IntegerType::U16)], SimpleType::Int(IntegerType::I32)),
            (seq![SimpleType::Int(IntegerType::I32), SimpleType::Int(IntegerType::U32)], SimpleType::Int(IntegerType::I32)),
            (seq![SimpleType::Int(IntegerType::I64), SimpleType::Int(IntegerType::U8)], SimpleType::Int(IntegerType::I64)),
            (seq![SimpleType::Int(IntegerType::I64), SimpleType::Int(IntegerType::U16)], SimpleType::Int(IntegerType::I64)),
            (seq![SimpleType::Int(IntegerType::I64), SimpleType::Int(IntegerType::U32)], SimpleType::Int(IntegerType::I64)),
            (seq![SimpleType::Int(IntegerType::I128), SimpleType::Int(IntegerType::U8)], SimpleType::Int(IntegerType::I128)),
            (seq![SimpleType::Int(IntegerType::I128), SimpleType::Int(IntegerType::U16)], SimpleType::Int(IntegerType::I128)),
            (seq![SimpleType::Int(IntegerType::I128), SimpleType::Int(IntegerType::U32)], SimpleType::Int(IntegerType::I128)),
            (seq![SimpleType::Int(IntegerType::U8), SimpleType::Int(IntegerType::U8)], SimpleType::Int(IntegerType::U8)),
            (seq![SimpleType::Int(IntegerType::U8), SimpleType::Int(IntegerType::U16)], SimpleType::Int(IntegerType::U8)),
            (seq![SimpleType::Int(IntegerType::U8), SimpleType::Int(IntegerType::U32)], SimpleType::Int(IntegerType::U8)),
            (seq![SimpleType::Int(IntegerType::U16), SimpleType::Int(IntegerType::U8)], SimpleType::Int(IntegerType::U16)),
            (seq![SimpleType::Int(IntegerType::U16), SimpleType::Int(IntegerType::U16)], SimpleType::Int(IntegerType::U16)),
            (seq![SimpleType::Int(IntegerType::U16), SimpleType::Int(IntegerType::U32)], SimpleType::Int(IntegerType::U16)),
            (seq![SimpleType::Int(IntegerType::U32), SimpleType::Int(IntegerType::U8)], SimpleType::Int(IntegerType::U32)),
            (seq![SimpleType::Int(IntegerType::U32), SimpleType::Int(IntegerType::U16)], SimpleType::Int(IntegerType::U32)),
            (seq![SimpleType::Int(IntegerType::U32), SimpleType::Int(IntegerType::U32)], SimpleType::Int(IntegerType::U32)),
            (seq![SimpleType::Int(IntegerType::U64), SimpleType::Int(IntegerType::U8)], SimpleType::Int(IntegerType::U64)),
            (seq![SimpleType::Int(IntegerType::U64), SimpleType::Int(IntegerType::U16)], SimpleType::Int(IntegerType::U64)),
            (seq![SimpleType::Int(IntegerType::U64), SimpleType::Int(IntegerType::U32)], SimpleType::Int(IntegerType::U64)),
            (seq![SimpleType::Int(IntegerType::U128), SimpleType::Int(IntegerType::U8)], SimpleType::Int(IntegerType::U128)),
            (seq![SimpleType::Int(IntegerType::U128), SimpleType::Int(IntegerType::U16)], SimpleType::Int(IntegerType::U128)),
            (seq![SimpleType::Int(IntegerType::U128), SimpleType::Int(IntegerType::U32)], SimpleType::Int(IntegerType::U128)),
        ],
        Opcode::Ternary => seq![
            (seq![SimpleType::Boolean, SimpleType::Boolean, SimpleType::Boolean], SimpleType::Boolean),
            (seq![SimpleType::Boolean, SimpleType::Field, SimpleType::Field], SimpleType::Field),
            (seq![SimpleType::Boolean, SimpleType::Group, SimpleType::Group], SimpleType::Group),
            (seq![SimpleType::Boolean, SimpleType::Int(IntegerType::I8), SimpleType::Int(IntegerType::I8)], SimpleType::Int(IntegerType::I8)),
            (seq![SimpleType::Boolean, SimpleType::Int(IntegerType::I16), SimpleType::Int(IntegerType::I16)], SimpleType::Int(IntegerType::I16)),
            (seq![SimpleType::Boolean, SimpleType::Int(IntegerType::I32), SimpleType::Int(IntegerType::I32)], SimpleType::Int(IntegerType::I32)),
            (seq![SimpleType::Boolean, SimpleType::Int(IntegerType::I64), SimpleType::Int(IntegerType::I64)], SimpleType::Int(IntegerType::I64)),
            (seq![SimpleType::Boolean, SimpleType::Int(IntegerType::I128), SimpleType::Int(IntegerType::I128)], SimpleType::Int(IntegerType::I128)),
            (seq![SimpleType::Boolean, SimpleType::Int(IntegerType::U8), SimpleType::Int(IntegerType::U8)], SimpleType::Int(IntegerType::U8)),
            (seq![SimpleType::Boolean, SimpleType::Int(IntegerType::U16), SimpleType::Int(IntegerType::U16)], SimpleType::Int(IntegerType::U16)),
            (seq![SimpleType::Boolean, SimpleType::Int(IntegerType::U32), SimpleType::Int(IntegerType::U32)], SimpleType::Int(IntegerType::U32)),
            (seq![SimpleType::Boolean, SimpleType::Int(IntegerType::U64), SimpleType::Int(IntegerType::U64)], SimpleType::Int(IntegerType::U64)),
            (seq![SimpleType::Boolean, SimpleType::Int(IntegerType::U128), SimpleType::Int(IntegerType::U128)], SimpleType::Int(IntegerType::U128)),
            (seq![SimpleType::Boolean, SimpleType::Scalar, SimpleType::Scalar], SimpleType::Scalar),
        ],
        _ => Seq::empty(),
    }
}

/// Whether the opcode is checked against a table of signatures.
pub open spec fn is_table_opcode(op: Opcode) -> bool {
    signatures(op).len() > 0
}

/// The number of operands of the opcodes that are checked against a table.
pub open spec fn table_arity(op: Opcode) -> nat {
    signatures(op)[0].0.len()
}

/// Whether the operands have the types of the signature, in order.
pub open spec fn operands_match(operands: Seq<Operand>, expected: Seq<SimpleType>) -> bool {
    &&& operands.len() == expected.len()
    &&& forall|i: int| 0 <= i < operands.len() ==> operand_has_type(#[trigger] operands[i], expected[i])
}

/// Whether the operand has the given type.
pub open spec fn operand_has_type(operand: Operand, expected: SimpleType) -> bool {
    match operand.type_ {
        Some(t) => types_eq_flat(t, expected.spec_to_type()),
        None => false,
    }
}

/// The index of the first signature, from index `k` on, whose operand types the operands have.
pub open spec fn first_match(operands: Seq<Operand>, sigs: Seq<Signature>, k: int) -> Option<int>
    decreases sigs.len() - k,
{
    if k < 0 || k >= sigs.len() {
        None
    } else if operands_match(operands, sigs[k].0) {
        Some(k)
    } else {
        first_match(operands, sigs, k + 1)
    }
}

/// The errors that checking the numbers of operands and destinations of an instruction reports.
pub open spec fn well_formed_errors(instruction: Instruction, num_operands: nat, num_destinations: nat) -> Seq<TypeCheckerError> {
    (if instruction.operands@.len() != num_operands {
        seq![TypeCheckerError::MalformedInstruction { part: InstructionPart::Operands, expected: num_operands as usize, span: instruction.span }]
    } else {
        Seq::empty()
    }) + (if instruction.destinations@.len() != num_destinations {
        seq![TypeCheckerError::MalformedInstruction { part: InstructionPart::Destinations, expected: num_destinations as usize, span: instruction.span }]
    } else {
        Seq::empty()
    })
}

/// The errors that checking an instruction reports and the variables that it declares.
pub open spec fn instruction_effect(table: SymbolTable, instruction: Instruction) -> (Seq<TypeCheckerError>, Seq<(Symbol, VariableSymbol)>) {
    let op = instruction.opcode;
    let ops = instruction.operands@;
    let dests = instruction.destinations@;
    let span = instruction.span;
    if is_table_opcode(op) {
        let wf = well_formed_errors(instruction, table_arity(op), 1);
        if wf.len() > 0 {
            (wf, Seq::empty())
        } else {
            match first_match(ops, signatures(op), 0) {
                Some(k) => declare_effect(table, dests[0].name, signatures(op)[k].1.spec_to_type(), dests[0].span),
                None => (seq![TypeCheckerError::InvalidInstructionOperandTypes { opcode: op, span }], Seq::empty()),
            }
        }
    } else if op == Opcode::AssertEq || op == Opcode::AssertNeq {
        let wf = well_formed_errors(instruction, 2, 0);
        if wf.len() > 0 {
            (wf, Seq::empty())
        } else {
            (eq_types_errors(ops[0].type_, ops[1].type_, span), Seq::empty())
        }
    } else if op == Opcode::IsEq || op == Opcode::IsNeq {
        let wf = well_formed_errors(instruction, 2, 1);
        if wf.len() > 0 {
            (wf, Seq::empty())
        } else {
            let d = declare_effect(table, dests[0].name, Type::Boolean, dests[0].span);
            (eq_types_errors(ops[0].type_, ops[1].type_, span) + d.0, d.1)
        }
    } else if is_commit_opcode(op) {
        let wf = well_formed_errors(instruction, 2, 1);
        if wf.len() > 0 {
            (wf, Seq::empty())
        } else {
            let d = declare_effect(table, dests[0].name, commit_output(op), dests[0].span);
            (type_errors(TypeClass::Exactly(Type::Scalar), ops[1].type_, ops[1].span) + d.0, d.1)
        }
    } else {
        // The hash instructions.
        let wf = well_formed_errors(instruction, 1, 1);
        if wf.len() > 0 {
            (wf, Seq::empty())
        } else {
            declare_effect(table, dests[0].name, Type::Boolean, dests[0].span)
        }
    }
}

/// Whether the opcode is a commitment.
pub open spec fn is_commit_opcode(op: Opcode) -> bool {
    op == Opcode::CommitBHP256 || op == Opcode::CommitBHP512 || op == Opcode::CommitBHP768 || op == Opcode::CommitBHP1024
        || op == Opcode::CommitPED64 || op == Opcode::CommitPED128
}

/// The type of the value that a commitment instruction writes.
pub open spec fn commit_output(op: Opcode) -> Type {
    if op == Opcode::CommitPED64 || op == Opcode::CommitPED128 {
        Type::Group
    } else {
        Type::Field
    }
}

/// Returns the signatures of an instruction that is checked against a table.
pub fn signatures_of(op: Opcode) -> (v: Vec<(Vec<SimpleType>, SimpleType)>)
    ensures
        v@.len() == signatures(op).len(),
        forall|k: int| 0 <= k < v@.len() ==> (#[trigger] v@[k]).0@ == signatures(op)[k].0 && v@[k].1 == signatures(op)[k].1,
{
    let mut v: Vec<(Vec<SimpleType>, SimpleType)> = Vec::new();
    match op {
        Opcode::Abs | Opcode::AbsWrapped => {
            v.push((vec![SimpleType::Int(IntegerType::I8)], SimpleType::Int(IntegerType::I8)));
            v.push((vec![SimpleType::Int(IntegerType::I16)], SimpleType::Int(IntegerType::I16)));
            v.push((vec![SimpleType::Int(IntegerType::I32)], SimpleType::Int(IntegerType::I32)));
            v.push((vec![SimpleType::Int(IntegerType::I64)], SimpleType::Int(IntegerType::I64)));
            v.push((vec![SimpleType::Int(IntegerType::I128)], SimpleType::Int(IntegerType::I128)));
        },
        Opcode::Add | Opcode::Div | Opcode::Sub => {
            v.push((vec![SimpleType::Field, SimpleType::Field], SimpleType::Field));
            v.push((vec![SimpleType::Int(IntegerType::I8), SimpleType::Int(IntegerType::I8)], SimpleType::Int(IntegerType::I8)));
            v.push((vec![SimpleType::Int(IntegerType::I16), SimpleType::Int(IntegerType::I16)], SimpleType::Int(IntegerType::I16)));
            v.push((vec![SimpleType::Int(IntegerType::I32), SimpleType::Int(IntegerType::I32)], SimpleType::Int(IntegerType::I32)));
            v.push((vec![SimpleType::Int(IntegerType::I64), SimpleType::Int(IntegerType::I64)], SimpleType::Int(IntegerType::I64)));
            v.push((vec![SimpleType::Int(IntegerType::I128), SimpleType::Int(IntegerType::I128)], SimpleType::Int(IntegerType::I128)));
            v.push((vec![SimpleType::Int(IntegerType::U8), SimpleType::Int(IntegerType::U8)], SimpleType::Int(IntegerType::U8)));
            v.push((vec![SimpleType::Int(IntegerType::U16), SimpleType::Int(IntegerType::U16)], SimpleType::Int(IntegerType::U16)));
            v.push((vec![SimpleType::Int(IntegerType::U32), SimpleType::Int(IntegerType::U32)], SimpleType::Int(IntegerType::U32)));
            v.push((vec![SimpleType::Int(IntegerType::U64), SimpleType::Int(IntegerType::U64)], SimpleType::Int(IntegerType::U64)));
            v.push((vec![SimpleType::Int(IntegerType::U128), SimpleType::Int(IntegerType::U128)], SimpleType::Int(IntegerType::U128)));
        },
        Opcode::AddWrapped | Opcode::DivWrapped | Opcode::MulWrapped | Opcode::Rem | Opcode::RemWrapped | Opcode::SubWrapped => {
            v.push((vec![SimpleType::Int(IntegerType::I8), SimpleType::Int(IntegerType::I8)], SimpleType::Int(IntegerType::I8)));
            v.push((vec![SimpleType::Int(IntegerType::I16), SimpleType::Int(IntegerType::I16)], SimpleType::Int(IntegerType::I16)));
            v.push((vec![SimpleType::Int(IntegerType::I32), SimpleType::Int(IntegerType::I32)], SimpleType::Int(IntegerType::I32)));
            v.push((vec![SimpleType::Int(IntegerType::I64), SimpleType::Int(IntegerType::I64)], SimpleType::Int(IntegerType::I64)));
            v.push((vec![SimpleType::Int(IntegerType::I128), SimpleType::Int(IntegerType::I128)], SimpleType::Int(IntegerType::I128)));
            v.push((vec![SimpleType::Int(IntegerType::U8), SimpleType::Int(IntegerType::U8)], SimpleType::Int(IntegerType::U8)));
            v.push((vec![SimpleType::Int(IntegerType::U16), SimpleType::Int(IntegerType::U16)], SimpleType::Int(IntegerType::U16)));
            v.push((vec![SimpleType::Int(IntegerType::U32), SimpleType::Int(IntegerType::U32)], SimpleType::Int(IntegerType::U32)));
            v.push((vec![SimpleType::Int(IntegerType::U64), SimpleType::Int(IntegerType::U64)], SimpleType::Int(IntegerType::U64)));
            v.push((vec![SimpleType::Int(IntegerType::U128), SimpleType::Int(IntegerType::U128)], SimpleType::Int(IntegerType::U128)));
        },
        Opcode::Double => {
            v.push((vec![SimpleType::Field], SimpleType::Field));
            v.push((vec![SimpleType::Group], SimpleType::Group));
        },
        Opcode::GreaterThan | Opcode::GreaterThanOrEqual | Opcode::LessThan | Opcode::LessThanOrEqual => {
            v.push((vec![SimpleType::Field, SimpleType::Field], SimpleType::Boolean));
            v.push((vec![SimpleType::Int(IntegerType::I8), SimpleType::Int(IntegerType::I8)], SimpleType::Boolean));
            v.push((vec![SimpleType::Int(IntegerType::I16), SimpleType::Int(IntegerType::I16)], SimpleType::Boolean));
            v.push((vec![SimpleType::Int(IntegerType::I32), SimpleType::Int(IntegerType::I32)], SimpleType::Boolean));
            v.push((vec![SimpleType::Int(IntegerType::I64), SimpleType::Int(IntegerType::I64)], SimpleType::Boolean));
            v.push((vec![SimpleType::Int(IntegerType::I128), SimpleType::Int(IntegerType::I128)], SimpleType::Boolean));
            v.push((vec![SimpleType::Int(IntegerType::U8), SimpleType::Int(IntegerType::U8)], SimpleType::Boolean));
            v.push((vec![SimpleType::Int(IntegerType::U16), SimpleType::Int(IntegerType::U16)], SimpleType::Boolean));
            v.push((vec![SimpleType::Int(IntegerType::U32), SimpleType::Int(IntegerType::U32)], SimpleType::Boolean));
            v.push((vec![SimpleType::Int(IntegerType::U64), SimpleType::Int(IntegerType::U64)], SimpleType::Boolean));
            v.push((vec![SimpleType::Int(IntegerType::U128), SimpleType::Int(IntegerType::U128)], SimpleType::Boolean));
            v.push((vec![SimpleType::Scalar, SimpleType::Scalar], SimpleType::Boolean));
        },
        Opcode::Inv | Opcode::Square | Opcode::SquareRoot => {
            v.push((vec![SimpleType::Field], SimpleType::Field));
        },
        Opcode::Modulo => {
            v.push((vec![SimpleType::Int(IntegerType::U8), SimpleType::Int(IntegerType::U8)], SimpleType::Int(IntegerType::U8)));
            v.push((vec![SimpleType::Int(IntegerType::U16), SimpleType::Int(IntegerType::U16)], SimpleType::Int(IntegerType::U16)));
            v.push((vec![SimpleType::Int(IntegerType::U32), SimpleType::Int(IntegerType::U32)], SimpleType::Int(IntegerType::U32)));
            v.push((vec![SimpleType::Int(IntegerType::U64), SimpleType::Int(IntegerType::U64)], SimpleType::Int(IntegerType::U64)));
            v.push((vec![SimpleType::Int(IntegerType::U128), SimpleType::Int(IntegerType::U128)], SimpleType::Int(IntegerType::U128)));
        },
        Opcode::Mul => {
            v.push((vec![SimpleType::Field, SimpleType::Field], SimpleType::Field));
            v.push((vec![SimpleType::Group, SimpleType::Scalar], SimpleType::Group));
            v.push((vec![SimpleType::Scalar, SimpleType::Group], SimpleType::Group));
            v.push((vec![SimpleType::Int(IntegerType::I8), SimpleType::Int(IntegerType::I8)], SimpleType::Int(IntegerType::I8)));
            v.push((vec![SimpleType::Int(IntegerType::I16), SimpleType::Int(IntegerType::I16)], SimpleType::Int(IntegerType::I16)));
            v.push((vec![SimpleType::Int(IntegerType::I32), SimpleType::Int(IntegerType::I32)], SimpleType::Int(IntegerType::I32)));
            v.push((vec![SimpleType::Int(IntegerType::I64), SimpleType::Int(IntegerType::I64)], SimpleType::Int(IntegerType::I64)));
            v.push((vec![SimpleType::Int(IntegerType::I128), SimpleType::Int(IntegerType::I128)], SimpleType::Int(IntegerType::I128)));
            v.push((vec![SimpleType::Int(IntegerType::U8), SimpleType::Int(IntegerType::U8)], SimpleType::Int(IntegerType::U8)));
            v.push((vec![SimpleType::Int(IntegerType::U16), SimpleType::Int(IntegerType::U16)], SimpleType::Int(IntegerType::U16)));
            v.push((vec![SimpleType::Int(IntegerType::U32), SimpleType::Int(IntegerType::U32)], SimpleType::Int(IntegerType::U32)));
            v.push((vec![SimpleType::Int(IntegerType::U64), SimpleType::Int(IntegerType::U64)], SimpleType::Int(IntegerType::U64)));
            v.push((vec![SimpleType::Int(IntegerType::U128), SimpleType::Int(IntegerType::U128)], SimpleType::Int(IntegerType::U128)));
        },
        Opcode::Nand | Opcode::Nor => {
            v.push((vec![SimpleType::Boolean, SimpleType::Boolean], SimpleType::Boolean));
        },
        Opcode::Neg => {
            v.push((vec![SimpleType::Field], SimpleType::Field));
            v.push((vec![SimpleType::Group], SimpleType::Group));
            v.push((vec![SimpleType::Int(IntegerType::I8)], SimpleType::Int(IntegerType::I8)));
            v.push((vec![SimpleType::Int(IntegerType::I16)], SimpleType::Int(IntegerType::I16)));
            v.push((vec![SimpleType::Int(IntegerType::I32)], SimpleType::Int(IntegerType::I32)));
            v.push((vec![SimpleType::Int(IntegerType::I64)], SimpleType::Int(IntegerType::I64)));
            v.push((vec![SimpleType::Int(IntegerType::I128)], SimpleType::Int(IntegerType::I128)));
        },
        Opcode::And | Opcode::Not | Opcode::Or | Opcode::Xor => {
            v.push((vec![SimpleType::Boolean, SimpleType::Boolean], SimpleType::Boolean));
            v.push((vec![SimpleType::Int(IntegerType::I8), SimpleType::Int(IntegerType::I8)], SimpleType::Int(IntegerType::I8)));
            v.push((vec![SimpleType::Int(IntegerType::I16), SimpleType::Int(IntegerType::I16)], SimpleType::Int(IntegerType::I16)));
            v.push((vec![SimpleType::Int(IntegerType::I32), SimpleType::Int(IntegerType::I32)], SimpleType::Int(IntegerType::I32)));
            v.push((vec![SimpleType::Int(IntegerType::I64), SimpleType::Int(IntegerType::I64)], SimpleType::Int(IntegerType::I64)));
            v.push((vec![SimpleType::Int(IntegerType::I128), SimpleType::Int(IntegerType::I128)], SimpleType::Int(IntegerType::I128)));
            v.push((vec![SimpleType::Int(IntegerType::U8), SimpleType::Int(IntegerType::U8)], SimpleType::Int(IntegerType::U8)));
            v.push((vec![SimpleType::Int(IntegerType::U16), SimpleType::Int(IntegerType::U16)], SimpleType::Int(IntegerType::U16)));
            v.push((vec![SimpleType::Int(IntegerType::U32), SimpleType::Int(IntegerType::U32)], SimpleType::Int(IntegerType::U32)));
            v.push((vec![SimpleType::Int(IntegerType::U64), SimpleType::Int(IntegerType::U64)], SimpleType::Int(IntegerType::U64)));
            v.push((vec![SimpleType::Int(IntegerType::U128), SimpleType::Int(IntegerType::U128)], SimpleType::Int(IntegerType::U128)));
        },
        Opcode::Pow | Opcode::PowWrapped | Opcode::Shl | Opcode::ShlWrapped | Opcode::Shr | Opcode::ShrWrapped => {
            v.push((vec![SimpleType::Int(IntegerType::I8), SimpleType::Int(IntegerType::U8)], SimpleType::Int(IntegerType::I8)));
            v.push((vec![SimpleType::Int(IntegerType::I8), SimpleType::Int(IntegerType::U16)], SimpleType::Int(IntegerType::I8)));
            v.push((vec![SimpleType::Int(IntegerType::I8), SimpleType::Int(IntegerType::U32)], SimpleType::Int(IntegerType::I8)));
            v.push((vec![SimpleType::Int(IntegerType::I16), SimpleType::Int(IntegerType::U8)], SimpleType::Int(IntegerType::I16)));
            v.push((vec![SimpleType::Int(IntegerType::I16), SimpleType::Int(IntegerType::U16)], SimpleType::Int(IntegerType::I16)));
            v.push((vec![SimpleType::Int(IntegerType::I16), SimpleType::Int(IntegerType::U32)], SimpleType::Int(IntegerType::I16)));
            v.push((vec![SimpleType::Int(IntegerType::I32), SimpleType::Int(IntegerType::U8)], SimpleType::Int(IntegerType::I32)));
            v.push((vec![SimpleType::Int(IntegerType::I32), SimpleType::Int(IntegerType::U16)], SimpleType::Int(IntegerType::I32)));
            v.push((vec![SimpleType::Int(IntegerType::I32), SimpleType::Int(IntegerType::U32)], SimpleType::Int(IntegerType::I32)));
            v.push((vec![SimpleType::Int(IntegerType::I64), SimpleType::Int(IntegerType::U8)], SimpleType::Int(IntegerType::I64)));
            v.push((vec![SimpleType::Int(IntegerType::I64), SimpleType::Int(IntegerType::U16)], SimpleType::Int(IntegerType::I64)));
            v.push((vec![SimpleType::Int(IntegerType::I64), SimpleType::Int(IntegerType::U32)], SimpleType::Int(IntegerType::I64)));
            v.push((vec![SimpleType::Int(IntegerType::I128), SimpleType::Int(IntegerType::U8)], SimpleType::Int(IntegerType::I128)));
            v.push((vec![SimpleType::Int(IntegerType::I128), SimpleType::Int(IntegerType::U16)], SimpleType::Int(IntegerType::I128)));
            v.push((vec![SimpleType::Int(IntegerType::I128), SimpleType::Int(IntegerType::U32)], SimpleType::Int(IntegerType::I128)));
            v.push((vec![SimpleType::Int(IntegerType::U8), SimpleType::Int(IntegerType::U8)], SimpleType::Int(IntegerType::U8)));
            v.push((vec![SimpleType::Int(IntegerType::U8), SimpleType::Int(IntegerType::U16)], SimpleType::Int(IntegerType::U8)));
            v.push((vec![SimpleType::Int(IntegerType::U8), SimpleType::Int(IntegerType::U32)], SimpleType::Int(IntegerType::U8)));
            v.push((vec![SimpleType::Int(IntegerType::U16), SimpleType::Int(IntegerType::U8)], SimpleType::Int(IntegerType::U16)));
            v.push((vec![SimpleType::Int(IntegerType::U16), SimpleType::Int(IntegerType::U16)], SimpleType::Int(IntegerType::U16)));
            v.push((vec![SimpleType::Int(IntegerType::U16), SimpleType::Int(IntegerType::U32)], SimpleType::Int(IntegerType::U16)));
            v.push((vec![SimpleType::Int(IntegerType::U32), SimpleType::Int(IntegerType::U8)], SimpleType::Int(IntegerType::U32)));
            v.push((vec![SimpleType::Int(IntegerType::U32), SimpleType::Int(IntegerType::U16)], SimpleType::Int(IntegerType::U32)));
            v.push((vec![SimpleType::Int(IntegerType::U32), SimpleType::Int(IntegerType::U32)], SimpleType::Int(IntegerType::U32)));
            v.push((vec![SimpleType::Int(IntegerType::U64), SimpleType::Int(IntegerType::U8)], SimpleType::Int(IntegerType::U64)));
            v.push((vec![SimpleType::Int(IntegerType::U64), SimpleType::Int(IntegerType::U16)], SimpleType::Int(IntegerType::U64)));
            v.push((vec![SimpleType::Int(IntegerType::U64), SimpleType::Int(IntegerType::U32)], SimpleType::Int(IntegerType::U64)));
            v.push((vec![SimpleType::Int(IntegerType::U128), SimpleType::Int(IntegerType::U8)], SimpleType::Int(IntegerType::U128)));
            v.push((vec![SimpleType::Int(IntegerType::U128), SimpleType::Int(IntegerType::U16)], SimpleType::Int(IntegerType::U128)));
            v.push((vec![SimpleType::Int(IntegerType::U128), SimpleType::Int(IntegerType::U32)], SimpleType::Int(IntegerType::U128)));
        },
        Opcode::Ternary => {
            v.push((vec![SimpleType::Boolean, SimpleType::Boolean, SimpleType::Boolean], SimpleType::Boolean));
            v.push((vec![SimpleType::Boolean, SimpleType::Field, SimpleType::Field], SimpleType::Field));
            v.push((vec![SimpleType::Boolean, SimpleType::Group, SimpleType::Group], SimpleType::Group));
            v.push((vec![SimpleType::Boolean, SimpleType::Int(IntegerType::I8), SimpleType::Int(IntegerType::I8)], SimpleType::Int(IntegerType::I8)));
            v.push((vec![SimpleType::Boolean, SimpleType::Int(IntegerType::I16), SimpleType::Int(IntegerType::I16)], SimpleType::Int(IntegerType::I16)));
            v.push((vec![SimpleType::Boolean, SimpleType::Int(IntegerType::I32), SimpleType::Int(IntegerType::I32)], SimpleType::Int(IntegerType::I32)));
            v.push((vec![SimpleType::Boolean, SimpleType::Int(IntegerType::I64), SimpleType::Int(IntegerType::I64)], SimpleType::Int(IntegerType::I64)));
            v.push((vec![SimpleType::Boolean, SimpleType::Int(IntegerType::I128), SimpleType::Int(IntegerType::I128)], SimpleType::Int(IntegerType::I128)));
            v.push((vec![SimpleType::Boolean, SimpleType::Int(IntegerType::U8), SimpleType::Int(IntegerType::U8)], SimpleType::Int(IntegerType::U8)));
            v.push((vec![SimpleType::Boolean, SimpleType::Int(IntegerType::U16), SimpleType::Int(IntegerType::U16)], SimpleType::Int(IntegerType::U16)));
            v.push((vec![SimpleType::Boolean, SimpleType::Int(IntegerType::U32), SimpleType::Int(IntegerType::U32)], SimpleType::Int(IntegerType::U32)));
            v.push((vec![SimpleType::Boolean, SimpleType::Int(IntegerType::U64), SimpleType::Int(IntegerType::U64)], SimpleType::Int(IntegerType::U64)));
            v.push((vec![SimpleType::Boolean, SimpleType::Int(IntegerType::U128), SimpleType::Int(IntegerType::U128)], SimpleType::Int(IntegerType::U128)));
            v.push((vec![SimpleType::Boolean, SimpleType::Scalar, SimpleType::Scalar], SimpleType::Scalar));
        },
        _ => {},
    }
    assert(v@.len() == signatures(op).len());
    v
}

/// Returns whether the operands have the types of the signature, in order.
pub fn operands_match_exec(operands: &Vec<Operand>, expected: &Vec<SimpleType>) -> (b: bool)
    ensures
        b == operands_match(operands@, expected@),
{
    if operands.len() != expected.len() {
        return false;
    }
    let mut i: usize = 0;
    while i < operands.len()
        invariant
            operands@.len() == expected@.len(),
            i <= operands@.len(),
            forall|j: int| 0 <= j < i ==> operand_has_type(#[trigger] operands@[j], expected@[j]),
        decreases operands.len() - i,
    {
        let ok = match &operands[i].type_ {
            Some(t) => t.eq_flat(&expected[i].to_type()),
            None => false,
        };
        if !ok {
            assert(!operand_has_type(operands@[i as int], expected@[i as int]));
            return false;
        }
        i = i + 1;
    }
    true
}

impl TypeChecker {
    /// Whether the state after a step is the state before it with the given errors reported and the
    /// given variables declared.
    pub open spec fn applied(self, before: TypeChecker, effect: (Seq<TypeCheckerError>, Seq<(Symbol, VariableSymbol)>)) -> bool {
        &&& self.errors() =~= before.errors() + effect.0
        &&& self.symbol_table.variables@ =~= before.symbol_table.variables@ + effect.1
        &&& self.symbol_table.functions@ =~= before.symbol_table.functions@
        &&& self.symbol_table.structs@ =~= before.symbol_table.structs@
        &&& self.same_flags(before)
    }

    /// Checks that the instruction has the given numbers of operands and destinations, emitting
    /// an error for each number that is wrong; returns whether both are right.
    pub fn check_instruction_is_well_formed(&mut self, instruction: &Instruction, num_operands: usize, num_destinations: usize) -> (b: bool)
        ensures
            final(self).errors() == old(self).errors() + well_formed_errors(*instruction, num_operands as nat, num_destinations as nat),
            b == (well_formed_errors(*instruction, num_operands as nat, num_destinations as nat).len() == 0),
            final(self).same_but_errors(*old(self)),
    {
        // A flag to indicate if the instruction is well-formed.
        let mut is_well_formed = true;
        // Check that the number of operands is `num_operands`.
        if instruction.operands.len() != num_operands {
            is_well_formed = false;
            self.emit_err(TypeCheckerError::MalformedInstruction { part: InstructionPart::Operands, expected: num_operands, span: instruction.span });
        }
        // Check that the number of destinations is `num_destinations`.
        if instruction.destinations.len() != num_destinations {
            is_well_formed = false;
            self.emit_err(TypeCheckerError::MalformedInstruction { part: InstructionPart::Destinations, expected: num_destinations, span: instruction.span });
        }
        assert(self.errors() =~= old(self).errors() + well_formed_errors(*instruction, num_operands as nat, num_destinations as nat));
        is_well_formed
    }

    /// Type checks an instruction against its table of signatures: where the operand types match
    /// a signature, declares the destination with the type that the first such signature gives.
    fn check_instruction(&mut self, instruction: &Instruction)
        requires
            is_table_opcode(instruction.opcode),
        ensures
            final(self).applied(*old(self), instruction_effect(old(self).symbol_table, *instruction)),
    {
        let expected_types = signatures_of(instruction.opcode);
        let num_operands = expected_types[0].0.len();
        // Check that the structure of the instruction is well-formed.
        if self.check_instruction_is_well_formed(instruction, num_operands, 1) {
            // Find the first signature whose operand types the operands have.
            let mut k: usize = 0;
            let mut found: Option<usize> = None;
            while k < expected_types.len()
                invariant_except_break
                    k <= expected_types@.len(),
                    found is None,
                    first_match(instruction.operands@, signatures(instruction.opcode), 0)
                        == first_match(instruction.operands@, signatures(instruction.opcode), k as int),
                invariant
                    expected_types@.len() == signatures(instruction.opcode).len(),
                    forall|j: int| 0 <= j < expected_types@.len() ==> (#[trigger] expected_types@[j]).0@ == signatures(instruction.opcode)[j].0
                        && expected_types@[j].1 == signatures(instruction.opcode)[j].1,
                ensures
                    found matches Some(j) ==> j < expected_types@.len()
                        && first_match(instruction.operands@, signatures(instruction.opcode), 0) == Some(j as int),
                    found is None ==> first_match(instruction.operands@, signatures(instruction.opcode), 0) is None,
                decreases expected_types.len() - k,
            {
                if operands_match_exec(&instruction.operands, &expected_types[k].0) {
                    found = Some(k);
                    break;
                }
                k = k + 1;
            }
            // If the destination type is found, add the destination register to the symbol table.
            // Otherwise, emit an error.
            match found {
                Some(j) => {
                    let destination = &instruction.destinations[0];
                    self.insert_variable(destination.name, expected_types[j].1.to_type(), destination.span, VariableType::Mut);
                },
                None => {
                    self.emit_err(TypeCheckerError::InvalidInstructionOperandTypes { opcode: instruction.opcode, span: instruction.span });
                },
            }
        }
    }

    /// Type checks a commitment instruction: its second operand must be a scalar, and its
    /// destination is declared with the given type.
    fn check_commit_instruction(&mut self, instruction: &Instruction, output_type: Type)
        requires
            is_commit_opcode(instruction.opcode),
            output_type == commit_output(instruction.opcode),
        ensures
            final(self).applied(*old(self), instruction_effect(old(self).symbol_table, *instruction)),
    {
        // Check that the structure of the instruction is well-formed.
        if self.check_instruction_is_well_formed(instruction, 2, 1) {
            // Check that the second operand is a scalar.
            self.assert_type(&instruction.operands[1].type_, &Type::Scalar, instruction.operands[1].span);
            // Add the destination register to the symbol table.
            let destination = &instruction.destinations[0];
            self.insert_variable(destination.name, output_type, destination.span, VariableType::Mut);
        }
    }

    /// Type checks an instruction: emits the errors that its operands and destinations give rise
    /// to and declares its destinations.
    pub fn visit_instruction(&mut self, instruction: &Instruction)
        ensures
            final(self).applied(*old(self), instruction_effect(old(self).symbol_table, *instruction)),
    {
        match instruction.opcode {
            Opcode::AssertEq | Opcode::AssertNeq => {
                // Check that the instruction is well-formed.
                if self.check_instruction_is_well_formed(instruction, 2, 0) {
                    // Check that the operands are the same type.
                    self.check_eq_types(&instruction.operands[0].type_, &instruction.operands[1].type_, instruction.span);
                }
            },
            Opcode::CommitBHP256 | Opcode::CommitBHP512 | Opcode::CommitBHP768 | Opcode::CommitBHP1024 => {
                self.check_commit_instruction(instruction, Type::Field)
            },
            Opcode::CommitPED64 | Opcode::CommitPED128 => self.check_commit_instruction(instruction, Type::Group),
            Opcode::HashBHP256 | Opcode::HashBHP512 | Opcode::HashBHP768 | Opcode::HashBHP1024 | Opcode::HashPED64
            | Opcode::HashPED128 | Opcode::HashPSD2 | Opcode::HashPSD4 | Opcode::HashPSD8 => {
                // Check that the instruction is well-formed.
                if self.check_instruction_is_well_formed(instruction, 1, 1) {
                    // Add the destination to the symbol table.
                    let destination = &instruction.destinations[0];
                    self.insert_variable(destination.name, Type::Boolean, destination.span, VariableType::Mut);
                }
            },
            Opcode::IsEq | Opcode::IsNeq => {
                // Check that the instruction is well formed.
                if self.check_instruction_is_well_formed(instruction, 2, 1) {
                    // Check that the operands are of the same type.
                    self.check_eq_types(&instruction.operands[0].type_, &instruction.operands[1].type_, instruction.span);
                    // Add the destination to the symbol table.
                    let destination = &instruction.destinations[0];
                    self.insert_variable(destination.name, Type::Boolean, destination.span, VariableType::Mut);
                }
            },
            _ => self.check_instruction(instruction),
        }
    }
}

/// The product of a group element and a scalar, in either order, is a group element: a `mul`
/// whose operands are a group element and a scalar declares its destination as a group element.
pub proof fn law_group_times_scalar_is_group(table: SymbolTable, instruction: Instruction)
    requires
        instruction.opcode == Opcode::Mul,
        instruction.operands@.len() == 2,
        instruction.destinations@.len() == 1,
        (instruction.operands@[0].type_ == Some(Type::Group) && instruction.operands@[1].type_ == Some(Type::Scalar))
            || (instruction.operands@[0].type_ == Some(Type::Scalar) && instruction.operands@[1].type_ == Some(Type::Group)),
    ensures
        instruction_effect(table, instruction) == declare_effect(
            table,
            instruction.destinations@[0].name,
            Type::Group,
            instruction.destinations@[0].span,
        ),
{
    let ops = instruction.operands@;
    let sigs = signatures(Opcode::Mul);
    assert(!operand_has_type(ops[0], sigs[0].0[0]));
    assert(!operands_match(ops, sigs[0].0));
    if ops[0].type_ == Some(Type::Group) {
        assert(operands_match(ops, sigs[1].0)) by {
            assert(operand_has_type(ops[0], sigs[1].0[0]));
            assert(operand_has_type(ops[1], sigs[1].0[1]));
        }
        assert(first_match(ops, sigs, 1) == Some(1int));
        assert(first_match(ops, sigs, 0) == Some(1int));
    } else {
        assert(!operand_has_type(ops[0], sigs[1].0[0]));
        assert(!operands_match(ops, sigs[1].0));
        assert(operands_match(ops, sigs[2].0)) by {
            assert(operand_has_type(ops[0], sigs[2].0[0]));
            assert(operand_has_type(ops[1], sigs[2].0[1]));
        }
        assert(first_match(ops, sigs, 2) == Some(2int));
        assert(first_match(ops, sigs, 1) == Some(2int));
        assert(first_match(ops, sigs, 0) == Some(2int));
    }
}

/// Arithmetic keeps the type of its operands: in every signature of an arithmetic, bitwise,
/// shift or power instruction, the destination has the type of the first operand; a comparison
/// compares two operands of one type and gives a boolean; a ternary picks between two operands
/// of the type it gives, on a boolean condition; a product is of the type of its two equal
/// operands, or a group element where a group element and a scalar are multiplied.
pub proof fn law_instruction_result_types(op: Opcode, k: int)
    requires
        0 <= k < signatures(op).len(),
    ensures
        (op == Opcode::Abs || op == Opcode::AbsWrapped || op == Opcode::Add || op == Opcode::Div || op == Opcode::Sub
            || op == Opcode::AddWrapped || op == Opcode::DivWrapped || op == Opcode::MulWrapped || op == Opcode::Rem
            || op == Opcode::RemWrapped || op == Opcode::SubWrapped || op == Opcode::Double || op == Opcode::Inv
            || op == Opcode::Square || op == Opcode::SquareRoot || op == Opcode::Modulo || op == Opcode::Nand
            || op == Opcode::Nor || op == Opcode::Neg || op == Opcode::And || op == Opcode::Not || op == Opcode::Or
            || op == Opcode::Xor || op == Opcode::Pow || op == Opcode::PowWrapped || op == Opcode::Shl
            || op == Opcode::ShlWrapped || op == Opcode::Shr || op == Opcode::ShrWrapped)
            ==> signatures(op)[k].1 == signatures(op)[k].0[0],
        (op == Opcode::GreaterThan || op == Opcode::GreaterThanOrEqual || op == Opcode::LessThan || op == Opcode::LessThanOrEqual)
            ==> signatures(op)[k].1 == SimpleType::Boolean && signatures(op)[k].0.len() == 2
                && signatures(op)[k].0[0] == signatures(op)[k].0[1],
        op == Opcode::Ternary ==> signatures(op)[k].0.len() == 3 && signatures(op)[k].0[0] == SimpleType::Boolean
            && signatures(op)[k].0[1] == signatures(op)[k].1 && signatures(op)[k].0[2] == signatures(op)[k].1,
        op == Opcode::Mul ==> signatures(op)[k].0.len() == 2 && if signatures(op)[k].0[0] == signatures(op)[k].0[1] {
            signatures(op)[k].1 == signatures(op)[k].0[0]
        } else {
            signatures(op)[k].1 == SimpleType::Group && (signatures(op)[k].0 =~= seq![SimpleType::Group, SimpleType::Scalar]
                || signatures(op)[k].0 =~= seq![SimpleType::Scalar, SimpleType::Group])
        },
{
}

} // verus!
