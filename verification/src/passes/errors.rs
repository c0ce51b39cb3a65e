//! The errors that the type checker reports.

use vstd::prelude::*;

use crate::ast::types::{clone_type, Identifier, Type};
use crate::span::{Span, Symbol};

verus! {

/// The set of types that a check admits, as the error reports it.
#[derive(Debug)]
pub enum ExpectedTypes {
    /// Exactly the given type.
    Exactly(Type),
    Boolean,
    Field,
    Group,
    Scalar,
    /// Any of the integer types.
    Int,
    SignedInt,
    UnsignedInt,
    /// `u8`, `u16` or `u32`.
    Magnitude,
    BoolInt,
    FieldInt,
    FieldGroup,
    FieldGroupInt,
    FieldGroupSignedInt,
    FieldScalarInt,
    FieldGroupScalarInt,
    /// A type that a core function accepts as its input: an address, boolean, field, group,
    /// struct, integer or scalar.
    CoreArgument,
    Mapping,
}

/// A mapping operation of the core library, as named in errors.
#[derive(Clone, Copy, Debug, PartialEq, Eq, Structural)]
pub enum MappingOperation {
    Get,
    GetOr,
    SetValue,
}

/// The part of an instruction whose count is wrong.
#[derive(Clone, Copy, Debug, PartialEq, Eq, Structural)]
pub enum InstructionPart {
    Operands,
    Destinations,
}

/// An error found by the type checker.
#[derive(Debug)]
pub enum TypeCheckerError {
    /// A type was found where one of the expected types was required.
    ExpectedOneTypeOf { expected: ExpectedTypes, found: Type, span: Span },
    /// A type (or no type, `None`) was found where the expected type was required.
    TypeShouldBe { found: Option<Type>, expected: Type, span: Span },
    /// The struct and method do not name a core function.
    InvalidCoreFunction { struct_name: Symbol, function: Symbol, span: Span },
    /// A core function was called with the wrong number of arguments.
    IncorrectNumArgsToCall { expected: usize, received: usize, span: Span },
    /// A mapping operation was used outside a finalize block.
    InvalidOperationOutsideFinalize { operation: MappingOperation, span: Span },
    /// A struct or record has a member whose type is a record.
    StructOrRecordCannotContainRecord { parent: Symbol, child: Symbol, span: Span },
    /// A string type was used.
    StringsAreNotSupported { span: Span },
    /// A named type is not defined.
    UndefinedType { name: Symbol, span: Span },
    /// An instruction has the wrong number of operands or destinations.
    MalformedInstruction { part: InstructionPart, expected: usize, span: Span },
    /// The operand types of an instruction match none of its signatures.
    InvalidInstructionOperandTypes { opcode: crate::ast::instruction::Opcode, span: Span },
    /// A variable is declared with the name of a function.
    ShadowedFunction { name: Symbol, span: Span },
    /// A variable is declared with the name of a struct.
    ShadowedStruct { name: Symbol, span: Span },
    /// A variable is declared with the name of a record.
    ShadowedRecord { name: Symbol, span: Span },
    /// A variable is declared twice.
    ShadowedVariable { name: Symbol, span: Span },
    /// A definition binds something other than an identifier or a tuple, or binds the unit type.
    LhsMustBeIdentifierOrTuple { span: Span },
    /// A definition binds a tuple with a tuple among its types.
    NestedTupleType { span: Span },
    /// An element of a tuple that a definition binds is not an identifier.
    LhsTupleElementMustBeAnIdentifier { span: Span },
    /// An assignment to something other than a variable.
    InvalidAssignmentTarget { span: Span },
    /// An assignment to a constant, declared at the given span.
    CannotAssignToConstVar { variable: Identifier, span: Span },
    /// An assignment to a constant input, declared at the given span.
    CannotAssignToConstInput { variable: Identifier, span: Span },
    /// A variable that is not in scope.
    UnknownVariable { name: Symbol, span: Span },
    /// An expression statement whose expression is not a call.
    ExpressionStatementMustBeFunctionCall { span: Span },
    /// A returned tuple with a tuple among its elements.
    NestedTupleExpression { span: Span },
    /// A finalize block that passes arguments to a finalize block.
    FinalizeInFinalize { span: Span },
    /// Arguments passed to the finalize block of a function that has none.
    FinalizeWithoutFinalizeBlock { span: Span },
    /// The finalize block is passed the wrong number of arguments.
    IncorrectNumArgsToFinalize { expected: usize, received: usize, span: Span },
    /// A mapping is incremented or decremented outside a finalize block.
    IncrementOrDecrementOutsideFinalize { span: Span },
    /// The type of the named value could not be determined.
    CouldNotDetermineType { name: Identifier, span: Span },
    /// A statement follows a return statement.
    UnreachableCodeAfterReturn { span: Span },
    /// The body of a loop returns.
    LoopBodyContainsReturn { span: Span },
    /// The body of a loop invokes the finalize block.
    LoopBodyContainsFinalize { span: Span },
    /// A bound of a loop is not a literal.
    LoopBoundMustBeALiteral { span: Span },
}

/// Returns a copy of the set of types.
pub fn clone_expected(e: &ExpectedTypes) -> (r: ExpectedTypes)
    ensures
        r == *e,
{
    match e {
        ExpectedTypes::Exactly(t) => ExpectedTypes::Exactly(clone_type(t)),
        ExpectedTypes::Boolean => ExpectedTypes::Boolean,
        ExpectedTypes::Field => ExpectedTypes::Field,
        ExpectedTypes::Group => ExpectedTypes::Group,
        ExpectedTypes::Scalar => ExpectedTypes::Scalar,
        ExpectedTypes::Int => ExpectedTypes::Int,
        ExpectedTypes::SignedInt => ExpectedTypes::SignedInt,
        ExpectedTypes::UnsignedInt => ExpectedTypes::UnsignedInt,
        ExpectedTypes::Magnitude => ExpectedTypes::Magnitude,
        ExpectedTypes::BoolInt => ExpectedTypes::BoolInt,
        ExpectedTypes::FieldInt => ExpectedTypes::FieldInt,
        ExpectedTypes::FieldGroup => ExpectedTypes::FieldGroup,
        ExpectedTypes::FieldGroupInt => ExpectedTypes::FieldGroupInt,
        ExpectedTypes::FieldGroupSignedInt => ExpectedTypes::FieldGroupSignedInt,
        ExpectedTypes::FieldScalarInt => ExpectedTypes::FieldScalarInt,
        ExpectedTypes::FieldGroupScalarInt => ExpectedTypes::FieldGroupScalarInt,
        ExpectedTypes::CoreArgument => ExpectedTypes::CoreArgument,
        ExpectedTypes::Mapping => ExpectedTypes::Mapping,
    }
}

/// Returns a copy of the error.
pub fn clone_error(e: &TypeCheckerError) -> (r: TypeCheckerError)
    ensures
        r == *e,
{
    match e {
        TypeCheckerError::ExpectedOneTypeOf { expected, found, span } => TypeCheckerError::ExpectedOneTypeOf {
            expected: clone_expected(expected),
            found: clone_type(found),
            span: *span,
        },
        TypeCheckerError::TypeShouldBe { found, expected, span } => TypeCheckerError::TypeShouldBe {
            found: match found {
                Some(t) => Some(clone_type(t)),
                None => None,
            },
            expected: clone_type(expected),
            span: *span,
        },
        TypeCheckerError::InvalidCoreFunction { struct_name, function, span } => TypeCheckerError::InvalidCoreFunction {
            struct_name: *struct_name,
            function: *function,
            span: *span,
        },
        TypeCheckerError::IncorrectNumArgsToCall { expected, received, span } => TypeCheckerError::IncorrectNumArgsToCall {
            expected: *expected,
            received: *received,
            span: *span,
        },
        TypeCheckerError::InvalidOperationOutsideFinalize { operation, span } => TypeCheckerError::InvalidOperationOutsideFinalize {
            operation: *operation,
            span: *span,
        },
        TypeCheckerError::StructOrRecordCannotContainRecord { parent, child, span } => TypeCheckerError::StructOrRecordCannotContainRecord {
            parent: *parent,
            child: *child,
            span: *span,
        },
        TypeCheckerError::StringsAreNotSupported { span } => TypeCheckerError::StringsAreNotSupported { span: *span },
        TypeCheckerError::UndefinedType { name, span } => TypeCheckerError::UndefinedType { name: *name, span: *span },
        TypeCheckerError::MalformedInstruction { part, expected, span } => TypeCheckerError::MalformedInstruction {
            part: *part,
            expected: *expected,
            span: *span,
        },
        TypeCheckerError::InvalidInstructionOperandTypes { opcode, span } => TypeCheckerError::InvalidInstructionOperandTypes {
            opcode: *opcode,
            span: *span,
        },
        TypeCheckerError::ShadowedFunction { name, span } => TypeCheckerError::ShadowedFunction { name: *name, span: *span },
        TypeCheckerError::ShadowedStruct { name, span } => TypeCheckerError::ShadowedStruct { name: *name, span: *span },
        TypeCheckerError::ShadowedRecord { name, span } => TypeCheckerError::ShadowedRecord { name: *name, span: *span },
        TypeCheckerError::ShadowedVariable { name, span } => TypeCheckerError::ShadowedVariable { name: *name, span: *span },
        TypeCheckerError::LhsMustBeIdentifierOrTuple { span } => TypeCheckerError::LhsMustBeIdentifierOrTuple { span: *span },
        TypeCheckerError::NestedTupleType { span } => TypeCheckerError::NestedTupleType { span: *span },
        TypeCheckerError::LhsTupleElementMustBeAnIdentifier { span } => TypeCheckerError::LhsTupleElementMustBeAnIdentifier {
            span: *span,
        },
        TypeCheckerError::InvalidAssignmentTarget { span } => TypeCheckerError::InvalidAssignmentTarget { span: *span },
        TypeCheckerError::CannotAssignToConstVar { variable, span } => TypeCheckerError::CannotAssignToConstVar {
            variable: *variable,
            span: *span,
        },
        TypeCheckerError::CannotAssignToConstInput { variable, span } => TypeCheckerError::CannotAssignToConstInput {
            variable: *variable,
            span: *span,
        },
        TypeCheckerError::UnknownVariable { name, span } => TypeCheckerError::UnknownVariable { name: *name, span: *span },
        TypeCheckerError::ExpressionStatementMustBeFunctionCall { span } => TypeCheckerError::ExpressionStatementMustBeFunctionCall {
            span: *span,
        },
        TypeCheckerError::NestedTupleExpression { span } => TypeCheckerError::NestedTupleExpression { span: *span },
        TypeCheckerError::FinalizeInFinalize { span } => TypeCheckerError::FinalizeInFinalize { span: *span },
        TypeCheckerError::FinalizeWithoutFinalizeBlock { span } => TypeCheckerError::FinalizeWithoutFinalizeBlock { span: *span },
        TypeCheckerError::IncorrectNumArgsToFinalize { expected, received, span } => TypeCheckerError::IncorrectNumArgsToFinalize {
            expected: *expected,
            received: *received,
            span: *span,
        },
        TypeCheckerError::IncrementOrDecrementOutsideFinalize { span } => TypeCheckerError::IncrementOrDecrementOutsideFinalize {
            span: *span,
        },
        TypeCheckerError::CouldNotDetermineType { name, span } => TypeCheckerError::CouldNotDetermineType { name: *name, span: *span },
        TypeCheckerError::UnreachableCodeAfterReturn { span } => TypeCheckerError::UnreachableCodeAfterReturn { span: *span },
        TypeCheckerError::LoopBodyContainsReturn { span } => TypeCheckerError::LoopBodyContainsReturn { span: *span },
        TypeCheckerError::LoopBodyContainsFinalize { span } => TypeCheckerError::LoopBodyContainsFinalize { span: *span },
        TypeCheckerError::LoopBoundMustBeALiteral { span } => TypeCheckerError::LoopBoundMustBeALiteral { span: *span },
    }
}

} // verus!
