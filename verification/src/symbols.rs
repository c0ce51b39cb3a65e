//! The types that the symbol table records of circuits and function inputs.

use vstd::prelude::*;

use crate::ast::types::{clone_type, Identifier, Type};
use crate::span::Span;

verus! {

/// An attribute of a circuit variable.
#[derive(Clone, Copy, Debug, PartialEq, Eq, Structural)]
pub enum Attribute {
    Mutable,
    Static,
}

/// The type of a circuit, known by its name.
#[derive(Clone, Copy, Debug, PartialEq, Eq, Structural)]
pub struct CircuitType {
    pub identifier: Identifier,
}

/// A variable of circuit type.
#[derive(Debug)]
pub struct CircuitVariableType {
    /// The name of the circuit variable.
    pub identifier: Identifier,
    /// The type of the circuit variable.
    pub type_: Type,
    /// The attribute of the circuit variable.
    pub attribute: Option<Attribute>,
}

impl CircuitVariableType {
    /// The variable that a circuit type stands for: named as the circuit, of the circuit's type,
    /// without attribute.
    pub fn from(type_: &CircuitType) -> (v: CircuitVariableType)
        ensures
            v.identifier == type_.identifier,
            v.type_ == Type::Identifier(type_.identifier),
            v.attribute is None,
    {
        CircuitVariableType { identifier: type_.identifier, type_: Type::Identifier(type_.identifier), attribute: None }
    }
}

/// A function input variable, with its resolved type.
#[derive(Debug)]
pub struct FunctionInputVariableType {
    pub identifier: Identifier,
    pub type_: Type,
    pub attribute: Option<Attribute>,
    pub span: Span,
}

/// A function input as the parser reads it: a keyword with its span, or a variable, whose type
/// the symbol table has resolved.
#[derive(Debug)]
pub enum FunctionInput {
    InputKeyword(Identifier),
    SelfKeyword(Span),
    MutSelfKeyword(Span),
    Variable(FunctionInputVariableType),
}

/// A function input, with its type.
#[derive(Debug)]
pub enum FunctionInputType {
    InputKeyword(Identifier),
    SelfKeyword(Identifier),
    MutSelfKeyword(Identifier),
    Variable(FunctionInputVariableType),
}

impl FunctionInputType {
    /// The identifier of the input.
    pub open spec fn spec_identifier(self) -> Identifier {
        match self {
            FunctionInputType::InputKeyword(identifier) => identifier,
            FunctionInputType::SelfKeyword(identifier) => identifier,
            FunctionInputType::MutSelfKeyword(identifier) => identifier,
            FunctionInputType::Variable(variable) => variable.identifier,
        }
    }

    /// Returns the identifier containing the name and span of the input.
    pub fn identifier(&self) -> (i: &Identifier)
        ensures
            *i == self.spec_identifier(),
    {
        match self {
            FunctionInputType::InputKeyword(identifier) => identifier,
            FunctionInputType::SelfKeyword(identifier) => identifier,
            FunctionInputType::MutSelfKeyword(identifier) => identifier,
            FunctionInputType::Variable(variable) => &variable.identifier,
        }
    }

    /// Returns the type of the input: a keyword stands for the circuit it names.
    pub fn type_(&self) -> (t: Type)
        ensures
            t == match *self {
                FunctionInputType::Variable(variable) => variable.type_,
                _ => Type::Identifier(self.spec_identifier()),
            },
    {
        match self {
            FunctionInputType::InputKeyword(identifier) => Type::Identifier(*identifier),
            FunctionInputType::SelfKeyword(identifier) => Type::Identifier(*identifier),
            FunctionInputType::MutSelfKeyword(identifier) => Type::Identifier(*identifier),
            FunctionInputType::Variable(variable) => clone_type(&variable.type_),
        }
    }

    /// Returns the span of the input.
    pub fn span(&self) -> (s: &Span)
        ensures
            *s == match *self {
                FunctionInputType::Variable(variable) => variable.span,
                _ => self.spec_identifier().span,
            },
    {
        match self {
            FunctionInputType::InputKeyword(identifier) => &identifier.span,
            FunctionInputType::SelfKeyword(identifier) => &identifier.span,
            FunctionInputType::MutSelfKeyword(identifier) => &identifier.span,
            FunctionInputType::Variable(variable) => &variable.span,
        }
    }

    /// Returns whether the input is `self` or `mut self`.
    pub fn is_self(&self) -> (b: bool)
        ensures
            b == (*self is SelfKeyword || *self is MutSelfKeyword),
    {
        match self {
            FunctionInputType::InputKeyword(_) => false,
            FunctionInputType::SelfKeyword(_) => true,
            FunctionInputType::MutSelfKeyword(_) => true,
            FunctionInputType::Variable(_) => false,
        }
    }

    /// Returns the input of a function outside a circuit, where `self` cannot occur.
    pub fn new(unresolved: FunctionInput) -> (r: FunctionInputType)
        requires
            !(unresolved is SelfKeyword),
            !(unresolved is MutSelfKeyword),
        ensures
            match unresolved {
                FunctionInput::InputKeyword(keyword) => r == FunctionInputType::InputKeyword(keyword),
                FunctionInput::Variable(variable) => r == FunctionInputType::Variable(variable),
                _ => false,
            },
    {
        match unresolved {
            FunctionInput::InputKeyword(keyword) => FunctionInputType::InputKeyword(keyword),
            FunctionInput::Variable(variable) => FunctionInputType::Variable(variable),
            FunctionInput::SelfKeyword(_) | FunctionInput::MutSelfKeyword(_) => {
                assert(false);
                FunctionInputType::InputKeyword(Identifier { name: 0, span: Span { lo: 0, hi: 0 } })
            },
        }
    }

    /// Returns the input of a function of the circuit: `self` and `mut self` are named as the
    /// circuit, at the keyword's span.
    pub fn new_from_circuit(unresolved: FunctionInput, circuit_name: Identifier) -> (r: FunctionInputType)
        ensures
            match unresolved {
                FunctionInput::InputKeyword(keyword) => r == FunctionInputType::InputKeyword(keyword),
                FunctionInput::SelfKeyword(span) => r == FunctionInputType::SelfKeyword(Identifier { name: circuit_name.name, span }),
                FunctionInput::MutSelfKeyword(span) => r == FunctionInputType::MutSelfKeyword(Identifier { name: circuit_name.name, span }),
                FunctionInput::Variable(variable) => r == FunctionInputType::Variable(variable),
            },
    {
        match unresolved {
            FunctionInput::InputKeyword(keyword) => FunctionInputType::InputKeyword(keyword),
            FunctionInput::SelfKeyword(span) => FunctionInputType::SelfKeyword(Identifier::new(circuit_name.name, span)),
            FunctionInput::MutSelfKeyword(span) => FunctionInputType::MutSelfKeyword(Identifier::new(circuit_name.name, span)),
            FunctionInput::Variable(variable) => FunctionInputType::Variable(variable),
        }
    }
}

} // verus!
