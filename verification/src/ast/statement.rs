//! Definition statements of Leo programs, as the type checker sees them.

use vstd::prelude::*;

use crate::ast::types::{Identifier, Type};
use crate::ast::value::ValueExpression;
use crate::span::Span;

verus! {

/// How a definition declares its variables.
#[derive(Clone, Copy, Debug, PartialEq, Eq, Structural)]
pub enum DeclarationType {
    Const,
    Let,
}

/// An element of a tuple that a definition binds: an identifier, or another expression, known
/// by its span.
#[derive(Clone, Copy, Debug, PartialEq, Eq, Structural)]
pub enum PlaceElement {
    Identifier(Identifier),
    Other(Span),
}

/// What a definition binds: an identifier, a tuple of elements, or another expression, known by
/// its span.
#[derive(Debug)]
pub enum DefinitionPlace {
    Identifier(Identifier),
    Tuple(Vec<PlaceElement>),
    Other(Span),
}

/// A definition statement: `let` or `const`, the place it binds, the declared type, and the
/// value it binds, checked.
#[derive(Debug)]
pub struct DefinitionStatement {
    pub declaration_type: DeclarationType,
    pub place: DefinitionPlace,
    pub type_: Type,
    pub value: CheckedExpression,
    pub span: Span,
}

/// What an assignment assigns to: a variable, or another expression, known by its span.
#[derive(Clone, Copy, Debug, PartialEq, Eq, Structural)]
pub enum AssignPlace {
    Identifier(Identifier),
    Other(Span),
}

/// An assignment statement: the place it assigns to, and the value it assigns, checked.
#[derive(Debug)]
pub struct AssignStatement {
    pub place: AssignPlace,
    pub value: CheckedExpression,
    pub span: Span,
}

/// An expression that has been type checked: its type, where it was determined, the errors that
/// its check reported, and its span.
#[derive(Debug)]
pub struct CheckedExpression {
    pub type_: Option<Type>,
    pub errors: Vec<crate::passes::errors::TypeCheckerError>,
    pub span: Span,
}

/// The kinds of assertion.
#[derive(Debug)]
pub enum AssertVariant {
    Assert(CheckedExpression),
    AssertEq(CheckedExpression, CheckedExpression),
    AssertNeq(CheckedExpression, CheckedExpression),
}

/// An assertion statement.
#[derive(Debug)]
pub struct AssertStatement {
    pub variant: AssertVariant,
    pub span: Span,
}

/// A return statement: its expression checked, with the elements of the expression where it is
/// a tuple (whether each is a tuple, and its span), and the arguments to the finalize block, if
/// the statement passes any, checked.
#[derive(Debug)]
pub struct ReturnStatement {
    pub expression: CheckedExpression,
    pub tuple_elements: Option<Vec<(bool, Span)>>,
    pub finalize_arguments: Option<Vec<CheckedExpression>>,
    pub span: Span,
}

/// An increment of a value in a mapping: the mapping, as checked, the index and the amount,
/// checked.
#[derive(Debug)]
pub struct IncrementStatement {
    pub mapping: Identifier,
    pub mapping_check: CheckedExpression,
    pub index: CheckedExpression,
    pub amount: CheckedExpression,
    pub span: Span,
}

/// A decrement of a value in a mapping: the mapping, as checked, the index and the amount,
/// checked.
#[derive(Debug)]
pub struct DecrementStatement {
    pub mapping: Identifier,
    pub mapping_check: CheckedExpression,
    pub index: CheckedExpression,
    pub amount: CheckedExpression,
    pub span: Span,
}

/// An expression statement: whether its expression is a call, and the expression checked.
#[derive(Debug)]
pub struct ExpressionStatement {
    pub is_call: bool,
    pub expression: CheckedExpression,
    pub span: Span,
}

/// A conditional statement: the condition, checked, the block run where it holds, and the
/// statement run where it does not, if any: a block or another conditional.
#[derive(Debug)]
pub struct ConditionalStatement {
    pub condition: CheckedExpression,
    pub then_block: Block,
    pub otherwise: Option<Box<Statement>>,
    pub span: Span,
}

/// A loop over a range of integers: the loop variable and its type, the bounds, and the body.
/// Each bound comes checked, with the literal it is, where it is one, and its value, which the
/// type check records where the bound is a literal.
#[derive(Debug)]
pub struct IterationStatement {
    pub variable: Identifier,
    pub type_: Type,
    pub start: CheckedExpression,
    pub start_literal: Option<ValueExpression>,
    pub start_value: Option<ValueExpression>,
    pub stop: CheckedExpression,
    pub stop_literal: Option<ValueExpression>,
    pub stop_value: Option<ValueExpression>,
    pub block: Block,
    pub span: Span,
}

/// A block of statements, which is a scope of its own.
#[derive(Debug)]
pub struct Block {
    pub statements: StatementList,
    pub span: Span,
}

/// The statements of a block, in order.
#[derive(Debug)]
pub enum StatementList {
    Nil,
    Cons(Box<Statement>, Box<StatementList>),
}

/// A statement of a function.
#[derive(Debug)]
pub enum Statement {
    Assert(AssertStatement),
    Assign(AssignStatement),
    Block(Block),
    Conditional(ConditionalStatement),
    Decrement(DecrementStatement),
    Definition(DefinitionStatement),
    Expression(ExpressionStatement),
    Increment(IncrementStatement),
    Iteration(Box<IterationStatement>),
    Return(ReturnStatement),
}

impl Statement {
    /// The span of the statement.
    pub open spec fn spec_span(self) -> Span {
        match self {
            Statement::Assert(s) => s.span,
            Statement::Assign(s) => s.span,
            Statement::Block(s) => s.span,
            Statement::Conditional(s) => s.span,
            Statement::Decrement(s) => s.span,
            Statement::Definition(s) => s.span,
            Statement::Expression(s) => s.span,
            Statement::Increment(s) => s.span,
            Statement::Iteration(s) => s.span,
            Statement::Return(s) => s.span,
        }
    }

    /// Returns the span of the statement.
    pub fn span(&self) -> (r: Span)
        ensures
            r == self.spec_span(),
    {
        match self {
            Statement::Assert(s) => s.span,
            Statement::Assign(s) => s.span,
            Statement::Block(s) => s.span,
            Statement::Conditional(s) => s.span,
            Statement::Decrement(s) => s.span,
            Statement::Definition(s) => s.span,
            Statement::Expression(s) => s.span,
            Statement::Increment(s) => s.span,
            Statement::Iteration(s) => s.span,
            Statement::Return(s) => s.span,
        }
    }
}

} // verus!
