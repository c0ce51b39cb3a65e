//! Literal values of Leo programs, as the parser reads them: their text and where they occur.

use vstd::prelude::*;

use crate::ast::types::IntegerType;
use crate::span::Span;

verus! {

/// A coordinate of a group element written as a tuple: a number, or a sign or nothing from
/// which the coordinate is recovered.
#[derive(Debug)]
pub enum GroupCoordinate {
    Number(String, Span),
    SignHigh,
    SignLow,
    Inferred,
}

/// A group element written as a tuple of coordinates.
#[derive(Debug)]
pub struct GroupTuple {
    pub x: GroupCoordinate,
    pub y: GroupCoordinate,
    pub span: Span,
}

/// A group element: a single number or a tuple of coordinates.
#[derive(Debug)]
pub enum GroupValue {
    Single(String, Span),
    Tuple(GroupTuple),
}

/// A literal value: its text, its type where the literal states one, and its span.
#[derive(Debug)]
pub enum ValueExpression {
    Address(String, Span),
    Boolean(String, Span),
    Field(String, Span),
    Group(Box<GroupValue>),
    Implicit(String, Span),
    Integer(IntegerType, String, Span),
}

impl ValueExpression {
    /// The span of the literal.
    pub open spec fn spec_span(self) -> Span {
        match self {
            ValueExpression::Address(_, span) | ValueExpression::Boolean(_, span) | ValueExpression::Field(_, span)
            | ValueExpression::Implicit(_, span) | ValueExpression::Integer(_, _, span) => span,
            ValueExpression::Group(group) => match *group {
                GroupValue::Single(_, span) => span,
                GroupValue::Tuple(tuple) => tuple.span,
            },
        }
    }

    /// Returns the span of the literal.
    pub fn span(&self) -> (s: &Span)
        ensures
            *s == self.spec_span(),
    {
        match self {
            ValueExpression::Address(_, span) | ValueExpression::Boolean(_, span) | ValueExpression::Field(_, span)
            | ValueExpression::Implicit(_, span) | ValueExpression::Integer(_, _, span) => span,
            ValueExpression::Group(group) => match &**group {
                GroupValue::Single(_, span) => span,
                GroupValue::Tuple(tuple) => &tuple.span,
            },
        }
    }

    /// Whether two literals are the same but for their spans.
    pub open spec fn same_but_span(self, other: ValueExpression) -> bool {
        match (self, other) {
            (ValueExpression::Address(a, _), ValueExpression::Address(b, _)) => a@ == b@,
            (ValueExpression::Boolean(a, _), ValueExpression::Boolean(b, _)) => a@ == b@,
            (ValueExpression::Field(a, _), ValueExpression::Field(b, _)) => a@ == b@,
            (ValueExpression::Implicit(a, _), ValueExpression::Implicit(b, _)) => a@ == b@,
            (ValueExpression::Integer(t, a, _), ValueExpression::Integer(u, b, _)) => t == u && a@ == b@,
            (ValueExpression::Group(g), ValueExpression::Group(h)) => match (*g, *h) {
                (GroupValue::Single(a, _), GroupValue::Single(b, _)) => a@ == b@,
                (GroupValue::Tuple(a), GroupValue::Tuple(b)) => a.x == b.x && a.y == b.y,
                _ => false,
            },
            _ => false,
        }
    }

    /// Replaces the span of the literal; everything else is kept.
    pub fn set_span(&mut self, new_span: Span)
        ensures
            final(self).spec_span() == new_span,
            final(self).same_but_span(*old(self)),
    {
        match self {
            ValueExpression::Address(_, span) => *span = new_span,
            ValueExpression::Boolean(_, span) => *span = new_span,
            ValueExpression::Field(_, span) => *span = new_span,
            ValueExpression::Implicit(_, span) => *span = new_span,
            ValueExpression::Integer(_, _, span) => *span = new_span,
            ValueExpression::Group(group) => match &mut **group {
                GroupValue::Single(_, span) => *span = new_span,
                GroupValue::Tuple(tuple) => tuple.span = new_span,
            },
        }
    }
}

/// Returns a copy of the coordinate.
pub fn clone_coordinate(c: &GroupCoordinate) -> (r: GroupCoordinate)
    ensures
        r == *c,
{
    match c {
        GroupCoordinate::Number(text, span) => GroupCoordinate::Number(text.clone(), *span),
        GroupCoordinate::SignHigh => GroupCoordinate::SignHigh,
        GroupCoordinate::SignLow => GroupCoordinate::SignLow,
        GroupCoordinate::Inferred => GroupCoordinate::Inferred,
    }
}

/// Returns a copy of the literal.
pub fn clone_literal(v: &ValueExpression) -> (r: ValueExpression)
    ensures
        r == *v,
{
    match v {
        ValueExpression::Address(text, span) => ValueExpression::Address(text.clone(), *span),
        ValueExpression::Boolean(text, span) => ValueExpression::Boolean(text.clone(), *span),
        ValueExpression::Field(text, span) => ValueExpression::Field(text.clone(), *span),
        ValueExpression::Implicit(text, span) => ValueExpression::Implicit(text.clone(), *span),
        ValueExpression::Integer(t, text, span) => ValueExpression::Integer(*t, text.clone(), *span),
        ValueExpression::Group(group) => ValueExpression::Group(
            Box::new(
                match &**group {
                    GroupValue::Single(text, span) => GroupValue::Single(text.clone(), *span),
                    GroupValue::Tuple(tuple) => GroupValue::Tuple(
                        GroupTuple { x: clone_coordinate(&tuple.x), y: clone_coordinate(&tuple.y), span: tuple.span },
                    ),
                },
            ),
        ),
    }
}

} // verus!
