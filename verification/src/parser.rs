//! The errors that the parser reports for syntax that Leo no longer accepts.

use vstd::prelude::*;

verus! {

/// Where an error occurs in the source: its lines and its columns.
#[derive(Clone, Copy, Debug, PartialEq, Eq, Structural)]
pub struct LineSpan {
    pub line_start: usize,
    pub line_stop: usize,
    pub col_start: usize,
    pub col_stop: usize,
}

/// An error message with the span it points at.
#[derive(Debug)]
pub struct FormattedError {
    pub message: String,
    pub span: LineSpan,
}

/// An error for deprecated syntax.
#[derive(Debug)]
pub enum DeprecatedError {
    Error(FormattedError),
}

impl DeprecatedError {
    /// The message of the error.
    pub open spec fn message(self) -> Seq<char> {
        match self {
            DeprecatedError::Error(e) => e.message@,
        }
    }

    /// The span the error points at.
    pub open spec fn span(self) -> LineSpan {
        match self {
            DeprecatedError::Error(e) => e.span,
        }
    }

    fn new_from_span(message: &str, span: LineSpan) -> (e: Self)
        ensures
            e.message() == message@,
            e.span() == span,
    {
        DeprecatedError::Error(FormattedError { message: String::from_str(message), span })
    }

    /// `mut` on a function input: the span, which starts after the keyword, is moved back by one
    /// column.
    pub fn mut_function_input(span: LineSpan) -> (e: Self)
        requires
            span.col_start >= 1,
            span.col_stop >= 1,
        ensures
            e.message() == "function func(mut a: u32) { ... } is deprecated. Passed variables are mutable by default."@,
            e.span() == (LineSpan { col_start: (span.col_start - 1) as usize, col_stop: (span.col_stop - 1) as usize, ..span }),
    {
        let mut span = span;
        span.col_start = span.col_start - 1;
        span.col_stop = span.col_stop - 1;
        Self::new_from_span("function func(mut a: u32) { ... } is deprecated. Passed variables are mutable by default.", span)
    }

    /// `let mut`: the span, which starts after the keyword, is moved back by one column.
    pub fn let_mut_statement(span: LineSpan) -> (e: Self)
        requires
            span.col_start >= 1,
            span.col_stop >= 1,
        ensures
            e.message() == "let mut = ... is deprecated. `let` keyword implies mutabality by default."@,
            e.span() == (LineSpan { col_start: (span.col_start - 1) as usize, col_stop: (span.col_stop - 1) as usize, ..span }),
    {
        let mut span = span;
        span.col_start = span.col_start - 1;
        span.col_stop = span.col_stop - 1;
        Self::new_from_span("let mut = ... is deprecated. `let` keyword implies mutabality by default.", span)
    }

    /// A `test function`.
    pub fn test_function(span: &LineSpan) -> (e: Self)
        ensures
            e.message() == "\"test function...\" is deprecated. Did you mean @test annotation?"@,
            e.span() == *span,
    {
        Self::new_from_span("\"test function...\" is deprecated. Did you mean @test annotation?", *span)
    }

    /// A `@context(...)` annotation.
    pub fn context_annotation(span: &LineSpan) -> (e: Self)
        ensures
            e.message() == "\"@context(...)\" is deprecated. Did you mean @test annotation?"@,
            e.span() == *span,
    {
        Self::new_from_span("\"@context(...)\" is deprecated. Did you mean @test annotation?", *span)
    }
}

} // verus!
