//! Definition statements: `let` binding one variable to a value, or several variables to the
//! values of a tuple.

use vstd::prelude::*;

use crate::ast::types::Identifier;
use crate::compiler::circuit::ConstrainedProgram;
use crate::compiler::value::{ConstrainedValue, ValueList};
use crate::span::Span;

verus! {

/// A variable of a program: the identifier under which its value is stored, and its name.
#[derive(Clone, Copy, Debug, PartialEq, Eq, Structural)]
pub struct Variable {
    pub id: u128,
    pub name: Identifier,
}

/// A definition statement: the variables it defines, in order.
#[derive(Debug)]
pub struct DefinitionStatement {
    pub variables: Vec<Variable>,
    pub span: Span,
}

/// An error of a statement of a program.
#[derive(Clone, Copy, Debug, PartialEq, Eq, Structural)]
pub enum StatementError {
    /// A definition of several variables whose value is not a tuple.
    MultipleDefinition { span: Span },
    /// A definition of several variables from a tuple of another number of values.
    InvalidNumberOfDefinitions { values: usize, variables: usize, span: Span },
}

/// The store after defining each variable, in order, to the value at its position.
pub open spec fn define_all<F>(
    store: Map<u128, ConstrainedValue<F>>,
    variables: Seq<Variable>,
    values: Seq<ConstrainedValue<F>>,
) -> Map<u128, ConstrainedValue<F>>
    decreases variables.len(),
{
    if variables.len() == 0 || values.len() == 0 {
        store
    } else {
        define_all(store.insert(variables[0].id, values[0]), variables.drop_first(), values.drop_first())
    }
}

impl<F: Copy> ConstrainedProgram<F> {
    /// Defines a variable: its value is stored under its identifier.
    fn enforce_single_definition(&mut self, variable: &Variable, value: ConstrainedValue<F>)
        ensures
            final(self).identifiers@ == old(self).identifiers@.insert(variable.id, value),
    {
        self.store(variable.id, value);
    }

    /// Defines several variables, in order, from the values of a tuple: there must be as many
    /// values as variables.
    pub fn enforce_multiple_definition(&mut self, variables: &Vec<Variable>, values: ValueList<F>, span: Span) -> (r: Result<(), StatementError>)
        requires
            values.seq().len() <= usize::MAX,
        ensures
            values.seq().len() != variables@.len() ==> r == Err::<(), StatementError>(StatementError::InvalidNumberOfDefinitions {
                values: values.seq().len() as usize,
                variables: variables@.len() as usize,
                span,
            }) && final(self).identifiers@ == old(self).identifiers@,
            values.seq().len() == variables@.len() ==> r is Ok
                && final(self).identifiers@ == define_all(old(self).identifiers@, variables@, values.seq()),
    {
        let count = count_values(&values);
        if count != variables.len() {
            return Err(StatementError::InvalidNumberOfDefinitions { values: count, variables: variables.len(), span });
        }
        let ghost start = self.identifiers@;
        let mut rest = values;
        let mut i: usize = 0;
        assert(variables@.subrange(0, variables@.len() as int) =~= variables@);
        assert(rest.seq().subrange(0, rest.seq().len() as int) =~= rest.seq());
        while i < variables.len()
            invariant
                i <= variables@.len(),
                rest.seq() == values.seq().subrange(i as int, values.seq().len() as int),
                values.seq().len() == variables@.len(),
                define_all(self.identifiers@, variables@.subrange(i as int, variables@.len() as int), rest.seq())
                    == define_all(start, variables@, values.seq()),
            decreases variables@.len() - i,
        {
            match rest {
                ValueList::Cons(head, tail) => {
                    let ghost before = self.identifiers@;
                    let ghost vars = variables@.subrange(i as int, variables@.len() as int);
                    assert(rest.seq()[0] == *head);
                    assert(vars[0] == variables@[i as int]);
                    assert(vars.drop_first() =~= variables@.subrange(i + 1, variables@.len() as int));
                    assert(tail.seq() =~= rest.seq().drop_first());
                    self.enforce_single_definition(&variables[i], *head);
                    rest = *tail;
                    i = i + 1;
                    assert(rest.seq() =~= values.seq().subrange(i as int, values.seq().len() as int));
                },
                ValueList::Nil => {
                    assert(rest.seq().len() == 0);
                    assert(false);
                    return Ok(());
                },
            }
        }
        assert(variables@.subrange(i as int, variables@.len() as int).len() == 0);
        Ok(())
    }

    /// Defines the variables of a definition statement from the value of its expression: a single
    /// variable gets the value; several variables get the values of a tuple, which the value must be.
    pub fn enforce_definition_statement(&mut self, statement: &DefinitionStatement, expression: ConstrainedValue<F>) -> (r: Result<(), StatementError>)
        requires
            expression matches ConstrainedValue::Tuple(values) ==> values.seq().len() <= usize::MAX,
        ensures
            statement.variables@.len() == 1 ==> r is Ok
                && final(self).identifiers@ == old(self).identifiers@.insert(statement.variables@[0].id, expression),
            statement.variables@.len() != 1 ==> match expression {
                ConstrainedValue::Tuple(values) => if values.seq().len() == statement.variables@.len() {
                    r is Ok && final(self).identifiers@ == define_all(old(self).identifiers@, statement.variables@, values.seq())
                } else {
                    r == Err::<(), StatementError>(StatementError::InvalidNumberOfDefinitions {
                        values: values.seq().len() as usize,
                        variables: statement.variables@.len() as usize,
                        span: statement.span,
                    }) && final(self).identifiers@ == old(self).identifiers@
                },
                _ => r == Err::<(), StatementError>(StatementError::MultipleDefinition { span: statement.span })
                    && final(self).identifiers@ == old(self).identifiers@,
            },
    {
        if statement.variables.len() == 1 {
            self.enforce_single_definition(&statement.variables[0], expression);
            Ok(())
        } else {
            match expression {
                ConstrainedValue::Tuple(values) => self.enforce_multiple_definition(&statement.variables, values, statement.span),
                _ => Err(StatementError::MultipleDefinition { span: statement.span }),
            }
        }
    }
}

/// Returns the number of values of a list.
fn count_values<F: Copy>(values: &ValueList<F>) -> (n: usize)
    requires
        values.seq().len() <= usize::MAX,
    ensures
        n == values.seq().len(),
    decreases values,
{
    match values {
        ValueList::Nil => 0,
        ValueList::Cons(_, tail) => {
            assert(values.seq().len() == 1 + tail.seq().len());
            1 + count_values(tail)
        },
    }
}

} // verus!
