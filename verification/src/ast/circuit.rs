//! Circuit definitions: their member variables and member functions.

use vstd::prelude::*;

use crate::ast::types::{Identifier, Type};
use crate::span::{Span, Symbol};

verus! {

/// A function of a program, known by its name and the span of its definition.
#[derive(Clone, Copy, Debug, PartialEq, Eq, Structural)]
pub struct Function {
    pub identifier: Identifier,
    pub span: Span,
}

/// A member of a circuit definition.
#[derive(Debug)]
pub enum CircuitMember {
    /// A member variable: whether it is mutable, its name and its type.
    CircuitVariable(bool, Identifier, Type),
    /// A member function: whether it is static, and the function.
    CircuitFunction(bool, Function),
}

/// A circuit definition: its name and its members, in the order of the definition.
#[derive(Debug)]
pub struct Circuit {
    pub circuit_name: Identifier,
    pub members: Vec<CircuitMember>,
}

impl CircuitMember {
    /// The name of the member.
    pub open spec fn spec_name(self) -> Symbol {
        match self {
            CircuitMember::CircuitVariable(_, identifier, _) => identifier.name,
            CircuitMember::CircuitFunction(_, function) => function.identifier.name,
        }
    }

    /// Returns the name of the member.
    pub fn name(&self) -> (s: Symbol)
        ensures
            s == self.spec_name(),
    {
        match self {
            CircuitMember::CircuitVariable(_, identifier, _) => identifier.name,
            CircuitMember::CircuitFunction(_, function) => function.identifier.name,
        }
    }
}

/// Whether the first member of the sequence with the name is a member variable.
pub open spec fn names_variable(members: Seq<CircuitMember>, name: Symbol) -> bool {
    exists|i: int| 0 <= i < members.len() && (#[trigger] members[i]).spec_name() == name
        && members[i] is CircuitVariable
        && forall|j: int| 0 <= j < i ==> (#[trigger] members[j]).spec_name() != name
}

/// Whether the sequence has a member with the name.
pub open spec fn has_member(members: Seq<CircuitMember>, name: Symbol) -> bool {
    exists|i: int| 0 <= i < members.len() && (#[trigger] members[i]).spec_name() == name
}

impl Circuit {
    /// Returns the index of the first member with the name, if there is one.
    pub fn find_member(&self, name: Symbol) -> (r: Option<usize>)
        ensures
            match r {
                Some(i) => i < self.members@.len() && self.members@[i as int].spec_name() == name
                    && forall|j: int| 0 <= j < i ==> (#[trigger] self.members@[j]).spec_name() != name,
                None => forall|j: int| 0 <= j < self.members@.len() ==> (#[trigger] self.members@[j]).spec_name() != name,
            },
    {
        let mut i: usize = 0;
        while i < self.members.len()
            invariant
                i <= self.members@.len(),
                forall|j: int| 0 <= j < i ==> (#[trigger] self.members@[j]).spec_name() != name,
            decreases self.members@.len() - i,
        {
            if self.members[i].name() == name {
                return Some(i);
            }
            i = i + 1;
        }
        None
    }

    /// Returns whether the first member function with the name is static, and the function,
    /// if there is such a member.
    pub fn find_function(&self, name: Symbol) -> (r: Option<(bool, Function)>)
        ensures
            r == function_named(self.members@, name),
    {
        let mut i: usize = 0;
        assert(self.members@.subrange(0, self.members@.len() as int) =~= self.members@);
        while i < self.members.len()
            invariant
                i <= self.members@.len(),
                function_named(self.members@, name) == function_named(self.members@.subrange(i as int, self.members@.len() as int), name),
            decreases self.members@.len() - i,
        {
            let ghost rest = self.members@.subrange(i as int, self.members@.len() as int);
            assert(rest[0] == self.members@[i as int]);
            assert(rest.drop_first() =~= self.members@.subrange(i + 1, self.members@.len() as int));
            if let CircuitMember::CircuitFunction(is_static, function) = &self.members[i] {
                if function.identifier.name == name {
                    return Some((*is_static, *function));
                }
            }
            i = i + 1;
        }
        assert(self.members@.subrange(i as int, self.members@.len() as int).len() == 0);
        None
    }
}

/// Whether the first member function of the sequence with the name is static, and the function,
/// if there is such a member.
pub open spec fn function_named(members: Seq<CircuitMember>, name: Symbol) -> Option<(bool, Function)>
    decreases members.len(),
{
    if members.len() == 0 {
        None
    } else {
        match members[0] {
            CircuitMember::CircuitFunction(is_static, function) => if function.identifier.name == name {
                Some((is_static, function))
            } else {
                function_named(members.drop_first(), name)
            },
            _ => function_named(members.drop_first(), name),
        }
    }
}

} // verus!
