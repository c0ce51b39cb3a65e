//! Circuit values: their construction from a circuit definition and the values of its member
//! variables, and the access to their members.

use std::collections::HashMap;

use vstd::prelude::*;

use crate::ast::circuit::{function_named, has_member, names_variable, Circuit, CircuitMember};
use crate::ast::types::Identifier;
use crate::compiler::value::{ConstrainedCircuitMember, ConstrainedValue, MemberList};
use crate::span::{Span, Symbol};

verus! {

broadcast use vstd::std_specs::hash::group_hash_axioms;

/// An error of an expression of a program.
#[derive(Clone, Copy, Debug, PartialEq, Eq, Structural)]
pub enum ExpressionError {
    /// A circuit expression gives a value to a member that is a function.
    ExpectedCircuitMember { member: Identifier, span: Span },
    /// A member is accessed on a value that is not a circuit.
    UndefinedCircuit { span: Span },
    /// The circuit has no member of the name.
    UndefinedMemberAccess { circuit: Identifier, member: Identifier, span: Span },
    /// A static function is accessed on a circuit value.
    InvalidStaticAccess { member: Identifier, span: Span },
    /// The circuit has no function of the name.
    UndefinedStaticAccess { circuit: Identifier, member: Identifier, span: Span },
    /// A function that is not static is accessed on the circuit itself.
    InvalidMemberAccess { member: Identifier, span: Span },
}

/// The state of a program being compiled: the values it has stored, by their identifiers.
pub struct ConstrainedProgram<F> {
    pub identifiers: HashMap<u128, ConstrainedValue<F>>,
}

/// Returns a fresh identifier for a circuit value, drawn at random.
#[verifier::external_body]
fn new_circuit_id() -> u128 {
    uuid::Uuid::new_v4().as_u128()
}

/// The members that a circuit expression builds: each name with its value, in order.
pub open spec fn members_of<F>(values: Seq<(Identifier, ConstrainedValue<F>)>) -> Seq<ConstrainedCircuitMember<F>> {
    values.map_values(|p: (Identifier, ConstrainedValue<F>)| ConstrainedCircuitMember(p.0, p.1))
}

/// The value of the first member of the list with the name, if there is one.
pub open spec fn member_value<F>(members: MemberList<F>, name: Symbol) -> Option<ConstrainedValue<F>>
    decreases members,
{
    match members {
        MemberList::Nil => None,
        MemberList::Cons(head, tail) => if head.0.name == name {
            Some(head.1)
        } else {
            member_value(*tail, name)
        },
    }
}

/// Returns the value of the first member of the list with the name, if there is one.
fn find_member_value<F: Copy>(members: &MemberList<F>, name: Symbol) -> (r: Option<ConstrainedValue<F>>)
    ensures
        r == member_value(*members, name),
    decreases members,
{
    match members {
        MemberList::Nil => None,
        MemberList::Cons(head, tail) => if head.0.name == name {
            Some(head.1.clone_value())
        } else {
            find_member_value(tail, name)
        },
    }
}

/// Whether every value of a circuit expression is given to a member variable of the circuit.
pub open spec fn all_variables<F>(members: Seq<CircuitMember>, values: Seq<(Identifier, ConstrainedValue<F>)>) -> bool {
    forall|k: int| 0 <= k < values.len() ==> names_variable(members, (#[trigger] values[k]).0.name)
}

/// The result of accessing a member of a circuit value whose circuit has the members.
pub open spec fn member_access<F>(
    circuit: Identifier,
    members: MemberList<F>,
    definition: Seq<CircuitMember>,
    member: Identifier,
    span: Span,
) -> Result<ConstrainedValue<F>, ExpressionError> {
    match member_value(members, member.name) {
        Some(v) => Ok(v),
        None => match function_named(definition, member.name) {
            Some((true, _)) => Err(ExpressionError::InvalidStaticAccess { member, span }),
            Some((false, f)) => Ok(ConstrainedValue::Function(Some(circuit), f)),
            None => Err(ExpressionError::UndefinedMemberAccess { circuit, member, span }),
        },
    }
}

/// The result of accessing a function of a circuit through the circuit itself.
pub open spec fn static_access<F>(circuit: Identifier, definition: Seq<CircuitMember>, member: Identifier, span: Span) -> Result<ConstrainedValue<F>, ExpressionError> {
    match function_named(definition, member.name) {
        Some((true, f)) => Ok(ConstrainedValue::Function(Some(circuit), f)),
        Some((false, _)) => Err(ExpressionError::InvalidMemberAccess { member, span }),
        None => Err(ExpressionError::UndefinedStaticAccess { circuit, member, span }),
    }
}

impl<F> ConstrainedProgram<F> {
    /// The value stored under the identifier, if there is one.
    pub open spec fn stored(self, id: u128) -> Option<ConstrainedValue<F>> {
        if self.identifiers@.contains_key(id) { Some(self.identifiers@[id]) } else { None }
    }
}

impl<F: Copy> ConstrainedProgram<F> {
    /// Creates a program that has stored no value.
    pub fn new() -> (p: Self)
        ensures
            p.identifiers@ == Map::<u128, ConstrainedValue<F>>::empty(),
    {
        ConstrainedProgram { identifiers: HashMap::new() }
    }

    /// Stores the value under the identifier, in place of any value stored under it before.
    pub fn store(&mut self, id: u128, value: ConstrainedValue<F>)
        ensures
            final(self).identifiers@ == old(self).identifiers@.insert(id, value),
    {
        self.identifiers.insert(id, value);
    }

    /// Returns a copy of the value stored under the identifier, if there is one.
    pub fn get(&self, id: u128) -> (r: Option<ConstrainedValue<F>>)
        ensures
            r == self.stored(id),
    {
        match self.identifiers.get(&id) {
            Some(v) => Some(v.clone_value()),
            None => None,
        }
    }

    /// Builds the value of a circuit expression: each value, in order, becomes the member of its
    /// name. A value given to a member function is refused. The circuit value gets a fresh
    /// identifier, under which it is stored.
    pub fn enforce_circuit(
        &mut self,
        circuit: &Circuit,
        values: Vec<(Identifier, ConstrainedValue<F>)>,
        span: Span,
    ) -> (r: Result<ConstrainedValue<F>, ExpressionError>)
        requires
            forall|k: int| 0 <= k < values@.len() ==> has_member(circuit.members@, (#[trigger] values@[k]).0.name),
        ensures
            all_variables(circuit.members@, values@) ==> (r matches Ok(ConstrainedValue::CircuitExpression(name, id, members))
                && name == circuit.circuit_name
                && members.seq() == members_of(values@)
                && final(self).identifiers@ == old(self).identifiers@.insert(id, r->Ok_0)),
            !all_variables(circuit.members@, values@) ==> (final(self).identifiers@ == old(self).identifiers@
                && exists|k: int| #![trigger values@[k]] 0 <= k < values@.len()
                    && !names_variable(circuit.members@, values@[k].0.name)
                    && (forall|j: int| 0 <= j < k ==> names_variable(circuit.members@, (#[trigger] values@[j]).0.name))
                    && r == Err::<ConstrainedValue<F>, ExpressionError>(ExpressionError::ExpectedCircuitMember { member: values@[k].0, span })),
    {
        let mut i: usize = 0;
        while i < values.len()
            invariant
                i <= values@.len(),
                forall|k: int| 0 <= k < values@.len() ==> has_member(circuit.members@, (#[trigger] values@[k]).0.name),
                forall|k: int| 0 <= k < i ==> names_variable(circuit.members@, (#[trigger] values@[k]).0.name),
            decreases values@.len() - i,
        {
            let name = values[i].0;
            assert(has_member(circuit.members@, values@[i as int].0.name));
            match circuit.find_member(name.name) {
                Some(j) => {
                    match &circuit.members[j] {
                        CircuitMember::CircuitVariable(..) => {
                            assert(names_variable(circuit.members@, name.name));
                        },
                        CircuitMember::CircuitFunction(..) => {
                            assert(!names_variable(circuit.members@, name.name)) by {
                                if names_variable(circuit.members@, name.name) {
                                    let w = choose|w: int| 0 <= w < circuit.members@.len()
                                        && (#[trigger] circuit.members@[w]).spec_name() == name.name
                                        && circuit.members@[w] is CircuitVariable
                                        && forall|v: int| 0 <= v < w ==> (#[trigger] circuit.members@[v]).spec_name() != name.name;
                                    assert(circuit.members@[j as int].spec_name() == name.name);
                                    if w < j {
                                        assert(circuit.members@[w].spec_name() != name.name);
                                    } else if j < w {
                                        assert(circuit.members@[j as int].spec_name() != name.name);
                                    }
                                }
                            }
                            assert(!all_variables(circuit.members@, values@));
                            return Err(ExpressionError::ExpectedCircuitMember { member: name, span });
                        },
                    }
                },
                None => {
                    proof {
                        let w = choose|w: int| 0 <= w < circuit.members@.len() && (#[trigger] circuit.members@[w]).spec_name() == name.name;
                        assert(circuit.members@[w].spec_name() != name.name);
                    }
                },
            }
            i = i + 1;
        }
        let mut members: MemberList<F> = MemberList::Nil;
        let mut k: usize = values.len();
        while k > 0
            invariant
                k <= values@.len(),
                members.seq() == members_of(values@).subrange(k as int, values@.len() as int),
            decreases k,
        {
            k = k - 1;
            let member = ConstrainedCircuitMember(values[k].0, values[k].1.clone_value());
            let ghost before = members.seq();
            members = MemberList::Cons(Box::new(member), Box::new(members));
            assert(members.seq() =~= members_of(values@).subrange(k as int, values@.len() as int)) by {
                assert(members.seq() == seq![member] + before);
            }
        }
        assert(members_of(values@).subrange(0, values@.len() as int) =~= members_of(values@));
        let id = new_circuit_id();
        let value = ConstrainedValue::CircuitExpression(circuit.circuit_name, id, members);
        self.store(id, value.clone_value());
        Ok(value)
    }
}

impl<F: Copy> ConstrainedValue<F> {
    /// Accesses a member of a circuit value, whose circuit has the definition: the value of a
    /// member variable, or a member function that is not static. A static function cannot be
    /// accessed on a value; a value that is not a circuit has no members.
    pub fn enforce_circuit_access(&self, definition: &Circuit, member: Identifier, span: Span) -> (r: Result<ConstrainedValue<F>, ExpressionError>)
        requires
            self matches ConstrainedValue::CircuitExpression(name, _, _) ==> definition.circuit_name.name == name.name,
        ensures
            match *self {
                ConstrainedValue::CircuitExpression(name, _, members) => r == member_access(name, members, definition.members@, member, span),
                _ => r == Err::<ConstrainedValue<F>, ExpressionError>(ExpressionError::UndefinedCircuit { span }),
            },
    {
        match self {
            ConstrainedValue::CircuitExpression(name, _id, members) => {
                match find_member_value(members, member.name) {
                    Some(v) => Ok(v),
                    None => match definition.find_function(member.name) {
                        Some((true, _function)) => Err(ExpressionError::InvalidStaticAccess { member, span }),
                        Some((false, function)) => Ok(ConstrainedValue::Function(Some(*name), function)),
                        None => Err(ExpressionError::UndefinedMemberAccess { circuit: *name, member, span }),
                    },
                }
            },
            _ => Err(ExpressionError::UndefinedCircuit { span }),
        }
    }
}

/// Accesses a function of a circuit through the circuit itself: only a static function can be
/// accessed so.
pub fn enforce_circuit_static_access<F>(definition: &Circuit, member: Identifier, span: Span) -> (r: Result<ConstrainedValue<F>, ExpressionError>)
    ensures
        r == static_access::<F>(definition.circuit_name, definition.members@, member, span),
{
    match definition.find_function(member.name) {
        Some((true, function)) => Ok(ConstrainedValue::Function(Some(definition.circuit_name), function)),
        Some((false, _function)) => Err(ExpressionError::InvalidMemberAccess { member, span }),
        None => Err(ExpressionError::UndefinedStaticAccess { circuit: definition.circuit_name, member, span }),
    }
}

/// A value stored under an identifier is what is read back under it; what is stored under other
/// identifiers is unaffected.
pub proof fn law_read_after_store<F>(
    before: ConstrainedProgram<F>,
    after: ConstrainedProgram<F>,
    id: u128,
    value: ConstrainedValue<F>,
    other: u128,
)
    requires
        after.identifiers@ == before.identifiers@.insert(id, value),
    ensures
        after.stored(id) == Some(value),
        other != id ==> after.stored(other) == before.stored(other),
{
}

/// What a circuit expression gives a member variable is what accessing the member on the circuit
/// value reads back: the first value given to a member of that name.
pub proof fn law_member_read_back<F>(
    circuit: Identifier,
    values: Seq<(Identifier, ConstrainedValue<F>)>,
    members: MemberList<F>,
    definition: Seq<CircuitMember>,
    k: int,
    span: Span,
)
    requires
        members.seq() == members_of(values),
        0 <= k < values.len(),
        forall|j: int| 0 <= j < k ==> (#[trigger] values[j]).0.name != values[k].0.name,
    ensures
        member_value(members, values[k].0.name) == Some(values[k].1),
        member_access(circuit, members, definition, values[k].0, span) == Ok::<ConstrainedValue<F>, ExpressionError>(values[k].1),
    decreases values.len(),
{
    match members {
        MemberList::Nil => {
            assert(members_of(values).len() == values.len());
        },
        MemberList::Cons(head, tail) => {
            assert(members.seq()[0] == *head);
            assert(members_of(values)[0] == ConstrainedCircuitMember(values[0].0, values[0].1));
            if k > 0 {
                assert(values[0].0.name != values[k].0.name);
                let rest = values.drop_first();
                assert(tail.seq() =~= members_of(rest)) by {
                    assert(tail.seq() =~= members.seq().drop_first());
                }
                assert(rest[k - 1] == values[k]);
                assert forall|j: int| 0 <= j < k - 1 implies (#[trigger] rest[j]).0.name != rest[k - 1].0.name by {
                    assert(rest[j] == values[j + 1]);
                }
                law_member_read_back(circuit, rest, *tail, definition, k - 1, span);
            }
        },
    }
}

} // verus!
