use leo_lang::ast::circuit::{Circuit, CircuitMember, Function};
use leo_lang::ast::types::{Identifier, IntegerType, Type};
use leo_lang::compiler::circuit::{enforce_circuit_static_access, ConstrainedProgram, ExpressionError};
use leo_lang::compiler::integer::Integer;
use leo_lang::compiler::value::{ConstrainedValue, MemberList, ValueList};
use leo_lang::span::{Interner, Span};

fn ident(interner: &mut Interner, name: &str) -> Identifier {
    Identifier::new(interner.intern(name), Span::dummy())
}

fn u32_value(v: u32) -> ConstrainedValue<u64> {
    ConstrainedValue::Integer(Integer::U32(Some(v)))
}

fn returned(value: ConstrainedValue<u64>) -> ConstrainedValue<u64> {
    ConstrainedValue::Return(ValueList::Cons(Box::new(value), Box::new(ValueList::Nil)))
}

// The program returns `1u32`.
fn output_one(output: ConstrainedValue<u64>) {
    match output {
        ConstrainedValue::Return(ValueList::Cons(value, rest)) => {
            assert!(matches!(*value, ConstrainedValue::Integer(Integer::U32(Some(1)))));
            assert!(matches!(*rest, ValueList::Nil));
        }
        other => panic!("expected the output 1u32, got {:?}", other),
    }
}

// circuit Circ { x: u32 }
fn circ_with_field(interner: &mut Interner) -> Circuit {
    Circuit {
        circuit_name: ident(interner, "Circ"),
        members: vec![CircuitMember::CircuitVariable(false, ident(interner, "x"), Type::Integer(IntegerType::U32))],
    }
}

// circuit Circ { function echo(x: u32) -> u32 { return x } }, where `echo` is static or not.
fn circ_with_echo(interner: &mut Interner, is_static: bool) -> Circuit {
    let echo = Function { identifier: ident(interner, "echo"), span: Span::new(10, 40) };
    Circuit { circuit_name: ident(interner, "Circ"), members: vec![CircuitMember::CircuitFunction(is_static, echo)] }
}

// The body of `echo`: it returns its argument.
fn call_echo(function: &ConstrainedValue<u64>, interner: &mut Interner, argument: ConstrainedValue<u64>) -> ConstrainedValue<u64> {
    let echo = interner.intern("echo");
    match function {
        ConstrainedValue::Function(Some(_), f) if f.identifier.name == echo => argument,
        other => panic!("expected the function echo, got {:?}", other),
    }
}

// function main() -> u32 { let c = Circ { x: 1u32 }; return c.x }
#[test]
fn test_member_field() {
    let mut interner = Interner::new();
    let circuit = circ_with_field(&mut interner);
    let x = ident(&mut interner, "x");
    let mut program = ConstrainedProgram::<u64>::new();
    let c = program.enforce_circuit(&circuit, vec![(x, u32_value(1))], Span::dummy()).unwrap();
    let value = c.enforce_circuit_access(&circuit, x, Span::dummy()).unwrap();
    output_one(returned(value));
}

// function main() -> u32 { let c = Circ { }; return c.echo(1u32) }
// The library looks up `echo`; the helper `call_echo` plays echo's body and hands its argument
// back, so the check on the output tests only that the lookup found `echo`, not a run of it.
#[test]
fn test_member_function() {
    let mut interner = Interner::new();
    let circuit = circ_with_echo(&mut interner, false);
    let echo = ident(&mut interner, "echo");
    let mut program = ConstrainedProgram::<u64>::new();
    let c = program.enforce_circuit(&circuit, vec![], Span::dummy()).unwrap();
    let function = c.enforce_circuit_access(&circuit, echo, Span::dummy()).unwrap();
    output_one(returned(call_echo(&function, &mut interner, u32_value(1))));
}

// function main() -> u32 { return Circ::echo(1u32) }, `echo` being static
// The library looks up `echo`; the helper `call_echo` plays echo's body and hands its argument
// back, so the check on the output tests only that the lookup found `echo`, not a run of it.
#[test]
fn test_member_static_function() {
    let mut interner = Interner::new();
    let circuit = circ_with_echo(&mut interner, true);
    let echo = ident(&mut interner, "echo");
    let function = enforce_circuit_static_access::<u64>(&circuit, echo, Span::dummy()).unwrap();
    output_one(returned(call_echo(&function, &mut interner, u32_value(1))));
}

// function main() -> u32 { let c = Circ { x: 1u32 }; return c.y }
#[test]
fn test_member_field_fail() {
    let mut interner = Interner::new();
    let circuit = circ_with_field(&mut interner);
    let x = ident(&mut interner, "x");
    let y = ident(&mut interner, "y");
    let mut program = ConstrainedProgram::<u64>::new();
    let c = program.enforce_circuit(&circuit, vec![(x, u32_value(1))], Span::dummy()).unwrap();
    let error = c.enforce_circuit_access(&circuit, y, Span::dummy()).unwrap_err();
    assert_eq!(error, ExpressionError::UndefinedMemberAccess { circuit: circuit.circuit_name, member: y, span: Span::dummy() });
}

// function main() -> u32 { let c = Circ { }; return c.echo(1u32) }, `echo` being static
#[test]
fn test_member_function_invalid() {
    let mut interner = Interner::new();
    let circuit = circ_with_echo(&mut interner, true);
    let echo = ident(&mut interner, "echo");
    let mut program = ConstrainedProgram::<u64>::new();
    let c = program.enforce_circuit(&circuit, vec![], Span::dummy()).unwrap();
    let error = c.enforce_circuit_access(&circuit, echo, Span::dummy()).unwrap_err();
    assert_eq!(error, ExpressionError::InvalidStaticAccess { member: echo, span: Span::dummy() });
}

// function main() -> u32 { return Circ::echo(1u32) }, `echo` not being static
#[test]
fn test_member_static_function_invalid() {
    let mut interner = Interner::new();
    let circuit = circ_with_echo(&mut interner, false);
    let echo = ident(&mut interner, "echo");
    let error = enforce_circuit_static_access::<u64>(&circuit, echo, Span::dummy()).unwrap_err();
    assert_eq!(error, ExpressionError::InvalidMemberAccess { member: echo, span: Span::dummy() });
}

// function main() -> u32 { return Circ::echoed(1u32) }
#[test]
fn test_member_static_function_undefined() {
    let mut interner = Interner::new();
    let circuit = circ_with_echo(&mut interner, true);
    let other = ident(&mut interner, "echoed");
    let error = enforce_circuit_static_access::<u64>(&circuit, other, Span::dummy()).unwrap_err();
    assert_eq!(error, ExpressionError::UndefinedStaticAccess { circuit: circuit.circuit_name, member: other, span: Span::dummy() });
}

// function main() -> u32 { let c = Circ { }; return c.echoed(1u32) }
#[test]
fn test_member_function_fail() {
    let mut interner = Interner::new();
    let circuit = circ_with_echo(&mut interner, false);
    let other = ident(&mut interner, "echoed");
    let mut program = ConstrainedProgram::<u64>::new();
    let c = program.enforce_circuit(&circuit, vec![], Span::dummy()).unwrap();
    let error = c.enforce_circuit_access(&circuit, other, Span::dummy()).unwrap_err();
    assert_eq!(error, ExpressionError::UndefinedMemberAccess { circuit: circuit.circuit_name, member: other, span: Span::dummy() });
}

// function main() -> Circ { return Circ { x: 1u32 } }
#[test]
fn test_inline() {
    let mut interner = Interner::new();
    let circuit = circ_with_field(&mut interner);
    let x = ident(&mut interner, "x");
    let mut program = ConstrainedProgram::<u64>::new();
    let c = program.enforce_circuit(&circuit, vec![(x, u32_value(1))], Span::dummy()).unwrap();
    // Circ { x: 1u32 }
    match returned(c) {
        ConstrainedValue::Return(ValueList::Cons(value, rest)) => {
            assert!(matches!(*rest, ValueList::Nil));
            match *value {
                ConstrainedValue::CircuitExpression(name, _, MemberList::Cons(member, others)) => {
                    assert_eq!(name, circuit.circuit_name);
                    assert_eq!(member.0, x);
                    assert!(matches!(member.1, ConstrainedValue::Integer(Integer::U32(Some(1)))));
                    assert!(matches!(*others, MemberList::Nil));
                }
                other => panic!("expected a circuit value, got {:?}", other),
            }
        }
        other => panic!("expected an output, got {:?}", other),
    }
}

// circuit Circ { function echo(x: u32) -> u32 { return x } }  function main() { let c = Circ { echo: 1u32 }; }
#[test]
fn test_inline_fail() {
    let mut interner = Interner::new();
    let circuit = circ_with_echo(&mut interner, false);
    let echo = ident(&mut interner, "echo");
    let mut program = ConstrainedProgram::<u64>::new();
    let error = program.enforce_circuit(&circuit, vec![(echo, u32_value(1))], Span::dummy()).unwrap_err();
    assert_eq!(error, ExpressionError::ExpectedCircuitMember { member: echo, span: Span::dummy() });
    assert!(program.identifiers.is_empty());
}

// The circuit value is stored under its identifier.
#[test]
fn circuit_value_is_stored() {
    let mut interner = Interner::new();
    let circuit = circ_with_field(&mut interner);
    let x = ident(&mut interner, "x");
    let mut program = ConstrainedProgram::<u64>::new();
    let c = program.enforce_circuit(&circuit, vec![(x, u32_value(7))], Span::dummy()).unwrap();
    let id = match &c {
        ConstrainedValue::CircuitExpression(name, id, MemberList::Cons(member, rest)) => {
            assert_eq!(*name, circuit.circuit_name);
            assert_eq!(member.0, x);
            assert!(matches!(member.1, ConstrainedValue::Integer(Integer::U32(Some(7)))));
            assert!(matches!(**rest, MemberList::Nil));
            *id
        }
        other => panic!("expected a circuit value, got {:?}", other),
    };
    assert!(matches!(program.get(id), Some(ConstrainedValue::CircuitExpression(_, stored, _)) if stored == id));
    assert!(program.get(id.wrapping_add(1)).is_none());
    let error = u32_value(1).enforce_circuit_access(&circuit, x, Span::dummy()).unwrap_err();
    assert_eq!(error, ExpressionError::UndefinedCircuit { span: Span::dummy() });
}
