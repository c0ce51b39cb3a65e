use leo_lang::ast::types::{Identifier, IntegerType};
use leo_lang::compiler::circuit::ConstrainedProgram;
use leo_lang::compiler::definition::{DefinitionStatement, StatementError, Variable};
use leo_lang::compiler::field_element::FieldElement;
use leo_lang::compiler::integer::Integer;
use leo_lang::compiler::ir::{Instruction, IrValue, Program};
use leo_lang::compiler::value::{parse_integer_exec, AllocatedBit, Boolean, BooleanError, ConstrainedValue, ValueError, ValueList, ValueType};
use leo_lang::span::Span;

type Value = ConstrainedValue<u64>;

fn u32_value(v: u32) -> Value {
    ConstrainedValue::Integer(Integer::U32(Some(v)))
}

fn list(values: Vec<Value>) -> ValueList<u64> {
    let mut l = ValueList::Nil;
    for v in values.into_iter().rev() {
        l = ValueList::Cons(Box::new(v), Box::new(l));
    }
    l
}

#[test]
fn integers_are_read_as_from_str_reads_them() {
    assert_eq!(parse_integer_exec("255", IntegerType::U8), Some(Integer::U8(Some(255))));
    assert_eq!(parse_integer_exec("256", IntegerType::U8), None);
    assert_eq!(parse_integer_exec("+17", IntegerType::U16), Some(Integer::U16(Some(17))));
    assert_eq!(parse_integer_exec("-128", IntegerType::I8), Some(Integer::I8(Some(-128))));
    assert_eq!(parse_integer_exec("-129", IntegerType::I8), None);
    assert_eq!(parse_integer_exec("-1", IntegerType::U32), None);
    assert_eq!(parse_integer_exec("", IntegerType::U32), None);
    assert_eq!(parse_integer_exec("+", IntegerType::U32), None);
    assert_eq!(parse_integer_exec("12a", IntegerType::U32), None);
    assert_eq!(
        parse_integer_exec("170141183460469231731687303715884105727", IntegerType::I128),
        Some(Integer::I128(Some(i128::MAX)))
    );
    assert_eq!(
        parse_integer_exec("-170141183460469231731687303715884105728", IntegerType::I128),
        Some(Integer::I128(Some(i128::MIN)))
    );
    assert_eq!(parse_integer_exec("340282366920938463463374607431768211456", IntegerType::U128), None);
    for s in ["0", "7", "65535", "007", "-0"] {
        assert_eq!(parse_integer_exec(s, IntegerType::I32), s.parse::<i32>().ok().map(|v| Integer::I32(Some(v))));
    }
}

#[test]
fn literals_are_read_by_type() {
    let v = Value::from_type("42".to_string(), &ValueType::Integer(IntegerType::U32)).unwrap();
    assert!(matches!(v, ConstrainedValue::Integer(Integer::U32(Some(42)))));
    let e = Value::from_type("4x".to_string(), &ValueType::Integer(IntegerType::U32)).unwrap_err();
    assert!(matches!(e, ValueError::InvalidInteger { ref value, integer_type: IntegerType::U32 } if value == "4x"));
    let v = Value::from_type("true".to_string(), &ValueType::Boolean).unwrap();
    assert!(matches!(v, ConstrainedValue::Boolean(Boolean::Constant(true))));
    let e = Value::from_type("yes".to_string(), &ValueType::Boolean).unwrap_err();
    assert!(matches!(e, ValueError::InvalidBoolean { ref value } if value == "yes"));
    let v = Value::from_type("9".to_string(), &ValueType::FieldElement).unwrap();
    assert!(matches!(v, ConstrainedValue::FieldElement(FieldElement::Constant(9))));
    let v = Value::from_type("x".to_string(), &ValueType::FieldElement).unwrap();
    assert!(matches!(v, ConstrainedValue::FieldElement(FieldElement::Constant(0))));
    let array = ValueType::Array(Box::new(ValueType::Integer(IntegerType::U8)), 3);
    let v = Value::from_type("3".to_string(), &array).unwrap();
    assert!(matches!(v, ConstrainedValue::Integer(Integer::U8(Some(3)))));
    let v = Value::from_type("1group".to_string(), &ValueType::Group).unwrap();
    assert!(matches!(v, ConstrainedValue::Unresolved(ref s) if s == "1group"));
}

#[test]
fn literals_are_read_as_other_values() {
    let v = Value::from_other("5".to_string(), &u32_value(1)).unwrap();
    assert!(matches!(v, ConstrainedValue::Integer(Integer::U32(Some(5)))));
    let v = Value::from_other("false".to_string(), &ConstrainedValue::Boolean(Boolean::Constant(true))).unwrap();
    assert!(matches!(v, ConstrainedValue::Boolean(Boolean::Constant(false))));
}

#[test]
fn unresolved_values_take_the_first_type() {
    let mut v: Value = ConstrainedValue::Unresolved("12".to_string());
    v.resolve_type(&vec![ValueType::Integer(IntegerType::I16), ValueType::Boolean]).unwrap();
    assert!(matches!(v, ConstrainedValue::Integer(Integer::I16(Some(12)))));
    let mut v: Value = ConstrainedValue::Unresolved("12".to_string());
    v.resolve_type(&vec![]).unwrap();
    assert!(matches!(v, ConstrainedValue::Unresolved(ref s) if s == "12"));
    let mut v: Value = ConstrainedValue::Unresolved("1000".to_string());
    assert!(v.resolve_type(&vec![ValueType::Integer(IntegerType::U8)]).is_err());
    assert!(matches!(v, ConstrainedValue::Unresolved(ref s) if s == "1000"));
    let mut v = u32_value(3);
    v.resolve_type(&vec![ValueType::Boolean]).unwrap();
    assert!(matches!(v, ConstrainedValue::Integer(Integer::U32(Some(3)))));
}

#[test]
fn mutable_values_give_their_inner_value() {
    let mut v: Value = ConstrainedValue::Mutable(Box::new(u32_value(8)));
    v.get_inner_mut();
    assert!(matches!(v, ConstrainedValue::Integer(Integer::U32(Some(8)))));
    v.get_inner_mut();
    assert!(matches!(v, ConstrainedValue::Integer(Integer::U32(Some(8)))));
}

fn variable(id: u128, name: u32) -> Variable {
    Variable { id, name: Identifier::new(name, Span::dummy()) }
}

#[test]
fn single_definition_stores_the_value() {
    let mut program = ConstrainedProgram::<u64>::new();
    let stmt = DefinitionStatement { variables: vec![variable(1, 50)], span: Span::dummy() };
    program.enforce_definition_statement(&stmt, u32_value(4)).unwrap();
    assert!(matches!(program.get(1), Some(ConstrainedValue::Integer(Integer::U32(Some(4))))));
}

#[test]
fn multiple_definition_takes_the_values_of_a_tuple() {
    let mut program = ConstrainedProgram::<u64>::new();
    let stmt = DefinitionStatement { variables: vec![variable(1, 50), variable(2, 51)], span: Span::dummy() };
    program.enforce_definition_statement(&stmt, ConstrainedValue::Tuple(list(vec![u32_value(4), u32_value(5)]))).unwrap();
    assert!(matches!(program.get(1), Some(ConstrainedValue::Integer(Integer::U32(Some(4))))));
    assert!(matches!(program.get(2), Some(ConstrainedValue::Integer(Integer::U32(Some(5))))));

    let mut program = ConstrainedProgram::<u64>::new();
    let error = program.enforce_definition_statement(&stmt, ConstrainedValue::Tuple(list(vec![u32_value(4)]))).unwrap_err();
    assert_eq!(error, StatementError::InvalidNumberOfDefinitions { values: 1, variables: 2, span: Span::dummy() });
    assert!(program.identifiers.is_empty());
    let error = program.enforce_definition_statement(&stmt, u32_value(4)).unwrap_err();
    assert_eq!(error, StatementError::MultipleDefinition { span: Span::dummy() });
}

#[test]
fn subtraction_is_emitted_into_a_fresh_register() {
    let mut program = Program::new();
    let first = program.evaluate_sub(IrValue::Integer(Integer::U8(Some(3))), IrValue::Integer(Integer::U8(Some(1))));
    let second = program.evaluate_sub(first, IrValue::Ref(7));
    assert_eq!(first, IrValue::Ref(0));
    assert_eq!(second, IrValue::Ref(1));
    assert_eq!(program.next_register, 2);
    assert_eq!(program.instructions.len(), 2);
    match &program.instructions[1] {
        Instruction::Sub(q) => {
            assert_eq!(q.destination, 1);
            assert_eq!(q.values, vec![IrValue::Ref(0), IrValue::Ref(7)]);
        }
        other => panic!("expected a subtraction, got {:?}", other),
    }
}

fn returned(value: Value) -> Value {
    ConstrainedValue::Return(list(vec![value]))
}

fn output_number(output: Value, expected: u32) {
    match output {
        ConstrainedValue::Return(ValueList::Cons(value, rest)) => {
            assert!(matches!(*value, ConstrainedValue::Integer(Integer::U32(Some(v))) if v == expected));
            assert!(matches!(*rest, ValueList::Nil));
        }
        other => panic!("expected the output {}u32, got {:?}", expected, other),
    }
}

// function main() -> u32 { return 0u32 }
#[test]
fn test_zero() {
    let value = Value::from_type("0".to_string(), &ValueType::Integer(IntegerType::U32)).unwrap();
    output_number(returned(value), 0);
}

// function main() -> u32 { return 1u32 }
#[test]
fn test_one() {
    let value = Value::from_type("1".to_string(), &ValueType::Integer(IntegerType::U32)).unwrap();
    output_number(returned(value), 1);
}

#[test]
fn booleans_are_negated() {
    let bit = AllocatedBit { value: Some(true), variable: 4 };
    let v = Value::evaluate_not(ConstrainedValue::Boolean(Boolean::Is(bit))).unwrap();
    assert!(matches!(v, ConstrainedValue::Boolean(Boolean::Not(b)) if b == bit));
    let v = Value::evaluate_not(v).unwrap();
    assert!(matches!(v, ConstrainedValue::Boolean(Boolean::Is(b)) if b == bit));
    let v = Value::evaluate_not(Value::get_boolean_constant(Boolean::Constant(false))).unwrap();
    assert!(matches!(v, ConstrainedValue::Boolean(Boolean::Constant(true))));
    assert_eq!(Value::evaluate_not(u32_value(1)).unwrap_err(), BooleanError::CannotEvaluate);
}

#[test]
fn booleans_compare_as_booleans_of_the_circuit() {
    let bit = AllocatedBit { value: Some(true), variable: 4 };
    assert!(matches!(Value::boolean_eq(Boolean::Constant(true), Boolean::Constant(true)), ConstrainedValue::Boolean(Boolean::Constant(true))));
    assert!(matches!(Value::boolean_eq(Boolean::Is(bit), Boolean::Not(bit)), ConstrainedValue::Boolean(Boolean::Constant(false))));
    assert!(matches!(Value::boolean_eq(Boolean::Is(bit), Boolean::Constant(true)), ConstrainedValue::Boolean(Boolean::Constant(false))));
}
