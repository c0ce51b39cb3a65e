use leo_lang::compiler::integer::{ArithmeticOperation, Integer, IntegerError};
use leo_lang::ast::types::IntegerType;
use leo_lang::span::Span;

#[test]
fn checked_add_detects_overflow() {
    let s = Span::dummy();
    assert_eq!(Integer::U8(Some(200)).checked_add(&Integer::U8(Some(55)), s), Ok(()));
    assert_eq!(
        Integer::U8(Some(200)).checked_add(&Integer::U8(Some(56)), s),
        Err(IntegerError::IntegerOverflow {
            left: Integer::U8(Some(200)),
            right: Integer::U8(Some(56)),
            operation: ArithmeticOperation::Add,
            span: s
        })
    );
    assert!(Integer::I8(Some(-100)).checked_add(&Integer::I8(Some(-28)), s).is_ok());
    assert!(Integer::I8(Some(-100)).checked_add(&Integer::I8(Some(-29)), s).is_err());
    // Commuting the operands does not change whether an addition is refused.
    assert!(Integer::I8(Some(-29)).checked_add(&Integer::I8(Some(-100)), s).is_err());
}

#[test]
fn checked_sub_and_mul() {
    let s = Span::dummy();
    assert!(Integer::U32(Some(0)).checked_sub(&Integer::U32(Some(1)), s).is_err());
    assert!(Integer::U32(Some(7)).checked_sub(&Integer::U32(Some(7)), s).is_ok());
    assert!(Integer::U16(Some(256)).checked_mul(&Integer::U16(Some(255)), s).is_ok());
    assert!(Integer::U16(Some(256)).checked_mul(&Integer::U16(Some(256)), s).is_err());
    assert!(Integer::I128(Some(i128::MIN)).checked_mul(&Integer::I128(Some(-1)), s).is_err());
}

#[test]
fn checked_div_refuses_zero_and_overflow() {
    let s = Span::dummy();
    assert_eq!(Integer::U64(Some(7)).checked_div(&Integer::U64(Some(0)), s), Err(IntegerError::DivisionByZero { span: s }));
    assert_eq!(Integer::I8(Some(-128)).checked_div(&Integer::I8(Some(-1)), s), Err(IntegerError::DivisionByZero { span: s }));
    assert_eq!(Integer::I8(Some(-128)).checked_div(&Integer::I8(Some(2)), s), Ok(()));
}

#[test]
fn checked_arithmetic_needs_known_values_of_one_type() {
    let s = Span::dummy();
    assert_eq!(Integer::U8(None).checked_add(&Integer::U8(Some(1)), s), Err(IntegerError::MismatchedOption { span: s }));
    assert_eq!(
        Integer::U8(Some(1)).checked_add(&Integer::U16(Some(1)), s),
        Err(IntegerError::MismatchedTypes { left: IntegerType::U8, right: IntegerType::U16, span: s })
    );
}
