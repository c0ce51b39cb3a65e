//! Integers of the compiler and the checks that arithmetic on them does not overflow.

use vstd::prelude::*;

use crate::ast::types::IntegerType;
use crate::span::Span;

verus! {

/// An integer of one of Leo's integer types, holding the value of its circuit variable where
/// that value is known.
#[derive(Clone, Copy, Debug, PartialEq, Eq, Structural)]
pub enum Integer {
    U8(Option<u8>),
    U16(Option<u16>),
    U32(Option<u32>),
    U64(Option<u64>),
    U128(Option<u128>),
    I8(Option<i8>),
    I16(Option<i16>),
    I32(Option<i32>),
    I64(Option<i64>),
    I128(Option<i128>),
}

/// An arithmetic operation, as named in errors.
#[derive(Clone, Copy, Debug, PartialEq, Eq, Structural)]
pub enum ArithmeticOperation {
    Add,
    Sub,
    Mul,
}

/// An error of integer arithmetic.
#[derive(Clone, Copy, Debug, PartialEq, Eq, Structural)]
pub enum IntegerError {
    /// The value of one of the operands is not known.
    MismatchedOption { span: Span },
    /// The operands are of different types.
    MismatchedTypes { left: IntegerType, right: IntegerType, span: Span },
    /// The result does not fit in the type of the operands.
    IntegerOverflow { left: Integer, right: Integer, operation: ArithmeticOperation, span: Span },
    /// The division has no result in the type of the operands.
    DivisionByZero { span: Span },
}

/// The smallest value of an integer type.
pub open spec fn min_value(t: IntegerType) -> int {
    match t {
        IntegerType::U8 | IntegerType::U16 | IntegerType::U32 | IntegerType::U64 | IntegerType::U128 => 0,
        IntegerType::I8 => i8::MIN as int,
        IntegerType::I16 => i16::MIN as int,
        IntegerType::I32 => i32::MIN as int,
        IntegerType::I64 => i64::MIN as int,
        IntegerType::I128 => i128::MIN as int,
    }
}

/// The largest value of an integer type.
pub open spec fn max_value(t: IntegerType) -> int {
    match t {
        IntegerType::U8 => u8::MAX as int,
        IntegerType::U16 => u16::MAX as int,
        IntegerType::U32 => u32::MAX as int,
        IntegerType::U64 => u64::MAX as int,
        IntegerType::U128 => u128::MAX as int,
        IntegerType::I8 => i8::MAX as int,
        IntegerType::I16 => i16::MAX as int,
        IntegerType::I32 => i32::MAX as int,
        IntegerType::I64 => i64::MAX as int,
        IntegerType::I128 => i128::MAX as int,
    }
}

/// Whether the number is a value of the integer type.
pub open spec fn in_range(t: IntegerType, v: int) -> bool {
    min_value(t) <= v <= max_value(t)
}

/// The quotient of two integers, rounded toward zero.
pub open spec fn div_toward_zero(x: int, d: int) -> int {
    if x == 0 {
        0
    } else if x > 0 && d > 0 {
        x / d
    } else if x < 0 && d < 0 {
        (x * -1) / (d * -1)
    } else if x < 0 {
        ((x * -1) / d) * -1
    } else {
        (x / (d * -1)) * -1
    }
}

impl Integer {
    /// The type of the integer.
    pub open spec fn spec_get_type(self) -> IntegerType {
        match self {
            Integer::U8(_) => IntegerType::U8,
            Integer::U16(_) => IntegerType::U16,
            Integer::U32(_) => IntegerType::U32,
            Integer::U64(_) => IntegerType::U64,
            Integer::U128(_) => IntegerType::U128,
            Integer::I8(_) => IntegerType::I8,
            Integer::I16(_) => IntegerType::I16,
            Integer::I32(_) => IntegerType::I32,
            Integer::I64(_) => IntegerType::I64,
            Integer::I128(_) => IntegerType::I128,
        }
    }

    /// The value of the integer, if it is known.
    pub open spec fn value(self) -> Option<int> {
        match self {
            Integer::U8(x) => match x { Some(x) => Some(x as int), None => None },
            Integer::U16(x) => match x { Some(x) => Some(x as int), None => None },
            Integer::U32(x) => match x { Some(x) => Some(x as int), None => None },
            Integer::U64(x) => match x { Some(x) => Some(x as int), None => None },
            Integer::U128(x) => match x { Some(x) => Some(x as int), None => None },
            Integer::I8(x) => match x { Some(x) => Some(x as int), None => None },
            Integer::I16(x) => match x { Some(x) => Some(x as int), None => None },
            Integer::I32(x) => match x { Some(x) => Some(x as int), None => None },
            Integer::I64(x) => match x { Some(x) => Some(x as int), None => None },
            Integer::I128(x) => match x { Some(x) => Some(x as int), None => None },
        }
    }

    /// Returns the type of the integer.
    pub fn get_type(&self) -> (t: IntegerType)
        ensures
            t == self.spec_get_type(),
    {
        match self {
            Integer::U8(_) => IntegerType::U8,
            Integer::U16(_) => IntegerType::U16,
            Integer::U32(_) => IntegerType::U32,
            Integer::U64(_) => IntegerType::U64,
            Integer::U128(_) => IntegerType::U128,
            Integer::I8(_) => IntegerType::I8,
            Integer::I16(_) => IntegerType::I16,
            Integer::I32(_) => IntegerType::I32,
            Integer::I64(_) => IntegerType::I64,
            Integer::I128(_) => IntegerType::I128,
        }
    }
}

/// The outcome of checking an operation on two integers: the operands must have one type and
/// known values; `fits` tells whether the exact result is a value of the type, and `overflow` is
/// the error where it is not.
pub open spec fn check_outcome(a: Integer, b: Integer, fits: bool, overflow: IntegerError, span: Span) -> Result<(), IntegerError> {
    if a.spec_get_type() != b.spec_get_type() {
        Err(IntegerError::MismatchedTypes { left: a.spec_get_type(), right: b.spec_get_type(), span })
    } else if a.value() is None || b.value() is None {
        Err(IntegerError::MismatchedOption { span })
    } else if fits {
        Ok(())
    } else {
        Err(overflow)
    }
}

/// The outcome of checking the addition of two integers.
pub open spec fn add_outcome(a: Integer, b: Integer, span: Span) -> Result<(), IntegerError> {
    check_outcome(a, b, in_range(a.spec_get_type(), a.value().unwrap() + b.value().unwrap()),
        IntegerError::IntegerOverflow { left: a, right: b, operation: ArithmeticOperation::Add, span }, span)
}

/// The outcome of checking the subtraction of two integers.
pub open spec fn sub_outcome(a: Integer, b: Integer, span: Span) -> Result<(), IntegerError> {
    check_outcome(a, b, in_range(a.spec_get_type(), a.value().unwrap() - b.value().unwrap()),
        IntegerError::IntegerOverflow { left: a, right: b, operation: ArithmeticOperation::Sub, span }, span)
}

/// The outcome of checking the multiplication of two integers.
pub open spec fn mul_outcome(a: Integer, b: Integer, span: Span) -> Result<(), IntegerError> {
    check_outcome(a, b, in_range(a.spec_get_type(), a.value().unwrap() * b.value().unwrap()),
        IntegerError::IntegerOverflow { left: a, right: b, operation: ArithmeticOperation::Mul, span }, span)
}

/// The outcome of checking the division of two integers: it fails where the divisor is zero or
/// the quotient, rounded toward zero, does not fit in the type.
pub open spec fn div_outcome(a: Integer, b: Integer, span: Span) -> Result<(), IntegerError> {
    check_outcome(a, b, b.value().unwrap() != 0 && in_range(a.spec_get_type(), div_toward_zero(a.value().unwrap(), b.value().unwrap())),
        IntegerError::DivisionByZero { span }, span)
}

impl Integer {

    /// Checks if integer addition will throw an error.
    pub fn checked_add(&self, other: &Integer, span: Span) -> (r: Result<(), IntegerError>)
        ensures
            r == add_outcome(*self, *other, span),
    {
        let result = match (*self, *other) {
            (Integer::U8(a), Integer::U8(b)) => match (a, b) {
                (Some(a), Some(b)) => a.checked_add(b).is_some(),
                (_, _) => return Err(IntegerError::MismatchedOption { span }),
            },
            (Integer::U16(a), Integer::U16(b)) => match (a, b) {
                (Some(a), Some(b)) => a.checked_add(b).is_some(),
                (_, _) => return Err(IntegerError::MismatchedOption { span }),
            },
            (Integer::U32(a), Integer::U32(b)) => match (a, b) {
                (Some(a), Some(b)) => a.checked_add(b).is_some(),
                (_, _) => return Err(IntegerError::MismatchedOption { span }),
            },
            (Integer::U64(a), Integer::U64(b)) => match (a, b) {
                (Some(a), Some(b)) => a.checked_add(b).is_some(),
                (_, _) => return Err(IntegerError::MismatchedOption { span }),
            },
            (Integer::U128(a), Integer::U128(b)) => match (a, b) {
                (Some(a), Some(b)) => a.checked_add(b).is_some(),
                (_, _) => return Err(IntegerError::MismatchedOption { span }),
            },
            (Integer::I8(a), Integer::I8(b)) => match (a, b) {
                (Some(a), Some(b)) => a.checked_add(b).is_some(),
                (_, _) => return Err(IntegerError::MismatchedOption { span }),
            },
            (Integer::I16(a), Integer::I16(b)) => match (a, b) {
                (Some(a), Some(b)) => a.checked_add(b).is_some(),
                (_, _) => return Err(IntegerError::MismatchedOption { span }),
            },
            (Integer::I32(a), Integer::I32(b)) => match (a, b) {
                (Some(a), Some(b)) => a.checked_add(b).is_some(),
                (_, _) => return Err(IntegerError::MismatchedOption { span }),
            },
            (Integer::I64(a), Integer::I64(b)) => match (a, b) {
                (Some(a), Some(b)) => a.checked_add(b).is_some(),
                (_, _) => return Err(IntegerError::MismatchedOption { span }),
            },
            (Integer::I128(a), Integer::I128(b)) => match (a, b) {
                (Some(a), Some(b)) => a.checked_add(b).is_some(),
                (_, _) => return Err(IntegerError::MismatchedOption { span }),
            },
            (a, b) => return Err(IntegerError::MismatchedTypes { left: a.get_type(), right: b.get_type(), span }),
        };
        if !result {
            Err(IntegerError::IntegerOverflow { left: *self, right: *other, operation: ArithmeticOperation::Add, span })
        } else {
            Ok(())
        }
    }


    /// Checks if integer subtraction will throw an error.
    pub fn checked_sub(&self, other: &Integer, span: Span) -> (r: Result<(), IntegerError>)
        ensures
            r == sub_outcome(*self, *other, span),
    {
        let result = match (*self, *other) {
            (Integer::U8(a), Integer::U8(b)) => match (a, b) {
                (Some(a), Some(b)) => a.checked_sub(b).is_some(),
                (_, _) => return Err(IntegerError::MismatchedOption { span }),
            },
            (Integer::U16(a), Integer::U16(b)) => match (a, b) {
                (Some(a), Some(b)) => a.checked_sub(b).is_some(),
                (_, _) => return Err(IntegerError::MismatchedOption { span }),
            },
            (Integer::U32(a), Integer::U32(b)) => match (a, b) {
                (Some(a), Some(b)) => a.checked_sub(b).is_some(),
                (_, _) => return Err(IntegerError::MismatchedOption { span }),
            },
            (Integer::U64(a), Integer::U64(b)) => match (a, b) {
                (Some(a), Some(b)) => a.checked_sub(b).is_some(),
                (_, _) => return Err(IntegerError::MismatchedOption { span }),
            },
            (Integer::U128(a), Integer::U128(b)) => match (a, b) {
                (Some(a), Some(b)) => a.checked_sub(b).is_some(),
                (_, _) => return Err(IntegerError::MismatchedOption { span }),
            },
            (Integer::I8(a), Integer::I8(b)) => match (a, b) {
                (Some(a), Some(b)) => a.checked_sub(b).is_some(),
                (_, _) => return Err(IntegerError::MismatchedOption { span }),
            },
            (Integer::I16(a), Integer::I16(b)) => match (a, b) {
                (Some(a), Some(b)) => a.checked_sub(b).is_some(),
                (_, _) => return Err(IntegerError::MismatchedOption { span }),
            },
            (Integer::I32(a), Integer::I32(b)) => match (a, b) {
                (Some(a), Some(b)) => a.checked_sub(b).is_some(),
                (_, _) => return Err(IntegerError::MismatchedOption { span }),
            },
            (Integer::I64(a), Integer::I64(b)) => match (a, b) {
                (Some(a), Some(b)) => a.checked_sub(b).is_some(),
                (_, _) => return Err(IntegerError::MismatchedOption { span }),
            },
            (Integer::I128(a), Integer::I128(b)) => match (a, b) {
                (Some(a), Some(b)) => a.checked_sub(b).is_some(),
                (_, _) => return Err(IntegerError::MismatchedOption { span }),
            },
            (a, b) => return Err(IntegerError::MismatchedTypes { left: a.get_type(), right: b.get_type(), span }),
        };
        if !result {
            Err(IntegerError::IntegerOverflow { left: *self, right: *other, operation: ArithmeticOperation::Sub, span })
        } else {
            Ok(())
        }
    }


    /// Checks if integer multiplication will throw an error.
    pub fn checked_mul(&self, other: &Integer, span: Span) -> (r: Result<(), IntegerError>)
        ensures
            r == mul_outcome(*self, *other, span),
    {
        let result = match (*self, *other) {
            (Integer::U8(a), Integer::U8(b)) => match (a, b) {
                (Some(a), Some(b)) => a.checked_mul(b).is_some(),
                (_, _) => return Err(IntegerError::MismatchedOption { span }),
            },
            (Integer::U16(a), Integer::U16(b)) => match (a, b) {
                (Some(a), Some(b)) => a.checked_mul(b).is_some(),
                (_, _) => return Err(IntegerError::MismatchedOption { span }),
            },
            (Integer::U32(a), Integer::U32(b)) => match (a, b) {
                (Some(a), Some(b)) => a.checked_mul(b).is_some(),
                (_, _) => return Err(IntegerError::MismatchedOption { span }),
            },
            (Integer::U64(a), Integer::U64(b)) => match (a, b) {
                (Some(a), Some(b)) => a.checked_mul(b).is_some(),
                (_, _) => return Err(IntegerError::MismatchedOption { span }),
            },
            (Integer::U128(a), Integer::U128(b)) => match (a, b) {
                (Some(a), Some(b)) => a.checked_mul(b).is_some(),
                (_, _) => return Err(IntegerError::MismatchedOption { span }),
            },
            (Integer::I8(a), Integer::I8(b)) => match (a, b) {
                (Some(a), Some(b)) => a.checked_mul(b).is_some(),
                (_, _) => return Err(IntegerError::MismatchedOption { span }),
            },
            (Integer::I16(a), Integer::I16(b)) => match (a, b) {
                (Some(a), Some(b)) => a.checked_mul(b).is_some(),
                (_, _) => return Err(IntegerError::MismatchedOption { span }),
            },
            (Integer::I32(a), Integer::I32(b)) => match (a, b) {
                (Some(a), Some(b)) => a.checked_mul(b).is_some(),
                (_, _) => return Err(IntegerError::MismatchedOption { span }),
            },
            (Integer::I64(a), Integer::I64(b)) => match (a, b) {
                (Some(a), Some(b)) => a.checked_mul(b).is_some(),
                (_, _) => return Err(IntegerError::MismatchedOption { span }),
            },
            (Integer::I128(a), Integer::I128(b)) => match (a, b) {
                (Some(a), Some(b)) => a.checked_mul(b).is_some(),
                (_, _) => return Err(IntegerError::MismatchedOption { span }),
            },
            (a, b) => return Err(IntegerError::MismatchedTypes { left: a.get_type(), right: b.get_type(), span }),
        };
        if !result {
            Err(IntegerError::IntegerOverflow { left: *self, right: *other, operation: ArithmeticOperation::Mul, span })
        } else {
            Ok(())
        }
    }


    /// Checks if integer division will throw an error.
    pub fn checked_div(&self, other: &Integer, span: Span) -> (r: Result<(), IntegerError>)
        ensures
            r == div_outcome(*self, *other, span),
    {
        let result = match (*self, *other) {
            (Integer::U8(a), Integer::U8(b)) => match (a, b) {
                (Some(a), Some(b)) => a.checked_div(b).is_some(),
                (_, _) => return Err(IntegerError::MismatchedOption { span }),
            },
            (Integer::U16(a), Integer::U16(b)) => match (a, b) {
                (Some(a), Some(b)) => a.checked_div(b).is_some(),
                (_, _) => return Err(IntegerError::MismatchedOption { span }),
            },
            (Integer::U32(a), Integer::U32(b)) => match (a, b) {
                (Some(a), Some(b)) => a.checked_div(b).is_some(),
                (_, _) => return Err(IntegerError::MismatchedOption { span }),
            },
            (Integer::U64(a), Integer::U64(b)) => match (a, b) {
                (Some(a), Some(b)) => a.checked_div(b).is_some(),
                (_, _) => return Err(IntegerError::MismatchedOption { span }),
            },
            (Integer::U128(a), Integer::U128(b)) => match (a, b) {
                (Some(a), Some(b)) => a.checked_div(b).is_some(),
                (_, _) => return Err(IntegerError::MismatchedOption { span }),
            },
            (Integer::I8(a), Integer::I8(b)) => match (a, b) {
                (Some(a), Some(b)) => a.checked_div(b).is_some(),
                (_, _) => return Err(IntegerError::MismatchedOption { span }),
            },
            (Integer::I16(a), Integer::I16(b)) => match (a, b) {
                (Some(a), Some(b)) => a.checked_div(b).is_some(),
                (_, _) => return Err(IntegerError::MismatchedOption { span }),
            },
            (Integer::I32(a), Integer::I32(b)) => match (a, b) {
                (Some(a), Some(b)) => a.checked_div(b).is_some(),
                (_, _) => return Err(IntegerError::MismatchedOption { span }),
            },
            (Integer::I64(a), Integer::I64(b)) => match (a, b) {
                (Some(a), Some(b)) => a.checked_div(b).is_some(),
                (_, _) => return Err(IntegerError::MismatchedOption { span }),
            },
            (Integer::I128(a), Integer::I128(b)) => match (a, b) {
                (Some(a), Some(b)) => a.checked_div(b).is_some(),
                (_, _) => return Err(IntegerError::MismatchedOption { span }),
            },
            (a, b) => return Err(IntegerError::MismatchedTypes { left: a.get_type(), right: b.get_type(), span }),
        };
        if !result {
            Err(IntegerError::DivisionByZero { span })
        } else {
            Ok(())
        }
    }

}

/// Whether an addition is refused does not depend on the order of its operands.
pub proof fn law_checked_add_commutes(a: Integer, b: Integer, span: Span)
    ensures
        add_outcome(a, b, span) is Ok <==> add_outcome(b, a, span) is Ok,
{
}

/// Whether a multiplication is refused does not depend on the order of its operands.
pub proof fn law_checked_mul_commutes(a: Integer, b: Integer, span: Span)
    ensures
        mul_outcome(a, b, span) is Ok <==> mul_outcome(b, a, span) is Ok,
{
    if a.value() is Some && b.value() is Some {
        assert(a.value().unwrap() * b.value().unwrap() == b.value().unwrap() * a.value().unwrap()) by (nonlinear_arith);
    }
}

/// Subtracting a known integer from itself is never refused.
pub proof fn law_checked_sub_self(a: Integer, span: Span)
    requires
        a.value() is Some,
    ensures
        sub_outcome(a, a, span) is Ok,
{
}

} // verus!
