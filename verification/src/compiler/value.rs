//! The values that the compiler computes with, and their types.

use vstd::prelude::*;
use vstd::string::*;

use crate::ast::circuit::Function;
use crate::ast::types::{Identifier, IntegerType};
use crate::compiler::field_element::FieldElement;
use crate::compiler::integer::{in_range, Integer};

verus! {

/// A bit allocated in the circuit: its variable and, where it is known, its value.
#[derive(Clone, Copy, Debug, PartialEq, Eq, Structural)]
pub struct AllocatedBit {
    pub value: Option<bool>,
    pub variable: u64,
}

/// A boolean of the circuit: an allocated bit, the negation of one, or a constant.
#[derive(Clone, Copy, Debug, PartialEq, Eq, Structural)]
pub enum Boolean {
    Is(AllocatedBit),
    Not(AllocatedBit),
    Constant(bool),
}

impl Boolean {
    /// The value of the boolean, where it is known.
    pub open spec fn spec_value(self) -> Option<bool> {
        match self {
            Boolean::Is(bit) => bit.value,
            Boolean::Not(bit) => match bit.value {
                Some(v) => Some(!v),
                None => None,
            },
            Boolean::Constant(b) => Some(b),
        }
    }

    /// The negation: a constant is negated, an allocated bit is read negated, and a negated bit
    /// is read as it is.
    pub open spec fn negated(self) -> Boolean {
        match self {
            Boolean::Is(bit) => Boolean::Not(bit),
            Boolean::Not(bit) => Boolean::Is(bit),
            Boolean::Constant(b) => Boolean::Constant(!b),
        }
    }

    /// Returns the negation.
    pub fn not(self) -> (r: Boolean)
        ensures
            r == self.negated(),
            self.spec_value() matches Some(v) ==> r.spec_value() == Some(!v),
    {
        match self {
            Boolean::Is(bit) => Boolean::Not(bit),
            Boolean::Not(bit) => Boolean::Is(bit),
            Boolean::Constant(b) => Boolean::Constant(!b),
        }
    }
}

/// The types of the values of the compiler.
#[derive(Debug)]
pub enum ValueType {
    Integer(IntegerType),
    FieldElement,
    Group,
    Boolean,
    /// An array of elements of the given type, with the given dimensions.
    Array(Box<ValueType>, usize),
    Circuit(Identifier),
    SelfType,
}

/// A member of a circuit value: its name and value.
#[derive(Debug)]
pub struct ConstrainedCircuitMember<F>(pub Identifier, pub ConstrainedValue<F>);

/// A value of the compiler.
#[derive(Debug)]
pub enum ConstrainedValue<F> {
    Integer(Integer),
    FieldElement(FieldElement<F>),
    Boolean(Boolean),
    Array(ValueList<F>),
    Tuple(ValueList<F>),
    /// A circuit value: the circuit's name, the identifier of this value, and the members.
    CircuitExpression(Identifier, u128, MemberList<F>),
    /// A function, with the circuit it is a member of, if it is one.
    Function(Option<Identifier>, Function),
    /// The values that a program returns.
    Return(ValueList<F>),
    Mutable(Box<ConstrainedValue<F>>),
    Static(Box<ConstrainedValue<F>>),
    /// A literal whose type is not known yet.
    Unresolved(String),
}

/// A list of values.
#[derive(Debug)]
pub enum ValueList<F> {
    Nil,
    Cons(Box<ConstrainedValue<F>>, Box<ValueList<F>>),
}

/// A list of circuit members.
#[derive(Debug)]
pub enum MemberList<F> {
    Nil,
    Cons(Box<ConstrainedCircuitMember<F>>, Box<MemberList<F>>),
}

/// Negating a boolean twice gives it back.
pub proof fn law_not_not(b: Boolean)
    ensures
        b.negated().negated() == b,
{
}

/// An error of boolean expressions.
#[derive(Clone, Copy, Debug, PartialEq, Eq, Structural)]
pub enum BooleanError {
    /// The operand of a boolean operator is not a boolean.
    CannotEvaluate,
}

/// An error of values.
#[derive(Debug)]
pub enum ValueError {
    /// The string is not an integer of the type.
    InvalidInteger { value: String, integer_type: IntegerType },
    /// The string is not a boolean.
    InvalidBoolean { value: String },
}

impl<F> ValueList<F> {
    /// The values of the list, in order.
    pub open spec fn seq(self) -> Seq<ConstrainedValue<F>>
        decreases self,
    {
        match self {
            ValueList::Nil => Seq::empty(),
            ValueList::Cons(h, t) => seq![*h] + t.seq(),
        }
    }
}

impl<F> MemberList<F> {
    /// The members of the list, in order.
    pub open spec fn seq(self) -> Seq<ConstrainedCircuitMember<F>>
        decreases self,
    {
        match self {
            MemberList::Nil => Seq::empty(),
            MemberList::Cons(h, t) => seq![*h] + t.seq(),
        }
    }
}

/// The value of a decimal digit.
pub open spec fn digit_value(c: char) -> int {
    (c as int) - ('0' as int)
}

/// Whether every character of the sequence is a decimal digit.
pub open spec fn all_digits(s: Seq<char>) -> bool {
    forall|i: int| 0 <= i < s.len() ==> '0' <= #[trigger] s[i] <= '9'
}

/// The number that a sequence of decimal digits denotes.
pub open spec fn digits_value(s: Seq<char>) -> int
    decreases s.len(),
{
    if s.len() == 0 {
        0
    } else {
        digits_value(s.drop_last()) * 10 + digit_value(s.last())
    }
}

/// The integer of the type that the string denotes, as `from_str` reads it: an optional `+`
/// (or, for a signed type, `-`) followed by one or more decimal digits, denoting a value of the type.
pub open spec fn parse_integer(s: Seq<char>, t: IntegerType) -> Option<int> {
    let negative = t.is_signed() && s.len() > 0 && s[0] == '-';
    let body = if s.len() > 0 && (s[0] == '+' || negative) { s.subrange(1, s.len() as int) } else { s };
    if body.len() == 0 || !all_digits(body) {
        None
    } else {
        let v = if negative { -digits_value(body) } else { digits_value(body) };
        if in_range(t, v) { Some(v) } else { None }
    }
}


/// The integer of the type with the given value.
pub open spec fn integer_of(t: IntegerType, v: int) -> Integer {
    match t {
        IntegerType::U8 => Integer::U8(Some(v as u8)),
        IntegerType::U16 => Integer::U16(Some(v as u16)),
        IntegerType::U32 => Integer::U32(Some(v as u32)),
        IntegerType::U64 => Integer::U64(Some(v as u64)),
        IntegerType::U128 => Integer::U128(Some(v as u128)),
        IntegerType::I8 => Integer::I8(Some(v as i8)),
        IntegerType::I16 => Integer::I16(Some(v as i16)),
        IntegerType::I32 => Integer::I32(Some(v as i32)),
        IntegerType::I64 => Integer::I64(Some(v as i64)),
        IntegerType::I128 => Integer::I128(Some(v as i128)),
    }
}

/// Where the digits are all decimal, the number that a prefix denotes is at most the number that
/// the whole denotes.
pub proof fn lemma_digits_value_prefix(s: Seq<char>, i: int)
    requires
        all_digits(s),
        0 <= i <= s.len(),
    ensures
        0 <= digits_value(s.subrange(0, i)) <= digits_value(s),
    decreases s.len(),
{
    if s.len() > 0 {
        if i == s.len() {
            assert(s.subrange(0, i) =~= s);
            lemma_digits_value_prefix(s.drop_last(), s.len() - 1);
            assert(s.drop_last().subrange(0, s.len() - 1) =~= s.drop_last());
        } else {
            lemma_digits_value_prefix(s.drop_last(), i);
            assert(s.drop_last().subrange(0, i) =~= s.subrange(0, i));
            lemma_digits_value_prefix(s.drop_last(), s.len() - 1);
            assert(s.drop_last().subrange(0, s.len() - 1) =~= s.drop_last());
        }
    }
}

/// The type that an array's innermost elements have: the type itself if it is no array.
pub open spec fn element_type(t: ValueType) -> ValueType
    decreases t,
{
    match t {
        ValueType::Array(inner, _) => element_type(*inner),
        _ => t,
    }
}

/// Whether the value is of a primitive type: an integer, a field element or a boolean.
pub open spec fn is_primitive<F>(v: ConstrainedValue<F>) -> bool {
    v is Integer || v is FieldElement || v is Boolean
}

/// Parses a field element with the field's `from_str`: the element where it succeeds, `None`
/// where it fails. Nothing is stated of the element, which depends on the field's own `FromStr`
/// impl.
#[verifier::external_body]
fn parse_field<F: std::str::FromStr>(s: &str) -> Option<F> {
    F::from_str(s).ok()
}

/// Returns the type of an integer's value type.
fn integer_value_type(i: &Integer) -> (t: ValueType)
    ensures
        t == ValueType::Integer(i.spec_get_type()),
{
    ValueType::Integer(i.get_type())
}

impl<F: Copy> ConstrainedValue<F> {
    /// Reads a literal as a value of the type: an integer as `from_str` reads it, a field element
    /// as the field reads it, a boolean from `true` or `false`; an array's elements are read as
    /// values of its element type; for the other types the literal is left unresolved.
    pub fn from_type(value: String, type_: &ValueType) -> (r: Result<Self, ValueError>)
        where F: std::str::FromStr + Default
        ensures
            match element_type(*type_) {
                ValueType::Integer(t) => match parse_integer(value@, t) {
                    Some(v) => r == Ok::<Self, ValueError>(ConstrainedValue::Integer(integer_of(t, v))),
                    None => r matches Err(ValueError::InvalidInteger { value: s, integer_type }) && s@ == value@ && integer_type == t,
                },
                ValueType::FieldElement => r matches Ok(ConstrainedValue::FieldElement(FieldElement::Constant(_))),
                ValueType::Boolean => if value@ == "true"@ {
                    r == Ok::<Self, ValueError>(ConstrainedValue::Boolean(Boolean::Constant(true)))
                } else if value@ == "false"@ {
                    r == Ok::<Self, ValueError>(ConstrainedValue::Boolean(Boolean::Constant(false)))
                } else {
                    r matches Err(ValueError::InvalidBoolean { value: s }) && s@ == value@
                },
                _ => r matches Ok(ConstrainedValue::Unresolved(s)) && s@ == value@,
            },
        decreases type_,
    {
        match type_ {
            ValueType::Integer(integer_type) => match parse_integer_exec(value.as_str(), *integer_type) {
                Some(i) => Ok(ConstrainedValue::Integer(i)),
                None => Err(ValueError::InvalidInteger { value, integer_type: *integer_type }),
            },
            ValueType::FieldElement => {
                // A literal that the field cannot read stands for the field's default element.
                let element = match parse_field::<F>(value.as_str()) {
                    Some(f) => f,
                    None => F::default(),
                };
                Ok(ConstrainedValue::FieldElement(FieldElement::Constant(element)))
            },
            ValueType::Boolean => {
                if value == String::from_str("true") {
                    Ok(ConstrainedValue::Boolean(Boolean::Constant(true)))
                } else if value == String::from_str("false") {
                    Ok(ConstrainedValue::Boolean(Boolean::Constant(false)))
                } else {
                    Err(ValueError::InvalidBoolean { value })
                }
            },
            ValueType::Array(inner, _dimensions) => ConstrainedValue::from_type(value, inner),
            _ => Ok(ConstrainedValue::Unresolved(value)),
        }
    }

    /// Returns the type of a primitive value.
    pub fn to_type(&self) -> (t: ValueType)
        requires
            is_primitive(*self),
        ensures
            match *self {
                ConstrainedValue::Integer(i) => t == ValueType::Integer(i.spec_get_type()),
                ConstrainedValue::FieldElement(_) => t == ValueType::FieldElement,
                _ => t == ValueType::Boolean,
            },
    {
        match self {
            ConstrainedValue::Integer(integer) => integer_value_type(integer),
            ConstrainedValue::FieldElement(_field) => ValueType::FieldElement,
            _ => ValueType::Boolean,
        }
    }

    /// Reads a literal as a value of the type of another, primitive, value.
    pub fn from_other(value: String, other: &ConstrainedValue<F>) -> (r: Result<Self, ValueError>)
        where F: std::str::FromStr + Default
        requires
            is_primitive(*other),
        ensures
            match *other {
                ConstrainedValue::Integer(i) => match parse_integer(value@, i.spec_get_type()) {
                    Some(v) => r == Ok::<Self, ValueError>(ConstrainedValue::Integer(integer_of(i.spec_get_type(), v))),
                    None => r matches Err(ValueError::InvalidInteger { value: s, integer_type }) && s@ == value@
                        && integer_type == i.spec_get_type(),
                },
                ConstrainedValue::FieldElement(_) => r matches Ok(ConstrainedValue::FieldElement(FieldElement::Constant(_))),
                _ => if value@ == "true"@ {
                    r == Ok::<Self, ValueError>(ConstrainedValue::Boolean(Boolean::Constant(true)))
                } else if value@ == "false"@ {
                    r == Ok::<Self, ValueError>(ConstrainedValue::Boolean(Boolean::Constant(false)))
                } else {
                    r matches Err(ValueError::InvalidBoolean { value: s }) && s@ == value@
                },
            },
    {
        let other_type = other.to_type();
        ConstrainedValue::from_type(value, &other_type)
    }

    /// Resolves an unresolved literal as a value of the first of the types, where there is one;
    /// other values, and an empty list of types, leave the value unchanged.
    pub fn resolve_type(&mut self, types: &Vec<ValueType>) -> (r: Result<(), ValueError>)
        where F: std::str::FromStr + Default
        ensures
            match *old(self) {
                ConstrainedValue::Unresolved(s) => if types@.len() > 0 {
                    match element_type(types@[0]) {
                        ValueType::Integer(t) => match parse_integer(s@, t) {
                            Some(v) => r is Ok && *final(self) == ConstrainedValue::<F>::Integer(integer_of(t, v)),
                            None => r matches Err(ValueError::InvalidInteger { value: e, integer_type }) && e@ == s@
                                && integer_type == t && *final(self) == *old(self),
                        },
                        ValueType::FieldElement => r is Ok && (*final(self) matches ConstrainedValue::FieldElement(FieldElement::Constant(_))),
                        ValueType::Boolean => if s@ == "true"@ {
                            r is Ok && *final(self) == ConstrainedValue::<F>::Boolean(Boolean::Constant(true))
                        } else if s@ == "false"@ {
                            r is Ok && *final(self) == ConstrainedValue::<F>::Boolean(Boolean::Constant(false))
                        } else {
                            r matches Err(ValueError::InvalidBoolean { value: e }) && e@ == s@ && *final(self) == *old(self)
                        },
                        _ => r is Ok && (*final(self) matches ConstrainedValue::Unresolved(e) && e@ == s@),
                    }
                } else {
                    r is Ok && *final(self) == *old(self)
                },
                _ => r is Ok && *final(self) == *old(self),
            },
    {
        if let ConstrainedValue::Unresolved(string) = self {
            if types.len() > 0 {
                let resolved = ConstrainedValue::from_type(string.clone(), &types[0])?;
                *self = resolved;
            }
        }
        Ok(())
    }
}

impl<F: Copy> ConstrainedValue<F> {
    /// Returns the value of a boolean constant.
    pub fn get_boolean_constant(b: Boolean) -> (r: Self)
        ensures
            r == ConstrainedValue::<F>::Boolean(b),
    {
        ConstrainedValue::Boolean(b)
    }

    /// Evaluates `!value`: only a boolean can be negated.
    pub fn evaluate_not(value: Self) -> (r: Result<Self, BooleanError>)
        ensures
            match value {
                ConstrainedValue::Boolean(b) => r == Ok::<Self, BooleanError>(ConstrainedValue::Boolean(b.negated())),
                _ => r == Err::<Self, BooleanError>(BooleanError::CannotEvaluate),
            },
    {
        match value {
            ConstrainedValue::Boolean(boolean) => Ok(ConstrainedValue::Boolean(boolean.not())),
            _ => Err(BooleanError::CannotEvaluate),
        }
    }

    /// Evaluates the equality of two booleans as a constant: whether they are the same boolean.
    pub fn boolean_eq(left: Boolean, right: Boolean) -> (r: Self)
        ensures
            r == ConstrainedValue::<F>::Boolean(Boolean::Constant(left == right)),
    {
        ConstrainedValue::Boolean(Boolean::Constant(left == right))
    }

    /// Returns a copy of the value.
    pub fn clone_value(&self) -> (r: Self)
        ensures
            r == *self,
        decreases self,
    {
        match self {
            ConstrainedValue::Integer(i) => ConstrainedValue::Integer(*i),
            ConstrainedValue::FieldElement(f) => ConstrainedValue::FieldElement(*f),
            ConstrainedValue::Boolean(b) => ConstrainedValue::Boolean(*b),
            ConstrainedValue::Array(l) => ConstrainedValue::Array(l.clone_list()),
            ConstrainedValue::Tuple(l) => ConstrainedValue::Tuple(l.clone_list()),
            ConstrainedValue::CircuitExpression(name, id, members) => ConstrainedValue::CircuitExpression(*name, *id, members.clone_members()),
            ConstrainedValue::Function(circuit, function) => ConstrainedValue::Function(*circuit, *function),
            ConstrainedValue::Return(l) => ConstrainedValue::Return(l.clone_list()),
            ConstrainedValue::Mutable(inner) => ConstrainedValue::Mutable(Box::new(inner.clone_value())),
            ConstrainedValue::Static(inner) => ConstrainedValue::Static(Box::new(inner.clone_value())),
            ConstrainedValue::Unresolved(s) => ConstrainedValue::Unresolved(s.clone()),
        }
    }

    /// Replaces a mutable value by the value inside it; other values are left unchanged.
    pub fn get_inner_mut(&mut self)
        ensures
            match *old(self) {
                ConstrainedValue::Mutable(inner) => *final(self) == *inner,
                _ => *final(self) == *old(self),
            },
    {
        let inner_value = match &*self {
            ConstrainedValue::Mutable(inner) => Some(inner.clone_value()),
            _ => None,
        };
        if let Some(v) = inner_value {
            *self = v;
        }
    }
}

impl<F: Copy> ValueList<F> {
    /// Returns a copy of the list.
    pub fn clone_list(&self) -> (r: Self)
        ensures
            r == *self,
        decreases self,
    {
        match self {
            ValueList::Nil => ValueList::Nil,
            ValueList::Cons(h, t) => ValueList::Cons(Box::new(h.clone_value()), Box::new(t.clone_list())),
        }
    }
}

impl<F: Copy> MemberList<F> {
    /// Returns a copy of the list.
    pub fn clone_members(&self) -> (r: Self)
        ensures
            r == *self,
        decreases self,
    {
        match self {
            MemberList::Nil => MemberList::Nil,
            MemberList::Cons(h, t) => MemberList::Cons(
                Box::new(ConstrainedCircuitMember(h.0, h.1.clone_value())),
                Box::new(t.clone_members()),
            ),
        }
    }
}

/// Returns the integer of the type that the string denotes, as `from_str` reads it.
pub fn parse_integer_exec(s: &str, t: IntegerType) -> (r: Option<Integer>)
    ensures
        r == match parse_integer(s@, t) {
            Some(v) => Some(integer_of(t, v)),
            None => None,
        },
{
    let n = s.unicode_len();
    let signed = match t {
        IntegerType::I8 | IntegerType::I16 | IntegerType::I32 | IntegerType::I64 | IntegerType::I128 => true,
        _ => false,
    };
    let negative = signed && n > 0 && s.get_char(0) == '-';
    let start: usize = if n > 0 && (s.get_char(0) == '+' || negative) { 1 } else { 0 };
    let ghost body = if n > 0 && (s@[0] == '+' || negative) { s@.subrange(1, s@.len() as int) } else { s@ };
    assert(body =~= s@.subrange(start as int, s@.len() as int));
    if start == n {
        return None;
    }
    let mut magnitude: u128 = 0;
    let mut overflow = false;
    let mut i: usize = start;
    while i < n
        invariant
            n == s@.len(),
            start <= i <= n,
            body =~= s@.subrange(start as int, n as int),
            negative == (t.is_signed() && n > 0 && s@[0] == '-'),
            body == (if n > 0 && (s@[0] == '+' || negative) { s@.subrange(1, s@.len() as int) } else { s@ }),
            forall|j: int| 0 <= j < i - start ==> '0' <= #[trigger] body[j] <= '9',
            !overflow ==> magnitude == digits_value(body.subrange(0, i - start)),
            overflow ==> digits_value(body.subrange(0, i - start)) > u128::MAX,
        decreases n - i,
    {
        let c = s.get_char(i);
        if !('0' <= c && c <= '9') {
            assert(!all_digits(body)) by {
                assert(body[i - start] == c);
            }
            return None;
        }
        let ghost prefix = body.subrange(0, i - start);
        let ghost next = body.subrange(0, i + 1 - start);
        assert(next.drop_last() =~= prefix);
        assert(next.last() == c);
        let d = (c as u32 - '0' as u32) as u128;
        if !overflow {
            match magnitude.checked_mul(10) {
                Some(m) => match m.checked_add(d) {
                    Some(v) => magnitude = v,
                    None => overflow = true,
                },
                None => {
                    overflow = true;
                },
            }
        } else {
            assert(digits_value(prefix) >= 0) by {
                lemma_digits_value_prefix(prefix, 0);
                assert(prefix.subrange(0, 0) =~= Seq::<char>::empty());
            }
        }
        i = i + 1;
    }
    assert(body.subrange(0, n - start) =~= body);
    assert(all_digits(body));
    let ghost value = digits_value(body);
    if overflow {
        return None;
    }
    if negative {
        if magnitude > 0x8000_0000_0000_0000_0000_0000_0000_0000u128 {
            return None;
        }
        let v: i128 = if magnitude == 0x8000_0000_0000_0000_0000_0000_0000_0000u128 { i128::MIN } else { 0 - (magnitude as i128) };
        assert(v == -value);
        match t {
            IntegerType::I8 => if i8::MIN as i128 <= v && v <= i8::MAX as i128 { Some(Integer::I8(Some(v as i8))) } else { None },
            IntegerType::I16 => if i16::MIN as i128 <= v && v <= i16::MAX as i128 { Some(Integer::I16(Some(v as i16))) } else { None },
            IntegerType::I32 => if i32::MIN as i128 <= v && v <= i32::MAX as i128 { Some(Integer::I32(Some(v as i32))) } else { None },
            IntegerType::I64 => if i64::MIN as i128 <= v && v <= i64::MAX as i128 { Some(Integer::I64(Some(v as i64))) } else { None },
            IntegerType::I128 => if i128::MIN as i128 <= v && v <= i128::MAX as i128 { Some(Integer::I128(Some(v as i128))) } else { None },
            _ => None,
        }
    } else {
        match t {
            IntegerType::U8 => if magnitude <= u8::MAX as u128 { Some(Integer::U8(Some(magnitude as u8))) } else { None },
            IntegerType::U16 => if magnitude <= u16::MAX as u128 { Some(Integer::U16(Some(magnitude as u16))) } else { None },
            IntegerType::U32 => if magnitude <= u32::MAX as u128 { Some(Integer::U32(Some(magnitude as u32))) } else { None },
            IntegerType::U64 => if magnitude <= u64::MAX as u128 { Some(Integer::U64(Some(magnitude as u64))) } else { None },
            IntegerType::U128 => if magnitude <= u128::MAX as u128 { Some(Integer::U128(Some(magnitude as u128))) } else { None },
            IntegerType::I8 => if magnitude <= i8::MAX as u128 { Some(Integer::I8(Some(magnitude as i8))) } else { None },
            IntegerType::I16 => if magnitude <= i16::MAX as u128 { Some(Integer::I16(Some(magnitude as i16))) } else { None },
            IntegerType::I32 => if magnitude <= i32::MAX as u128 { Some(Integer::I32(Some(magnitude as i32))) } else { None },
            IntegerType::I64 => if magnitude <= i64::MAX as u128 { Some(Integer::I64(Some(magnitude as i64))) } else { None },
            IntegerType::I128 => if magnitude <= i128::MAX as u128 { Some(Integer::I128(Some(magnitude as i128))) } else { None },
        }
    }
}

} // verus!
