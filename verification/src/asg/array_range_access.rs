//! Array range accesses `a[left..right]`: their types and constant values.

use vstd::prelude::*;

use crate::ast::types::IntegerType;
use crate::span::Span;

verus! {

/// A constant integer, of one of Leo's integer types.
#[derive(Clone, Copy, Debug, PartialEq, Eq, Structural)]
pub enum ConstInt {
    I8(i8),
    I16(i16),
    I32(i32),
    I64(i64),
    I128(i128),
    U8(u8),
    U16(u16),
    U32(u32),
    U64(u64),
    U128(u128),
}

/// A constant value.
#[derive(Debug)]
pub enum ConstValue {
    Int(ConstInt),
    Boolean(bool),
    Array(ValueList),
}

/// A list of constant values: the elements of an array.
#[derive(Debug)]
pub enum ValueList {
    Nil,
    Cons(Box<ConstValue>, Box<ValueList>),
}

/// The types of the semantic graph.
#[derive(Debug)]
pub enum Type {
    Address,
    Boolean,
    Field,
    Group,
    Integer(IntegerType),
    /// An array of the given number of elements of the given type.
    Array(Box<Type>, usize),
}

/// An expression of the semantic graph.
#[derive(Debug)]
pub enum Expression {
    /// An expression of another kind, given by the type and the constant value, where they are
    /// known, that its node computes.
    Node { type_: Option<Type>, value: Option<ConstValue> },
    /// An array range access.
    ArrayRangeAccess(Box<ArrayRangeAccessExpression>),
}

/// An array range access `array[left..right]`; an absent bound is the start, or the end, of
/// the array.
#[derive(Debug)]
pub struct ArrayRangeAccessExpression {
    pub span: Option<Span>,
    pub array: Box<Expression>,
    pub left: Option<Box<Expression>>,
    pub right: Option<Box<Expression>>,
}

impl ValueList {
    /// The values of the list, in order.
    pub open spec fn seq(self) -> Seq<ConstValue>
        decreases self,
    {
        match self {
            ValueList::Nil => Seq::empty(),
            ValueList::Cons(h, t) => seq![*h] + t.seq(),
        }
    }
}

/// The list of the values of the sequence.
pub open spec fn list_of_values(s: Seq<ConstValue>) -> ValueList
    decreases s.len(),
{
    if s.len() == 0 {
        ValueList::Nil
    } else {
        ValueList::Cons(Box::new(s[0]), Box::new(list_of_values(s.subrange(1, s.len() as int))))
    }
}

/// Whether every constant array that the nodes of the expression hold has fewer than `usize::MAX`
/// elements, as an array held in memory does.
pub open spec fn arrays_fit(e: Expression) -> bool
    decreases e,
{
    match e {
        Expression::Node { type_, value } => match value {
            Some(ConstValue::Array(l)) => l.seq().len() <= usize::MAX,
            _ => true,
        },
        Expression::ArrayRangeAccess(r) => arrays_fit(*r.array) && match r.left {
            Some(l) => arrays_fit(*l),
            None => true,
        } && match r.right {
            Some(h) => arrays_fit(*h),
            None => true,
        },
    }
}

/// The constant array value of an expression whose arrays fit has fewer than `usize::MAX` elements.
pub proof fn lemma_const_value_fits(e: Expression)
    requires
        arrays_fit(e),
    ensures
        spec_const_value(e) matches Some(ConstValue::Array(l)) ==> l.seq().len() <= usize::MAX,
    decreases e,
{
    match e {
        Expression::Node { .. } => {},
        Expression::ArrayRangeAccess(r) => {
            lemma_const_value_fits(*r.array);
            if let Some(ConstValue::Array(values)) = spec_const_value(*r.array) {
                let s = values.seq();
                if let (Some(l), Some(h)) = (range_left(*r), range_right(*r, s.len() as u32)) {
                    if !(l > h || h as usize > s.len()) {
                        lemma_list_of_values_seq(s.subrange(l as int, h as int));
                    }
                }
            }
        },
    }
}

/// The values of the list of a sequence are those of the sequence.
pub proof fn lemma_list_of_values_seq(s: Seq<ConstValue>)
    ensures
        list_of_values(s).seq() == s,
    decreases s.len(),
{
    if s.len() > 0 {
        lemma_list_of_values_seq(s.subrange(1, s.len() as int));
        assert(seq![s[0]] + s.subrange(1, s.len() as int) =~= s);
    }
}

/// Whether every node of the expression whose type is an array and whose value is an array holds
/// as many values as its type states.
pub open spec fn lengths_agree(e: Expression) -> bool
    decreases e,
{
    match e {
        Expression::Node { type_, value } => match (type_, value) {
            (Some(Type::Array(_, n)), Some(ConstValue::Array(l))) => l.seq().len() == n,
            _ => true,
        },
        Expression::ArrayRangeAccess(r) => lengths_agree(*r.array),
    }
}

/// Where the nodes of an expression hold as many values as their types state, so does the
/// expression: the length in the type of a range equals the number of values of its constant value.
pub proof fn law_range_type_matches_value(e: Expression)
    requires
        lengths_agree(e),
    ensures
        (spec_get_type(e), spec_const_value(e)) matches (Some(Type::Array(_, n)), Some(ConstValue::Array(l)))
            ==> l.seq().len() == n,
    decreases e,
{
    match e {
        Expression::Node { .. } => {},
        Expression::ArrayRangeAccess(r) => {
            law_range_type_matches_value(*r.array);
            if let (Some(Type::Array(_, n)), Some(ConstValue::Array(values))) = (spec_get_type(*r.array), spec_const_value(*r.array)) {
                let s = values.seq();
                if let (Some(l), Some(h)) = (range_left(*r), range_right(*r, s.len() as u32)) {
                    if !(l > h || h as usize > s.len()) {
                        lemma_list_of_values_seq(s.subrange(l as int, h as int));
                    }
                }
            }
        },
    }
}

/// The type that an expression has, if it can be determined.
pub open spec fn spec_get_type(e: Expression) -> Option<Type>
    decreases e,
{
    match e {
        Expression::Node { type_, value } => type_,
        Expression::ArrayRangeAccess(r) => match spec_get_type(*r.array) {
            Some(Type::Array(element, array_len)) => {
                match (range_left(*r), range_right(*r, array_len as u32)) {
                    (Some(l), Some(h)) => if l > h || h as usize > array_len {
                        None
                    } else {
                        Some(Type::Array(element, (h - l) as usize))
                    },
                    _ => None,
                }
            },
            _ => None,
        },
    }
}

/// The lower bound of a range access, where it is a constant.
pub open spec fn range_left(r: ArrayRangeAccessExpression) -> Option<u32>
    decreases r, 0int,
{
    match r.left {
        None => Some(0),
        Some(e) => match spec_const_value(*e) {
            Some(ConstValue::Int(ConstInt::U32(x))) => Some(x),
            _ => None,
        },
    }
}

/// The upper bound of a range access, where it is a constant.
pub open spec fn range_right(r: ArrayRangeAccessExpression, default: u32) -> Option<u32>
    decreases r, 0int,
{
    match r.right {
        None => Some(default),
        Some(e) => match spec_const_value(*e) {
            Some(ConstValue::Int(ConstInt::U32(x))) => Some(x),
            _ => None,
        },
    }
}

/// The constant value of an expression, if it has one.
pub open spec fn spec_const_value(e: Expression) -> Option<ConstValue>
    decreases e, 1int,
{
    match e {
        Expression::Node { type_, value } => value,
        Expression::ArrayRangeAccess(r) => match spec_const_value(*r.array) {
            Some(ConstValue::Array(values)) => {
                let s = values.seq();
                match (range_left(*r), range_right(*r, s.len() as u32)) {
                    (Some(l), Some(h)) => if l > h || h as usize > s.len() {
                        None
                    } else {
                        Some(ConstValue::Array(list_of_values(s.subrange(l as int, h as int))))
                    },
                    _ => None,
                }
            },
            _ => None,
        },
    }
}

impl ValueList {
    /// Returns the number of values in the list.
    pub fn len(&self) -> (n: usize)
        requires
            self.seq().len() <= usize::MAX,
        ensures
            n == self.seq().len(),
        decreases self,
    {
        match self {
            ValueList::Nil => 0,
            ValueList::Cons(_, t) => 1 + t.len(),
        }
    }

    /// Returns the list of the values from index `lo` up to, but not including, index `hi`.
    pub fn slice(self, lo: usize, hi: usize) -> (l: ValueList)
        requires
            lo <= hi <= self.seq().len(),
        ensures
            l == list_of_values(self.seq().subrange(lo as int, hi as int)),
        decreases self,
    {
        match self {
            ValueList::Nil => ValueList::Nil,
            ValueList::Cons(h, t) => {
                let ghost all = self.seq();
                assert(t.seq() =~= all.subrange(1, all.len() as int));
                if lo > 0 {
                    let r = t.slice(lo - 1, hi - 1);
                    assert(t.seq().subrange(lo - 1, hi - 1) =~= all.subrange(lo as int, hi as int));
                    r
                } else if hi == 0 {
                    assert(all.subrange(0, 0) =~= Seq::<ConstValue>::empty());
                    ValueList::Nil
                } else {
                    let r = t.slice(0, hi - 1);
                    let ghost sub = all.subrange(0, hi as int);
                    assert(sub[0] == *h);
                    assert(sub.subrange(1, sub.len() as int) =~= t.seq().subrange(0, hi - 1));
                    ValueList::Cons(h, Box::new(r))
                }
            },
        }
    }
}

/// Returns a copy of a type.
pub fn clone_type(t: &Type) -> (r: Type)
    ensures
        r == *t,
    decreases t,
{
    match t {
        Type::Address => Type::Address,
        Type::Boolean => Type::Boolean,
        Type::Field => Type::Field,
        Type::Group => Type::Group,
        Type::Integer(i) => Type::Integer(*i),
        Type::Array(e, n) => Type::Array(Box::new(clone_type(e)), *n),
    }
}

/// Returns a copy of a constant value.
pub fn clone_value(v: &ConstValue) -> (r: ConstValue)
    ensures
        r == *v,
    decreases v,
{
    match v {
        ConstValue::Int(i) => ConstValue::Int(*i),
        ConstValue::Boolean(b) => ConstValue::Boolean(*b),
        ConstValue::Array(l) => ConstValue::Array(clone_values(l)),
    }
}

/// Returns a copy of a list of constant values.
pub fn clone_values(l: &ValueList) -> (r: ValueList)
    ensures
        r == *l,
    decreases l,
{
    match l {
        ValueList::Nil => ValueList::Nil,
        ValueList::Cons(h, t) => ValueList::Cons(Box::new(clone_value(h)), Box::new(clone_values(t))),
    }
}

impl Expression {
    /// Returns the type of the expression, if it can be determined.
    pub fn get_type(&self) -> (t: Option<Type>)
        requires
            arrays_fit(*self),
        ensures
            t == spec_get_type(*self),
        decreases self, 1int,
    {
        match self {
            Expression::Node { type_, value } => match type_ {
                Some(t) => Some(clone_type(t)),
                None => None,
            },
            Expression::ArrayRangeAccess(r) => r.get_type(),
        }
    }

    /// Returns the constant value of the expression, if it has one.
    pub fn const_value(&self) -> (v: Option<ConstValue>)
        requires
            arrays_fit(*self),
        ensures
            v == spec_const_value(*self),
        decreases self, 2int,
    {
        match self {
            Expression::Node { type_, value } => match value {
                Some(v) => Some(clone_value(v)),
                None => None,
            },
            Expression::ArrayRangeAccess(r) => r.const_value(),
        }
    }
}

impl ArrayRangeAccessExpression {
    /// Returns the span of the expression, if it has one.
    pub fn span(&self) -> (s: Option<Span>)
        ensures
            s == self.span,
    {
        self.span
    }

    /// Returns the constant lower bound of the range: zero where there is none, and `None` where
    /// it is not a constant `u32`.
    fn const_left(&self) -> (b: Option<u32>)
        requires
            arrays_fit(Expression::ArrayRangeAccess(Box::new(*self))),
        ensures
            b == range_left(*self),
        decreases self, 0int,
    {
        match &self.left {
            None => Some(0),
            Some(e) => match e.const_value() {
                Some(ConstValue::Int(ConstInt::U32(x))) => Some(x),
                _ => None,
            },
        }
    }

    /// Returns the constant upper bound of the range: the given default where there is none, and
    /// `None` where it is not a constant `u32`.
    fn const_right(&self, default: u32) -> (b: Option<u32>)
        requires
            arrays_fit(Expression::ArrayRangeAccess(Box::new(*self))),
        ensures
            b == range_right(*self, default),
        decreases self, 0int,
    {
        match &self.right {
            None => Some(default),
            Some(e) => match e.const_value() {
                Some(ConstValue::Int(ConstInt::U32(x))) => Some(x),
                _ => None,
            },
        }
    }

    /// Returns the type of the range: an array of the elements of the accessed array, as many as
    /// the range covers, where the array's type and the bounds are known and the bounds lie within
    /// the array in order.
    pub fn get_type(&self) -> (t: Option<Type>)
        requires
            arrays_fit(Expression::ArrayRangeAccess(Box::new(*self))),
        ensures
            t == spec_get_type(Expression::ArrayRangeAccess(Box::new(*self))),
        decreases self, 0int,
    {
        let (element, array_len) = match self.array.get_type() {
            Some(Type::Array(element, len)) => (element, len),
            _ => return None,
        };
        let const_left = match self.const_left() {
            Some(x) => x,
            None => return None,
        };
        let const_right = match self.const_right(#[verifier::truncate] (array_len as u32)) {
            Some(x) => x,
            None => return None,
        };
        if const_left > const_right || const_right as usize > array_len {
            return None;
        }
        Some(Type::Array(element, (const_right - const_left) as usize))
    }

    /// Returns the constant value of the range: the values of the accessed array that the range
    /// covers, where the array's value and the bounds are constants and the bounds lie within the
    /// array in order.
    pub fn const_value(&self) -> (v: Option<ConstValue>)
        requires
            arrays_fit(Expression::ArrayRangeAccess(Box::new(*self))),
        ensures
            v == spec_const_value(Expression::ArrayRangeAccess(Box::new(*self))),
        decreases self, 1int,
    {
        let array = match self.array.const_value() {
            Some(ConstValue::Array(values)) => values,
            _ => return None,
        };
        proof {
            lemma_const_value_fits(*self.array);
        }
        let len = array.len();
        let const_left = match self.const_left() {
            Some(x) => x,
            None => return None,
        };
        let const_right = match self.const_right(#[verifier::truncate] (len as u32)) {
            Some(x) => x,
            None => return None,
        };
        if const_left > const_right || const_right as usize > len {
            return None;
        }
        Some(ConstValue::Array(array.slice(const_left as usize, const_right as usize)))
    }
}

} // verus!
