//! The types of Leo programs.

use vstd::prelude::*;

use crate::span::{Span, Symbol};

verus! {

/// An identifier: a name together with the span where it occurs.
#[derive(Clone, Copy, Debug, PartialEq, Eq, Structural)]
pub struct Identifier {
    pub name: Symbol,
    pub span: Span,
}

impl Identifier {
    /// Creates an identifier.
    pub fn new(name: Symbol, span: Span) -> (i: Identifier)
        ensures
            i.name == name,
            i.span == span,
    {
        Identifier { name, span }
    }

    /// Whether two identifiers name the same thing, wherever they occur.
    pub fn matches(&self, other: &Identifier) -> (b: bool)
        ensures
            b == (self.name == other.name),
    {
        self.name == other.name
    }
}

/// The mode of a function input or output.
#[derive(Clone, Copy, Debug, PartialEq, Eq, Structural)]
pub enum Mode {
    NoMode,
    Constant,
    Private,
    Public,
}

/// The kind of a function: inlined, a regular function, or a transition.
#[derive(Clone, Copy, Debug, PartialEq, Eq, Structural)]
pub enum Variant {
    Inline,
    Standard,
    Transition,
}

/// The integer types of Leo.
#[derive(Clone, Copy, Debug, PartialEq, Eq, Structural)]
pub enum IntegerType {
    U8,
    U16,
    U32,
    U64,
    U128,
    I8,
    I16,
    I32,
    I64,
    I128,
}

impl IntegerType {
    /// Whether the integer type is signed.
    pub open spec fn is_signed(self) -> bool {
        match self {
            IntegerType::I8 | IntegerType::I16 | IntegerType::I32 | IntegerType::I64 | IntegerType::I128 => true,
            _ => false,
        }
    }

    /// Whether the integer type is `u8`, `u16` or `u32`: the types of a magnitude.
    pub open spec fn is_magnitude(self) -> bool {
        self == IntegerType::U8 || self == IntegerType::U16 || self == IntegerType::U32
    }
}

/// A composite type: a struct or record, possibly declared in another program.
#[derive(Clone, Copy, Debug, PartialEq, Eq, Structural)]
pub struct CompositeType {
    pub id: Identifier,
    pub program: Option<Symbol>,
}

/// The type of a mapping from keys to values.
#[derive(Debug)]
pub struct MappingType {
    pub key: Box<Type>,
    pub value: Box<Type>,
}

/// A list of types: the members of a tuple type or the inputs of a future.
#[derive(Debug)]
pub enum TypeList {
    Nil,
    Cons(Box<Type>, Box<TypeList>),
}

/// The types of Leo.
#[derive(Debug)]
pub enum Type {
    Address,
    Boolean,
    Field,
    Group,
    Integer(IntegerType),
    Scalar,
    String,
    Identifier(Identifier),
    Composite(CompositeType),
    Mapping(MappingType),
    Tuple(TypeList),
    Future(TypeList),
    Unit,
    Errored,
}

impl TypeList {
    /// The types of the list, in order.
    pub open spec fn seq(self) -> Seq<Type>
        decreases self,
    {
        match self {
            TypeList::Nil => Seq::empty(),
            TypeList::Cons(head, tail) => seq![*head].add(tail.seq()),
        }
    }

    /// The number of types in the list.
    pub open spec fn spec_len(self) -> nat
        decreases self,
    {
        match self {
            TypeList::Nil => 0,
            TypeList::Cons(_, tail) => 1 + tail.spec_len(),
        }
    }

    /// Returns the number of types in the list.
    pub fn len(&self) -> (n: usize)
        requires
            self.spec_len() <= usize::MAX,
        ensures
            n == self.spec_len(),
        decreases self,
    {
        match self {
            TypeList::Nil => 0,
            TypeList::Cons(_, tail) => 1 + tail.len(),
        }
    }
}

/// Whether two types are equal when identifiers are compared by name alone.
pub open spec fn types_eq_flat(a: Type, b: Type) -> bool
    decreases a,
{
    match (a, b) {
        (Type::Address, Type::Address) => true,
        (Type::Boolean, Type::Boolean) => true,
        (Type::Field, Type::Field) => true,
        (Type::Group, Type::Group) => true,
        (Type::Scalar, Type::Scalar) => true,
        (Type::String, Type::String) => true,
        (Type::Unit, Type::Unit) => true,
        (Type::Integer(l), Type::Integer(r)) => l == r,
        (Type::Identifier(l), Type::Identifier(r)) => l.name == r.name,
        (Type::Composite(l), Type::Composite(r)) => l.id.name == r.id.name && l.program == r.program,
        (Type::Mapping(l), Type::Mapping(r)) => types_eq_flat(*l.key, *r.key) && types_eq_flat(*l.value, *r.value),
        (Type::Tuple(l), Type::Tuple(r)) => lists_eq_flat(l, r),
        (Type::Future(l), Type::Future(r)) => lists_eq_flat(l, r),
        _ => false,
    }
}

/// Whether two lists of types have the same length and are equal position by position,
/// in the sense of `types_eq_flat`.
pub open spec fn lists_eq_flat(l: TypeList, r: TypeList) -> bool
    decreases l,
{
    match (l, r) {
        (TypeList::Nil, TypeList::Nil) => true,
        (TypeList::Cons(lh, lt), TypeList::Cons(rh, rt)) => types_eq_flat(*lh, *rh) && lists_eq_flat(*lt, *rt),
        _ => false,
    }
}

impl Type {
    /// Returns whether two types are equal when identifiers are compared by name alone.
    pub fn eq_flat(&self, other: &Type) -> (b: bool)
        ensures
            b == types_eq_flat(*self, *other),
        decreases self,
    {
        match (self, other) {
            (Type::Address, Type::Address) => true,
            (Type::Boolean, Type::Boolean) => true,
            (Type::Field, Type::Field) => true,
            (Type::Group, Type::Group) => true,
            (Type::Scalar, Type::Scalar) => true,
            (Type::String, Type::String) => true,
            (Type::Unit, Type::Unit) => true,
            (Type::Integer(l), Type::Integer(r)) => *l == *r,
            (Type::Identifier(l), Type::Identifier(r)) => l.matches(r),
            (Type::Composite(l), Type::Composite(r)) => l.id.name == r.id.name && l.program == r.program,
            (Type::Mapping(l), Type::Mapping(r)) => l.key.eq_flat(&r.key) && l.value.eq_flat(&r.value),
            (Type::Tuple(l), Type::Tuple(r)) => l.eq_flat(r),
            (Type::Future(l), Type::Future(r)) => l.eq_flat(r),
            _ => false,
        }
    }
}

impl TypeList {
    /// Returns whether two lists of types are equal position by position, in the sense of `eq_flat`.
    pub fn eq_flat(&self, other: &TypeList) -> (b: bool)
        ensures
            b == lists_eq_flat(*self, *other),
        decreases self,
    {
        match (self, other) {
            (TypeList::Nil, TypeList::Nil) => true,
            (TypeList::Cons(lh, lt), TypeList::Cons(rh, rt)) => lh.eq_flat(rh) && lt.eq_flat(rt),
            _ => false,
        }
    }
}

impl Clone for MappingType {
    fn clone(&self) -> (m: Self)
        ensures
            m == *self,
    {
        MappingType { key: Box::new(clone_type(&self.key)), value: Box::new(clone_type(&self.value)) }
    }
}

impl Clone for TypeList {
    fn clone(&self) -> (l: Self)
        ensures
            l == *self,
    {
        clone_list(self)
    }
}

impl Clone for Type {
    fn clone(&self) -> (t: Self)
        ensures
            t == *self,
    {
        clone_type(self)
    }
}

/// Returns a copy of a type.
pub fn clone_type(t: &Type) -> (r: Type)
    ensures
        r == *t,
    decreases t,
{
    match t {
        Type::Address => Type::Address,
        Type::Boolean => Type::Boolean,
        Type::Field => Type::Field,
        Type::Group => Type::Group,
        Type::Integer(i) => Type::Integer(*i),
        Type::Scalar => Type::Scalar,
        Type::String => Type::String,
        Type::Identifier(i) => Type::Identifier(*i),
        Type::Composite(c) => Type::Composite(*c),
        Type::Mapping(m) => Type::Mapping(MappingType {
            key: Box::new(clone_type(&m.key)),
            value: Box::new(clone_type(&m.value)),
        }),
        Type::Tuple(l) => Type::Tuple(clone_list(l)),
        Type::Future(l) => Type::Future(clone_list(l)),
        Type::Unit => Type::Unit,
        Type::Errored => Type::Errored,
    }
}

/// Returns a copy of a list of types.
pub fn clone_list(l: &TypeList) -> (r: TypeList)
    ensures
        r == *l,
    decreases l,
{
    match l {
        TypeList::Nil => TypeList::Nil,
        TypeList::Cons(h, t) => TypeList::Cons(Box::new(clone_type(h)), Box::new(clone_list(t))),
    }
}

/// Whether the type holds no erroneous type, at any depth.
pub open spec fn error_free(t: Type) -> bool
    decreases t,
{
    match t {
        Type::Errored => false,
        Type::Mapping(m) => error_free(*m.key) && error_free(*m.value),
        Type::Tuple(l) => list_error_free(l),
        Type::Future(l) => list_error_free(l),
        _ => true,
    }
}

/// Whether the types of the list hold no erroneous type, at any depth.
pub open spec fn list_error_free(l: TypeList) -> bool
    decreases l,
{
    match l {
        TypeList::Nil => true,
        TypeList::Cons(h, t) => error_free(*h) && list_error_free(*t),
    }
}

/// Comparing types by name is symmetric.
pub proof fn law_eq_flat_symmetric(a: Type, b: Type)
    ensures
        types_eq_flat(a, b) == types_eq_flat(b, a),
    decreases a,
{
    match (a, b) {
        (Type::Mapping(l), Type::Mapping(r)) => {
            law_eq_flat_symmetric(*l.key, *r.key);
            law_eq_flat_symmetric(*l.value, *r.value);
        },
        (Type::Tuple(l), Type::Tuple(r)) => law_lists_eq_flat_symmetric(l, r),
        (Type::Future(l), Type::Future(r)) => law_lists_eq_flat_symmetric(l, r),
        _ => {},
    }
}

/// Comparing lists of types by name is symmetric.
pub proof fn law_lists_eq_flat_symmetric(l: TypeList, r: TypeList)
    ensures
        lists_eq_flat(l, r) == lists_eq_flat(r, l),
    decreases l,
{
    match (l, r) {
        (TypeList::Cons(lh, lt), TypeList::Cons(rh, rt)) => {
            law_eq_flat_symmetric(*lh, *rh);
            law_lists_eq_flat_symmetric(*lt, *rt);
        },
        _ => {},
    }
}

/// Every type that holds no erroneous type equals itself when compared by name.
pub proof fn law_eq_flat_reflexive(t: Type)
    requires
        error_free(t),
    ensures
        types_eq_flat(t, t),
    decreases t,
{
    match t {
        Type::Mapping(m) => {
            law_eq_flat_reflexive(*m.key);
            law_eq_flat_reflexive(*m.value);
        },
        Type::Tuple(l) => law_lists_eq_flat_reflexive(l),
        Type::Future(l) => law_lists_eq_flat_reflexive(l),
        _ => {},
    }
}

/// Every list of types that holds no erroneous type equals itself when compared by name.
pub proof fn law_lists_eq_flat_reflexive(l: TypeList)
    requires
        list_error_free(l),
    ensures
        lists_eq_flat(l, l),
    decreases l,
{
    if let TypeList::Cons(h, t) = l {
        law_eq_flat_reflexive(*h);
        law_lists_eq_flat_reflexive(*t);
    }
}

} // verus!
