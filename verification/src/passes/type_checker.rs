//! The type checker: its state, the checks that it applies to types, and the
//! type rules of calls to core functions.

use vstd::prelude::*;

use crate::ast::core_function::CoreFunction;
use crate::ast::types::{Variant, clone_type, types_eq_flat, Identifier, IntegerType, MappingType, Type, TypeList};
use crate::passes::call_graph::{no_edges, CallGraph};
use crate::passes::errors::{ExpectedTypes, MappingOperation, TypeCheckerError};
use crate::passes::symbol_table::{find_struct, function_names, shadowing_error, StructSymbol, SymbolTable, VariableSymbol, VariableType};
use crate::span::{sym, Span, Symbol};

verus! {

/// Collects the errors that a pass reports.
#[derive(Debug)]
pub struct Handler {
    pub errors: Vec<TypeCheckerError>,
}

impl Handler {
    /// Creates a handler that has collected no errors.
    pub fn new() -> (h: Handler)
        ensures
            h.errors@.len() == 0,
    {
        Handler { errors: Vec::new() }
    }
}

/// The state of the type checker.
#[derive(Debug)]
pub struct TypeChecker {
    /// The symbol table for the program.
    pub symbol_table: SymbolTable,
    /// The call graph of the program, whose sources are its functions.
    pub call_graph: CallGraph,
    /// The errors reported so far.
    pub handler: Handler,
    /// The name of the function that we are currently traversing.
    pub function: Option<Symbol>,
    /// The variant of the function that we are currently traversing.
    pub variant: Option<Variant>,
    /// Whether or not the function that we are currently traversing has a return statement.
    pub has_return: bool,
    /// Whether or not the function that we are currently traversing invokes the finalize block.
    pub has_finalize: bool,
    /// Whether or not we are currently traversing a finalize block.
    pub is_finalize: bool,
    /// Whether or not we are currently traversing an imported program.
    pub is_imported: bool,
    /// Whether or not we are currently traversing a return statement.
    pub is_return: bool,
}

/// The sets of types that the checks admit.
#[derive(Debug)]
pub enum TypeClass {
    /// The types that are equal to the given one when identifiers are compared by name.
    Exactly(Type),
    Boolean,
    Field,
    Group,
    Scalar,
    Int,
    SignedInt,
    UnsignedInt,
    Magnitude,
    BoolInt,
    FieldInt,
    FieldGroup,
    FieldGroupInt,
    FieldGroupSignedInt,
    FieldScalarInt,
    FieldGroupScalarInt,
    /// Any type but a mapping, tuple, unit or erroneous type.
    NotMappingTupleErrUnit,
    /// As `NotMappingTupleErrUnit`, and no 64- or 128-bit integer.
    Pedersen64Input,
    /// As `NotMappingTupleErrUnit`, and no 128-bit integer.
    Pedersen128Input,
    Mapping,
}

/// Whether the type is an integer type.
pub open spec fn is_int(t: Type) -> bool {
    t is Integer
}

/// Whether the type is a signed integer type.
pub open spec fn is_signed_int(t: Type) -> bool {
    t matches Type::Integer(i) && i.is_signed()
}

/// Whether the type is an unsigned integer type.
pub open spec fn is_unsigned_int(t: Type) -> bool {
    t matches Type::Integer(i) && !i.is_signed()
}

/// Whether the type is one of the integer types that Pedersen hashes of 64-bit inputs refuse.
pub open spec fn is_wide_for_pedersen64(t: Type) -> bool {
    t matches Type::Integer(i) && (i == IntegerType::U64 || i == IntegerType::I64 || i == IntegerType::U128
        || i == IntegerType::I128)
}

/// Whether the type is one of the integer types that Pedersen hashes of 128-bit inputs refuse.
pub open spec fn is_wide_for_pedersen128(t: Type) -> bool {
    t matches Type::Integer(i) && (i == IntegerType::U128 || i == IntegerType::I128)
}

/// Whether the type is a mapping, tuple, unit or erroneous type.
pub open spec fn is_mapping_tuple_err_unit(t: Type) -> bool {
    t is Mapping || t is Tuple || t is Errored || t is Unit
}

/// Whether the class admits the type.
pub open spec fn admits(class: TypeClass, t: Type) -> bool {
    match class {
        TypeClass::Exactly(e) => types_eq_flat(t, e),
        TypeClass::Boolean => t is Boolean,
        TypeClass::Field => t is Field,
        TypeClass::Group => t is Group,
        TypeClass::Scalar => t is Scalar,
        TypeClass::Int => is_int(t),
        TypeClass::SignedInt => is_signed_int(t),
        TypeClass::UnsignedInt => is_unsigned_int(t),
        TypeClass::Magnitude => t matches Type::Integer(i) && i.is_magnitude(),
        TypeClass::BoolInt => t is Boolean || is_int(t),
        TypeClass::FieldInt => t is Field || is_int(t),
        TypeClass::FieldGroup => t is Field || t is Group,
        TypeClass::FieldGroupInt => t is Field || t is Group || is_int(t),
        TypeClass::FieldGroupSignedInt => t is Field || t is Group || is_signed_int(t),
        TypeClass::FieldScalarInt => t is Field || t is Scalar || is_int(t),
        TypeClass::FieldGroupScalarInt => t is Field || t is Group || t is Scalar || is_int(t),
        TypeClass::NotMappingTupleErrUnit => !is_mapping_tuple_err_unit(t),
        TypeClass::Pedersen64Input => !is_mapping_tuple_err_unit(t) && !is_wide_for_pedersen64(t),
        TypeClass::Pedersen128Input => !is_mapping_tuple_err_unit(t) && !is_wide_for_pedersen128(t),
        TypeClass::Mapping => t is Mapping,
    }
}

/// How an error describes the types that the class admits.
pub open spec fn description(class: TypeClass) -> ExpectedTypes {
    match class {
        TypeClass::Exactly(e) => ExpectedTypes::Exactly(e),
        TypeClass::Boolean => ExpectedTypes::Boolean,
        TypeClass::Field => ExpectedTypes::Field,
        TypeClass::Group => ExpectedTypes::Group,
        TypeClass::Scalar => ExpectedTypes::Scalar,
        TypeClass::Int => ExpectedTypes::Int,
        TypeClass::SignedInt => ExpectedTypes::SignedInt,
        TypeClass::UnsignedInt => ExpectedTypes::UnsignedInt,
        TypeClass::Magnitude => ExpectedTypes::Magnitude,
        TypeClass::BoolInt => ExpectedTypes::BoolInt,
        TypeClass::FieldInt => ExpectedTypes::FieldInt,
        TypeClass::FieldGroup => ExpectedTypes::FieldGroup,
        TypeClass::FieldGroupInt => ExpectedTypes::FieldGroupInt,
        TypeClass::FieldGroupSignedInt => ExpectedTypes::FieldGroupSignedInt,
        TypeClass::FieldScalarInt => ExpectedTypes::FieldScalarInt,
        TypeClass::FieldGroupScalarInt => ExpectedTypes::FieldGroupScalarInt,
        TypeClass::NotMappingTupleErrUnit => ExpectedTypes::CoreArgument,
        TypeClass::Pedersen64Input => ExpectedTypes::CoreArgument,
        TypeClass::Pedersen128Input => ExpectedTypes::CoreArgument,
        TypeClass::Mapping => ExpectedTypes::Mapping,
    }
}

/// The errors that checking an optional type against a class reports: none when there is no
/// type or the class admits it, and otherwise one.
pub open spec fn type_errors(class: TypeClass, t: Option<Type>, span: Span) -> Seq<TypeCheckerError> {
    match t {
        Some(t) => if admits(class, t) {
            Seq::empty()
        } else {
            seq![TypeCheckerError::ExpectedOneTypeOf { expected: description(class), found: t, span }]
        },
        None => Seq::empty(),
    }
}

/// The errors that comparing two optional types reports.
pub open spec fn eq_types_errors(t1: Option<Type>, t2: Option<Type>, span: Span) -> Seq<TypeCheckerError> {
    match (t1, t2) {
        (Some(a), Some(b)) => if types_eq_flat(a, b) {
            Seq::empty()
        } else {
            seq![TypeCheckerError::TypeShouldBe { found: Some(a), expected: b, span }]
        },
        (Some(a), None) => seq![TypeCheckerError::TypeShouldBe { found: None, expected: a, span }],
        (None, Some(b)) => seq![TypeCheckerError::TypeShouldBe { found: None, expected: b, span }],
        (None, None) => Seq::empty(),
    }
}

/// Whether the type is a primitive type.
pub open spec fn spec_is_primitive_type(t: Type) -> bool {
    t is Address || t is Boolean || t is Field || t is Group || t is Integer || t is Scalar || t is String
}

/// The class of types that a hash or commitment function accepts as its first argument.
pub open spec fn core_argument_class(f: CoreFunction) -> TypeClass {
    match f {
        CoreFunction::Pedersen64CommitToAddress
        | CoreFunction::Pedersen64CommitToField
        | CoreFunction::Pedersen64CommitToGroup
        | CoreFunction::Pedersen64HashToAddress
        | CoreFunction::Pedersen64HashToField
        | CoreFunction::Pedersen64HashToGroup
        | CoreFunction::Pedersen64HashToScalar => TypeClass::Pedersen64Input,
        CoreFunction::Pedersen128CommitToAddress
        | CoreFunction::Pedersen128CommitToField
        | CoreFunction::Pedersen128CommitToGroup
        | CoreFunction::Pedersen128HashToAddress
        | CoreFunction::Pedersen128HashToField
        | CoreFunction::Pedersen128HashToGroup
        | CoreFunction::Pedersen128HashToScalar => TypeClass::Pedersen128Input,
        _ => TypeClass::NotMappingTupleErrUnit,
    }
}

/// The type of the value that a hash or commitment function returns.
pub open spec fn core_output_type(f: CoreFunction) -> Type {
    match f {
        CoreFunction::BHP256CommitToAddress
        | CoreFunction::BHP256HashToAddress
        | CoreFunction::BHP512CommitToAddress
        | CoreFunction::BHP512HashToAddress
        | CoreFunction::BHP768CommitToAddress
        | CoreFunction::BHP768HashToAddress
        | CoreFunction::BHP1024CommitToAddress
        | CoreFunction::BHP1024HashToAddress
        | CoreFunction::Pedersen64CommitToAddress
        | CoreFunction::Pedersen64HashToAddress
        | CoreFunction::Pedersen128CommitToAddress
        | CoreFunction::Pedersen128HashToAddress
        | CoreFunction::Poseidon2HashToAddress
        | CoreFunction::Poseidon4HashToAddress
        | CoreFunction::Poseidon8HashToAddress => Type::Address,
        CoreFunction::BHP256CommitToField
        | CoreFunction::BHP256HashToField
        | CoreFunction::BHP512CommitToField
        | CoreFunction::BHP512HashToField
        | CoreFunction::BHP768CommitToField
        | CoreFunction::BHP768HashToField
        | CoreFunction::BHP1024CommitToField
        | CoreFunction::BHP1024HashToField
        | CoreFunction::Pedersen64CommitToField
        | CoreFunction::Pedersen64HashToField
        | CoreFunction::Pedersen128CommitToField
        | CoreFunction::Pedersen128HashToField
        | CoreFunction::Poseidon2HashToField
        | CoreFunction::Poseidon4HashToField
        | CoreFunction::Poseidon8HashToField => Type::Field,
        CoreFunction::BHP256CommitToGroup
        | CoreFunction::BHP256HashToGroup
        | CoreFunction::BHP512CommitToGroup
        | CoreFunction::BHP512HashToGroup
        | CoreFunction::BHP768CommitToGroup
        | CoreFunction::BHP768HashToGroup
        | CoreFunction::BHP1024CommitToGroup
        | CoreFunction::BHP1024HashToGroup
        | CoreFunction::Pedersen64CommitToGroup
        | CoreFunction::Pedersen64HashToGroup
        | CoreFunction::Pedersen128CommitToGroup
        | CoreFunction::Pedersen128HashToGroup
        | CoreFunction::Poseidon2HashToGroup
        | CoreFunction::Poseidon4HashToGroup
        | CoreFunction::Poseidon8HashToGroup => Type::Group,
        CoreFunction::BHP256HashToI8 => Type::Integer(IntegerType::I8),
        CoreFunction::BHP256HashToI16 => Type::Integer(IntegerType::I16),
        CoreFunction::BHP256HashToI32 => Type::Integer(IntegerType::I32),
        CoreFunction::BHP256HashToI64 => Type::Integer(IntegerType::I64),
        CoreFunction::BHP256HashToI128 => Type::Integer(IntegerType::I128),
        CoreFunction::BHP256HashToU8 => Type::Integer(IntegerType::U8),
        CoreFunction::BHP256HashToU16 => Type::Integer(IntegerType::U16),
        CoreFunction::BHP256HashToU32 => Type::Integer(IntegerType::U32),
        CoreFunction::BHP256HashToU64 => Type::Integer(IntegerType::U64),
        CoreFunction::BHP256HashToU128 => Type::Integer(IntegerType::U128),
        CoreFunction::BHP256HashToScalar
        | CoreFunction::BHP512HashToScalar
        | CoreFunction::BHP768HashToScalar
        | CoreFunction::BHP1024HashToScalar
        | CoreFunction::Pedersen64HashToScalar
        | CoreFunction::Pedersen128HashToScalar
        | CoreFunction::Poseidon2HashToScalar
        | CoreFunction::Poseidon4HashToScalar
        | CoreFunction::Poseidon8HashToScalar => Type::Scalar,
        _ => Type::Unit,
    }
}

/// A hash or commitment function is named after the type of what it returns: `hash_to_T` and
/// `commit_to_T` return a `T` (an address, field, group, scalar or integer of type `T`), and
/// the mapping operations, which are named otherwise, return the unit type.
pub proof fn law_core_output_named_by_method(f: CoreFunction)
    ensures
        (f.symbols().1 == sym::hash_to_address || f.symbols().1 == sym::commit_to_address) <==> core_output_type(f) == Type::Address,
        (f.symbols().1 == sym::hash_to_field || f.symbols().1 == sym::commit_to_field) <==> core_output_type(f) == Type::Field,
        (f.symbols().1 == sym::hash_to_group || f.symbols().1 == sym::commit_to_group) <==> core_output_type(f) == Type::Group,
        f.symbols().1 == sym::hash_to_scalar <==> core_output_type(f) == Type::Scalar,
        f.symbols().1 == sym::hash_to_i8 <==> core_output_type(f) == Type::Integer(IntegerType::I8),
        f.symbols().1 == sym::hash_to_i16 <==> core_output_type(f) == Type::Integer(IntegerType::I16),
        f.symbols().1 == sym::hash_to_i32 <==> core_output_type(f) == Type::Integer(IntegerType::I32),
        f.symbols().1 == sym::hash_to_i64 <==> core_output_type(f) == Type::Integer(IntegerType::I64),
        f.symbols().1 == sym::hash_to_i128 <==> core_output_type(f) == Type::Integer(IntegerType::I128),
        f.symbols().1 == sym::hash_to_u8 <==> core_output_type(f) == Type::Integer(IntegerType::U8),
        f.symbols().1 == sym::hash_to_u16 <==> core_output_type(f) == Type::Integer(IntegerType::U16),
        f.symbols().1 == sym::hash_to_u32 <==> core_output_type(f) == Type::Integer(IntegerType::U32),
        f.symbols().1 == sym::hash_to_u64 <==> core_output_type(f) == Type::Integer(IntegerType::U64),
        f.symbols().1 == sym::hash_to_u128 <==> core_output_type(f) == Type::Integer(IntegerType::U128),
        f.symbols().0 == sym::Mapping <==> core_output_type(f) == Type::Unit,
{
}

/// The mapping operation that a core function performs, as named in errors.
pub open spec fn mapping_operation(f: CoreFunction) -> MappingOperation {
    match f {
        CoreFunction::MappingGet => MappingOperation::Get,
        CoreFunction::MappingGetOrUse => MappingOperation::GetOr,
        _ => MappingOperation::SetValue,
    }
}

/// The errors that checking a call of a core function reports: the number of arguments is checked
/// first, and only where it is right are the types of the arguments checked.
pub open spec fn core_call_errors(
    is_finalize: bool,
    f: CoreFunction,
    args: Seq<(Option<Type>, Span)>,
    function_span: Span,
) -> Seq<TypeCheckerError> {
    if args.len() != f.spec_num_args() {
        seq![TypeCheckerError::IncorrectNumArgsToCall { expected: f.spec_num_args(), received: args.len() as usize, span: function_span }]
    } else if f.is_commit() {
        type_errors(core_argument_class(f), args[0].0, args[0].1) + type_errors(TypeClass::Scalar, args[1].0, args[1].1)
    } else if f.is_hash() {
        type_errors(core_argument_class(f), args[0].0, args[0].1)
    } else {
        let outside: Seq<TypeCheckerError> = if is_finalize {
            Seq::empty()
        } else {
            seq![TypeCheckerError::InvalidOperationOutsideFinalize { operation: mapping_operation(f), span: function_span }]
        };
        let first = outside + type_errors(TypeClass::Mapping, args[0].0, args[0].1);
        match args[0].0 {
            Some(Type::Mapping(m)) => if f == CoreFunction::MappingGet {
                first + type_errors(TypeClass::Exactly(*m.key), args[1].0, args[1].1)
            } else {
                first + type_errors(TypeClass::Exactly(*m.key), args[1].0, args[1].1) + type_errors(
                    TypeClass::Exactly(*m.value),
                    args[2].0,
                    args[2].1,
                )
            },
            _ => first,
        }
    }
}

/// The type that a call of a core function has, if checking it gives one.
pub open spec fn core_call_type(f: CoreFunction, args: Seq<(Option<Type>, Span)>) -> Option<Type> {
    if args.len() != f.spec_num_args() {
        None
    } else if f.is_commit() || f.is_hash() {
        Some(core_output_type(f))
    } else {
        match args[0].0 {
            Some(Type::Mapping(m)) => if f == CoreFunction::MappingSet {
                Some(Type::Unit)
            } else {
                Some(*m.value)
            },
            _ => None,
        }
    }
}

/// The errors that checking that a member type holds no record reports.
pub open spec fn record_member_errors(structs: Seq<StructSymbol>, span: Span, parent: Symbol, t: Type) -> Seq<TypeCheckerError>
    decreases t,
{
    match t {
        Type::Identifier(id) => if find_struct(structs, id.name) matches Some(s) && s.is_record {
            seq![TypeCheckerError::StructOrRecordCannotContainRecord { parent, child: id.name, span }]
        } else {
            Seq::empty()
        },
        Type::Tuple(l) => record_member_list_errors(structs, span, parent, l),
        _ => Seq::empty(),
    }
}

/// The errors that checking that the members of a list of types hold no record reports.
pub open spec fn record_member_list_errors(structs: Seq<StructSymbol>, span: Span, parent: Symbol, l: TypeList) -> Seq<TypeCheckerError>
    decreases l,
{
    match l {
        TypeList::Nil => Seq::empty(),
        TypeList::Cons(h, t) => record_member_errors(structs, span, parent, *h) + record_member_list_errors(structs, span, parent, *t),
    }
}

/// The errors that checking that a type and its constituent types are defined reports.
pub open spec fn undefined_type_errors(structs: Seq<StructSymbol>, t: Type, span: Span) -> Seq<TypeCheckerError>
    decreases t,
{
    match t {
        Type::String => seq![TypeCheckerError::StringsAreNotSupported { span }],
        Type::Identifier(id) => if find_struct(structs, id.name) is None {
            seq![TypeCheckerError::UndefinedType { name: id.name, span }]
        } else {
            Seq::empty()
        },
        Type::Tuple(l) => undefined_list_errors(structs, l, span),
        Type::Mapping(m) => undefined_type_errors(structs, *m.key, span) + undefined_type_errors(structs, *m.value, span),
        _ => Seq::empty(),
    }
}

/// The errors that checking that the types of a list are defined reports.
pub open spec fn undefined_list_errors(structs: Seq<StructSymbol>, l: TypeList, span: Span) -> Seq<TypeCheckerError>
    decreases l,
{
    match l {
        TypeList::Nil => Seq::empty(),
        TypeList::Cons(h, t) => undefined_type_errors(structs, *h, span) + undefined_list_errors(structs, *t, span),
    }
}

/// The effect of declaring a variable on the errors and the variables: either an error or a new variable.
pub open spec fn declare_effect(table: SymbolTable, name: Symbol, type_: Type, span: Span) -> (Seq<TypeCheckerError>, Seq<(Symbol, VariableSymbol)>) {
    match shadowing_error(table, name, span) {
        Some(e) => (seq![e], Seq::empty()),
        None => (Seq::empty(), seq![(name, VariableSymbol { type_, span, declaration: VariableType::Mut })]),
    }
}

impl TypeChecker {
    /// The errors reported so far.
    pub open spec fn errors(self) -> Seq<TypeCheckerError> {
        self.handler.errors@
    }

    /// Whether the two states differ at most in the errors reported.
    pub open spec fn same_but_errors(self, other: TypeChecker) -> bool {
        &&& self.symbol_table.functions@ == other.symbol_table.functions@
        &&& self.symbol_table.structs@ == other.symbol_table.structs@
        &&& self.symbol_table.variables@ == other.symbol_table.variables@
        &&& self.call_graph == other.call_graph
        &&& self.same_flags(other)
    }

    /// Whether the two states agree on the function being checked and the flags.
    pub open spec fn same_flags(self, other: TypeChecker) -> bool {
        &&& self.function == other.function
        &&& self.variant == other.variant
        &&& self.has_return == other.has_return
        &&& self.has_finalize == other.has_finalize
        &&& self.is_finalize == other.is_finalize
        &&& self.is_imported == other.is_imported
        &&& self.is_return == other.is_return
    }

    /// Returns a new type checker given a symbol table.
    pub fn new(symbol_table: SymbolTable) -> (c: TypeChecker)
        ensures
            c.symbol_table == symbol_table,
            c.call_graph.wf(),
            c.call_graph.spec_sources() == function_names(symbol_table.functions@),
            c.call_graph.graph() == no_edges(),
            c.errors().len() == 0,
            c.function is None,
            c.variant is None,
            !c.has_return && !c.has_finalize && !c.is_finalize && !c.is_imported && !c.is_return,
    {
        let call_graph = CallGraph::new(symbol_table.function_names());
        TypeChecker {
            symbol_table,
            call_graph,
            handler: Handler::new(),
            function: None,
            variant: None,
            has_return: false,
            has_finalize: false,
            is_finalize: false,
            is_imported: false,
            is_return: false,
        }
    }

    /// Emits a type checker error.
    pub fn emit_err(&mut self, err: TypeCheckerError)
        ensures
            final(self).errors() == old(self).errors().push(err),
            final(self).same_but_errors(*old(self)),
    {
        self.handler.errors.push(err);
    }

    /// Emits an error if the class does not admit the given type.
    pub fn check_type(&mut self, class: &TypeClass, type_: &Option<Type>, span: Span)
        ensures
            final(self).errors() == old(self).errors() + type_errors(*class, *type_, span),
            final(self).same_but_errors(*old(self)),
    {
        if let Some(t) = type_ {
            if !class_admits(class, t) {
                self.emit_err(TypeCheckerError::ExpectedOneTypeOf { expected: describe(class), found: clone_type(t), span });
            }
        }
    }

    /// Emits an error if the two given types are not equal.
    pub fn check_eq_types(&mut self, t1: &Option<Type>, t2: &Option<Type>, span: Span)
        ensures
            final(self).errors() == old(self).errors() + eq_types_errors(*t1, *t2, span),
            final(self).same_but_errors(*old(self)),
    {
        match (t1, t2) {
            (Some(a), Some(b)) => {
                if !a.eq_flat(b) {
                    self.emit_err(TypeCheckerError::TypeShouldBe { found: Some(clone_type(a)), expected: clone_type(b), span });
                }
            },
            (Some(a), None) => {
                self.emit_err(TypeCheckerError::TypeShouldBe { found: None, expected: clone_type(a), span });
            },
            (None, Some(b)) => {
                self.emit_err(TypeCheckerError::TypeShouldBe { found: None, expected: clone_type(b), span });
            },
            (None, None) => {},
        }
    }

    /// Returns whether the given type is a primitive type.
    pub fn is_primitive_type(type_: &Type) -> (b: bool)
        ensures
            b == spec_is_primitive_type(*type_),
    {
        match type_ {
            Type::Address | Type::Boolean | Type::Field | Type::Group | Type::Integer(_) | Type::Scalar
            | Type::String => true,
            Type::Identifier(_) | Type::Composite(_) | Type::Mapping(_) | Type::Tuple(_) | Type::Future(_)
            | Type::Unit | Type::Errored => false,
        }
    }

    /// Use this method when you know the actual type: emits an error if the `actual` type is not
    /// equal to the `expected` type, and returns the `actual` type.
    pub fn assert_and_return_type(&mut self, actual: Type, expected: &Option<Type>, span: Span) -> (t: Type)
        ensures
            t == actual,
            final(self).errors() == old(self).errors() + match *expected {
                Some(e) => if types_eq_flat(actual, e) {
                    Seq::empty()
                } else {
                    seq![TypeCheckerError::TypeShouldBe { found: Some(actual), expected: e, span }]
                },
                None => Seq::<TypeCheckerError>::empty(),
            },
            final(self).same_but_errors(*old(self)),
    {
        if let Some(expected) = expected {
            if !actual.eq_flat(expected) {
                self.emit_err(TypeCheckerError::TypeShouldBe { found: Some(clone_type(&actual)), expected: clone_type(expected), span });
            }
        }
        actual
    }

    /// Emits an error if the `actual` type is not equal to the `expected` type.
    pub fn assert_type(&mut self, actual: &Option<Type>, expected: &Type, span: Span)
        ensures
            final(self).errors() == old(self).errors() + type_errors(TypeClass::Exactly(*expected), *actual, span),
            final(self).same_but_errors(*old(self)),
    {
        self.check_type(&TypeClass::Exactly(clone_type(expected)), actual, span)
    }

    /// Emits an error if the given type is not a boolean.
    pub fn assert_bool_type(&mut self, type_: &Option<Type>, span: Span)
        ensures
            final(self).errors() == old(self).errors() + type_errors(TypeClass::Boolean, *type_, span),
            final(self).same_but_errors(*old(self)),
    {
        self.check_type(&TypeClass::Boolean, type_, span)
    }

    /// Emits an error if the given type is not a field.
    pub fn assert_field_type(&mut self, type_: &Option<Type>, span: Span)
        ensures
            final(self).errors() == old(self).errors() + type_errors(TypeClass::Field, *type_, span),
            final(self).same_but_errors(*old(self)),
    {
        self.check_type(&TypeClass::Field, type_, span)
    }

    /// Emits an error if the given type is not a group.
    pub fn assert_group_type(&mut self, type_: &Option<Type>, span: Span)
        ensures
            final(self).errors() == old(self).errors() + type_errors(TypeClass::Group, *type_, span),
            final(self).same_but_errors(*old(self)),
    {
        self.check_type(&TypeClass::Group, type_, span)
    }

    /// Emits an error if the given type is not a scalar.
    pub fn assert_scalar_type(&mut self, type_: &Option<Type>, span: Span)
        ensures
            final(self).errors() == old(self).errors() + type_errors(TypeClass::Scalar, *type_, span),
            final(self).same_but_errors(*old(self)),
    {
        self.check_type(&TypeClass::Scalar, type_, span)
    }

    /// Emits an error if the given type is not an integer.
    pub fn assert_int_type(&mut self, type_: &Option<Type>, span: Span)
        ensures
            final(self).errors() == old(self).errors() + type_errors(TypeClass::Int, *type_, span),
            final(self).same_but_errors(*old(self)),
    {
        self.check_type(&TypeClass::Int, type_, span)
    }

    /// Emits an error if the given type is not a signed integer.
    pub fn assert_signed_int_type(&mut self, type_: &Option<Type>, span: Span)
        ensures
            final(self).errors() == old(self).errors() + type_errors(TypeClass::SignedInt, *type_, span),
            final(self).same_but_errors(*old(self)),
    {
        self.check_type(&TypeClass::SignedInt, type_, span)
    }

    /// Emits an error if the given type is not an unsigned integer.
    pub fn assert_unsigned_int_type(&mut self, type_: &Option<Type>, span: Span)
        ensures
            final(self).errors() == old(self).errors() + type_errors(TypeClass::UnsignedInt, *type_, span),
            final(self).same_but_errors(*old(self)),
    {
        self.check_type(&TypeClass::UnsignedInt, type_, span)
    }

    /// Emits an error if the given type is not a magnitude (u8, u16, u32).
    pub fn assert_magnitude_type(&mut self, type_: &Option<Type>, span: Span)
        ensures
            final(self).errors() == old(self).errors() + type_errors(TypeClass::Magnitude, *type_, span),
            final(self).same_but_errors(*old(self)),
    {
        self.check_type(&TypeClass::Magnitude, type_, span)
    }

    /// Emits an error if the given type is not a boolean or an integer.
    pub fn assert_bool_int_type(&mut self, type_: &Option<Type>, span: Span)
        ensures
            final(self).errors() == old(self).errors() + type_errors(TypeClass::BoolInt, *type_, span),
            final(self).same_but_errors(*old(self)),
    {
        self.check_type(&TypeClass::BoolInt, type_, span)
    }

    /// Emits an error if the given type is not a field or integer.
    pub fn assert_field_int_type(&mut self, type_: &Option<Type>, span: Span)
        ensures
            final(self).errors() == old(self).errors() + type_errors(TypeClass::FieldInt, *type_, span),
            final(self).same_but_errors(*old(self)),
    {
        self.check_type(&TypeClass::FieldInt, type_, span)
    }

    /// Emits an error if the given type is not a field or group.
    pub fn assert_field_group_type(&mut self, type_: &Option<Type>, span: Span)
        ensures
            final(self).errors() == old(self).errors() + type_errors(TypeClass::FieldGroup, *type_, span),
            final(self).same_but_errors(*old(self)),
    {
        self.check_type(&TypeClass::FieldGroup, type_, span)
    }

    /// Emits an error if the given type is not a field, group, or integer.
    pub fn assert_field_group_int_type(&mut self, type_: &Option<Type>, span: Span)
        ensures
            final(self).errors() == old(self).errors() + type_errors(TypeClass::FieldGroupInt, *type_, span),
            final(self).same_but_errors(*old(self)),
    {
        self.check_type(&TypeClass::FieldGroupInt, type_, span)
    }

    /// Emits an error if the given type is not a field, group, or signed integer.
    pub fn assert_field_group_signed_int_type(&mut self, type_: &Option<Type>, span: Span)
        ensures
            final(self).errors() == old(self).errors() + type_errors(TypeClass::FieldGroupSignedInt, *type_, span),
            final(self).same_but_errors(*old(self)),
    {
        self.check_type(&TypeClass::FieldGroupSignedInt, type_, span)
    }

    /// Emits an error if the given type is not a field, scalar, or integer.
    pub fn assert_field_scalar_int_type(&mut self, type_: &Option<Type>, span: Span)
        ensures
            final(self).errors() == old(self).errors() + type_errors(TypeClass::FieldScalarInt, *type_, span),
            final(self).same_but_errors(*old(self)),
    {
        self.check_type(&TypeClass::FieldScalarInt, type_, span)
    }

    /// Emits an error if the given type is not a field, group, scalar or integer.
    pub fn assert_field_group_scalar_int_type(&mut self, type_: &Option<Type>, span: Span)
        ensures
            final(self).errors() == old(self).errors() + type_errors(TypeClass::FieldGroupScalarInt, *type_, span),
            final(self).same_but_errors(*old(self)),
    {
        self.check_type(&TypeClass::FieldGroupScalarInt, type_, span)
    }

    /// Emits an error if the struct and method of the call do not name a core function; returns
    /// the function where they do. A type that is not an identifier names no core struct and
    /// gives `None` with no error.
    pub fn get_core_function_call(&mut self, struct_: &Type, function: &Identifier) -> (r: Option<CoreFunction>)
        ensures
            r matches Some(f) ==> (struct_ matches Type::Identifier(ident) && f.symbols() == (ident.name, function.name)),
            r is None && (struct_ matches Type::Identifier(ident)) ==> forall|f: CoreFunction|
                #[trigger] f.symbols() != (struct_->Identifier_0.name, function.name),
            final(self).errors() == old(self).errors() + match *struct_ {
                Type::Identifier(ident) => if r is None {
                    seq![TypeCheckerError::InvalidCoreFunction { struct_name: ident.name, function: function.name, span: ident.span }]
                } else {
                    Seq::empty()
                },
                _ => Seq::<TypeCheckerError>::empty(),
            },
            final(self).same_but_errors(*old(self)),
    {
        if let Type::Identifier(ident) = struct_ {
            match CoreFunction::from_symbols(ident.name, function.name) {
                None => {
                    self.emit_err(TypeCheckerError::InvalidCoreFunction { struct_name: ident.name, function: function.name, span: ident.span });
                },
                Some(core_instruction) => return Some(core_instruction),
            }
        }
        None
    }

    /// Type checks the inputs to a core function call and returns the expected output type.
    /// Emits an error if the correct number of arguments are not provided.
    /// Emits an error if the arguments are not of the correct type.
    pub fn check_core_function_call(
        &mut self,
        core_function: CoreFunction,
        arguments: &[(Option<Type>, Span)],
        function_span: Span,
    ) -> (r: Option<Type>)
        ensures
            r == core_call_type(core_function, arguments@),
            final(self).errors() == old(self).errors() + core_call_errors(old(self).is_finalize, core_function, arguments@, function_span),
            final(self).same_but_errors(*old(self)),
    {
        // Check that the number of arguments is correct.
        if arguments.len() != core_function.num_args() {
            self.emit_err(TypeCheckerError::IncorrectNumArgsToCall {
                expected: core_function.num_args(),
                received: arguments.len(),
                span: function_span,
            });
            return None;
        }

        // Check that the arguments are of the correct type.
        match core_function {
            CoreFunction::MappingGet | CoreFunction::MappingGetOrUse | CoreFunction::MappingSet => {},
            _ => {
                // Check that the first argument is of a type that the function accepts.
                self.check_type(&argument_class(core_function), &arguments[0].0, arguments[0].1);
                if is_commit(core_function) {
                    // Check that the second argument, the randomizer, is a scalar.
                    self.assert_scalar_type(&arguments[1].0, arguments[1].1);
                }
                return Some(output_type(core_function));
            },
        }
        match core_function {
            CoreFunction::MappingGet => {
                // Check that the operation is invoked in a `finalize` block.
                if !self.is_finalize {
                    self.emit_err(TypeCheckerError::InvalidOperationOutsideFinalize { operation: MappingOperation::Get, span: function_span });
                }
                // Check that the first argument is a mapping.
                if let Some(mapping_type) = self.assert_mapping_type(&arguments[0].0, arguments[0].1) {
                    // Check that the second argument matches the key type of the mapping.
                    self.assert_type(&arguments[1].0, &mapping_type.key, arguments[1].1);
                    // Return the value type of the mapping.
                    Some(*mapping_type.value)
                } else {
                    None
                }
            },
            CoreFunction::MappingGetOrUse => {
                if !self.is_finalize {
                    self.emit_err(TypeCheckerError::InvalidOperationOutsideFinalize { operation: MappingOperation::GetOr, span: function_span });
                }
                if let Some(mapping_type) = self.assert_mapping_type(&arguments[0].0, arguments[0].1) {
                    self.assert_type(&arguments[1].0, &mapping_type.key, arguments[1].1);
                    // Check that the third argument matches the value type of the mapping.
                    self.assert_type(&arguments[2].0, &mapping_type.value, arguments[2].1);
                    Some(*mapping_type.value)
                } else {
                    None
                }
            },
            CoreFunction::MappingSet => {
                if !self.is_finalize {
                    self.emit_err(TypeCheckerError::InvalidOperationOutsideFinalize { operation: MappingOperation::SetValue, span: function_span });
                }
                if let Some(mapping_type) = self.assert_mapping_type(&arguments[0].0, arguments[0].1) {
                    self.assert_type(&arguments[1].0, &mapping_type.key, arguments[1].1);
                    self.assert_type(&arguments[2].0, &mapping_type.value, arguments[2].1);
                    Some(Type::Unit)
                } else {
                    None
                }
            },
            _ => None,
        }
    }

    /// Returns the `struct` type and emits an error if the `expected` type does not match.
    pub fn check_expected_struct(&mut self, struct_: Identifier, expected: &Option<Type>, span: Span) -> (t: Type)
        ensures
            t == Type::Identifier(struct_),
            final(self).errors() == old(self).errors() + match *expected {
                Some(e) => if types_eq_flat(Type::Identifier(struct_), e) {
                    Seq::empty()
                } else {
                    seq![TypeCheckerError::TypeShouldBe { found: Some(Type::Identifier(struct_)), expected: e, span }]
                },
                None => Seq::<TypeCheckerError>::empty(),
            },
            final(self).same_but_errors(*old(self)),
    {
        if let Some(expected) = expected {
            if !Type::Identifier(struct_).eq_flat(expected) {
                self.emit_err(TypeCheckerError::TypeShouldBe { found: Some(Type::Identifier(struct_)), expected: clone_type(expected), span });
            }
        }
        Type::Identifier(struct_)
    }

    /// Emits an error if the struct member is a record type.
    pub fn assert_member_is_not_record(&mut self, span: Span, parent: Symbol, type_: &Type)
        ensures
            final(self).errors() == old(self).errors() + record_member_errors(old(self).symbol_table.structs@, span, parent, *type_),
            final(self).same_but_errors(*old(self)),
        decreases type_,
    {
        match type_ {
            Type::Identifier(identifier) => {
                match self.symbol_table.lookup_struct(identifier.name) {
                    Some(s) => {
                        if s.is_record {
                            self.emit_err(TypeCheckerError::StructOrRecordCannotContainRecord { parent, child: identifier.name, span });
                        }
                    },
                    None => {},
                }
            },
            Type::Tuple(tuple_type) => {
                self.assert_members_are_not_records(span, parent, tuple_type);
            },
            _ => {}, // Do nothing.
        }
    }

    /// Emits an error for each type of the list that is a record type.
    fn assert_members_are_not_records(&mut self, span: Span, parent: Symbol, types: &TypeList)
        ensures
            final(self).errors() == old(self).errors() + record_member_list_errors(old(self).symbol_table.structs@, span, parent, *types),
            final(self).same_but_errors(*old(self)),
        decreases types,
    {
        match types {
            TypeList::Nil => {},
            TypeList::Cons(head, tail) => {
                self.assert_member_is_not_record(span, parent, head);
                self.assert_members_are_not_records(span, parent, tail);
                assert(self.errors() =~= old(self).errors() + record_member_list_errors(old(self).symbol_table.structs@, span, parent, *types));
            },
        }
    }

    /// Emits an error if the type or its constituent types are not defined; returns whether they are.
    pub fn assert_type_is_defined(&mut self, type_: &Type, span: Span) -> (b: bool)
        ensures
            final(self).errors() == old(self).errors() + undefined_type_errors(old(self).symbol_table.structs@, *type_, span),
            b == (undefined_type_errors(old(self).symbol_table.structs@, *type_, span).len() == 0),
            final(self).same_but_errors(*old(self)),
        decreases type_,
    {
        let mut is_defined = true;
        match type_ {
            // String types are temporarily disabled.
            Type::String => {
                is_defined = false;
                self.emit_err(TypeCheckerError::StringsAreNotSupported { span });
            },
            // Check that the named composite type has been defined.
            Type::Identifier(identifier) => {
                if self.symbol_table.lookup_struct(identifier.name).is_none() {
                    is_defined = false;
                    self.emit_err(TypeCheckerError::UndefinedType { name: identifier.name, span });
                }
            },
            // Check that the constituent types of the tuple are valid.
            Type::Tuple(tuple_type) => {
                is_defined = self.assert_types_are_defined(tuple_type, span);
            },
            // Check that the constituent types of mapping are valid.
            Type::Mapping(mapping_type) => {
                let k = self.assert_type_is_defined(&mapping_type.key, span);
                let v = self.assert_type_is_defined(&mapping_type.value, span);
                is_defined = k && v;
                assert(self.errors() =~= old(self).errors() + undefined_type_errors(old(self).symbol_table.structs@, *type_, span));
            },
            _ => {}, // Do nothing.
        }
        is_defined
    }

    /// Emits an error for each type of the list that is not defined; returns whether all are.
    fn assert_types_are_defined(&mut self, types: &TypeList, span: Span) -> (b: bool)
        ensures
            final(self).errors() == old(self).errors() + undefined_list_errors(old(self).symbol_table.structs@, *types, span),
            b == (undefined_list_errors(old(self).symbol_table.structs@, *types, span).len() == 0),
            final(self).same_but_errors(*old(self)),
        decreases types,
    {
        match types {
            TypeList::Nil => true,
            TypeList::Cons(head, tail) => {
                let h = self.assert_type_is_defined(head, span);
                let t = self.assert_types_are_defined(tail, span);
                assert(self.errors() =~= old(self).errors() + undefined_list_errors(old(self).symbol_table.structs@, *types, span));
                h && t
            },
        }
    }

    /// Emits an error if the type is not a mapping; returns the mapping type where it is one.
    pub fn assert_mapping_type(&mut self, type_: &Option<Type>, span: Span) -> (r: Option<MappingType>)
        ensures
            final(self).errors() == old(self).errors() + type_errors(TypeClass::Mapping, *type_, span),
            final(self).same_but_errors(*old(self)),
            match *type_ {
                Some(Type::Mapping(m)) => r == Some(m),
                _ => r is None,
            },
    {
        self.check_type(&TypeClass::Mapping, type_, span);
        match type_ {
            Some(Type::Mapping(mapping_type)) => Some(mapping_type.clone()),
            _ => None,
        }
    }

    /// Declares a variable of the given type in the symbol table, or emits the error that the
    /// symbol table reports.
    pub fn insert_variable(&mut self, name: Symbol, type_: Type, span: Span, declaration: VariableType)
        ensures
            final(self).symbol_table.functions@ == old(self).symbol_table.functions@,
            final(self).symbol_table.structs@ == old(self).symbol_table.structs@,
            final(self).call_graph == old(self).call_graph,
            final(self).same_flags(*old(self)),
            match shadowing_error(old(self).symbol_table, name, span) {
                Some(e) => final(self).errors() == old(self).errors().push(e)
                    && final(self).symbol_table.variables@ == old(self).symbol_table.variables@,
                None => final(self).errors() == old(self).errors()
                    && final(self).symbol_table.variables@ == old(self).symbol_table.variables@.push(
                        (name, VariableSymbol { type_, span, declaration }),
                    ),
            },
    {
        match self.symbol_table.insert_variable(name, VariableSymbol { type_, span, declaration }) {
            Err(err) => self.emit_err(err),
            Ok(()) => {},
        }
    }
}


/// Returns the class of types that a hash or commitment function accepts as its first argument.
pub fn argument_class(f: CoreFunction) -> (c: TypeClass)
    ensures
        c == core_argument_class(f),
{
    match f {
        CoreFunction::Pedersen64CommitToAddress
        | CoreFunction::Pedersen64CommitToField
        | CoreFunction::Pedersen64CommitToGroup
        | CoreFunction::Pedersen64HashToAddress
        | CoreFunction::Pedersen64HashToField
        | CoreFunction::Pedersen64HashToGroup
        | CoreFunction::Pedersen64HashToScalar => TypeClass::Pedersen64Input,
        CoreFunction::Pedersen128CommitToAddress
        | CoreFunction::Pedersen128CommitToField
        | CoreFunction::Pedersen128CommitToGroup
        | CoreFunction::Pedersen128HashToAddress
        | CoreFunction::Pedersen128HashToField
        | CoreFunction::Pedersen128HashToGroup
        | CoreFunction::Pedersen128HashToScalar => TypeClass::Pedersen128Input,
        _ => TypeClass::NotMappingTupleErrUnit,
    }
}

/// Returns whether the function is a commitment.
pub fn is_commit(f: CoreFunction) -> (b: bool)
    ensures
        b == f.is_commit(),
{
    match f {
        CoreFunction::BHP256CommitToAddress
        | CoreFunction::BHP256CommitToField
        | CoreFunction::BHP256CommitToGroup
        | CoreFunction::BHP512CommitToAddress
        | CoreFunction::BHP512CommitToField
        | CoreFunction::BHP512CommitToGroup
        | CoreFunction::BHP768CommitToAddress
        | CoreFunction::BHP768CommitToField
        | CoreFunction::BHP768CommitToGroup
        | CoreFunction::BHP1024CommitToAddress
        | CoreFunction::BHP1024CommitToField
        | CoreFunction::BHP1024CommitToGroup
        | CoreFunction::Pedersen64CommitToAddress
        | CoreFunction::Pedersen64CommitToField
        | CoreFunction::Pedersen64CommitToGroup
        | CoreFunction::Pedersen128CommitToAddress
        | CoreFunction::Pedersen128CommitToField
        | CoreFunction::Pedersen128CommitToGroup => true,
        _ => false,
    }
}

/// Returns the type of the value that a hash or commitment function returns.
pub fn output_type(f: CoreFunction) -> (t: Type)
    ensures
        t == core_output_type(f),
{
    match f {
        CoreFunction::BHP256CommitToAddress
        | CoreFunction::BHP256HashToAddress
        | CoreFunction::BHP512CommitToAddress
        | CoreFunction::BHP512HashToAddress
        | CoreFunction::BHP768CommitToAddress
        | CoreFunction::BHP768HashToAddress
        | CoreFunction::BHP1024CommitToAddress
        | CoreFunction::BHP1024HashToAddress
        | CoreFunction::Pedersen64CommitToAddress
        | CoreFunction::Pedersen64HashToAddress
        | CoreFunction::Pedersen128CommitToAddress
        | CoreFunction::Pedersen128HashToAddress
        | CoreFunction::Poseidon2HashToAddress
        | CoreFunction::Poseidon4HashToAddress
        | CoreFunction::Poseidon8HashToAddress => Type::Address,
        CoreFunction::BHP256CommitToField
        | CoreFunction::BHP256HashToField
        | CoreFunction::BHP512CommitToField
        | CoreFunction::BHP512HashToField
        | CoreFunction::BHP768CommitToField
        | CoreFunction::BHP768HashToField
        | CoreFunction::BHP1024CommitToField
        | CoreFunction::BHP1024HashToField
        | CoreFunction::Pedersen64CommitToField
        | CoreFunction::Pedersen64HashToField
        | CoreFunction::Pedersen128CommitToField
        | CoreFunction::Pedersen128HashToField
        | CoreFunction::Poseidon2HashToField
        | CoreFunction::Poseidon4HashToField
        | CoreFunction::Poseidon8HashToField => Type::Field,
        CoreFunction::BHP256CommitToGroup
        | CoreFunction::BHP256HashToGroup
        | CoreFunction::BHP512CommitToGroup
        | CoreFunction::BHP512HashToGroup
        | CoreFunction::BHP768CommitToGroup
        | CoreFunction::BHP768HashToGroup
        | CoreFunction::BHP1024CommitToGroup
        | CoreFunction::BHP1024HashToGroup
        | CoreFunction::Pedersen64CommitToGroup
        | CoreFunction::Pedersen64HashToGroup
        | CoreFunction::Pedersen128CommitToGroup
        | CoreFunction::Pedersen128HashToGroup
        | CoreFunction::Poseidon2HashToGroup
        | CoreFunction::Poseidon4HashToGroup
        | CoreFunction::Poseidon8HashToGroup => Type::Group,
        CoreFunction::BHP256HashToI8 => Type::Integer(IntegerType::I8),
        CoreFunction::BHP256HashToI16 => Type::Integer(IntegerType::I16),
        CoreFunction::BHP256HashToI32 => Type::Integer(IntegerType::I32),
        CoreFunction::BHP256HashToI64 => Type::Integer(IntegerType::I64),
        CoreFunction::BHP256HashToI128 => Type::Integer(IntegerType::I128),
        CoreFunction::BHP256HashToU8 => Type::Integer(IntegerType::U8),
        CoreFunction::BHP256HashToU16 => Type::Integer(IntegerType::U16),
        CoreFunction::BHP256HashToU32 => Type::Integer(IntegerType::U32),
        CoreFunction::BHP256HashToU64 => Type::Integer(IntegerType::U64),
        CoreFunction::BHP256HashToU128 => Type::Integer(IntegerType::U128),
        CoreFunction::BHP256HashToScalar
        | CoreFunction::BHP512HashToScalar
        | CoreFunction::BHP768HashToScalar
        | CoreFunction::BHP1024HashToScalar
        | CoreFunction::Pedersen64HashToScalar
        | CoreFunction::Pedersen128HashToScalar
        | CoreFunction::Poseidon2HashToScalar
        | CoreFunction::Poseidon4HashToScalar
        | CoreFunction::Poseidon8HashToScalar => Type::Scalar,
        _ => Type::Unit,
    }
}

/// Returns whether the class admits the type.
pub fn class_admits(class: &TypeClass, t: &Type) -> (b: bool)
    ensures
        b == admits(*class, *t),
{
    let integer = match t { Type::Integer(_) => true, _ => false };
    let signed = match t {
        Type::Integer(i) => match i {
            IntegerType::I8 | IntegerType::I16 | IntegerType::I32 | IntegerType::I64 | IntegerType::I128 => true,
            _ => false,
        },
        _ => false,
    };
    let field = match t { Type::Field => true, _ => false };
    let group = match t { Type::Group => true, _ => false };
    let scalar = match t { Type::Scalar => true, _ => false };
    let boolean = match t { Type::Boolean => true, _ => false };
    let mapping_tuple_err_unit = match t {
        Type::Mapping(_) | Type::Tuple(_) | Type::Errored | Type::Unit => true,
        _ => false,
    };
    let wide64 = match t {
        Type::Integer(IntegerType::U64) | Type::Integer(IntegerType::I64) | Type::Integer(IntegerType::U128)
        | Type::Integer(IntegerType::I128) => true,
        _ => false,
    };
    let wide128 = match t {
        Type::Integer(IntegerType::U128) | Type::Integer(IntegerType::I128) => true,
        _ => false,
    };
    match class {
        TypeClass::Exactly(e) => t.eq_flat(e),
        TypeClass::Boolean => boolean,
        TypeClass::Field => field,
        TypeClass::Group => group,
        TypeClass::Scalar => scalar,
        TypeClass::Int => integer,
        TypeClass::SignedInt => signed,
        TypeClass::UnsignedInt => integer && !signed,
        TypeClass::Magnitude => match t {
            Type::Integer(IntegerType::U8) | Type::Integer(IntegerType::U16) | Type::Integer(IntegerType::U32) => true,
            _ => false,
        },
        TypeClass::BoolInt => boolean || integer,
        TypeClass::FieldInt => field || integer,
        TypeClass::FieldGroup => field || group,
        TypeClass::FieldGroupInt => field || group || integer,
        TypeClass::FieldGroupSignedInt => field || group || signed,
        TypeClass::FieldScalarInt => field || scalar || integer,
        TypeClass::FieldGroupScalarInt => field || group || scalar || integer,
        TypeClass::NotMappingTupleErrUnit => !mapping_tuple_err_unit,
        TypeClass::Pedersen64Input => !mapping_tuple_err_unit && !wide64,
        TypeClass::Pedersen128Input => !mapping_tuple_err_unit && !wide128,
        TypeClass::Mapping => match t { Type::Mapping(_) => true, _ => false },
    }
}

/// Returns how an error describes the types that the class admits.
pub fn describe(class: &TypeClass) -> (e: ExpectedTypes)
    ensures
        e == description(*class),
{
    match class {
        TypeClass::Exactly(t) => ExpectedTypes::Exactly(clone_type(t)),
        TypeClass::Boolean => ExpectedTypes::Boolean,
        TypeClass::Field => ExpectedTypes::Field,
        TypeClass::Group => ExpectedTypes::Group,
        TypeClass::Scalar => ExpectedTypes::Scalar,
        TypeClass::Int => ExpectedTypes::Int,
        TypeClass::SignedInt => ExpectedTypes::SignedInt,
        TypeClass::UnsignedInt => ExpectedTypes::UnsignedInt,
        TypeClass::Magnitude => ExpectedTypes::Magnitude,
        TypeClass::BoolInt => ExpectedTypes::BoolInt,
        TypeClass::FieldInt => ExpectedTypes::FieldInt,
        TypeClass::FieldGroup => ExpectedTypes::FieldGroup,
        TypeClass::FieldGroupInt => ExpectedTypes::FieldGroupInt,
        TypeClass::FieldGroupSignedInt => ExpectedTypes::FieldGroupSignedInt,
        TypeClass::FieldScalarInt => ExpectedTypes::FieldScalarInt,
        TypeClass::FieldGroupScalarInt => ExpectedTypes::FieldGroupScalarInt,
        TypeClass::NotMappingTupleErrUnit | TypeClass::Pedersen64Input | TypeClass::Pedersen128Input => ExpectedTypes::CoreArgument,
        TypeClass::Mapping => ExpectedTypes::Mapping,
    }
}

} // verus!
