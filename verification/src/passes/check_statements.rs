//! The type rules of definition and assignment statements: the checks of the declared type,
//! the declaration of the variables that a definition binds, and the targets of assignments.

use vstd::prelude::*;

use crate::ast::statement::{
    CheckedExpression, DecrementStatement, IncrementStatement,
    AssertStatement, AssertVariant, AssignPlace, AssignStatement, DeclarationType, DefinitionPlace, DefinitionStatement,
    ExpressionStatement, PlaceElement, ReturnStatement,
};
use crate::ast::types::{clone_type, Identifier, Mode, Type, TypeList};
use crate::passes::errors::{clone_error, ExpectedTypes, TypeCheckerError};
use crate::passes::symbol_table::{
    find_function, function_names, shadow_error, FunctionSymbol, StructSymbol, VariableSymbol, VariableType,
};
use crate::passes::type_checker::{eq_types_errors, type_errors, undefined_type_errors, TypeChecker, TypeClass};
use crate::span::{Span, Symbol};

verus! {

/// The variables in scope and the errors reported so far.
pub type CheckState = (Seq<(Symbol, VariableSymbol)>, Seq<TypeCheckerError>);

/// How the variables of a definition are declared: `const` ones as constants, the others as
/// mutable variables.
pub open spec fn declaration_of(d: DeclarationType) -> VariableType {
    match d {
        DeclarationType::Const => VariableType::Const,
        DeclarationType::Let => VariableType::Mut,
    }
}

/// Whether a type of the list is a tuple.
pub open spec fn holds_tuple(types: Seq<Type>) -> bool {
    exists|i: int| 0 <= i < types.len() && (#[trigger] types[i]) is Tuple
}

/// The errors that the shape of the declared type reports: the unit type cannot be bound, and a
/// tuple cannot hold a tuple.
pub open spec fn shape_errors(t: Type, span: Span) -> Seq<TypeCheckerError> {
    match t {
        Type::Unit => seq![TypeCheckerError::LhsMustBeIdentifierOrTuple { span }],
        Type::Tuple(l) => if holds_tuple(l.seq()) {
            seq![TypeCheckerError::NestedTupleType { span }]
        } else {
            Seq::empty()
        },
        _ => Seq::empty(),
    }
}

/// The state after declaring a variable: declared, or refused with the error that its name
/// reports.
pub open spec fn declare(
    functions: Seq<Symbol>,
    structs: Seq<StructSymbol>,
    state: CheckState,
    name: Symbol,
    type_: Type,
    span: Span,
    declaration: VariableType,
) -> CheckState {
    match shadow_error(functions, structs, state.0, name, span) {
        Some(e) => (state.0, state.1.push(e)),
        None => (state.0.push((name, VariableSymbol { type_, span, declaration })), state.1),
    }
}

/// The state after binding each element of a tuple, in order, to the type at its position: an
/// identifier is declared, another element is refused.
pub open spec fn bind_elements(
    functions: Seq<Symbol>,
    structs: Seq<StructSymbol>,
    state: CheckState,
    elements: Seq<PlaceElement>,
    types: Seq<Type>,
    declaration: VariableType,
) -> CheckState
    decreases elements.len(),
{
    if elements.len() == 0 || types.len() == 0 {
        state
    } else {
        let next = match elements[0] {
            PlaceElement::Identifier(id) => declare(functions, structs, state, id.name, types[0], id.span, declaration),
            PlaceElement::Other(span) => (state.0, state.1.push(TypeCheckerError::LhsTupleElementMustBeAnIdentifier { span })),
        };
        bind_elements(functions, structs, next, elements.drop_first(), types.drop_first(), declaration)
    }
}

/// The state after binding the place of a definition to the declared type.
pub open spec fn bind_place(
    functions: Seq<Symbol>,
    structs: Seq<StructSymbol>,
    state: CheckState,
    place: DefinitionPlace,
    t: Type,
    declaration: VariableType,
) -> CheckState {
    match place {
        DefinitionPlace::Identifier(id) => declare(functions, structs, state, id.name, t, id.span, declaration),
        DefinitionPlace::Tuple(elements) => match t {
            Type::Tuple(l) => bind_elements(functions, structs, state, elements@, l.seq(), declaration),
            _ => state,
        },
        DefinitionPlace::Other(span) => (state.0, state.1.push(TypeCheckerError::LhsMustBeIdentifierOrTuple { span })),
    }
}

/// The first variable of the sequence with the name, if any.
pub open spec fn find_variable(variables: Seq<(Symbol, VariableSymbol)>, name: Symbol) -> Option<VariableSymbol>
    decreases variables.len(),
{
    if variables.len() == 0 {
        None
    } else if variables[0].0 == name {
        Some(variables[0].1)
    } else {
        find_variable(variables.drop_first(), name)
    }
}

/// The errors that an assignment reports: the place must be a variable in scope that is neither
/// a constant nor a constant input; the value is checked only where the variable is in scope.
pub open spec fn assign_errors(variables: Seq<(Symbol, VariableSymbol)>, input: AssignStatement) -> Seq<TypeCheckerError> {
    match input.place {
        AssignPlace::Other(span) => seq![TypeCheckerError::InvalidAssignmentTarget { span }],
        AssignPlace::Identifier(id) => match find_variable(variables, id.name) {
            None => seq![TypeCheckerError::UnknownVariable { name: id.name, span: id.span }],
            Some(v) => {
                let declared = match v.declaration {
                    VariableType::Const => seq![TypeCheckerError::CannotAssignToConstVar { variable: id, span: v.span }],
                    VariableType::Input(Mode::Constant) => seq![TypeCheckerError::CannotAssignToConstInput { variable: id, span: v.span }],
                    _ => Seq::empty(),
                };
                declared + input.value.errors@
            },
        },
    }
}

/// The errors of a returned tuple: one for each element that is a tuple.
pub open spec fn nested_tuple_errors(elements: Seq<(bool, Span)>) -> Seq<TypeCheckerError>
    decreases elements.len(),
{
    if elements.len() == 0 {
        Seq::empty()
    } else {
        (if elements[0].0 { seq![TypeCheckerError::NestedTupleExpression { span: elements[0].1 }] } else { Seq::empty() })
            + nested_tuple_errors(elements.drop_first())
    }
}

/// The errors of the checks of the first `n` expressions, in order.
pub open spec fn checks_errors(expressions: Seq<CheckedExpression>, n: int) -> Seq<TypeCheckerError>
    decreases n,
{
    if n <= 0 || expressions.len() == 0 {
        Seq::empty()
    } else {
        expressions[0].errors@ + checks_errors(expressions.drop_first(), n - 1)
    }
}

/// The errors of the arguments that a return statement passes to the finalize block: inside a
/// finalize block no arguments can be passed; the function must have a finalize block, whose
/// number of inputs the arguments must have; the arguments are checked against the inputs, as
/// far as both go.
pub open spec fn finalize_errors(is_finalize: bool, finalize_inputs: Option<usize>, arguments: Seq<CheckedExpression>, span: Span) -> Seq<TypeCheckerError> {
    (if is_finalize { seq![TypeCheckerError::FinalizeInFinalize { span }] } else { Seq::empty() })
        + match finalize_inputs {
            None => seq![TypeCheckerError::FinalizeWithoutFinalizeBlock { span }],
            Some(n) => (if n != arguments.len() {
                seq![TypeCheckerError::IncorrectNumArgsToFinalize { expected: n, received: arguments.len() as usize, span }]
            } else {
                Seq::empty()
            }) + checks_errors(arguments, n as int),
        }
}

/// What the check of a return statement reads of the function being checked: its name, the
/// functions in scope, and whether the check is inside a finalize block.
pub type ReturnFrame = (Option<Symbol>, Seq<FunctionSymbol>, bool);

/// The number of inputs of the finalize block of the function being checked, where the function
/// is in scope and has one.
pub open spec fn frame_finalize(f: ReturnFrame) -> Option<usize> {
    match f.0 {
        Some(name) => match find_function(f.1, name) {
            Some(s) => s.finalize,
            None => None,
        },
        None => None,
    }
}

/// Whether the return statement can be checked: it stands in a function; inside a finalize
/// block, that function, where it is in scope, has a finalize block; where the statement passes
/// arguments to a finalize block, the function is in scope.
pub open spec fn return_checkable(f: ReturnFrame, r: ReturnStatement) -> bool {
    &&& f.0 is Some
    &&& (f.2 && find_function(f.1, f.0.unwrap()) is Some) ==> find_function(f.1, f.0.unwrap()).unwrap().finalize is Some
    &&& r.finalize_arguments is Some ==> find_function(f.1, f.0.unwrap()) is Some
}

/// The errors of a return statement, whose function has a finalize block with the given number
/// of inputs, if it has one.
pub open spec fn return_errors(is_finalize: bool, finalize_inputs: Option<usize>, input: ReturnStatement) -> Seq<TypeCheckerError> {
    (match input.tuple_elements {
        Some(elements) => nested_tuple_errors(elements@),
        None => Seq::empty(),
    }) + input.expression.errors@ + match input.finalize_arguments {
        Some(arguments) => finalize_errors(is_finalize, finalize_inputs, arguments@, input.span),
        None => Seq::empty(),
    }
}

/// The errors of an increment or decrement of a value in a mapping: it must stand in a finalize
/// block; the mapping must be a mapping; the index must have the key type, and the amount the
/// value type, which must be a field, group, scalar or integer.
pub open spec fn update_errors(
    is_finalize: bool,
    mapping: Identifier,
    mapping_check: CheckedExpression,
    index: CheckedExpression,
    amount: CheckedExpression,
    span: Span,
) -> Seq<TypeCheckerError> {
    (if is_finalize { Seq::empty() } else { seq![TypeCheckerError::IncrementOrDecrementOutsideFinalize { span }] })
        + mapping_check.errors@ + type_errors(TypeClass::Mapping, mapping_check.type_, span)
        + match mapping_check.type_ {
            None => seq![TypeCheckerError::CouldNotDetermineType { name: mapping, span: mapping.span }],
            Some(Type::Mapping(m)) => index.errors@ + type_errors(TypeClass::Exactly(*m.key), index.type_, index.span)
                + amount.errors@ + type_errors(TypeClass::Exactly(*m.value), amount.type_, amount.span)
                + type_errors(TypeClass::FieldGroupScalarInt, amount.type_, amount.span),
            Some(t) => seq![TypeCheckerError::ExpectedOneTypeOf { expected: ExpectedTypes::Mapping, found: t, span: mapping.span }],
        }
}

/// Returns whether a type of the list is a tuple.
fn has_tuple(l: &TypeList) -> (b: bool)
    ensures
        b == holds_tuple(l.seq()),
    decreases l,
{
    match l {
        TypeList::Nil => false,
        TypeList::Cons(h, t) => {
            let inner = has_tuple(t);
            proof {
                assert(l.seq() == seq![**h] + t.seq());
                if inner {
                    let i = choose|i: int| 0 <= i < t.seq().len() && (#[trigger] t.seq()[i]) is Tuple;
                    assert(l.seq()[i + 1] == t.seq()[i]);
                }
                if holds_tuple(l.seq()) && !(**h is Tuple) {
                    let i = choose|i: int| 0 <= i < l.seq().len() && (#[trigger] l.seq()[i]) is Tuple;
                    assert(i > 0);
                    assert(t.seq()[i - 1] == l.seq()[i]);
                }
            }
            match **h {
                Type::Tuple(_) => {
                    assert(l.seq()[0] is Tuple);
                    true
                },
                _ => inner,
            }
        },
    }
}

impl TypeChecker {
    /// Emits the errors, in order.
    pub fn emit_errs(&mut self, errors: &Vec<TypeCheckerError>)
        ensures
            final(self).errors() == old(self).errors() + errors@,
            final(self).same_but_errors(*old(self)),
    {
        let mut i: usize = 0;
        assert(self.errors() =~= old(self).errors() + errors@.subrange(0, 0));
        while i < errors.len()
            invariant
                i <= errors@.len(),
                self.errors() == old(self).errors() + errors@.subrange(0, i as int),
                self.same_but_errors(*old(self)),
            decreases errors@.len() - i,
        {
            self.emit_err(clone_error(&errors[i]));
            i = i + 1;
            assert(self.errors() =~= old(self).errors() + errors@.subrange(0, i as int));
        }
        assert(errors@.subrange(0, i as int) =~= errors@);
    }

    /// The variables in scope and the errors reported so far.
    pub open spec fn check_state(self) -> CheckState {
        (self.symbol_table.variables@, self.errors())
    }

    /// Declares the variable, unless its name is taken, which is reported.
    fn declare_variable(&mut self, name: Symbol, type_: Type, span: Span, declaration: VariableType)
        ensures
            final(self).check_state() == declare(function_names(old(self).symbol_table.functions@), old(self).symbol_table.structs@, old(self).check_state(), name, type_, span, declaration),
            final(self).symbol_table.functions@ == old(self).symbol_table.functions@,
            final(self).symbol_table.structs@ == old(self).symbol_table.structs@,
            final(self).call_graph == old(self).call_graph,
            final(self).same_flags(*old(self)),
    {
        self.insert_variable(name, type_, span, declaration);
    }

    /// Type checks a definition statement: the declared type must be defined, must not be the
    /// unit type and must not nest tuples; the errors of the value follow; then the place is
    /// bound to the type, an identifier declared, a tuple's identifiers declared with the types
    /// at their positions.
    pub fn visit_definition(&mut self, input: &DefinitionStatement)
        requires
            !(input.type_ is Mapping),
            !(input.type_ is Errored),
            input.type_ matches Type::Tuple(l) ==> l.seq().len() >= 2,
            input.place matches DefinitionPlace::Tuple(elements)
                ==> (input.type_ matches Type::Tuple(l) && l.seq().len() == elements@.len()),
        ensures
            ({
                let errors = old(self).errors() + undefined_type_errors(old(self).symbol_table.structs@, input.type_, input.span)
                    + shape_errors(input.type_, input.span) + input.value.errors@;
                final(self).check_state() == bind_place(
                    function_names(old(self).symbol_table.functions@),
                    old(self).symbol_table.structs@,
                    (old(self).symbol_table.variables@, errors),
                    input.place,
                    input.type_,
                    declaration_of(input.declaration_type),
                )
            }),
            final(self).symbol_table.functions@ == old(self).symbol_table.functions@,
            final(self).symbol_table.structs@ == old(self).symbol_table.structs@,
            final(self).call_graph == old(self).call_graph,
            final(self).same_flags(*old(self)),
    {
        let span = input.span;
        let type_ = &input.type_;
        let place = &input.place;
        let value = &input.value;
        let declaration = match input.declaration_type {
            DeclarationType::Const => VariableType::Const,
            DeclarationType::Let => VariableType::Mut,
        };
        let ghost functions = function_names(self.symbol_table.functions@);
        let ghost structs = self.symbol_table.structs@;

        // Check that the type of the definition is defined.
        self.assert_type_is_defined(type_, span);

        // Check that the type of the definition is not a unit type or a nested tuple type.
        match type_ {
            Type::Unit => self.emit_err(TypeCheckerError::LhsMustBeIdentifierOrTuple { span: span }),
            Type::Tuple(tuple) => {
                if has_tuple(tuple) {
                    self.emit_err(TypeCheckerError::NestedTupleType { span: span });
                }
            },
            _ => {},
        }
        let ghost shaped = self.errors();
        assert(shaped =~= old(self).errors() + undefined_type_errors(structs, *type_, span)
            + shape_errors(*type_, span));

        // The errors of the value.
        let ghost all_value_errors = value.errors@;
        self.emit_errs(&value.errors);
        assert(self.errors() == old(self).errors() + undefined_type_errors(structs, *type_, span)
            + shape_errors(*type_, span) + all_value_errors);

        // Declare the variables.
        match place {
            DefinitionPlace::Identifier(identifier) => {
                self.declare_variable(identifier.name, clone_type(type_), identifier.span, declaration);
            },
            DefinitionPlace::Tuple(elements) => {
                let tuple_type = match type_ {
                    Type::Tuple(tuple_type) => tuple_type,
                    _ => {
                        assert(false);
                        return;
                    },
                };
                let mut types = tuple_type;
                let mut i: usize = 0;
                assert(elements@.subrange(0, elements@.len() as int) =~= elements@);
                while i < elements.len()
                    invariant
                        i <= elements@.len(),
                        types.seq().len() == elements@.len() - i,
                        types.seq() == tuple_type.seq().subrange(i as int, tuple_type.seq().len() as int),
                        tuple_type.seq().len() == elements@.len(),
                        self.symbol_table.functions@ == old(self).symbol_table.functions@,
                        function_names(self.symbol_table.functions@) == functions,
                        self.symbol_table.structs@ == structs,
                        self.call_graph == old(self).call_graph,
                        self.same_flags(*old(self)),
                        bind_elements(functions, structs, self.check_state(), elements@.subrange(i as int, elements@.len() as int), types.seq(), declaration)
                            == bind_elements(functions, structs, (old(self).symbol_table.variables@, shaped + all_value_errors), elements@, tuple_type.seq(), declaration),
                    decreases elements@.len() - i,
                {
                    match types {
                        TypeList::Cons(type_, rest) => {
                            let ghost rest_elements = elements@.subrange(i as int, elements@.len() as int);
                            assert(rest_elements[0] == elements@[i as int]);
                            assert(rest_elements.drop_first() =~= elements@.subrange(i + 1, elements@.len() as int));
                            assert(types.seq()[0] == **type_);
                            assert(types.seq().drop_first() =~= rest.seq());
                            match elements[i] {
                                PlaceElement::Identifier(identifier) => {
                                    self.declare_variable(identifier.name, clone_type(type_), identifier.span, declaration);
                                },
                                PlaceElement::Other(element_span) => {
                                    self.emit_err(TypeCheckerError::LhsTupleElementMustBeAnIdentifier { span: element_span });
                                },
                            }
                            types = rest;
                            i = i + 1;
                            assert(types.seq() =~= tuple_type.seq().subrange(i as int, tuple_type.seq().len() as int));
                        },
                        TypeList::Nil => {
                            assert(false);
                            return;
                        },
                    }
                }
                assert(elements@.subrange(i as int, elements@.len() as int).len() == 0);
            },
            DefinitionPlace::Other(other_span) => {
                self.emit_err(TypeCheckerError::LhsMustBeIdentifierOrTuple { span: *other_span });
            },
        }
    }

    /// Returns how the first variable with the name was declared and where, if it is in scope.
    fn lookup_variable(&self, name: Symbol) -> (r: Option<(VariableType, Span)>)
        ensures
            r == (match find_variable(self.symbol_table.variables@, name) {
                Some(v) => Some((v.declaration, v.span)),
                None => None,
            }),
    {
        let mut i: usize = 0;
        assert(self.symbol_table.variables@.subrange(0, self.symbol_table.variables@.len() as int) =~= self.symbol_table.variables@);
        while i < self.symbol_table.variables.len()
            invariant
                i <= self.symbol_table.variables@.len(),
                find_variable(self.symbol_table.variables@, name)
                    == find_variable(self.symbol_table.variables@.subrange(i as int, self.symbol_table.variables@.len() as int), name),
            decreases self.symbol_table.variables@.len() - i,
        {
            let ghost rest = self.symbol_table.variables@.subrange(i as int, self.symbol_table.variables@.len() as int);
            assert(rest[0] == self.symbol_table.variables@[i as int]);
            assert(rest.drop_first() =~= self.symbol_table.variables@.subrange(i + 1, self.symbol_table.variables@.len() as int));
            if self.symbol_table.variables[i].0 == name {
                return Some((self.symbol_table.variables[i].1.declaration, self.symbol_table.variables[i].1.span));
            }
            i = i + 1;
        }
        assert(self.symbol_table.variables@.subrange(i as int, self.symbol_table.variables@.len() as int).len() == 0);
        None
    }

    /// Type checks an assignment statement.
    pub fn visit_assign(&mut self, input: &AssignStatement)
        ensures
            final(self).errors() == old(self).errors() + assign_errors(old(self).symbol_table.variables@, *input),
            final(self).same_but_errors(*old(self)),
    {
        let var_name = match input.place {
            AssignPlace::Identifier(id) => id,
            AssignPlace::Other(span) => {
                self.emit_err(TypeCheckerError::InvalidAssignmentTarget { span });
                assert(self.errors() =~= old(self).errors() + assign_errors(old(self).symbol_table.variables@, *input));
                return;
            },
        };
        match self.lookup_variable(var_name.name) {
            Some((declaration, span)) => {
                match declaration {
                    VariableType::Const => self.emit_err(TypeCheckerError::CannotAssignToConstVar { variable: var_name, span }),
                    VariableType::Input(Mode::Constant) => self.emit_err(TypeCheckerError::CannotAssignToConstInput { variable: var_name, span }),
                    _ => {},
                }
                self.emit_errs(&input.value.errors);
                assert(self.errors() =~= old(self).errors() + assign_errors(old(self).symbol_table.variables@, *input));
            },
            None => {
                self.emit_err(TypeCheckerError::UnknownVariable { name: var_name.name, span: var_name.span });
                assert(self.errors() =~= old(self).errors() + assign_errors(old(self).symbol_table.variables@, *input));
            },
        }
    }

    /// Type checks an assertion: the asserted expression must be a boolean; the two sides of an
    /// equality or inequality must have equal types. The errors of the expressions' checks come
    /// first, in order.
    pub fn visit_assert(&mut self, input: &AssertStatement)
        ensures
            final(self).errors() == old(self).errors() + match input.variant {
                AssertVariant::Assert(e) => e.errors@ + type_errors(TypeClass::Boolean, e.type_, e.span),
                AssertVariant::AssertEq(l, r) => l.errors@ + r.errors@ + eq_types_errors(l.type_, r.type_, input.span),
                AssertVariant::AssertNeq(l, r) => l.errors@ + r.errors@ + eq_types_errors(l.type_, r.type_, input.span),
            },
            final(self).same_but_errors(*old(self)),
    {
        match &input.variant {
            AssertVariant::Assert(expression) => {
                self.emit_errs(&expression.errors);
                self.assert_bool_type(&expression.type_, expression.span);
            },
            AssertVariant::AssertEq(left, right) | AssertVariant::AssertNeq(left, right) => {
                self.emit_errs(&left.errors);
                self.emit_errs(&right.errors);
                self.check_eq_types(&left.type_, &right.type_, input.span);
            },
        }
    }

    /// Type checks an expression statement: its expression must be a call, whose check is then
    /// kept.
    pub fn visit_expression_statement(&mut self, input: &ExpressionStatement)
        ensures
            final(self).errors() == old(self).errors() + if input.is_call {
                input.expression.errors@
            } else {
                seq![TypeCheckerError::ExpressionStatementMustBeFunctionCall { span: input.span }]
            },
            final(self).same_but_errors(*old(self)),
    {
        if !input.is_call {
            self.emit_err(TypeCheckerError::ExpressionStatementMustBeFunctionCall { span: input.span });
            assert(self.errors() =~= old(self).errors() + seq![TypeCheckerError::ExpressionStatementMustBeFunctionCall { span: input.span }]);
        } else {
            self.emit_errs(&input.expression.errors);
        }
    }

    /// Reports each element of a returned tuple that is itself a tuple.
    fn check_nested_tuples(&mut self, elements: &Vec<(bool, Span)>)
        ensures
            final(self).errors() == old(self).errors() + nested_tuple_errors(elements@),
            final(self).same_but_errors(*old(self)),
    {
        let mut i: usize = 0;
        assert(elements@.subrange(0, elements@.len() as int) =~= elements@);
        while i < elements.len()
            invariant
                i <= elements@.len(),
                self.errors() + nested_tuple_errors(elements@.subrange(i as int, elements@.len() as int))
                    == old(self).errors() + nested_tuple_errors(elements@),
                self.same_but_errors(*old(self)),
            decreases elements@.len() - i,
        {
            let ghost rest = elements@.subrange(i as int, elements@.len() as int);
            assert(rest[0] == elements@[i as int]);
            assert(rest.drop_first() =~= elements@.subrange(i + 1, elements@.len() as int));
            let ghost before = self.errors();
            if elements[i].0 {
                self.emit_err(TypeCheckerError::NestedTupleExpression { span: elements[i].1 });
                assert(self.errors() + nested_tuple_errors(rest.drop_first()) =~= before + nested_tuple_errors(rest));
            } else {
                assert(nested_tuple_errors(rest) =~= nested_tuple_errors(rest.drop_first()));
            }
            i = i + 1;
        }
        assert(nested_tuple_errors(elements@.subrange(i as int, elements@.len() as int)) =~= Seq::<TypeCheckerError>::empty());
        assert(self.errors() =~= old(self).errors() + nested_tuple_errors(elements@));
    }

    /// Checks the arguments passed to a finalize block of `n` inputs: their number, and each
    /// argument against its input, as far as both go.
    fn check_finalize_arguments(&mut self, arguments: &Vec<CheckedExpression>, n: usize, span: Span)
        ensures
            final(self).errors() == old(self).errors() + (if n != arguments@.len() {
                seq![TypeCheckerError::IncorrectNumArgsToFinalize { expected: n, received: arguments@.len() as usize, span }]
            } else {
                Seq::empty()
            }) + checks_errors(arguments@, n as int),
            final(self).same_but_errors(*old(self)),
    {
        if n != arguments.len() {
            self.emit_err(TypeCheckerError::IncorrectNumArgsToFinalize { expected: n, received: arguments.len(), span });
        }
        let ghost counted = self.errors();
        let ghost all = arguments@;
        let mut k: usize = 0;
        assert(all.subrange(0, all.len() as int) =~= all);
        while k < n && k < arguments.len()
            invariant
                k <= n,
                k <= all.len(),
                all == arguments@,
                self.errors() + checks_errors(all.subrange(k as int, all.len() as int), n - k) == counted + checks_errors(all, n as int),
                self.same_but_errors(*old(self)),
            decreases n - k,
        {
            let ghost rest = all.subrange(k as int, all.len() as int);
            assert(rest[0] == all[k as int]);
            assert(rest.drop_first() =~= all.subrange(k + 1, all.len() as int));
            let ghost before = self.errors();
            self.emit_errs(&arguments[k].errors);
            assert(self.errors() + checks_errors(all.subrange(k + 1, all.len() as int), n - (k + 1)) =~= before + checks_errors(rest, n - k));
            k = k + 1;
        }
        assert(checks_errors(all.subrange(k as int, all.len() as int), n - k) =~= Seq::<TypeCheckerError>::empty());
        assert(self.errors() =~= counted + checks_errors(all, n as int));
    }

    /// What the check of a return statement reads of the function being checked.
    pub open spec fn return_frame(self) -> ReturnFrame {
        (self.function, self.symbol_table.functions@, self.is_finalize)
    }

    /// Type checks a return statement of the function being checked, whose finalize block, if
    /// any, is found in the symbol table. The function then returns; it invokes its finalize
    /// block where the statement passes arguments to it.
    #[verifier::spinoff_prover]
    #[verifier::rlimit(40)]
    pub fn visit_return(&mut self, input: &ReturnStatement)
        requires
            return_checkable(old(self).return_frame(), *input),
        ensures
            final(self).errors() == old(self).errors() + return_errors(old(self).is_finalize, frame_finalize(old(self).return_frame()), *input),
            final(self).has_return,
            !final(self).is_return,
            final(self).has_finalize == (old(self).has_finalize || input.finalize_arguments is Some),
            final(self).function == old(self).function,
            final(self).variant == old(self).variant,
            final(self).is_finalize == old(self).is_finalize,
            final(self).is_imported == old(self).is_imported,
            final(self).symbol_table.functions@ == old(self).symbol_table.functions@,
            final(self).symbol_table.structs@ == old(self).symbol_table.structs@,
            final(self).symbol_table.variables@ == old(self).symbol_table.variables@,
            final(self).call_graph == old(self).call_graph,
    {
        // Every return statement stands in a function.
        let function = match self.function {
            Some(f) => f,
            None => {
                assert(false);
                return;
            },
        };

        // The function returns.
        self.has_return = true;

        // Check that the returned expression is not a nested tuple.
        if let Some(elements) = &input.tuple_elements {
            self.check_nested_tuples(elements);
        }
        let ghost shaped = self.errors();
        assert(shaped == old(self).errors() + match input.tuple_elements {
            Some(elements) => nested_tuple_errors(elements@),
            None => Seq::<TypeCheckerError>::empty(),
        });

        // The returned expression is checked as a return value.
        self.is_return = true;
        self.emit_errs(&input.expression.errors);
        self.is_return = false;
        let ghost expressed = self.errors();

        if let Some(arguments) = &input.finalize_arguments {
            if self.is_finalize {
                self.emit_err(TypeCheckerError::FinalizeInFinalize { span: input.span });
            }
            let ghost checked_in = self.errors();
            assert(checked_in =~= expressed + (if old(self).is_finalize {
                seq![TypeCheckerError::FinalizeInFinalize { span: input.span }]
            } else {
                Seq::empty()
            }));

            // The function invokes its finalize block.
            self.has_finalize = true;

            // The function is in scope: look up its finalize block, if it has one.
            let finalize = match self.symbol_table.lookup_function(function) {
                Some(f) => f.finalize,
                None => {
                    assert(false);
                    None
                },
            };
            match finalize {
                None => {
                    self.emit_err(TypeCheckerError::FinalizeWithoutFinalizeBlock { span: input.span });
                },
                Some(n) => {
                    self.check_finalize_arguments(arguments, n, input.span);
                },
            }
            assert(self.errors() =~= expressed + finalize_errors(old(self).is_finalize, frame_finalize(old(self).return_frame()), input.finalize_arguments.unwrap()@, input.span));
        }
        assert(self.errors() =~= old(self).errors() + return_errors(old(self).is_finalize, frame_finalize(old(self).return_frame()), *input));
    }

    /// Type checks an increment or decrement of a value in a mapping.
    fn check_mapping_update(
        &mut self,
        mapping: Identifier,
        mapping_check: &CheckedExpression,
        index: &CheckedExpression,
        amount: &CheckedExpression,
        span: Span,
    )
        ensures
            final(self).errors() == old(self).errors() + update_errors(old(self).is_finalize, mapping, *mapping_check, *index, *amount, span),
            final(self).same_but_errors(*old(self)),
    {
        if !self.is_finalize {
            self.emit_err(TypeCheckerError::IncrementOrDecrementOutsideFinalize { span });
        }
        let ghost start = self.errors();

        // Assert that the first operand is a mapping.
        let mapping_type = &mapping_check.type_;
        self.emit_errs(&mapping_check.errors);
        let mapping_value = self.assert_mapping_type(mapping_type, span);
        let ghost checked = self.errors();

        match mapping_type {
            None => self.emit_err(TypeCheckerError::CouldNotDetermineType { name: mapping, span: mapping.span }),
            Some(Type::Mapping(_)) => {
                let mapping_value = match mapping_value {
                    Some(m) => m,
                    None => {
                        assert(false);
                        return;
                    },
                };
                // Check that the index matches the key type of the mapping.
                self.emit_errs(&index.errors);
                self.assert_type(&index.type_, &mapping_value.key, index.span);
                // Check that the amount matches the value type of the mapping.
                self.emit_errs(&amount.errors);
                self.assert_type(&amount.type_, &mapping_value.value, amount.span);
                // Check that the amount type is incrementable.
                self.assert_field_group_scalar_int_type(&amount.type_, amount.span);
            },
            Some(other) => self.emit_err(TypeCheckerError::ExpectedOneTypeOf {
                expected: ExpectedTypes::Mapping,
                found: clone_type(other),
                span: mapping.span,
            }),
        }
        assert(self.errors() =~= old(self).errors() + update_errors(old(self).is_finalize, mapping, *mapping_check, *index, *amount, span));
    }

    /// Type checks an increment of a value in a mapping.
    pub fn visit_increment(&mut self, input: &IncrementStatement)
        ensures
            final(self).errors() == old(self).errors() + update_errors(old(self).is_finalize, input.mapping, input.mapping_check, input.index, input.amount, input.span),
            final(self).same_but_errors(*old(self)),
    {
        self.check_mapping_update(input.mapping, &input.mapping_check, &input.index, &input.amount, input.span)
    }

    /// Type checks a decrement of a value in a mapping.
    pub fn visit_decrement(&mut self, input: &DecrementStatement)
        ensures
            final(self).errors() == old(self).errors() + update_errors(old(self).is_finalize, input.mapping, input.mapping_check, input.index, input.amount, input.span),
            final(self).same_but_errors(*old(self)),
    {
        self.check_mapping_update(input.mapping, &input.mapping_check, &input.index, &input.amount, input.span)
    }
}

/// A variable that the symbol table accepts is what looking up its name finds afterwards; the
/// other names find what they found before.
pub proof fn law_lookup_after_declare(
    functions: Seq<Symbol>,
    structs: Seq<StructSymbol>,
    variables: Seq<(Symbol, VariableSymbol)>,
    name: Symbol,
    variable: VariableSymbol,
    other: Symbol,
)
    requires
        shadow_error(functions, structs, variables, name, variable.span) is None,
    ensures
        find_variable(variables.push((name, variable)), name) == Some(variable),
        other != name ==> find_variable(variables.push((name, variable)), other) == find_variable(variables, other),
    decreases variables.len(),
{
    lemma_find_variable_push(variables, name, variable, name);
    lemma_find_variable_push(variables, name, variable, other);
}

/// Looking a name up after a variable is appended finds what it found before, or, where it found
/// nothing, the appended variable if that has the name.
proof fn lemma_find_variable_push(variables: Seq<(Symbol, VariableSymbol)>, name: Symbol, variable: VariableSymbol, query: Symbol)
    ensures
        find_variable(variables.push((name, variable)), query) == match find_variable(variables, query) {
            Some(v) => Some(v),
            None => if query == name { Some(variable) } else { None },
        },
        find_variable(variables, query) is None <==> forall|i: int| 0 <= i < variables.len() ==> (#[trigger] variables[i]).0 != query,
    decreases variables.len(),
{
    let pushed = variables.push((name, variable));
    if variables.len() == 0 {
        assert(pushed[0] == (name, variable));
        assert(pushed.drop_first() =~= Seq::<(Symbol, VariableSymbol)>::empty());
        assert(find_variable(pushed.drop_first(), query) is None);
        assert(find_variable(variables, query) is None);
        if query == name {
            assert(find_variable(pushed, query) == Some(variable));
        } else {
            assert(find_variable(pushed, query) is None);
        }
    } else {
        assert(pushed[0] == variables[0]);
        assert(pushed.drop_first() =~= variables.drop_first().push((name, variable)));
        lemma_find_variable_push(variables.drop_first(), name, variable, query);
        assert forall|i: int| 0 <= i < variables.drop_first().len() implies variables.drop_first()[i] == variables[i + 1] by {}
        if find_variable(variables, query) is None && variables[0].0 != query {
            assert forall|i: int| 0 <= i < variables.len() implies (#[trigger] variables[i]).0 != query by {
                if i > 0 {
                    assert(variables.drop_first()[i - 1] == variables[i]);
                }
            }
        }
    }
}

} // verus!
