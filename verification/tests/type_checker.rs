use leo_lang::ast::core_function::CoreFunction;
use leo_lang::ast::instruction::{Instruction, Opcode, Operand};
use leo_lang::ast::statement::{
    AssertStatement, AssertVariant, AssignPlace, AssignStatement, CheckedExpression, DeclarationType, DefinitionPlace,
    DefinitionStatement, ExpressionStatement, PlaceElement, ReturnStatement,
};
use leo_lang::ast::types::{Identifier, IntegerType, MappingType, Type, TypeList};
use leo_lang::passes::errors::{InstructionPart, MappingOperation, TypeCheckerError};
use leo_lang::passes::symbol_table::{FunctionSymbol, StructSymbol, SymbolTable, VariableType};
use leo_lang::passes::type_checker::TypeChecker;
use leo_lang::span::Span;

fn span(lo: u32) -> Span {
    Span::new(lo, lo + 1)
}

fn checker() -> TypeChecker {
    // Two functions, `main` (100) without a finalize block and `mint` (102) whose finalize block
    // takes one input, and one struct (200), one record (201). The checks are in `main`.
    let functions = vec![FunctionSymbol { name: 100, finalize: None }, FunctionSymbol { name: 102, finalize: Some(1) }];
    let structs = vec![
        StructSymbol { name: 200, is_record: false },
        StructSymbol { name: 201, is_record: true },
    ];
    let mut tc = TypeChecker::new(SymbolTable::new(functions, structs));
    tc.function = Some(100);
    tc
}

fn u8_type() -> Type {
    Type::Integer(IntegerType::U8)
}

fn mapping(key: Type, value: Type) -> Type {
    Type::Mapping(MappingType { key: Box::new(key), value: Box::new(value) })
}

fn pair(a: Type, b: Type) -> TypeList {
    TypeList::Cons(Box::new(a), Box::new(TypeList::Cons(Box::new(b), Box::new(TypeList::Nil))))
}

#[test]
fn core_call_with_wrong_number_of_arguments() {
    let mut tc = checker();
    let r = tc.check_core_function_call(CoreFunction::BHP256HashToField, &[], span(1));
    assert!(r.is_none());
    assert_eq!(tc.handler.errors.len(), 1);
    assert!(matches!(tc.handler.errors[0], TypeCheckerError::IncorrectNumArgsToCall { expected: 1, received: 0, .. }));
}

#[test]
fn core_hash_call_returns_its_output_type() {
    let mut tc = checker();
    let r = tc.check_core_function_call(CoreFunction::BHP256HashToField, &[(Some(u8_type()), span(2))], span(1));
    assert!(matches!(r, Some(Type::Field)));
    assert!(tc.handler.errors.is_empty());
    let r = tc.check_core_function_call(CoreFunction::Poseidon2HashToScalar, &[(Some(Type::Field), span(2))], span(1));
    assert!(matches!(r, Some(Type::Scalar)));
    assert!(tc.handler.errors.is_empty());
}

#[test]
fn core_commit_needs_a_scalar_randomizer() {
    let mut tc = checker();
    let r = tc.check_core_function_call(
        CoreFunction::BHP256CommitToField,
        &[(Some(Type::Field), span(2)), (Some(Type::Field), span(3))],
        span(1),
    );
    assert!(matches!(r, Some(Type::Field)));
    assert_eq!(tc.handler.errors.len(), 1);
    let mut tc = checker();
    tc.check_core_function_call(
        CoreFunction::BHP256CommitToField,
        &[(Some(Type::Field), span(2)), (Some(Type::Scalar), span(3))],
        span(1),
    );
    assert!(tc.handler.errors.is_empty());
}

#[test]
fn mapping_get_outside_finalize_is_reported() {
    let mut tc = checker();
    let r = tc.check_core_function_call(
        CoreFunction::MappingGet,
        &[(Some(mapping(Type::Address, u8_type())), span(2)), (Some(Type::Address), span(3))],
        span(1),
    );
    assert!(matches!(r, Some(Type::Integer(IntegerType::U8))));
    assert_eq!(tc.handler.errors.len(), 1);
    assert!(matches!(
        tc.handler.errors[0],
        TypeCheckerError::InvalidOperationOutsideFinalize { operation: MappingOperation::Get, .. }
    ));
    let mut tc = checker();
    tc.is_finalize = true;
    let r = tc.check_core_function_call(
        CoreFunction::MappingSet,
        &[(Some(mapping(Type::Address, u8_type())), span(2)), (Some(Type::Address), span(3)), (Some(u8_type()), span(4))],
        span(1),
    );
    assert!(matches!(r, Some(Type::Unit)));
    assert!(tc.handler.errors.is_empty());
}

#[test]
fn mapping_get_on_a_non_mapping_returns_nothing() {
    let mut tc = checker();
    tc.is_finalize = true;
    let r = tc.check_core_function_call(
        CoreFunction::MappingGetOrUse,
        &[(Some(u8_type()), span(2)), (Some(Type::Address), span(3)), (Some(u8_type()), span(4))],
        span(1),
    );
    assert!(r.is_none());
    assert_eq!(tc.handler.errors.len(), 1);
}

fn instruction(opcode: Opcode, operands: Vec<Option<Type>>, destinations: Vec<u32>) -> Instruction {
    Instruction {
        opcode,
        operands: operands.into_iter().map(|t| Operand { type_: t, span: span(5) }).collect(),
        destinations: destinations.into_iter().map(|d| Identifier::new(d, span(6))).collect(),
        span: span(7),
    }
}

#[test]
fn add_instruction_declares_its_destination() {
    let mut tc = checker();
    tc.visit_instruction(&instruction(Opcode::Add, vec![Some(u8_type()), Some(u8_type())], vec![300]));
    assert!(tc.handler.errors.is_empty());
    assert_eq!(tc.symbol_table.variables.len(), 1);
    assert_eq!(tc.symbol_table.variables[0].0, 300);
    assert!(matches!(tc.symbol_table.variables[0].1.type_, Type::Integer(IntegerType::U8)));
    assert_eq!(tc.symbol_table.variables[0].1.declaration, VariableType::Mut);
}

#[test]
fn add_instruction_with_mixed_operands_is_refused() {
    let mut tc = checker();
    tc.visit_instruction(&instruction(Opcode::Add, vec![Some(u8_type()), Some(Type::Field)], vec![300]));
    assert_eq!(tc.handler.errors.len(), 1);
    assert!(matches!(tc.handler.errors[0], TypeCheckerError::InvalidInstructionOperandTypes { opcode: Opcode::Add, .. }));
    assert!(tc.symbol_table.variables.is_empty());
}

#[test]
fn malformed_instruction_is_refused() {
    let mut tc = checker();
    tc.visit_instruction(&instruction(Opcode::Add, vec![Some(u8_type())], vec![]));
    assert_eq!(tc.handler.errors.len(), 2);
    assert!(matches!(tc.handler.errors[0], TypeCheckerError::MalformedInstruction { part: InstructionPart::Operands, expected: 2, .. }));
    assert!(matches!(
        tc.handler.errors[1],
        TypeCheckerError::MalformedInstruction { part: InstructionPart::Destinations, expected: 1, .. }
    ));
}

#[test]
fn is_eq_instruction_declares_a_boolean() {
    let mut tc = checker();
    tc.visit_instruction(&instruction(Opcode::IsEq, vec![Some(Type::Field), Some(Type::Field)], vec![301]));
    assert!(tc.handler.errors.is_empty());
    assert!(matches!(tc.symbol_table.variables[0].1.type_, Type::Boolean));
}

#[test]
fn destination_named_as_a_function_is_shadowing() {
    let mut tc = checker();
    tc.visit_instruction(&instruction(Opcode::IsEq, vec![Some(Type::Field), Some(Type::Field)], vec![100]));
    assert_eq!(tc.handler.errors.len(), 1);
    assert!(matches!(tc.handler.errors[0], TypeCheckerError::ShadowedFunction { name: 100, .. }));
    let mut tc = checker();
    tc.visit_instruction(&instruction(Opcode::IsEq, vec![Some(Type::Field), Some(Type::Field)], vec![201]));
    assert!(matches!(tc.handler.errors[0], TypeCheckerError::ShadowedRecord { name: 201, .. }));
}

fn definition(declaration_type: DeclarationType, place: DefinitionPlace, type_: Type) -> DefinitionStatement {
    definition_with(declaration_type, place, type_, vec![])
}

fn definition_with(declaration_type: DeclarationType, place: DefinitionPlace, type_: Type, errors: Vec<TypeCheckerError>) -> DefinitionStatement {
    let value = CheckedExpression { type_: None, errors, span: span(8) };
    DefinitionStatement { declaration_type, place, type_, value, span: span(9) }
}

#[test]
fn definition_declares_its_variable() {
    let mut tc = checker();
    let stmt = definition(DeclarationType::Const, DefinitionPlace::Identifier(Identifier::new(400, span(10))), u8_type());
    tc.visit_definition(&stmt);
    assert!(tc.handler.errors.is_empty());
    assert_eq!(tc.symbol_table.variables[0].0, 400);
    assert_eq!(tc.symbol_table.variables[0].1.declaration, VariableType::Const);
}

#[test]
fn definition_of_a_tuple_declares_each_identifier() {
    let mut tc = checker();
    let place = DefinitionPlace::Tuple(vec![
        PlaceElement::Identifier(Identifier::new(401, span(10))),
        PlaceElement::Other(span(11)),
        PlaceElement::Identifier(Identifier::new(402, span(12))),
    ]);
    let type_ = Type::Tuple(TypeList::Cons(Box::new(u8_type()), Box::new(pair(Type::Field, Type::Boolean))));
    tc.visit_definition(&definition(DeclarationType::Let, place, type_));
    assert_eq!(tc.handler.errors.len(), 1);
    assert!(matches!(tc.handler.errors[0], TypeCheckerError::LhsTupleElementMustBeAnIdentifier { .. }));
    assert_eq!(tc.symbol_table.variables.len(), 2);
    assert_eq!(tc.symbol_table.variables[0].0, 401);
    assert!(matches!(tc.symbol_table.variables[0].1.type_, Type::Integer(IntegerType::U8)));
    assert_eq!(tc.symbol_table.variables[1].0, 402);
    assert!(matches!(tc.symbol_table.variables[1].1.type_, Type::Boolean));
    assert_eq!(tc.symbol_table.variables[1].1.declaration, VariableType::Mut);
}

#[test]
fn definition_shape_errors_come_before_the_value_errors() {
    let mut tc = checker();
    let place = DefinitionPlace::Tuple(vec![
        PlaceElement::Identifier(Identifier::new(401, span(10))),
        PlaceElement::Identifier(Identifier::new(402, span(12))),
    ]);
    let type_ = Type::Tuple(pair(u8_type(), Type::Tuple(pair(u8_type(), u8_type()))));
    let value_errors = vec![TypeCheckerError::StringsAreNotSupported { span: span(20) }];
    tc.visit_definition(&definition_with(DeclarationType::Let, place, type_, value_errors));
    assert_eq!(tc.handler.errors.len(), 2);
    assert!(matches!(tc.handler.errors[0], TypeCheckerError::NestedTupleType { .. }));
    assert!(matches!(tc.handler.errors[1], TypeCheckerError::StringsAreNotSupported { .. }));
    assert_eq!(tc.symbol_table.variables.len(), 2);
}

#[test]
fn definition_of_unit_or_undefined_types_is_reported() {
    let mut tc = checker();
    tc.visit_definition(&definition(DeclarationType::Let, DefinitionPlace::Other(span(3)), Type::Unit));
    assert_eq!(tc.handler.errors.len(), 2);
    assert!(matches!(tc.handler.errors[0], TypeCheckerError::LhsMustBeIdentifierOrTuple { .. }));
    assert!(matches!(tc.handler.errors[1], TypeCheckerError::LhsMustBeIdentifierOrTuple { .. }));
    let mut tc = checker();
    let stmt = definition(
        DeclarationType::Let,
        DefinitionPlace::Identifier(Identifier::new(403, span(10))),
        Type::Identifier(Identifier::new(999, span(11))),
    );
    tc.visit_definition(&stmt);
    assert!(matches!(tc.handler.errors[0], TypeCheckerError::UndefinedType { name: 999, .. }));
    assert_eq!(tc.symbol_table.variables.len(), 1);
}

#[test]
fn definition_twice_of_a_name_is_shadowing() {
    let mut tc = checker();
    tc.visit_definition(&definition(DeclarationType::Let, DefinitionPlace::Identifier(Identifier::new(404, span(10))), u8_type()));
    tc.visit_definition(&definition(DeclarationType::Let, DefinitionPlace::Identifier(Identifier::new(404, span(10))), u8_type()));
    assert_eq!(tc.symbol_table.variables.len(), 1);
    assert!(matches!(tc.handler.errors[0], TypeCheckerError::ShadowedVariable { name: 404, .. }));
}

#[test]
fn type_checker_starts_with_an_acyclic_call_graph() {
    let tc = checker();
    assert!(!tc.call_graph.contains_cycle());
}

#[test]
fn assignment_to_a_mutable_variable_checks_the_value() {
    let mut tc = checker();
    let stmt = definition(DeclarationType::Let, DefinitionPlace::Identifier(Identifier::new(410, span(10))), u8_type());
    tc.visit_definition(&stmt);
    let target = AssignPlace::Identifier(Identifier::new(410, span(30)));
    tc.visit_assign(&AssignStatement { place: target, value: checked(Some(u8_type()), vec![]), span: span(31) });
    assert!(tc.handler.errors.is_empty());
    let errors = vec![TypeCheckerError::StringsAreNotSupported { span: span(32) }];
    tc.visit_assign(&AssignStatement { place: target, value: checked(Some(u8_type()), errors), span: span(31) });
    assert_eq!(tc.handler.errors.len(), 1);
}

#[test]
fn assignment_to_a_constant_is_refused() {
    let mut tc = checker();
    let stmt = definition(DeclarationType::Const, DefinitionPlace::Identifier(Identifier::new(411, span(10))), u8_type());
    tc.visit_definition(&stmt);
    let target = Identifier::new(411, span(30));
    tc.visit_assign(&AssignStatement { place: AssignPlace::Identifier(target), value: checked(None, vec![]), span: span(31) });
    assert_eq!(tc.handler.errors.len(), 1);
    assert!(matches!(tc.handler.errors[0], TypeCheckerError::CannotAssignToConstVar { variable, span: s } if variable == target && s == span(10)));
}

#[test]
fn assignment_to_an_unknown_variable_skips_the_value() {
    let mut tc = checker();
    let errors = vec![TypeCheckerError::StringsAreNotSupported { span: span(32) }];
    let assign = AssignStatement { place: AssignPlace::Identifier(Identifier::new(412, span(30))), value: checked(None, errors), span: span(31) };
    tc.visit_assign(&assign);
    assert_eq!(tc.handler.errors.len(), 1);
    assert!(matches!(tc.handler.errors[0], TypeCheckerError::UnknownVariable { name: 412, .. }));
    tc.visit_assign(&AssignStatement { place: AssignPlace::Other(span(33)), value: checked(None, vec![]), span: span(34) });
    assert!(matches!(tc.handler.errors[1], TypeCheckerError::InvalidAssignmentTarget { .. }));
}

fn checked(type_: Option<Type>, errors: Vec<TypeCheckerError>) -> CheckedExpression {
    CheckedExpression { type_, errors, span: span(40) }
}

#[test]
fn assertions_need_booleans_and_equal_types() {
    let mut tc = checker();
    tc.visit_assert(&AssertStatement { variant: AssertVariant::Assert(checked(Some(Type::Boolean), vec![])), span: span(41) });
    assert!(tc.handler.errors.is_empty());
    tc.visit_assert(&AssertStatement { variant: AssertVariant::Assert(checked(Some(u8_type()), vec![])), span: span(41) });
    assert_eq!(tc.handler.errors.len(), 1);
    let left = checked(Some(u8_type()), vec![TypeCheckerError::StringsAreNotSupported { span: span(42) }]);
    let right = checked(Some(Type::Field), vec![]);
    tc.visit_assert(&AssertStatement { variant: AssertVariant::AssertEq(left, right), span: span(43) });
    assert_eq!(tc.handler.errors.len(), 3);
    assert!(matches!(tc.handler.errors[1], TypeCheckerError::StringsAreNotSupported { .. }));
    assert!(matches!(tc.handler.errors[2], TypeCheckerError::TypeShouldBe { .. }));
    let same = AssertVariant::AssertNeq(checked(Some(Type::Field), vec![]), checked(Some(Type::Field), vec![]));
    tc.visit_assert(&AssertStatement { variant: same, span: span(44) });
    assert_eq!(tc.handler.errors.len(), 3);
}

#[test]
fn expression_statements_must_be_calls() {
    let mut tc = checker();
    let errors = vec![TypeCheckerError::StringsAreNotSupported { span: span(50) }];
    tc.visit_expression_statement(&ExpressionStatement { is_call: true, expression: checked(Some(Type::Unit), errors), span: span(51) });
    assert_eq!(tc.handler.errors.len(), 1);
    let errors = vec![TypeCheckerError::StringsAreNotSupported { span: span(52) }];
    tc.visit_expression_statement(&ExpressionStatement { is_call: false, expression: checked(None, errors), span: span(53) });
    assert_eq!(tc.handler.errors.len(), 2);
    assert!(matches!(tc.handler.errors[1], TypeCheckerError::ExpressionStatementMustBeFunctionCall { .. }));
}

#[test]
fn return_marks_the_function_as_returning() {
    let mut tc = checker();
    let stmt = ReturnStatement {
        expression: checked(Some(u8_type()), vec![]),
        tuple_elements: Some(vec![(false, span(60)), (true, span(61)), (true, span(62))]),
        finalize_arguments: None,
        span: span(63),
    };
    tc.visit_return(&stmt);
    assert!(tc.has_return && !tc.is_return && !tc.has_finalize);
    assert_eq!(tc.handler.errors.len(), 2);
    assert!(matches!(tc.handler.errors[0], TypeCheckerError::NestedTupleExpression { span: s } if s == span(61)));
    assert!(matches!(tc.handler.errors[1], TypeCheckerError::NestedTupleExpression { span: s } if s == span(62)));
}

#[test]
fn return_checks_the_finalize_arguments() {
    let mut tc = checker();
    let arguments = vec![
        checked(Some(u8_type()), vec![TypeCheckerError::StringsAreNotSupported { span: span(70) }]),
        checked(Some(u8_type()), vec![TypeCheckerError::StringsAreNotSupported { span: span(71) }]),
    ];
    let stmt = ReturnStatement { expression: checked(None, vec![]), tuple_elements: None, finalize_arguments: Some(arguments), span: span(72) };
    // The finalize block of `mint`, found in the symbol table, takes one input.
    tc.function = Some(102);
    tc.visit_return(&stmt);
    assert!(tc.has_return && tc.has_finalize);
    // The count is reported, and only the argument that has an input is checked.
    assert_eq!(tc.handler.errors.len(), 2);
    assert!(matches!(tc.handler.errors[0], TypeCheckerError::IncorrectNumArgsToFinalize { expected: 1, received: 2, .. }));
    assert!(matches!(tc.handler.errors[1], TypeCheckerError::StringsAreNotSupported { span: s } if s == span(70)));
}

#[test]
fn return_to_a_missing_finalize_block_is_refused() {
    // `main` has no finalize block.
    let mut tc = checker();
    let stmt = ReturnStatement { expression: checked(None, vec![]), tuple_elements: None, finalize_arguments: Some(vec![]), span: span(80) };
    tc.visit_return(&stmt);
    assert!(tc.has_return && tc.has_finalize);
    assert_eq!(tc.handler.errors.len(), 1);
    assert!(matches!(tc.handler.errors[0], TypeCheckerError::FinalizeWithoutFinalizeBlock { .. }));
}

#[test]
fn finalize_in_finalize_is_refused() {
    // Inside the finalize block of `mint`, passing it its one argument is still refused.
    let mut tc = checker();
    tc.function = Some(102);
    tc.is_finalize = true;
    let arguments = vec![checked(Some(u8_type()), vec![])];
    let stmt = ReturnStatement { expression: checked(None, vec![]), tuple_elements: None, finalize_arguments: Some(arguments), span: span(81) };
    tc.visit_return(&stmt);
    assert_eq!(tc.handler.errors.len(), 1);
    assert!(matches!(tc.handler.errors[0], TypeCheckerError::FinalizeInFinalize { span: s } if s == span(81)));
}

use leo_lang::ast::statement::{Block, ConditionalStatement, IterationStatement, Statement, StatementList};
use leo_lang::ast::value::ValueExpression;

fn block(statements: Vec<Statement>) -> Block {
    let mut list = StatementList::Nil;
    for s in statements.into_iter().rev() {
        list = StatementList::Cons(Box::new(s), Box::new(list));
    }
    Block { statements: list, span: span(90) }
}

fn return_unit() -> Statement {
    Statement::Return(ReturnStatement { expression: checked(Some(Type::Unit), vec![]), tuple_elements: None, finalize_arguments: None, span: span(91) })
}

fn let_u8(name: u32) -> Statement {
    Statement::Definition(definition(DeclarationType::Let, DefinitionPlace::Identifier(Identifier::new(name, span(92))), u8_type()))
}

#[test]
fn code_after_a_return_is_unreachable() {
    let mut tc = checker();
    let _ = tc.visit_block(block(vec![return_unit(), let_u8(500)]));
    assert!(tc.has_return);
    assert_eq!(tc.handler.errors.len(), 1);
    assert!(matches!(tc.handler.errors[0], TypeCheckerError::UnreachableCodeAfterReturn { .. }));
}

#[test]
fn block_variables_go_out_of_scope() {
    let mut tc = checker();
    let _ = tc.visit_statement(let_u8(501));
    let _ = tc.visit_statement(Statement::Block(block(vec![let_u8(502), let_u8(503)])));
    assert!(tc.handler.errors.is_empty());
    assert_eq!(tc.symbol_table.variables.len(), 1);
    assert_eq!(tc.symbol_table.variables[0].0, 501);
    // The name of a variable of the ended block can be declared again.
    let _ = tc.visit_statement(let_u8(502));
    assert!(tc.handler.errors.is_empty());
    // A variable of an enclosing scope cannot be declared again in a block.
    let _ = tc.visit_statement(Statement::Block(block(vec![let_u8(501)])));
    assert!(matches!(tc.handler.errors[0], TypeCheckerError::ShadowedVariable { name: 501, .. }));
}

fn conditional(then_block: Block, otherwise: Option<Statement>) -> Statement {
    Statement::Conditional(ConditionalStatement {
        condition: checked(Some(Type::Boolean), vec![]),
        then_block,
        otherwise: otherwise.map(Box::new),
        span: span(93),
    })
}

#[test]
fn a_conditional_returns_where_both_branches_return() {
    let mut tc = checker();
    let _ = tc.visit_statement(conditional(block(vec![return_unit()]), None));
    assert!(!tc.has_return);
    let _ = tc.visit_statement(conditional(block(vec![return_unit()]), Some(Statement::Block(block(vec![let_u8(504)])))));
    assert!(!tc.has_return);
    let inner = conditional(block(vec![return_unit()]), Some(Statement::Block(block(vec![return_unit()]))));
    let _ = tc.visit_statement(conditional(block(vec![return_unit()]), Some(inner)));
    assert!(tc.has_return);
    assert!(tc.handler.errors.is_empty());
    assert!(tc.symbol_table.variables.is_empty());
}

// A bound of a loop: the literal `n` of type `u32` where `literal` holds, otherwise a
// variable.
fn bound(literal: bool, n: u32) -> (CheckedExpression, Option<ValueExpression>) {
    let expression = checked(Some(Type::Integer(IntegerType::U32)), vec![]);
    if literal {
        (expression, Some(ValueExpression::Integer(IntegerType::U32, n.to_string(), span(96))))
    } else {
        (expression, None)
    }
}

fn iteration(type_: Type, body: Block, start: (CheckedExpression, Option<ValueExpression>), stop: (CheckedExpression, Option<ValueExpression>)) -> Statement {
    Statement::Iteration(Box::new(IterationStatement {
        variable: Identifier::new(600, span(94)),
        type_,
        start: start.0,
        start_literal: start.1,
        start_value: None,
        stop: stop.0,
        stop_literal: stop.1,
        stop_value: None,
        block: body,
        span: span(95),
    }))
}

// Whether the value is the literal `n` of type `u32`.
fn is_u32_literal(value: &Option<ValueExpression>, n: u32) -> bool {
    matches!(value, Some(ValueExpression::Integer(IntegerType::U32, text, _)) if *text == n.to_string())
}

#[test]
fn loops_declare_their_variable_in_their_own_scope() {
    let mut tc = checker();
    let _ = tc.visit_statement(iteration(Type::Integer(IntegerType::U32), block(vec![let_u8(601)]), bound(true, 0), bound(true, 4)));
    assert!(tc.handler.errors.is_empty());
    assert!(tc.symbol_table.variables.is_empty());
}

#[test]
fn loops_cannot_return_and_need_literal_bounds() {
    let mut tc = checker();
    let _ = tc.visit_statement(iteration(Type::Field, block(vec![return_unit()]), bound(false, 0), bound(true, 4)));
    assert!(!tc.has_return);
    assert_eq!(tc.handler.errors.len(), 3);
    assert!(matches!(tc.handler.errors[0], TypeCheckerError::ExpectedOneTypeOf { .. }));
    assert!(matches!(tc.handler.errors[1], TypeCheckerError::LoopBodyContainsReturn { .. }));
    assert!(matches!(tc.handler.errors[2], TypeCheckerError::LoopBoundMustBeALiteral { .. }));
}

#[test]
fn literal_loop_bounds_are_recorded_as_their_values() {
    let mut tc = checker();
    // for i: u32 in 0u32..4u32 { for i: u32 in j..4u32 { } }, where `j` is not a literal.
    let inner = iteration(Type::Integer(IntegerType::U32), block(vec![]), bound(false, 0), bound(true, 4));
    let outer = iteration(Type::Integer(IntegerType::U32), block(vec![inner]), bound(true, 0), bound(true, 4));
    let checked_loop = tc.visit_statement(outer);
    match checked_loop {
        Statement::Iteration(outer) => {
            assert!(is_u32_literal(&outer.start_value, 0));
            assert!(is_u32_literal(&outer.stop_value, 4));
            match &outer.block.statements {
                StatementList::Cons(inner, _) => match &**inner {
                    Statement::Iteration(inner) => {
                        assert!(inner.start_value.is_none());
                        assert!(is_u32_literal(&inner.stop_value, 4));
                    },
                    other => panic!("expected the inner loop, got {:?}", other),
                },
                other => panic!("expected the inner loop, got {:?}", other),
            }
        },
        other => panic!("expected the loop, got {:?}", other),
    }
    // The inner loop shadows the outer loop's variable; its start is not a literal.
    assert_eq!(tc.handler.errors.len(), 2);
    assert!(matches!(tc.handler.errors[0], TypeCheckerError::ShadowedVariable { name: 600, .. }));
    assert!(matches!(tc.handler.errors[1], TypeCheckerError::LoopBoundMustBeALiteral { .. }));
}

#[test]
fn loops_after_a_return_are_not_checked() {
    let mut tc = checker();
    let after = iteration(Type::Integer(IntegerType::U32), block(vec![]), bound(true, 0), bound(true, 4));
    let checked_block = tc.visit_block(block(vec![return_unit(), after]));
    match &checked_block.statements {
        StatementList::Cons(_, rest) => match &**rest {
            StatementList::Cons(after, _) => match &**after {
                Statement::Iteration(after) => assert!(after.start_value.is_none() && after.stop_value.is_none()),
                other => panic!("expected the loop, got {:?}", other),
            },
            other => panic!("expected the loop, got {:?}", other),
        },
        other => panic!("expected the return, got {:?}", other),
    }
    assert_eq!(tc.handler.errors.len(), 1);
    assert!(matches!(tc.handler.errors[0], TypeCheckerError::UnreachableCodeAfterReturn { .. }));
}

#[test]
fn the_symbol_table_finds_functions_and_their_finalize_blocks() {
    let tc = checker();
    assert_eq!(tc.symbol_table.lookup_function(102), Some(FunctionSymbol { name: 102, finalize: Some(1) }));
    assert_eq!(tc.symbol_table.lookup_function(100), Some(FunctionSymbol { name: 100, finalize: None }));
    assert_eq!(tc.symbol_table.lookup_function(103), None);
    assert_eq!(tc.symbol_table.function_names(), vec![100, 102]);
}
