use leo_lang::ast::circuit::{Circuit, CircuitMember, Function};
use leo_lang::ast::types::{Identifier, IntegerType, MappingType, Type, TypeList};
use leo_lang::ast::value::{GroupCoordinate, GroupTuple, GroupValue, ValueExpression};
use leo_lang::cli::{Config, New, ProgramFile, SetupCommand, Test};
use leo_lang::compiler::options::{CompilerOptions, OutputOptions};
use leo_lang::package::Gitignore;
use leo_lang::parser::{DeprecatedError, LineSpan};
use leo_lang::retriever::{Dependency, Location, Network};
use leo_lang::span::{sym, to_decimal, Interner, Span};
use leo_lang::symbols::{Attribute, CircuitType, CircuitVariableType, FunctionInput, FunctionInputType, FunctionInputVariableType};

#[test]
fn interner_gives_one_symbol_per_string() {
    let mut interner = Interner::new();
    assert_eq!(interner.get(sym::main_name), "main");
    assert_eq!(interner.intern("main"), sym::main_name);
    let n = interner.len();
    let a = interner.intern("credits");
    assert_eq!(a as usize, n);
    assert_eq!(interner.intern("credits"), a);
    assert_eq!(interner.len(), n + 1);
    assert_eq!(interner.get(a), "credits");
}

#[test]
fn decimal_representation() {
    assert_eq!(to_decimal(0), "0");
    assert_eq!(to_decimal(7), "7");
    assert_eq!(to_decimal(1040), "1040");
    assert_eq!(to_decimal(usize::MAX), usize::MAX.to_string());
}

fn u8_type() -> Type {
    Type::Integer(IntegerType::U8)
}

#[test]
fn types_compare_by_name() {
    let a = Type::Identifier(Identifier::new(5, Span::new(0, 1)));
    let b = Type::Identifier(Identifier::new(5, Span::new(7, 9)));
    assert!(a.eq_flat(&b) && b.eq_flat(&a));
    let m = Type::Mapping(MappingType { key: Box::new(Type::Address), value: Box::new(u8_type()) });
    assert!(m.eq_flat(&m.clone()));
    let t = Type::Tuple(TypeList::Cons(Box::new(u8_type()), Box::new(TypeList::Nil)));
    assert!(t.eq_flat(&t.clone()));
    assert!(!t.eq_flat(&Type::Tuple(TypeList::Nil)));
    assert!(!Type::Errored.eq_flat(&Type::Errored));
    assert!(!Type::Field.eq_flat(&Type::Group));
}

#[test]
fn new_command_is_a_library_only_when_asked() {
    assert!(New::new("hello".to_string(), Some(true)).is_library());
    assert!(!New::new("hello".to_string(), Some(false)).is_library());
    assert!(!New::new("hello".to_string(), None).is_library());
}

#[test]
fn test_command_prefers_the_main_file() {
    assert_eq!(Test::select_program_file(true, true), Some(ProgramFile::Main));
    assert_eq!(Test::select_program_file(false, true), Some(ProgramFile::Library));
    assert_eq!(Test::select_program_file(false, false), None);
    assert_eq!(ProgramFile::Main.file_name(), "main.leo");
    assert_eq!(ProgramFile::Library.file_name(), "lib.leo");
    assert!(Test::passed(0));
    assert!(!Test::passed(2));
    assert_eq!(Test::new(vec!["a.leo".to_string()]).files, vec!["a.leo".to_string()]);
}

#[test]
fn setup_runs_when_keys_are_missing_or_stale() {
    assert!(SetupCommand::needs_setup(false, false));
    assert!(SetupCommand::needs_setup(true, true));
    assert!(!SetupCommand::needs_setup(true, false));
    assert!(SetupCommand::verification_keys_match(&vec![1, 2, 3], &vec![1, 2, 3]));
    assert!(SetupCommand::verification_keys_match(&vec![1, 2], &vec![1, 2, 3]));
    assert!(!SetupCommand::verification_keys_match(&vec![1, 9, 3], &vec![1, 2, 3]));
}

#[test]
fn defaults() {
    assert!(Config::default().auto_update);
    let c = CompilerOptions::default();
    assert!(c.constant_folding_enabled && c.dead_code_elimination_enabled);
    let o = OutputOptions::default();
    assert!(!o.ast_initial && !o.ast_imports_resolved && !o.ast_canonicalized && !o.ast_type_inferenced && !o.emit_ir);
    let g = Gitignore::new();
    assert_eq!(g.template(), "outputs/\n");
    assert_eq!(g.file_name(), ".gitignore");
}

#[test]
fn dependency_getters_and_symbol() {
    let d = Dependency::new(
        "credits.aleo".to_string(),
        Location::Network,
        Some(Network::Testnet),
        Some("https://api.explorer.aleo.org/v1".to_string()),
        None,
    );
    assert_eq!(d.name(), "credits.aleo");
    assert_eq!(*d.location(), Location::Network);
    assert_eq!(*d.network(), Some(Network::Testnet));
    assert_eq!(d.endpoint().as_deref(), Some("https://api.explorer.aleo.org/v1"));
    assert_eq!(*d.path(), None);
    let mut interner = Interner::new();
    let s = d.to_symbol(&mut interner);
    assert_eq!(interner.get(s), "credits");
    let local = Dependency::new("token.aleo".to_string(), Location::Local, None, None, Some("../token".to_string()));
    assert_eq!(local.path().as_deref(), Some("../token"));
}

// Dependencies made of equal parts agree in every part; those made of parts that differ in one
// disagree in that part.
#[test]
fn dependencies_keep_their_parts() {
    let make = |network: Option<Network>| {
        Dependency::new("credits.aleo".to_string(), Location::Network, network, Some("https://api.explorer.aleo.org/v1".to_string()), None)
    };
    let (a, b, c) = (make(Some(Network::Mainnet)), make(Some(Network::Mainnet)), make(Some(Network::Testnet)));
    assert_eq!((a.name(), a.location(), a.network(), a.endpoint(), a.path()), (b.name(), b.location(), b.network(), b.endpoint(), b.path()));
    assert_ne!(a.network(), c.network());
    assert_eq!((a.name(), a.location(), a.endpoint(), a.path()), (c.name(), c.location(), c.endpoint(), c.path()));
}

#[test]
fn value_expression_spans() {
    let mut v = ValueExpression::Integer(IntegerType::U32, "1".to_string(), Span::new(3, 7));
    assert_eq!(*v.span(), Span::new(3, 7));
    v.set_span(Span::new(10, 12));
    assert_eq!(*v.span(), Span::new(10, 12));
    assert!(matches!(v, ValueExpression::Integer(IntegerType::U32, ref s, _) if s == "1"));
    let tuple = GroupTuple { x: GroupCoordinate::Number("1".to_string(), Span::new(1, 2)), y: GroupCoordinate::Inferred, span: Span::new(0, 5) };
    let mut g = ValueExpression::Group(Box::new(GroupValue::Tuple(tuple)));
    assert_eq!(*g.span(), Span::new(0, 5));
    g.set_span(Span::new(6, 8));
    assert_eq!(*g.span(), Span::new(6, 8));
}

#[test]
fn deprecated_syntax_errors() {
    let span = LineSpan { line_start: 2, line_stop: 2, col_start: 10, col_stop: 14 };
    match DeprecatedError::mut_function_input(span) {
        DeprecatedError::Error(e) => {
            assert_eq!(e.span, LineSpan { col_start: 9, col_stop: 13, ..span });
            assert_eq!(e.message, "function func(mut a: u32) { ... } is deprecated. Passed variables are mutable by default.");
        }
    }
    match DeprecatedError::let_mut_statement(span) {
        DeprecatedError::Error(e) => assert_eq!(e.span.col_start, 9),
    }
    match DeprecatedError::test_function(&span) {
        DeprecatedError::Error(e) => {
            assert_eq!(e.span, span);
            assert_eq!(e.message, "\"test function...\" is deprecated. Did you mean @test annotation?");
        }
    }
    match DeprecatedError::context_annotation(&span) {
        DeprecatedError::Error(e) => assert_eq!(e.message, "\"@context(...)\" is deprecated. Did you mean @test annotation?"),
    }
}

#[test]
fn function_inputs_of_circuits() {
    let circ = Identifier::new(20, Span::new(0, 4));
    let input = FunctionInputType::new_from_circuit(FunctionInput::SelfKeyword(Span::new(30, 34)), circ);
    assert!(input.is_self());
    assert_eq!(*input.identifier(), Identifier::new(20, Span::new(30, 34)));
    assert_eq!(*input.span(), Span::new(30, 34));
    assert!(matches!(input.type_(), Type::Identifier(i) if i.name == 20));
    let variable = FunctionInputVariableType {
        identifier: Identifier::new(21, Span::new(40, 41)),
        type_: u8_type(),
        attribute: Some(Attribute::Mutable),
        span: Span::new(40, 45),
    };
    let input = FunctionInputType::new(FunctionInput::Variable(variable));
    assert!(!input.is_self());
    assert_eq!(*input.span(), Span::new(40, 45));
    assert!(matches!(input.type_(), Type::Integer(IntegerType::U8)));
    let input = FunctionInputType::new(FunctionInput::InputKeyword(Identifier::new(22, Span::new(1, 6))));
    assert!(!input.is_self());
    let v = CircuitVariableType::from(&CircuitType { identifier: circ });
    assert_eq!(v.identifier, circ);
    assert!(matches!(v.type_, Type::Identifier(i) if i == circ));
    assert!(v.attribute.is_none());
}

#[test]
fn circuit_members_are_found_by_name() {
    let circuit = Circuit {
        circuit_name: Identifier::new(1, Span::dummy()),
        members: vec![
            CircuitMember::CircuitVariable(false, Identifier::new(2, Span::dummy()), u8_type()),
            CircuitMember::CircuitFunction(true, Function { identifier: Identifier::new(3, Span::dummy()), span: Span::dummy() }),
            CircuitMember::CircuitFunction(false, Function { identifier: Identifier::new(2, Span::dummy()), span: Span::dummy() }),
        ],
    };
    assert_eq!(circuit.find_member(2), Some(0));
    assert_eq!(circuit.find_member(3), Some(1));
    assert_eq!(circuit.find_member(4), None);
    assert!(matches!(circuit.find_function(2), Some((false, _))));
    assert!(matches!(circuit.find_function(3), Some((true, _))));
    assert!(circuit.find_function(4).is_none());
}
