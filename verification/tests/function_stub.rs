use leo_lang::ast::function_stub::{
    ClosureCore, FinalizeType, FunctionCore, FunctionStub, Input, Locator, Output, PlaintextType, RegisterType, ValueType,
};
use leo_lang::ast::types::{CompositeType, Identifier, IntegerType, Mode, Type, TypeList, Variant};
use leo_lang::span::{sym, Interner, Span};

fn ident(interner: &mut Interner, name: &str) -> Identifier {
    Identifier::new(interner.intern(name), Span::new(0, 0))
}

#[test]
fn stub_of_a_compiled_function() {
    let mut interner = Interner::new();
    let program = interner.intern("token");
    let record = ident(&mut interner, "Token");
    let other = interner.intern("credits");
    let credits_record = ident(&mut interner, "credits");
    let function = FunctionCore {
        name: ident(&mut interner, "transfer"),
        inputs: vec![
            ValueType::Record(record),
            ValueType::Public(PlaintextType::Literal(Type::Integer(IntegerType::U64))),
            ValueType::ExternalRecord(Locator { program: other, resource: credits_record }),
        ],
        outputs: vec![ValueType::Record(record), ValueType::Private(PlaintextType::Literal(Type::Field))],
        finalize_inputs: Some(vec![FinalizeType::Plaintext(PlaintextType::Literal(Type::Address))]),
    };
    let stub = FunctionStub::from_function_core(&function, program, &mut interner);
    assert_eq!(stub.identifier.name, function.name.name);
    assert!(stub.is_async);
    assert_eq!(stub.variant, Variant::Transition);
    assert_eq!(stub.input.len(), 3);
    match &stub.input[0] {
        Input::Internal(i) => {
            assert_eq!(interner.get(i.identifier.name), "arg1");
            assert_eq!(i.mode, Mode::NoMode);
            assert!(matches!(i.type_, Type::Composite(CompositeType { id, program: Some(p) }) if id == record && p == program));
        }
        other => panic!("expected an internal input, got {:?}", other),
    }
    match &stub.input[1] {
        Input::Internal(i) => {
            assert_eq!(interner.get(i.identifier.name), "arg2");
            assert_eq!(i.mode, Mode::Public);
            assert!(matches!(i.type_, Type::Integer(IntegerType::U64)));
        }
        other => panic!("expected an internal input, got {:?}", other),
    }
    match &stub.input[2] {
        Input::External(e) => {
            assert_eq!(e.program_name.name, other);
            assert_eq!(e.record, credits_record);
        }
        other => panic!("expected an external input, got {:?}", other),
    }
    assert_eq!(stub.output.len(), 2);
    assert!(matches!(&stub.output[1], Output::Internal(o) if o.mode == Mode::Private && matches!(o.type_, Type::Field)));
    match &stub.output_type {
        Type::Tuple(TypeList::Cons(first, rest)) => {
            assert!(matches!(**first, Type::Composite(_)));
            assert!(matches!(**rest, TypeList::Cons(ref second, _) if matches!(**second, Type::Field)));
        }
        other => panic!("expected a tuple output type, got {:?}", other),
    }
    assert!(!stub.is_main());
}

#[test]
fn stub_of_a_finalize_block() {
    let mut interner = Interner::new();
    let program = interner.intern("token");
    let callee = ident(&mut interner, "mint");
    let function = FunctionCore {
        name: ident(&mut interner, "transfer"),
        inputs: vec![],
        outputs: vec![],
        finalize_inputs: Some(vec![
            FinalizeType::Plaintext(PlaintextType::Literal(Type::Address)),
            FinalizeType::Future(Locator { program, resource: callee }),
        ]),
    };
    let name = interner.intern("transfer");
    let stub = FunctionStub::from_finalize(&function, name, &mut interner);
    assert_eq!(stub.input.len(), 2);
    assert_eq!(stub.future_locations.len(), 1);
    assert_eq!(stub.future_locations[0].program, program);
    assert_eq!(interner.get(stub.future_locations[0].name), "finalize/mint");
    match &stub.input[1] {
        Input::Internal(i) => {
            assert_eq!(interner.get(i.identifier.name), "arg2");
            assert!(matches!(i.type_, Type::Future(TypeList::Nil)));
        }
        other => panic!("expected an internal input, got {:?}", other),
    }
}

#[test]
fn stub_of_a_closure() {
    let mut interner = Interner::new();
    let program = interner.intern("math");
    let closure = ClosureCore {
        name: ident(&mut interner, "double"),
        inputs: vec![RegisterType::Plaintext(PlaintextType::Literal(Type::Integer(IntegerType::U8)))],
        outputs: vec![RegisterType::Plaintext(PlaintextType::Literal(Type::Integer(IntegerType::U8)))],
    };
    let stub = FunctionStub::from_closure(&closure, program, &mut interner);
    assert_eq!(stub.variant, Variant::Standard);
    assert!(!stub.is_async);
    assert!(matches!(stub.output_type, Type::Integer(IntegerType::U8)));
    assert_eq!(stub.input.len(), 1);
}

#[test]
fn main_is_recognised() {
    let stub = FunctionStub::new(
        vec![],
        false,
        Variant::Transition,
        Identifier::new(sym::main_name, Span::dummy()),
        vec![],
        vec![],
        Span::dummy(),
        0,
    );
    assert!(stub.is_main());
    assert_eq!(stub.name(), sym::main_name);
    assert!(matches!(stub.output_type, Type::Unit));
}
