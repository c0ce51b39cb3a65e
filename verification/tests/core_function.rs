use leo_lang::ast::core_function::CoreFunction;
use leo_lang::span::sym;

#[test]
fn core_function_from_symbols_roundtrip() {
    assert_eq!(CoreFunction::from_symbols(sym::BHP256, sym::hash_to_field), Some(CoreFunction::BHP256HashToField));
    assert_eq!(CoreFunction::from_symbols(sym::Mapping, sym::get), Some(CoreFunction::MappingGet));
    assert_eq!(CoreFunction::from_symbols(sym::Poseidon2, sym::commit_to_field), None);
}

#[test]
fn core_function_num_args() {
    assert_eq!(CoreFunction::BHP256CommitToAddress.num_args(), 2);
    assert_eq!(CoreFunction::Poseidon8HashToScalar.num_args(), 1);
    assert_eq!(CoreFunction::MappingGet.num_args(), 2);
    assert_eq!(CoreFunction::MappingGetOrUse.num_args(), 3);
    assert_eq!(CoreFunction::MappingSet.num_args(), 3);
}
