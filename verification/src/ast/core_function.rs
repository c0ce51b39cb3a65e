//! The core library functions of Leo: hash and commitment functions and
//! operations on mappings, each of which maps to one bytecode instruction.

use vstd::prelude::*;

use crate::span::{sym, Symbol};

verus! {

/// A core instruction that maps directly to an AVM bytecode instruction.
#[derive(Clone, Copy, Debug, PartialEq, Eq, Structural)]
pub enum CoreFunction {
    BHP256CommitToAddress,
    BHP256CommitToField,
    BHP256CommitToGroup,
    BHP256HashToAddress,
    BHP256HashToField,
    BHP256HashToGroup,
    BHP256HashToI8,
    BHP256HashToI16,
    BHP256HashToI32,
    BHP256HashToI64,
    BHP256HashToI128,
    BHP256HashToU8,
    BHP256HashToU16,
    BHP256HashToU32,
    BHP256HashToU64,
    BHP256HashToU128,
    BHP256HashToScalar,
    BHP512CommitToAddress,
    BHP512CommitToField,
    BHP512CommitToGroup,
    BHP512HashToAddress,
    BHP512HashToField,
    BHP512HashToGroup,
    BHP512HashToScalar,
    BHP768CommitToAddress,
    BHP768CommitToField,
    BHP768CommitToGroup,
    BHP768HashToAddress,
    BHP768HashToField,
    BHP768HashToGroup,
    BHP768HashToScalar,
    BHP1024CommitToAddress,
    BHP1024CommitToField,
    BHP1024CommitToGroup,
    BHP1024HashToAddress,
    BHP1024HashToField,
    BHP1024HashToGroup,
    BHP1024HashToScalar,
    Pedersen64CommitToAddress,
    Pedersen64CommitToField,
    Pedersen64CommitToGroup,
    Pedersen64HashToAddress,
    Pedersen64HashToField,
    Pedersen64HashToGroup,
    Pedersen64HashToScalar,
    Pedersen128CommitToAddress,
    Pedersen128CommitToField,
    Pedersen128CommitToGroup,
    Pedersen128HashToAddress,
    Pedersen128HashToField,
    Pedersen128HashToGroup,
    Pedersen128HashToScalar,
    Poseidon2HashToAddress,
    Poseidon2HashToField,
    Poseidon2HashToGroup,
    Poseidon2HashToScalar,
    Poseidon4HashToAddress,
    Poseidon4HashToField,
    Poseidon4HashToGroup,
    Poseidon4HashToScalar,
    Poseidon8HashToAddress,
    Poseidon8HashToField,
    Poseidon8HashToGroup,
    Poseidon8HashToScalar,
    MappingGet,
    MappingGetOrUse,
    MappingSet,
}

impl CoreFunction {
    /// The pair of symbols that names the function: the core struct and the method.
    pub open spec fn symbols(self) -> (Symbol, Symbol) {
        match self {
            CoreFunction::BHP256CommitToAddress => (sym::BHP256, sym::commit_to_address),
            CoreFunction::BHP256CommitToField => (sym::BHP256, sym::commit_to_field),
            CoreFunction::BHP256CommitToGroup => (sym::BHP256, sym::commit_to_group),
            CoreFunction::BHP256HashToAddress => (sym::BHP256, sym::hash_to_address),
            CoreFunction::BHP256HashToField => (sym::BHP256, sym::hash_to_field),
            CoreFunction::BHP256HashToGroup => (sym::BHP256, sym::hash_to_group),
            CoreFunction::BHP256HashToI8 => (sym::BHP256, sym::hash_to_i8),
            CoreFunction::BHP256HashToI16 => (sym::BHP256, sym::hash_to_i16),
            CoreFunction::BHP256HashToI32 => (sym::BHP256, sym::hash_to_i32),
            CoreFunction::BHP256HashToI64 => (sym::BHP256, sym::hash_to_i64),
            CoreFunction::BHP256HashToI128 => (sym::BHP256, sym::hash_to_i128),
            CoreFunction::BHP256HashToU8 => (sym::BHP256, sym::hash_to_u8),
            CoreFunction::BHP256HashToU16 => (sym::BHP256, sym::hash_to_u16),
            CoreFunction::BHP256HashToU32 => (sym::BHP256, sym::hash_to_u32),
            CoreFunction::BHP256HashToU64 => (sym::BHP256, sym::hash_to_u64),
            CoreFunction::BHP256HashToU128 => (sym::BHP256, sym::hash_to_u128),
            CoreFunction::BHP256HashToScalar => (sym::BHP256, sym::hash_to_scalar),
            CoreFunction::BHP512CommitToAddress => (sym::BHP512, sym::commit_to_address),
            CoreFunction::BHP512CommitToField => (sym::BHP512, sym::commit_to_field),
            CoreFunction::BHP512CommitToGroup => (sym::BHP512, sym::commit_to_group),
            CoreFunction::BHP512HashToAddress => (sym::BHP512, sym::hash_to_address),
            CoreFunction::BHP512HashToField => (sym::BHP512, sym::hash_to_field),
            CoreFunction::BHP512HashToGroup => (sym::BHP512, sym::hash_to_group),
            CoreFunction::BHP512HashToScalar => (sym::BHP512, sym::hash_to_scalar),
            CoreFunction::BHP768CommitToAddress => (sym::BHP768, sym::commit_to_address),
            CoreFunction::BHP768CommitToField => (sym::BHP768, sym::commit_to_field),
            CoreFunction::BHP768CommitToGroup => (sym::BHP768, sym::commit_to_group),
            CoreFunction::BHP768HashToAddress => (sym::BHP768, sym::hash_to_address),
            CoreFunction::BHP768HashToField => (sym::BHP768, sym::hash_to_field),
            CoreFunction::BHP768HashToGroup => (sym::BHP768, sym::hash_to_group),
            CoreFunction::BHP768HashToScalar => (sym::BHP768, sym::hash_to_scalar),
            CoreFunction::BHP1024CommitToAddress => (sym::BHP1024, sym::commit_to_address),
            CoreFunction::BHP1024CommitToField => (sym::BHP1024, sym::commit_to_field),
            CoreFunction::BHP1024CommitToGroup => (sym::BHP1024, sym::commit_to_group),
            CoreFunction::BHP1024HashToAddress => (sym::BHP1024, sym::hash_to_address),
            CoreFunction::BHP1024HashToField => (sym::BHP1024, sym::hash_to_field),
            CoreFunction::BHP1024HashToGroup => (sym::BHP1024, sym::hash_to_group),
            CoreFunction::BHP1024HashToScalar => (sym::BHP1024, sym::hash_to_scalar),
            CoreFunction::Pedersen64CommitToAddress => (sym::Pedersen64, sym::commit_to_address),
            CoreFunction::Pedersen64CommitToField => (sym::Pedersen64, sym::commit_to_field),
            CoreFunction::Pedersen64CommitToGroup => (sym::Pedersen64, sym::commit_to_group),
            CoreFunction::Pedersen64HashToAddress => (sym::Pedersen64, sym::hash_to_address),
            CoreFunction::Pedersen64HashToField => (sym::Pedersen64, sym::hash_to_field),
            CoreFunction::Pedersen64HashToGroup => (sym::Pedersen64, sym::hash_to_group),
            CoreFunction::Pedersen64HashToScalar => (sym::Pedersen64, sym::hash_to_scalar),
            CoreFunction::Pedersen128CommitToAddress => (sym::Pedersen128, sym::commit_to_address),
            CoreFunction::Pedersen128CommitToField => (sym::Pedersen128, sym::commit_to_field),
            CoreFunction::Pedersen128CommitToGroup => (sym::Pedersen128, sym::commit_to_group),
            CoreFunction::Pedersen128HashToAddress => (sym::Pedersen128, sym::hash_to_address),
            CoreFunction::Pedersen128HashToField => (sym::Pedersen128, sym::hash_to_field),
            CoreFunction::Pedersen128HashToGroup => (sym::Pedersen128, sym::hash_to_group),
            CoreFunction::Pedersen128HashToScalar => (sym::Pedersen128, sym::hash_to_scalar),
            CoreFunction::Poseidon2HashToAddress => (sym::Poseidon2, sym::hash_to_address),
            CoreFunction::Poseidon2HashToField => (sym::Poseidon2, sym::hash_to_field),
            CoreFunction::Poseidon2HashToGroup => (sym::Poseidon2, sym::hash_to_group),
            CoreFunction::Poseidon2HashToScalar => (sym::Poseidon2, sym::hash_to_scalar),
            CoreFunction::Poseidon4HashToAddress => (sym::Poseidon4, sym::hash_to_address),
            CoreFunction::Poseidon4HashToField => (sym::Poseidon4, sym::hash_to_field),
            CoreFunction::Poseidon4HashToGroup => (sym::Poseidon4, sym::hash_to_group),
            CoreFunction::Poseidon4HashToScalar => (sym::Poseidon4, sym::hash_to_scalar),
            CoreFunction::Poseidon8HashToAddress => (sym::Poseidon8, sym::hash_to_address),
            CoreFunction::Poseidon8HashToField => (sym::Poseidon8, sym::hash_to_field),
            CoreFunction::Poseidon8HashToGroup => (sym::Poseidon8, sym::hash_to_group),
            CoreFunction::Poseidon8HashToScalar => (sym::Poseidon8, sym::hash_to_scalar),
            CoreFunction::MappingGet => (sym::Mapping, sym::get),
            CoreFunction::MappingGetOrUse => (sym::Mapping, sym::get_or_use),
            CoreFunction::MappingSet => (sym::Mapping, sym::set),
        }
    }

    /// Whether the function is a commitment, which takes a value and a randomizer.
    pub open spec fn is_commit(self) -> bool {
        match self {
            CoreFunction::BHP256CommitToAddress
            | CoreFunction::BHP256CommitToField
            | CoreFunction::BHP256CommitToGroup
            | CoreFunction::BHP512CommitToAddress
            | CoreFunction::BHP512CommitToField
            | CoreFunction::BHP512CommitToGroup
            | CoreFunction::BHP768CommitToAddress
            | CoreFunction::BHP768CommitToField
            | CoreFunction::BHP768CommitToGroup
            | CoreFunction::BHP1024CommitToAddress
            | CoreFunction::BHP1024CommitToField
            | CoreFunction::BHP1024CommitToGroup
            | CoreFunction::Pedersen64CommitToAddress
            | CoreFunction::Pedersen64CommitToField
            | CoreFunction::Pedersen64CommitToGroup
            | CoreFunction::Pedersen128CommitToAddress
            | CoreFunction::Pedersen128CommitToField
            | CoreFunction::Pedersen128CommitToGroup => true,
            _ => false,
        }
    }

    /// Whether the function is a hash, which takes a single value.
    pub open spec fn is_hash(self) -> bool {
        !self.is_commit() && !self.is_mapping_operation()
    }

    /// Whether the function operates on a mapping.
    pub open spec fn is_mapping_operation(self) -> bool {
        self == CoreFunction::MappingGet || self == CoreFunction::MappingGetOrUse || self == CoreFunction::MappingSet
    }

    /// The number of arguments that the instruction takes.
    pub open spec fn spec_num_args(self) -> usize {
        if self.is_commit() {
            2
        } else if self.is_hash() {
            1
        } else if self == CoreFunction::MappingGet {
            2
        } else {
            3
        }
    }

    /// Returns a `CoreFunction` from the given module and method symbols.
    pub fn from_symbols(module: Symbol, function: Symbol) -> (r: Option<Self>)
        ensures
            r matches Some(f) ==> f.symbols() == (module, function),
            r is None ==> forall|f: CoreFunction| #[trigger] f.symbols() != (module, function),
    {
        if module == sym::BHP256 {
            if function == sym::commit_to_address { return Some(CoreFunction::BHP256CommitToAddress); }
            if function == sym::commit_to_field { return Some(CoreFunction::BHP256CommitToField); }
            if function == sym::commit_to_group { return Some(CoreFunction::BHP256CommitToGroup); }
            if function == sym::hash_to_address { return Some(CoreFunction::BHP256HashToAddress); }
            if function == sym::hash_to_field { return Some(CoreFunction::BHP256HashToField); }
            if function == sym::hash_to_group { return Some(CoreFunction::BHP256HashToGroup); }
            if function == sym::hash_to_i8 { return Some(CoreFunction::BHP256HashToI8); }
            if function == sym::hash_to_i16 { return Some(CoreFunction::BHP256HashToI16); }
            if function == sym::hash_to_i32 { return Some(CoreFunction::BHP256HashToI32); }
            if function == sym::hash_to_i64 { return Some(CoreFunction::BHP256HashToI64); }
            if function == sym::hash_to_i128 { return Some(CoreFunction::BHP256HashToI128); }
            if function == sym::hash_to_u8 { return Some(CoreFunction::BHP256HashToU8); }
            if function == sym::hash_to_u16 { return Some(CoreFunction::BHP256HashToU16); }
            if function == sym::hash_to_u32 { return Some(CoreFunction::BHP256HashToU32); }
            if function == sym::hash_to_u64 { return Some(CoreFunction::BHP256HashToU64); }
            if function == sym::hash_to_u128 { return Some(CoreFunction::BHP256HashToU128); }
            if function == sym::hash_to_scalar { return Some(CoreFunction::BHP256HashToScalar); }
            return None;
        }
        if module == sym::BHP512 {
            if function == sym::commit_to_address { return Some(CoreFunction::BHP512CommitToAddress); }
            if function == sym::commit_to_field { return Some(CoreFunction::BHP512CommitToField); }
            if function == sym::commit_to_group { return Some(CoreFunction::BHP512CommitToGroup); }
            if function == sym::hash_to_address { return Some(CoreFunction::BHP512HashToAddress); }
            if function == sym::hash_to_field { return Some(CoreFunction::BHP512HashToField); }
            if function == sym::hash_to_group { return Some(CoreFunction::BHP512HashToGroup); }
            if function == sym::hash_to_scalar { return Some(CoreFunction::BHP512HashToScalar); }
            return None;
        }
        if module == sym::BHP768 {
            if function == sym::commit_to_address { return Some(CoreFunction::BHP768CommitToAddress); }
            if function == sym::commit_to_field { return Some(CoreFunction::BHP768CommitToField); }
            if function == sym::commit_to_group { return Some(CoreFunction::BHP768CommitToGroup); }
            if function == sym::hash_to_address { return Some(CoreFunction::BHP768HashToAddress); }
            if function == sym::hash_to_field { return Some(CoreFunction::BHP768HashToField); }
            if function == sym::hash_to_group { return Some(CoreFunction::BHP768HashToGroup); }
            if function == sym::hash_to_scalar { return Some(CoreFunction::BHP768HashToScalar); }
            return None;
        }
        if module == sym::BHP1024 {
            if function == sym::commit_to_address { return Some(CoreFunction::BHP1024CommitToAddress); }
            if function == sym::commit_to_field { return Some(CoreFunction::BHP1024CommitToField); }
            if function == sym::commit_to_group { return Some(CoreFunction::BHP1024CommitToGroup); }
            if function == sym::hash_to_address { return Some(CoreFunction::BHP1024HashToAddress); }
            if function == sym::hash_to_field { return Some(CoreFunction::BHP1024HashToField); }
            if function == sym::hash_to_group { return Some(CoreFunction::BHP1024HashToGroup); }
            if function == sym::hash_to_scalar { return Some(CoreFunction::BHP1024HashToScalar); }
            return None;
        }
        if module == sym::Pedersen64 {
            if function == sym::commit_to_address { return Some(CoreFunction::Pedersen64CommitToAddress); }
            if function == sym::commit_to_field { return Some(CoreFunction::Pedersen64CommitToField); }
            if function == sym::commit_to_group { return Some(CoreFunction::Pedersen64CommitToGroup); }
            if function == sym::hash_to_address { return Some(CoreFunction::Pedersen64HashToAddress); }
            if function == sym::hash_to_field { return Some(CoreFunction::Pedersen64HashToField); }
            if function == sym::hash_to_group { return Some(CoreFunction::Pedersen64HashToGroup); }
            if function == sym::hash_to_scalar { return Some(CoreFunction::Pedersen64HashToScalar); }
            return None;
        }
        if module == sym::Pedersen128 {
            if function == sym::commit_to_address { return Some(CoreFunction::Pedersen128CommitToAddress); }
            if function == sym::commit_to_field { return Some(CoreFunction::Pedersen128CommitToField); }
            if function == sym::commit_to_group { return Some(CoreFunction::Pedersen128CommitToGroup); }
            if function == sym::hash_to_address { return Some(CoreFunction::Pedersen128HashToAddress); }
            if function == sym::hash_to_field { return Some(CoreFunction::Pedersen128HashToField); }
            if function == sym::hash_to_group { return Some(CoreFunction::Pedersen128HashToGroup); }
            if function == sym::hash_to_scalar { return Some(CoreFunction::Pedersen128HashToScalar); }
            return None;
        }
        if module == sym::Poseidon2 {
            if function == sym::hash_to_address { return Some(CoreFunction::Poseidon2HashToAddress); }
            if function == sym::hash_to_field { return Some(CoreFunction::Poseidon2HashToField); }
            if function == sym::hash_to_group { return Some(CoreFunction::Poseidon2HashToGroup); }
            if function == sym::hash_to_scalar { return Some(CoreFunction::Poseidon2HashToScalar); }
            return None;
        }
        if module == sym::Poseidon4 {
            if function == sym::hash_to_address { return Some(CoreFunction::Poseidon4HashToAddress); }
            if function == sym::hash_to_field { return Some(CoreFunction::Poseidon4HashToField); }
            if function == sym::hash_to_group { return Some(CoreFunction::Poseidon4HashToGroup); }
            if function == sym::hash_to_scalar { return Some(CoreFunction::Poseidon4HashToScalar); }
            return None;
        }
        if module == sym::Poseidon8 {
            if function == sym::hash_to_address { return Some(CoreFunction::Poseidon8HashToAddress); }
            if function == sym::hash_to_field { return Some(CoreFunction::Poseidon8HashToField); }
            if function == sym::hash_to_group { return Some(CoreFunction::Poseidon8HashToGroup); }
            if function == sym::hash_to_scalar { return Some(CoreFunction::Poseidon8HashToScalar); }
            return None;
        }
        if module == sym::Mapping {
            if function == sym::get { return Some(CoreFunction::MappingGet); }
            if function == sym::get_or_use { return Some(CoreFunction::MappingGetOrUse); }
            if function == sym::set { return Some(CoreFunction::MappingSet); }
            return None;
        }
        None
    }

    /// Returns the number of arguments required by the instruction.
    pub fn num_args(&self) -> (n: usize)
        ensures
            n == self.spec_num_args(),
    {
        match self {
            CoreFunction::BHP256CommitToAddress => 2,
            CoreFunction::BHP256CommitToField => 2,
            CoreFunction::BHP256CommitToGroup => 2,
            CoreFunction::BHP256HashToAddress => 1,
            CoreFunction::BHP256HashToField => 1,
            CoreFunction::BHP256HashToGroup => 1,
            CoreFunction::BHP256HashToI8 => 1,
            CoreFunction::BHP256HashToI16 => 1,
            CoreFunction::BHP256HashToI32 => 1,
            CoreFunction::BHP256HashToI64 => 1,
            CoreFunction::BHP256HashToI128 => 1,
            CoreFunction::BHP256HashToU8 => 1,
            CoreFunction::BHP256HashToU16 => 1,
            CoreFunction::BHP256HashToU32 => 1,
            CoreFunction::BHP256HashToU64 => 1,
            CoreFunction::BHP256HashToU128 => 1,
            CoreFunction::BHP256HashToScalar => 1,
            CoreFunction::BHP512CommitToAddress => 2,
            CoreFunction::BHP512CommitToField => 2,
            CoreFunction::BHP512CommitToGroup => 2,
            CoreFunction::BHP512HashToAddress => 1,
            CoreFunction::BHP512HashToField => 1,
            CoreFunction::BHP512HashToGroup => 1,
            CoreFunction::BHP512HashToScalar => 1,
            CoreFunction::BHP768CommitToAddress => 2,
            CoreFunction::BHP768CommitToField => 2,
            CoreFunction::BHP768CommitToGroup => 2,
            CoreFunction::BHP768HashToAddress => 1,
            CoreFunction::BHP768HashToField => 1,
            CoreFunction::BHP768HashToGroup => 1,
            CoreFunction::BHP768HashToScalar => 1,
            CoreFunction::BHP1024CommitToAddress => 2,
            CoreFunction::BHP1024CommitToField => 2,
            CoreFunction::BHP1024CommitToGroup => 2,
            CoreFunction::BHP1024HashToAddress => 1,
            CoreFunction::BHP1024HashToField => 1,
            CoreFunction::BHP1024HashToGroup => 1,
            CoreFunction::BHP1024HashToScalar => 1,
            CoreFunction::Pedersen64CommitToAddress => 2,
            CoreFunction::Pedersen64CommitToField => 2,
            CoreFunction::Pedersen64CommitToGroup => 2,
            CoreFunction::Pedersen64HashToAddress => 1,
            CoreFunction::Pedersen64HashToField => 1,
            CoreFunction::Pedersen64HashToGroup => 1,
            CoreFunction::Pedersen64HashToScalar => 1,
            CoreFunction::Pedersen128CommitToAddress => 2,
            CoreFunction::Pedersen128CommitToField => 2,
            CoreFunction::Pedersen128CommitToGroup => 2,
            CoreFunction::Pedersen128HashToAddress => 1,
            CoreFunction::Pedersen128HashToField => 1,
            CoreFunction::Pedersen128HashToGroup => 1,
            CoreFunction::Pedersen128HashToScalar => 1,
            CoreFunction::Poseidon2HashToAddress => 1,
            CoreFunction::Poseidon2HashToField => 1,
            CoreFunction::Poseidon2HashToGroup => 1,
            CoreFunction::Poseidon2HashToScalar => 1,
            CoreFunction::Poseidon4HashToAddress => 1,
            CoreFunction::Poseidon4HashToField => 1,
            CoreFunction::Poseidon4HashToGroup => 1,
            CoreFunction::Poseidon4HashToScalar => 1,
            CoreFunction::Poseidon8HashToAddress => 1,
            CoreFunction::Poseidon8HashToField => 1,
            CoreFunction::Poseidon8HashToGroup => 1,
            CoreFunction::Poseidon8HashToScalar => 1,
            CoreFunction::MappingGet => 2,
            CoreFunction::MappingGetOrUse => 3,
            CoreFunction::MappingSet => 3,
        }
    }
}

/// No two core functions share their module and function symbols, so that `from_symbols`
/// recognises each core function from its own symbols.
pub proof fn law_symbols_identify_core_function(f: CoreFunction, g: CoreFunction)
    requires
        f.symbols() == g.symbols(),
    ensures
        f == g,
{
}

/// Each core function is named by its own module and method, as Leo programs write its call:
/// the module is the variant's algorithm (`BHP256` to `Poseidon8`, or `Mapping`) and the method
/// what the variant does (`hash_to_T`, `commit_to_T`, `get`, `get_or_use`, `set`). So the
/// function that `from_symbols` finds for a module and a method is the variant of that name, as
/// `BHP512HashToField` for `BHP512` and `hash_to_field`.
pub proof fn law_core_function_names(f: CoreFunction)
    ensures
        f == CoreFunction::BHP256CommitToAddress <==> f.symbols() == (sym::BHP256, sym::commit_to_address),
        f == CoreFunction::BHP256CommitToField <==> f.symbols() == (sym::BHP256, sym::commit_to_field),
        f == CoreFunction::BHP256CommitToGroup <==> f.symbols() == (sym::BHP256, sym::commit_to_group),
        f == CoreFunction::BHP256HashToAddress <==> f.symbols() == (sym::BHP256, sym::hash_to_address),
        f == CoreFunction::BHP256HashToField <==> f.symbols() == (sym::BHP256, sym::hash_to_field),
        f == CoreFunction::BHP256HashToGroup <==> f.symbols() == (sym::BHP256, sym::hash_to_group),
        f == CoreFunction::BHP256HashToI8 <==> f.symbols() == (sym::BHP256, sym::hash_to_i8),
        f == CoreFunction::BHP256HashToI16 <==> f.symbols() == (sym::BHP256, sym::hash_to_i16),
        f == CoreFunction::BHP256HashToI32 <==> f.symbols() == (sym::BHP256, sym::hash_to_i32),
        f == CoreFunction::BHP256HashToI64 <==> f.symbols() == (sym::BHP256, sym::hash_to_i64),
        f == CoreFunction::BHP256HashToI128 <==> f.symbols() == (sym::BHP256, sym::hash_to_i128),
        f == CoreFunction::BHP256HashToU8 <==> f.symbols() == (sym::BHP256, sym::hash_to_u8),
        f == CoreFunction::BHP256HashToU16 <==> f.symbols() == (sym::BHP256, sym::hash_to_u16),
        f == CoreFunction::BHP256HashToU32 <==> f.symbols() == (sym::BHP256, sym::hash_to_u32),
        f == CoreFunction::BHP256HashToU64 <==> f.symbols() == (sym::BHP256, sym::hash_to_u64),
        f == CoreFunction::BHP256HashToU128 <==> f.symbols() == (sym::BHP256, sym::hash_to_u128),
        f == CoreFunction::BHP256HashToScalar <==> f.symbols() == (sym::BHP256, sym::hash_to_scalar),
        f == CoreFunction::BHP512CommitToAddress <==> f.symbols() == (sym::BHP512, sym::commit_to_address),
        f == CoreFunction::BHP512CommitToField <==> f.symbols() == (sym::BHP512, sym::commit_to_field),
        f == CoreFunction::BHP512CommitToGroup <==> f.symbols() == (sym::BHP512, sym::commit_to_group),
        f == CoreFunction::BHP512HashToAddress <==> f.symbols() == (sym::BHP512, sym::hash_to_address),
        f == CoreFunction::BHP512HashToField <==> f.symbols() == (sym::BHP512, sym::hash_to_field),
        f == CoreFunction::BHP512HashToGroup <==> f.symbols() == (sym::BHP512, sym::hash_to_group),
        f == CoreFunction::BHP512HashToScalar <==> f.symbols() == (sym::BHP512, sym::hash_to_scalar),
        f == CoreFunction::BHP768CommitToAddress <==> f.symbols() == (sym::BHP768, sym::commit_to_address),
        f == CoreFunction::BHP768CommitToField <==> f.symbols() == (sym::BHP768, sym::commit_to_field),
        f == CoreFunction::BHP768CommitToGroup <==> f.symbols() == (sym::BHP768, sym::commit_to_group),
        f == CoreFunction::BHP768HashToAddress <==> f.symbols() == (sym::BHP768, sym::hash_to_address),
        f == CoreFunction::BHP768HashToField <==> f.symbols() == (sym::BHP768, sym::hash_to_field),
        f == CoreFunction::BHP768HashToGroup <==> f.symbols() == (sym::BHP768, sym::hash_to_group),
        f == CoreFunction::BHP768HashToScalar <==> f.symbols() == (sym::BHP768, sym::hash_to_scalar),
        f == CoreFunction::BHP1024CommitToAddress <==> f.symbols() == (sym::BHP1024, sym::commit_to_address),
        f == CoreFunction::BHP1024CommitToField <==> f.symbols() == (sym::BHP1024, sym::commit_to_field),
        f == CoreFunction::BHP1024CommitToGroup <==> f.symbols() == (sym::BHP1024, sym::commit_to_group),
        f == CoreFunction::BHP1024HashToAddress <==> f.symbols() == (sym::BHP1024, sym::hash_to_address),
        f == CoreFunction::BHP1024HashToField <==> f.symbols() == (sym::BHP1024, sym::hash_to_field),
        f == CoreFunction::BHP1024HashToGroup <==> f.symbols() == (sym::BHP1024, sym::hash_to_group),
        f == CoreFunction::BHP1024HashToScalar <==> f.symbols() == (sym::BHP1024, sym::hash_to_scalar),
        f == CoreFunction::Pedersen64CommitToAddress <==> f.symbols() == (sym::Pedersen64, sym::commit_to_address),
        f == CoreFunction::Pedersen64CommitToField <==> f.symbols() == (sym::Pedersen64, sym::commit_to_field),
        f == CoreFunction::Pedersen64CommitToGroup <==> f.symbols() == (sym::Pedersen64, sym::commit_to_group),
        f == CoreFunction::Pedersen64HashToAddress <==> f.symbols() == (sym::Pedersen64, sym::hash_to_address),
        f == CoreFunction::Pedersen64HashToField <==> f.symbols() == (sym::Pedersen64, sym::hash_to_field),
        f == CoreFunction::Pedersen64HashToGroup <==> f.symbols() == (sym::Pedersen64, sym::hash_to_group),
        f == CoreFunction::Pedersen64HashToScalar <==> f.symbols() == (sym::Pedersen64, sym::hash_to_scalar),
        f == CoreFunction::Pedersen128CommitToAddress <==> f.symbols() == (sym::Pedersen128, sym::commit_to_address),
        f == CoreFunction::Pedersen128CommitToField <==> f.symbols() == (sym::Pedersen128, sym::commit_to_field),
        f == CoreFunction::Pedersen128CommitToGroup <==> f.symbols() == (sym::Pedersen128, sym::commit_to_group),
        f == CoreFunction::Pedersen128HashToAddress <==> f.symbols() == (sym::Pedersen128, sym::hash_to_address),
        f == CoreFunction::Pedersen128HashToField <==> f.symbols() == (sym::Pedersen128, sym::hash_to_field),
        f == CoreFunction::Pedersen128HashToGroup <==> f.symbols() == (sym::Pedersen128, sym::hash_to_group),
        f == CoreFunction::Pedersen128HashToScalar <==> f.symbols() == (sym::Pedersen128, sym::hash_to_scalar),
        f == CoreFunction::Poseidon2HashToAddress <==> f.symbols() == (sym::Poseidon2, sym::hash_to_address),
        f == CoreFunction::Poseidon2HashToField <==> f.symbols() == (sym::Poseidon2, sym::hash_to_field),
        f == CoreFunction::Poseidon2HashToGroup <==> f.symbols() == (sym::Poseidon2, sym::hash_to_group),
        f == CoreFunction::Poseidon2HashToScalar <==> f.symbols() == (sym::Poseidon2, sym::hash_to_scalar),
        f == CoreFunction::Poseidon4HashToAddress <==> f.symbols() == (sym::Poseidon4, sym::hash_to_address),
        f == CoreFunction::Poseidon4HashToField <==> f.symbols() == (sym::Poseidon4, sym::hash_to_field),
        f == CoreFunction::Poseidon4HashToGroup <==> f.symbols() == (sym::Poseidon4, sym::hash_to_group),
        f == CoreFunction::Poseidon4HashToScalar <==> f.symbols() == (sym::Poseidon4, sym::hash_to_scalar),
        f == CoreFunction::Poseidon8HashToAddress <==> f.symbols() == (sym::Poseidon8, sym::hash_to_address),
        f == CoreFunction::Poseidon8HashToField <==> f.symbols() == (sym::Poseidon8, sym::hash_to_field),
        f == CoreFunction::Poseidon8HashToGroup <==> f.symbols() == (sym::Poseidon8, sym::hash_to_group),
        f == CoreFunction::Poseidon8HashToScalar <==> f.symbols() == (sym::Poseidon8, sym::hash_to_scalar),
        f == CoreFunction::MappingGet <==> f.symbols() == (sym::Mapping, sym::get),
        f == CoreFunction::MappingGetOrUse <==> f.symbols() == (sym::Mapping, sym::get_or_use),
        f == CoreFunction::MappingSet <==> f.symbols() == (sym::Mapping, sym::set),
{
}

/// The number of arguments of a core function follows from its method: a commitment
/// (`commit_to_T`) takes a value and a randomizer, a hash (`hash_to_T`) a single value, `get`
/// a mapping and a key, `get_or_use` and `set` a mapping, a key and a value.
pub proof fn law_core_arity_named_by_method(f: CoreFunction)
    ensures
        f.is_commit() <==> (f.symbols().1 == sym::commit_to_address || f.symbols().1 == sym::commit_to_field
            || f.symbols().1 == sym::commit_to_group),
        f.is_mapping_operation() <==> f.symbols().0 == sym::Mapping,
        f.is_commit() ==> f.spec_num_args() == 2,
        f.is_hash() ==> f.spec_num_args() == 1,
        f.symbols() == (sym::Mapping, sym::get) ==> f.spec_num_args() == 2,
        f.symbols() == (sym::Mapping, sym::get_or_use) ==> f.spec_num_args() == 3,
        f.symbols() == (sym::Mapping, sym::set) ==> f.spec_num_args() == 3,
{
}

} // verus!
