//! The symbol table that the type checker consults: the functions, structs and
//! variables that are in scope.

use vstd::prelude::*;

use crate::ast::types::{Mode, Type};
use crate::passes::errors::TypeCheckerError;
use crate::span::{Span, Symbol};

verus! {

/// How a variable was declared.
#[derive(Clone, Copy, Debug, PartialEq, Eq, Structural)]
pub enum VariableType {
    Const,
    Input(Mode),
    Mut,
}

/// A variable in scope.
#[derive(Debug)]
pub struct VariableSymbol {
    pub type_: Type,
    pub span: Span,
    pub declaration: VariableType,
}

/// A function in scope: its name, and the number of inputs of its finalize block, where it has
/// one.
#[derive(Clone, Copy, Debug, PartialEq, Eq, Structural)]
pub struct FunctionSymbol {
    pub name: Symbol,
    pub finalize: Option<usize>,
}

/// A struct or record in scope.
#[derive(Clone, Copy, Debug, PartialEq, Eq, Structural)]
pub struct StructSymbol {
    pub name: Symbol,
    pub is_record: bool,
}

/// The functions, structs and variables in scope.
#[derive(Debug)]
pub struct SymbolTable {
    pub functions: Vec<FunctionSymbol>,
    pub structs: Vec<StructSymbol>,
    pub variables: Vec<(Symbol, VariableSymbol)>,
}

/// The names of the functions, in order.
pub open spec fn function_names(functions: Seq<FunctionSymbol>) -> Seq<Symbol> {
    functions.map_values(|f: FunctionSymbol| f.name)
}

/// The first function of the sequence with the given name, if any.
pub open spec fn find_function(functions: Seq<FunctionSymbol>, name: Symbol) -> Option<FunctionSymbol>
    decreases functions.len(),
{
    if functions.len() == 0 {
        None
    } else if functions[0].name == name {
        Some(functions[0])
    } else {
        find_function(functions.subrange(1, functions.len() as int), name)
    }
}

/// The first struct of the sequence with the given name, if any.
pub open spec fn find_struct(structs: Seq<StructSymbol>, name: Symbol) -> Option<StructSymbol>
    decreases structs.len(),
{
    if structs.len() == 0 {
        None
    } else if structs[0].name == name {
        Some(structs[0])
    } else {
        find_struct(structs.subrange(1, structs.len() as int), name)
    }
}

/// The error, if any, that declaring a variable with the given name reports.
pub open spec fn shadowing_error(table: SymbolTable, name: Symbol, span: Span) -> Option<TypeCheckerError> {
    shadow_error(function_names(table.functions@), table.structs@, table.variables@, name, span)
}

/// The error, if any, that declaring a variable with the given name reports where these
/// functions, structs and variables are in scope.
pub open spec fn shadow_error(
    functions: Seq<Symbol>,
    structs: Seq<StructSymbol>,
    variables: Seq<(Symbol, VariableSymbol)>,
    name: Symbol,
    span: Span,
) -> Option<TypeCheckerError> {
    if functions.contains(name) {
        Some(TypeCheckerError::ShadowedFunction { name, span })
    } else if find_struct(structs, name) is Some {
        if find_struct(structs, name).unwrap().is_record {
            Some(TypeCheckerError::ShadowedRecord { name, span })
        } else {
            Some(TypeCheckerError::ShadowedStruct { name, span })
        }
    } else if exists|i: int| 0 <= i < variables.len() && (#[trigger] variables[i]).0 == name {
        Some(TypeCheckerError::ShadowedVariable { name, span })
    } else {
        None
    }
}

impl SymbolTable {
    /// Creates a symbol table with the given functions and structs, and no variables.
    pub fn new(functions: Vec<FunctionSymbol>, structs: Vec<StructSymbol>) -> (t: SymbolTable)
        ensures
            t.functions@ == functions@,
            t.structs@ == structs@,
            t.variables@.len() == 0,
    {
        SymbolTable { functions, structs, variables: Vec::new() }
    }

    /// Returns the names of the functions, in order.
    pub fn function_names(&self) -> (names: Vec<Symbol>)
        ensures
            names@ == function_names(self.functions@),
    {
        let mut names: Vec<Symbol> = Vec::new();
        let mut i: usize = 0;
        while i < self.functions.len()
            invariant
                i <= self.functions@.len(),
                names@ == function_names(self.functions@.subrange(0, i as int)),
            decreases self.functions.len() - i,
        {
            names.push(self.functions[i].name);
            i = i + 1;
            assert(names@ =~= function_names(self.functions@.subrange(0, i as int)));
        }
        assert(self.functions@.subrange(0, i as int) =~= self.functions@);
        names
    }

    /// Returns the first function with the given name, if any.
    pub fn lookup_function(&self, name: Symbol) -> (f: Option<FunctionSymbol>)
        ensures
            f == find_function(self.functions@, name),
    {
        let mut i: usize = 0;
        assert(self.functions@.subrange(0, self.functions@.len() as int) =~= self.functions@);
        while i < self.functions.len()
            invariant
                i <= self.functions@.len(),
                find_function(self.functions@, name) == find_function(
                    self.functions@.subrange(i as int, self.functions@.len() as int),
                    name,
                ),
            decreases self.functions.len() - i,
        {
            let ghost rest = self.functions@.subrange(i as int, self.functions@.len() as int);
            assert(rest.subrange(1, rest.len() as int) =~= self.functions@.subrange(i + 1, self.functions@.len() as int));
            if self.functions[i].name == name {
                return Some(self.functions[i]);
            }
            i = i + 1;
        }
        None
    }

    /// Returns the first struct with the given name, if any.
    pub fn lookup_struct(&self, name: Symbol) -> (s: Option<StructSymbol>)
        ensures
            s == find_struct(self.structs@, name),
    {
        let mut i: usize = 0;
        assert(self.structs@.subrange(0, self.structs@.len() as int) =~= self.structs@);
        while i < self.structs.len()
            invariant
                i <= self.structs@.len(),
                find_struct(self.structs@, name) == find_struct(
                    self.structs@.subrange(i as int, self.structs@.len() as int),
                    name,
                ),
            decreases self.structs.len() - i,
        {
            let ghost rest = self.structs@.subrange(i as int, self.structs@.len() as int);
            assert(rest.subrange(1, rest.len() as int) =~= self.structs@.subrange(i + 1, self.structs@.len() as int));
            if self.structs[i].name == name {
                return Some(self.structs[i]);
            }
            i = i + 1;
        }
        None
    }

    /// Declares a variable, unless its name is that of a function, struct, record or variable in
    /// scope, in which case the table is unchanged and the error is returned.
    pub fn insert_variable(&mut self, name: Symbol, variable: VariableSymbol) -> (r: Result<(), TypeCheckerError>)
        ensures
            final(self).functions@ == old(self).functions@,
            final(self).structs@ == old(self).structs@,
            shadowing_error(*old(self), name, variable.span) matches Some(e) ==> r == Err::<(), TypeCheckerError>(e)
                && final(self).variables@ == old(self).variables@,
            shadowing_error(*old(self), name, variable.span) is None ==> r is Ok
                && final(self).variables@ == old(self).variables@.push((name, variable)),
    {
        let span = variable.span;
        let mut i: usize = 0;
        while i < self.functions.len()
            invariant
                i <= self.functions@.len(),
                forall|j: int| 0 <= j < i ==> self.functions@[j].name != name,
                *self == *old(self),
                span == variable.span,
            decreases self.functions.len() - i,
        {
            if self.functions[i].name == name {
                assert(function_names(self.functions@)[i as int] == name);
                return Err(TypeCheckerError::ShadowedFunction { name, span });
            }
            i = i + 1;
        }
        assert(!function_names(self.functions@).contains(name)) by {
            if function_names(self.functions@).contains(name) {
                let j = choose|j: int| 0 <= j < function_names(self.functions@).len() && function_names(self.functions@)[j] == name;
                assert(self.functions@[j].name == name);
            }
        }
        match self.lookup_struct(name) {
            Some(s) => {
                if s.is_record {
                    return Err(TypeCheckerError::ShadowedRecord { name, span });
                } else {
                    return Err(TypeCheckerError::ShadowedStruct { name, span });
                }
            },
            None => {},
        }
        let mut k: usize = 0;
        while k < self.variables.len()
            invariant
                k <= self.variables@.len(),
                forall|j: int| 0 <= j < k ==> (#[trigger] self.variables@[j]).0 != name,
                !function_names(self.functions@).contains(name),
                find_struct(self.structs@, name) is None,
                *self == *old(self),
                span == variable.span,
            decreases self.variables.len() - k,
        {
            if self.variables[k].0 == name {
                assert(self.variables@[k as int].0 == name);
                return Err(TypeCheckerError::ShadowedVariable { name, span });
            }
            k = k + 1;
        }
        self.variables.push((name, variable));
        Ok(())
    }
}

} // verus!
