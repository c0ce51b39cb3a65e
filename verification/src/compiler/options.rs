//! The options of a compilation.

use vstd::prelude::*;

verus! {

/// Toggles compiler optimizations on the program.
#[derive(Clone, Copy, Debug, PartialEq, Eq, Structural)]
pub struct CompilerOptions {
    pub constant_folding_enabled: bool,
    pub dead_code_elimination_enabled: bool,
}

impl Default for CompilerOptions {
    /// All compiler optimizations are enabled by default.
    fn default() -> (o: Self)
        ensures
            o.constant_folding_enabled,
            o.dead_code_elimination_enabled,
    {
        CompilerOptions { constant_folding_enabled: true, dead_code_elimination_enabled: true }
    }
}

/// Selects the intermediate forms of the program that the compiler writes out.
#[derive(Clone, Copy, Debug, PartialEq, Eq, Structural)]
pub struct OutputOptions {
    pub ast_initial: bool,
    pub ast_imports_resolved: bool,
    pub ast_canonicalized: bool,
    pub ast_type_inferenced: bool,
    pub emit_ir: bool,
}

impl Default for OutputOptions {
    /// No intermediate form is written out by default.
    fn default() -> (o: Self)
        ensures
            !o.ast_initial,
            !o.ast_imports_resolved,
            !o.ast_canonicalized,
            !o.ast_type_inferenced,
            !o.emit_ir,
    {
        OutputOptions {
            ast_initial: false,
            ast_imports_resolved: false,
            ast_canonicalized: false,
            ast_type_inferenced: false,
            emit_ir: false,
        }
    }
}

} // verus!
