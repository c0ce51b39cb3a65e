# leo_lang

A verified core of the Leo compiler and its tools, written in Verus. The functions of the
library under `src/` carry contracts that Verus proves, with one exception: the few wrappers
marked `#[verifier::external_body]` that call into other crates or into std (the `IndexMap` and
`IndexSet` calls of the call graph, the `uuid` call that names a new circuit, and the parsing of
a field literal) are trusted. Their contracts state what those calls do and are not proved.

- `span`: symbols and their interner, source spans.
- `ast`: Leo types, core library functions, bytecode instructions, function stubs of compiled
  programs, circuits, literal values and definition statements.
- `passes`: the symbol table with the functions' finalize blocks, the type checker (core calls,
  instructions and statements, with blocks and their scopes, conditionals, loops and the values
  of their literal bounds, and return statements checked against the finalize block of their
  function), and the call graph with its cycle detection.
- `compiler`: checked integer arithmetic, field element comparisons, booleans, values and their
  reading from literals, circuit values and member access, definitions, and the emitted
  instructions.
- `asg`: array range accesses with their types and constant values.
- `symbols`, `parser`, `package`, `retriever`, `cli`: the types and decisions of the symbol
  table, the parser's deprecation errors, packages, dependencies and commands.

`app/` holds the `leo` command-line program: package creation, configuration and credentials.
