//! Function stubs: the signatures of functions of other programs, read from their compiled form.

use vstd::prelude::*;
use vstd::string::*;

use crate::ast::types::{clone_type, CompositeType, Identifier, Mode, Type, TypeList, Variant};
use crate::span::{decimal, sym, to_decimal, Interner, Span, Symbol};

verus! {

/// The identifier of a node of the syntax tree.
pub type NodeID = usize;

/// An annotation `@name (arguments)?`.
#[derive(Debug)]
pub struct Annotation {
    /// The span including `name ( arguments )`.
    pub span: Span,
    /// The name of the annotation.
    pub name: Identifier,
    /// Arguments for the annotation, if any.
    pub arguments: Vec<Symbol>,
}

impl Annotation {
    /// Whether the annotation is one of the allowed annotations, of which `@test` is the only one.
    pub fn is_valid_annotation(&self) -> (b: bool)
        ensures
            b == (self.name.name == sym::test),
    {
        self.name.name == sym::test
    }
}

/// An input of a function that is declared in the program.
#[derive(Debug)]
pub struct FunctionInput {
    pub identifier: Identifier,
    pub mode: Mode,
    pub type_: Type,
    pub span: Span,
    pub id: NodeID,
}

/// An output of a function that is declared in the program.
#[derive(Debug)]
pub struct FunctionOutput {
    pub mode: Mode,
    pub type_: Type,
    pub span: Span,
    pub id: NodeID,
}

/// An input or output that is a record of another program.
#[derive(Clone, Copy, Debug, PartialEq, Eq, Structural)]
pub struct External {
    pub identifier: Identifier,
    pub program_name: Identifier,
    pub record: Identifier,
    pub span: Span,
    pub id: NodeID,
}

impl External {
    /// The type of the record.
    pub open spec fn spec_type(self) -> Type {
        Type::Composite(CompositeType { id: self.record, program: Some(self.program_name.name) })
    }

    /// Returns the type of the record.
    pub fn type_(&self) -> (t: Type)
        ensures
            t == self.spec_type(),
    {
        Type::Composite(CompositeType { id: self.record, program: Some(self.program_name.name) })
    }
}

/// An input of a function.
#[derive(Debug)]
pub enum Input {
    Internal(FunctionInput),
    External(External),
}

/// An output of a function.
#[derive(Debug)]
pub enum Output {
    Internal(FunctionOutput),
    External(External),
}

/// A location of a function: the program and the name.
#[derive(Clone, Copy, Debug, PartialEq, Eq, Structural)]
pub struct Location {
    pub program: Symbol,
    pub name: Symbol,
}

/// A function stub definition.
#[derive(Debug)]
pub struct FunctionStub {
    /// Annotations on the function.
    pub annotations: Vec<Annotation>,
    /// Is this function asynchronous or synchronous?
    pub is_async: bool,
    /// Is this function a transition, inlined, or a regular function?.
    pub variant: Variant,
    /// The function identifier, e.g., `foo` in `function foo(...) { ... }`.
    pub identifier: Identifier,
    /// Ordered list of futures inputted to finalize.
    pub future_locations: Vec<Location>,
    /// The function's input parameters.
    pub input: Vec<Input>,
    /// The function's output declarations.
    pub output: Vec<Output>,
    /// The function's output type.
    pub output_type: Type,
    /// The entire span of the function definition.
    pub span: Span,
    /// The ID of the node.
    pub id: NodeID,
}

/// The type of a value of a compiled program that is plain data.
#[derive(Debug)]
pub enum PlaintextType {
    /// A literal type: an address, boolean, field, group, integer, scalar or string.
    Literal(Type),
    /// A struct declared in the program.
    Struct(Identifier),
}

/// A record or function of a program, given by the program's name and the resource's name.
#[derive(Clone, Copy, Debug, PartialEq, Eq, Structural)]
pub struct Locator {
    pub program: Symbol,
    pub resource: Identifier,
}

/// The type and visibility of an input or output of a compiled function.
#[derive(Debug)]
pub enum ValueType {
    Constant(PlaintextType),
    Public(PlaintextType),
    Private(PlaintextType),
    Record(Identifier),
    ExternalRecord(Locator),
    Future(Locator),
}

/// The type of a register of a compiled closure.
#[derive(Debug)]
pub enum RegisterType {
    Plaintext(PlaintextType),
    Record(Identifier),
    ExternalRecord(Locator),
    Future(Locator),
}

/// The type of an input of the finalize block of a compiled function.
#[derive(Debug)]
pub enum FinalizeType {
    Plaintext(PlaintextType),
    Future(Locator),
}

/// A compiled function: its name, the types of its inputs and outputs, and, where it has a
/// finalize block, the types of the inputs of that block.
#[derive(Debug)]
pub struct FunctionCore {
    pub name: Identifier,
    pub inputs: Vec<ValueType>,
    pub outputs: Vec<ValueType>,
    pub finalize_inputs: Option<Vec<FinalizeType>>,
}

/// A compiled closure: its name and the types of its inputs and outputs.
#[derive(Debug)]
pub struct ClosureCore {
    pub name: Identifier,
    pub inputs: Vec<RegisterType>,
    pub outputs: Vec<RegisterType>,
}

/// The span of the nodes that are read from compiled programs.
pub open spec fn no_span() -> Span {
    Span { lo: 0, hi: 0 }
}

/// The Leo type of a plaintext type of the given program.
pub open spec fn spec_from_snarkvm(t: PlaintextType, program: Symbol) -> Type {
    match t {
        PlaintextType::Literal(t) => t,
        PlaintextType::Struct(id) => Type::Composite(CompositeType { id, program: Some(program) }),
    }
}

/// Returns the Leo type of a plaintext type of the given program.
pub fn from_snarkvm(t: &PlaintextType, program: Symbol) -> (r: Type)
    ensures
        r == spec_from_snarkvm(*t, program),
{
    match t {
        PlaintextType::Literal(t) => clone_type(t),
        PlaintextType::Struct(id) => Type::Composite(CompositeType { id: *id, program: Some(program) }),
    }
}

/// The output that a value type of a compiled function of the given program declares.
pub open spec fn output_of(v: ValueType, program: Symbol) -> Output {
    match v {
        ValueType::Constant(t) => Output::Internal(FunctionOutput { mode: Mode::Constant, type_: spec_from_snarkvm(t, program), span: no_span(), id: 0 }),
        ValueType::Public(t) => Output::Internal(FunctionOutput { mode: Mode::Public, type_: spec_from_snarkvm(t, program), span: no_span(), id: 0 }),
        ValueType::Private(t) => Output::Internal(FunctionOutput { mode: Mode::Private, type_: spec_from_snarkvm(t, program), span: no_span(), id: 0 }),
        ValueType::Record(id) => Output::Internal(FunctionOutput {
            mode: Mode::NoMode,
            type_: Type::Composite(CompositeType { id, program: Some(program) }),
            span: no_span(),
            id: 0,
        }),
        ValueType::ExternalRecord(loc) => Output::External(external_of(loc)),
        ValueType::Future(_) => Output::Internal(FunctionOutput { mode: Mode::Public, type_: Type::Future(TypeList::Nil), span: no_span(), id: 0 }),
    }
}

/// The external record that a locator names.
pub open spec fn external_of(loc: Locator) -> External {
    External {
        identifier: Identifier { name: sym::dummy, span: no_span() },
        program_name: Identifier { name: loc.program, span: no_span() },
        record: loc.resource,
        span: no_span(),
        id: 0,
    }
}

/// The input that a value type of a compiled function of the given program declares, under the
/// given name.
pub open spec fn input_of(v: ValueType, program: Symbol, name: Symbol) -> Input {
    let identifier = Identifier { name, span: no_span() };
    match v {
        ValueType::Constant(t) => Input::Internal(FunctionInput { identifier, mode: Mode::Constant, type_: spec_from_snarkvm(t, program), span: no_span(), id: 0 }),
        ValueType::Public(t) => Input::Internal(FunctionInput { identifier, mode: Mode::Public, type_: spec_from_snarkvm(t, program), span: no_span(), id: 0 }),
        ValueType::Private(t) => Input::Internal(FunctionInput { identifier, mode: Mode::Private, type_: spec_from_snarkvm(t, program), span: no_span(), id: 0 }),
        ValueType::Record(id) => Input::Internal(FunctionInput {
            identifier,
            mode: Mode::NoMode,
            type_: Type::Composite(CompositeType { id, program: Some(program) }),
            span: no_span(),
            id: 0,
        }),
        ValueType::ExternalRecord(loc) => Input::External(external_of(loc)),
        // Not reached: compiled functions take no futures as inputs.
        ValueType::Future(loc) => Input::External(external_of(loc)),
    }
}

/// Whether the input of a stub is the one that the value type at index `i` of a compiled
/// function declares: an external record, or an input named `arg{i + 1}` in the table.
pub open spec fn is_stub_input(inp: Input, v: ValueType, program: Symbol, table: Seq<Seq<char>>, i: int) -> bool {
    match v {
        ValueType::ExternalRecord(loc) => inp == Input::External(external_of(loc)),
        _ => match inp {
            Input::Internal(fi) => names(table, fi.identifier.name, arg_name(i)) && inp == input_of(v, program, fi.identifier.name),
            Input::External(_) => false,
        },
    }
}


/// The locators of the futures among the inputs of a finalize block, in order.
pub open spec fn futures_of(inputs: Seq<FinalizeType>) -> Seq<Locator>
    decreases inputs.len(),
{
    if inputs.len() == 0 {
        Seq::empty()
    } else {
        futures_of(inputs.drop_last()) + match inputs.last() {
            FinalizeType::Future(loc) => seq![loc],
            FinalizeType::Plaintext(_) => Seq::empty(),
        }
    }
}

/// Whether the location is that of the future with the given locator: its program, and the name
/// `finalize/{resource}` interned in the table.
pub open spec fn is_future_location(location: Location, loc: Locator, table: Seq<Seq<char>>) -> bool {
    &&& location.program == loc.program
    &&& loc.resource.name < table.len()
    &&& names(table, location.name, finalize_name(table[loc.resource.name as int]))
}

/// The input that an input of a finalize block declares under the given name.
pub open spec fn finalize_input_of(v: FinalizeType, program: Symbol, name: Symbol) -> Input {
    Input::Internal(FunctionInput {
        identifier: Identifier { name, span: no_span() },
        mode: Mode::NoMode,
        type_: match v {
            FinalizeType::Plaintext(t) => spec_from_snarkvm(t, program),
            FinalizeType::Future(_) => Type::Future(TypeList::Nil),
        },
        span: no_span(),
        id: 0,
    })
}

/// The input that a plaintext register of a closure declares under the given name.
pub open spec fn closure_input_of(r: RegisterType, program: Symbol, name: Symbol) -> Input {
    Input::Internal(FunctionInput {
        identifier: Identifier { name, span: no_span() },
        mode: Mode::NoMode,
        type_: match r {
            RegisterType::Plaintext(t) => spec_from_snarkvm(t, program),
            _ => Type::Errored,
        },
        span: no_span(),
        id: 0,
    })
}

/// The output that a plaintext register of a closure declares.
pub open spec fn closure_output_of(r: RegisterType, program: Symbol) -> Output {
    Output::Internal(FunctionOutput {
        mode: Mode::NoMode,
        type_: match r {
            RegisterType::Plaintext(t) => spec_from_snarkvm(t, program),
            _ => Type::Errored,
        },
        span: no_span(),
        id: 0,
    })
}

/// Whether the input is named `arg{i + 1}` in the table and is otherwise the given input built from that name.
pub open spec fn is_named_input(inp: Input, table: Seq<Seq<char>>, i: int, build: spec_fn(Symbol) -> Input) -> bool {
    match inp {
        Input::Internal(fi) => names(table, fi.identifier.name, arg_name(i)) && inp == build(fi.identifier.name),
        Input::External(_) => false,
    }
}

/// The register types of a closure that are plain data.
pub open spec fn is_plaintext(r: RegisterType) -> bool {
    r is Plaintext
}

/// The type of an output.
pub open spec fn output_type_of(o: Output) -> Type {
    match o {
        Output::Internal(o) => o.type_,
        Output::External(e) => e.spec_type(),
    }
}

/// The list of the types of the sequence.
pub open spec fn list_of(types: Seq<Type>) -> TypeList
    decreases types.len(),
{
    if types.len() == 0 {
        TypeList::Nil
    } else {
        TypeList::Cons(Box::new(types[0]), Box::new(list_of(types.subrange(1, types.len() as int))))
    }
}

/// The type of a function with outputs of the given types: the unit type for none, the type
/// itself for one, and their tuple for more.
pub open spec fn combined_type(types: Seq<Type>) -> Type {
    if types.len() == 0 {
        Type::Unit
    } else if types.len() == 1 {
        types[0]
    } else {
        Type::Tuple(list_of(types))
    }
}

/// The name `arg{i + 1}` of the input at index `i` of a stub.
pub open spec fn arg_name(i: int) -> Seq<char> {
    "arg"@ + decimal((i + 1) as nat)
}

/// The name `finalize/{resource}` of the location of a future.
pub open spec fn finalize_name(resource: Seq<char>) -> Seq<char> {
    "finalize/"@ + resource
}

/// Whether the table extends the earlier one.
pub open spec fn extends(later: Seq<Seq<char>>, earlier: Seq<Seq<char>>) -> bool {
    earlier.len() <= later.len() && later.subrange(0, earlier.len() as int) == earlier
}

/// Whether the symbol is interned in the table under the name.
pub open spec fn names(table: Seq<Seq<char>>, symbol: Symbol, name: Seq<char>) -> bool {
    symbol < table.len() && table[symbol as int] == name
}

/// Returns a list of the types of the vector, in order.
pub fn list_from(types: Vec<Type>) -> (l: TypeList)
    ensures
        l == list_of(types@),
{
    let mut types = types;
    let mut l = TypeList::Nil;
    let ghost all = types@;
    while types.len() > 0
        invariant
            all == types@ + (seq_of_remaining(all, types@.len() as int)),
            types@ == all.subrange(0, types@.len() as int),
            l == list_of(all.subrange(types@.len() as int, all.len() as int)),
        decreases types.len(),
    {
        let ghost n = types@.len();
        let t = types.pop().unwrap();
        assert(all.subrange(n - 1, all.len() as int).subrange(1, all.len() - (n - 1)) =~= all.subrange(n as int, all.len() as int));
        l = TypeList::Cons(Box::new(t), Box::new(l));
        assert(types@ =~= all.subrange(0, types@.len() as int));
        assert(all =~= types@ + seq_of_remaining(all, types@.len() as int));
    }
    assert(all.subrange(0, all.len() as int) =~= all);
    l
}

/// The types of the sequence from index `k` on.
pub open spec fn seq_of_remaining(all: Seq<Type>, k: int) -> Seq<Type> {
    all.subrange(k, all.len() as int)
}

/// Returns the type of a function with outputs of the given types.
pub fn combine_types(types: Vec<Type>) -> (t: Type)
    ensures
        t == combined_type(types@),
{
    if types.len() == 0 {
        Type::Unit
    } else if types.len() == 1 {
        clone_type(&types[0])
    } else {
        Type::Tuple(list_from(types))
    }
}

/// Returns the output that a value type of a compiled function of the given program declares.
pub fn output_from(v: &ValueType, program: Symbol) -> (o: Output)
    ensures
        o == output_of(*v, program),
{
    match v {
        ValueType::Constant(t) => Output::Internal(FunctionOutput { mode: Mode::Constant, type_: from_snarkvm(t, program), span: Span::dummy(), id: 0 }),
        ValueType::Public(t) => Output::Internal(FunctionOutput { mode: Mode::Public, type_: from_snarkvm(t, program), span: Span::dummy(), id: 0 }),
        ValueType::Private(t) => Output::Internal(FunctionOutput { mode: Mode::Private, type_: from_snarkvm(t, program), span: Span::dummy(), id: 0 }),
        ValueType::Record(id) => Output::Internal(FunctionOutput {
            mode: Mode::NoMode,
            type_: Type::Composite(CompositeType { id: *id, program: Some(program) }),
            span: Span::dummy(),
            id: 0,
        }),
        ValueType::ExternalRecord(loc) => Output::External(external_from(loc)),
        ValueType::Future(_) => Output::Internal(FunctionOutput { mode: Mode::Public, type_: Type::Future(TypeList::Nil), span: Span::dummy(), id: 0 }),
    }
}

/// Returns the external record that a locator names.
pub fn external_from(loc: &Locator) -> (e: External)
    ensures
        e == external_of(*loc),
{
    External {
        identifier: Identifier::new(sym::dummy, Span::dummy()),
        program_name: Identifier::new(loc.program, Span::dummy()),
        record: loc.resource,
        span: Span::dummy(),
        id: 0,
    }
}

/// Returns the type of an output.
pub fn output_type_from(o: &Output) -> (t: Type)
    ensures
        t == output_type_of(*o),
{
    match o {
        Output::Internal(o) => clone_type(&o.type_),
        Output::External(e) => e.type_(),
    }
}

/// Interns the name `arg{i + 1}` and returns its symbol.
pub fn intern_arg_name(interner: &mut Interner, i: usize) -> (s: Symbol)
    requires
        old(interner)@.len() < u32::MAX,
        i < usize::MAX,
    ensures
        names(final(interner)@, s, arg_name(i as int)),
        extends(final(interner)@, old(interner)@),
        final(interner)@.len() <= old(interner)@.len() + 1,
{
    let mut name = String::from_str("arg");
    let number = to_decimal(i + 1);
    name.append(number.as_str());
    let s = interner.intern(name.as_str());
    assert(final(interner)@.subrange(0, old(interner)@.len() as int) =~= old(interner)@);
    s
}

impl FunctionStub {
    /// Initialize a new function; its output type is that of its outputs.
    pub fn new(
        annotations: Vec<Annotation>,
        is_async: bool,
        variant: Variant,
        identifier: Identifier,
        input: Vec<Input>,
        output: Vec<Output>,
        span: Span,
        id: NodeID,
    ) -> (f: FunctionStub)
        ensures
            f.annotations@ == annotations@,
            f.is_async == is_async,
            f.variant == variant,
            f.identifier == identifier,
            f.future_locations@.len() == 0,
            f.input@ == input@,
            f.output@ == output@,
            f.output_type == combined_type(output@.map_values(|o: Output| output_type_of(o))),
            f.span == span,
            f.id == id,
    {
        // Determine the output type of the function
        let mut output_vec: Vec<Type> = Vec::new();
        let mut i: usize = 0;
        while i < output.len()
            invariant
                i <= output@.len(),
                output_vec@ =~= output@.subrange(0, i as int).map_values(|o: Output| output_type_of(o)),
            decreases output.len() - i,
        {
            output_vec.push(output_type_from(&output[i]));
            i = i + 1;
            assert(output_vec@ =~= output@.subrange(0, i as int).map_values(|o: Output| output_type_of(o)));
        }
        assert(output@.subrange(0, output@.len() as int) =~= output@);
        let output_type = combine_types(output_vec);
        FunctionStub {
            annotations,
            is_async,
            variant,
            identifier,
            future_locations: Vec::new(),
            input,
            output,
            output_type,
            span,
            id,
        }
    }

    /// Returns function name.
    pub fn name(&self) -> (s: Symbol)
        ensures
            s == self.identifier.name,
    {
        self.identifier.name
    }

    /// Returns `true` if the function name is `main`.
    pub fn is_main(&self) -> (b: bool)
        ensures
            b == (self.identifier.name == sym::main_name),
    {
        self.name() == sym::main_name
    }

    /// Converts from a compiled function to a `FunctionStub`, while also carrying the parent
    /// program name. Inputs are named `arg1`, `arg2`, ... in order; those names are interned.
    pub fn from_function_core(function: &FunctionCore, program: Symbol, interner: &mut Interner) -> (f: FunctionStub)
        requires
            forall|i: int| 0 <= i < function.inputs@.len() ==> !(#[trigger] function.inputs@[i] is Future),
            old(interner)@.len() + function.inputs@.len() < u32::MAX,
        ensures
            f.output@ == function.outputs@.map_values(|v: ValueType| output_of(v, program)),
            f.output_type == combined_type(function.outputs@.map_values(|v: ValueType| output_type_of(output_of(v, program)))),
            f.input@.len() == function.inputs@.len(),
            forall|i: int| 0 <= i < f.input@.len() ==> is_stub_input(#[trigger] f.input@[i], function.inputs@[i], program, final(interner)@, i),
            extends(final(interner)@, old(interner)@),
            f.annotations@.len() == 0,
            f.is_async == function.finalize_inputs is Some,
            f.variant == Variant::Transition,
            f.identifier == function.name,
            f.future_locations@.len() == 0,
            f.span == no_span(),
            f.id == 0,
    {
        let mut outputs: Vec<Output> = Vec::new();
        let mut output_vec: Vec<Type> = Vec::new();
        let mut i: usize = 0;
        while i < function.outputs.len()
            invariant
                i <= function.outputs@.len(),
                outputs@ =~= function.outputs@.subrange(0, i as int).map_values(|v: ValueType| output_of(v, program)),
                output_vec@ =~= function.outputs@.subrange(0, i as int).map_values(|v: ValueType| output_type_of(output_of(v, program))),
            decreases function.outputs.len() - i,
        {
            let o = output_from(&function.outputs[i], program);
            output_vec.push(output_type_from(&o));
            outputs.push(o);
            i = i + 1;
            assert(outputs@ =~= function.outputs@.subrange(0, i as int).map_values(|v: ValueType| output_of(v, program)));
            assert(output_vec@ =~= function.outputs@.subrange(0, i as int).map_values(|v: ValueType| output_type_of(output_of(v, program))));
        }
        assert(function.outputs@.subrange(0, function.outputs@.len() as int) =~= function.outputs@);
        let output_type = combine_types(output_vec);

        let mut inputs: Vec<Input> = Vec::new();
        let mut k: usize = 0;
        let ghost start = interner@;
        assert(interner@.subrange(0, start.len() as int) =~= start);
        while k < function.inputs.len()
            invariant
                k <= function.inputs@.len(),
                forall|i: int| 0 <= i < function.inputs@.len() ==> !(#[trigger] function.inputs@[i] is Future),
                start == old(interner)@,
                start.len() + function.inputs@.len() < u32::MAX,
                extends(interner@, start),
                interner@.len() <= start.len() + k,
                inputs@.len() == k,
                forall|i: int| 0 <= i < k ==> is_stub_input(#[trigger] inputs@[i], function.inputs@[i], program, interner@, i),
            decreases function.inputs.len() - k,
        {
            let ghost before = interner@;
            let arg = intern_arg_name(interner, k);
            let identifier = Identifier::new(arg, Span::dummy());
            let input = match &function.inputs[k] {
                ValueType::Constant(t) => Input::Internal(FunctionInput { identifier, mode: Mode::Constant, type_: from_snarkvm(t, program), span: Span::dummy(), id: 0 }),
                ValueType::Public(t) => Input::Internal(FunctionInput { identifier, mode: Mode::Public, type_: from_snarkvm(t, program), span: Span::dummy(), id: 0 }),
                ValueType::Private(t) => Input::Internal(FunctionInput { identifier, mode: Mode::Private, type_: from_snarkvm(t, program), span: Span::dummy(), id: 0 }),
                ValueType::Record(id) => Input::Internal(FunctionInput {
                    identifier,
                    mode: Mode::NoMode,
                    type_: Type::Composite(CompositeType { id: *id, program: Some(program) }),
                    span: Span::dummy(),
                    id: 0,
                }),
                ValueType::ExternalRecord(loc) => Input::External(external_from(loc)),
                ValueType::Future(_) => {
                    assert(false);
                    Input::External(external_from(&Locator { program, resource: identifier }))
                },
            };
            proof {
                assert forall|i: int| 0 <= i < k implies is_stub_input(#[trigger] inputs@[i], function.inputs@[i], program, interner@, i) by {
                    if let Input::Internal(fi) = inputs@[i] {
                        if !(function.inputs@[i] is ExternalRecord) {
                            assert(names(before, fi.identifier.name, arg_name(i)));
                            assert(interner@.subrange(0, before.len() as int) == before);
                            assert(interner@[fi.identifier.name as int] == interner@.subrange(0, before.len() as int)[fi.identifier.name as int]);
                        }
                    }
                }
                assert(interner@.subrange(0, start.len() as int) =~= start) by {
                    assert(interner@.subrange(0, before.len() as int) == before);
                    assert(before.subrange(0, start.len() as int) == start);
                }
            }
            inputs.push(input);
            k = k + 1;
        }

        FunctionStub {
            annotations: Vec::new(),
            is_async: function.finalize_inputs.is_some(),
            variant: Variant::Transition,
            identifier: function.name,
            future_locations: Vec::new(),
            input: inputs,
            output: outputs,
            output_type,
            span: Span::dummy(),
            id: 0,
        }
    }
    /// Converts from the finalize block of a compiled function to a `FunctionStub` of the given
    /// name: its inputs are named `arg1`, `arg2`, ..., and the futures among them are located at
    /// `finalize/{resource}` in their programs; those names are interned.
    pub fn from_finalize(function: &FunctionCore, name: Symbol, interner: &mut Interner) -> (f: FunctionStub)
        requires
            function.finalize_inputs is Some,
            old(interner)@.len() + 2 * function.finalize_inputs.unwrap()@.len() < u32::MAX,
            forall|i: int| 0 <= i < function.finalize_inputs.unwrap()@.len() ==> (#[trigger] function.finalize_inputs.unwrap()@[i] matches FinalizeType::Future(loc)
                ==> loc.resource.name < old(interner)@.len()),
        ensures
            f.future_locations@.len() == futures_of(function.finalize_inputs.unwrap()@).len(),
            forall|j: int| 0 <= j < f.future_locations@.len() ==> is_future_location(#[trigger] f.future_locations@[j], futures_of(function.finalize_inputs.unwrap()@)[j], final(interner)@),
            f.input@.len() == function.finalize_inputs.unwrap()@.len(),
            forall|i: int| 0 <= i < f.input@.len() ==> is_named_input(#[trigger] f.input@[i], final(interner)@, i,
                |s: Symbol| finalize_input_of(function.finalize_inputs.unwrap()@[i], name, s)),
            f.output@ == seq![Output::Internal(FunctionOutput { mode: Mode::NoMode, type_: Type::Future(TypeList::Nil), span: no_span(), id: 0 })],
            f.output_type == Type::Future(TypeList::Nil),
            extends(final(interner)@, old(interner)@),
            f.annotations@.len() == 0,
            f.is_async,
            f.variant == Variant::Standard,
            f.identifier == (Identifier { name, span: no_span() }),
            f.span == no_span(),
            f.id == 0,
    {
        let finalize = function.finalize_inputs.as_ref().unwrap();
        let ghost start = interner@;
        assert(interner@.subrange(0, start.len() as int) =~= start);
        let mut future_locations: Vec<Location> = Vec::new();
        let mut k: usize = 0;
        while k < finalize.len()
            invariant
                k <= finalize@.len(),
                start == old(interner)@,
                start.len() + 2 * finalize@.len() < u32::MAX,
                forall|i: int| 0 <= i < finalize@.len() ==> (#[trigger] finalize@[i] matches FinalizeType::Future(loc)
                    ==> loc.resource.name < start.len()),
                extends(interner@, start),
                interner@.len() <= start.len() + k,
                future_locations@.len() == futures_of(finalize@.subrange(0, k as int)).len(),
                forall|j: int| 0 <= j < future_locations@.len() ==> is_future_location(#[trigger] future_locations@[j], futures_of(finalize@.subrange(0, k as int))[j], interner@),
            decreases finalize.len() - k,
        {
            let ghost before = interner@;
            let ghost prev = futures_of(finalize@.subrange(0, k as int));
            assert(finalize@.subrange(0, k + 1).drop_last() =~= finalize@.subrange(0, k as int));
            match &finalize[k] {
                FinalizeType::Future(loc) => {
                    let mut location_name = String::from_str("finalize/");
                    location_name.append(interner.get(loc.resource.name));
                    let s = interner.intern(location_name.as_str());
                    proof {
                        assert(interner@.subrange(0, before.len() as int) =~= before);
                        assert forall|j: int| 0 <= j < future_locations@.len() implies is_future_location(#[trigger] future_locations@[j], prev[j], interner@) by {
                            assert(interner@[future_locations@[j].name as int] == interner@.subrange(0, before.len() as int)[future_locations@[j].name as int]);
                            assert(interner@[prev[j].resource.name as int] == interner@.subrange(0, before.len() as int)[prev[j].resource.name as int]);
                        }
                        assert(interner@[loc.resource.name as int] == before[loc.resource.name as int]);
                    }
                    future_locations.push(Location { program: loc.program, name: s });
                },
                FinalizeType::Plaintext(_) => {},
            }
            proof {
                assert(interner@.subrange(0, start.len() as int) =~= start) by {
                    assert(interner@.subrange(0, before.len() as int) == before);
                    assert(before.subrange(0, start.len() as int) == start);
                }
            }
            k = k + 1;
        }
        assert(finalize@.subrange(0, finalize@.len() as int) =~= finalize@);

        let ghost middle = interner@;
        assert(interner@.subrange(0, middle.len() as int) =~= middle);
        let mut inputs: Vec<Input> = Vec::new();
        let mut k: usize = 0;
        while k < finalize.len()
            invariant
                k <= finalize@.len(),
                start == old(interner)@,
                middle.len() <= start.len() + finalize@.len(),
                start.len() + 2 * finalize@.len() < u32::MAX,
                extends(middle, start),
                extends(interner@, middle),
                interner@.len() <= middle.len() + k,
                future_locations@.len() == futures_of(finalize@).len(),
                forall|j: int| 0 <= j < future_locations@.len() ==> is_future_location(#[trigger] future_locations@[j], futures_of(finalize@)[j], interner@),
                inputs@.len() == k,
                forall|i: int| 0 <= i < k ==> is_named_input(#[trigger] inputs@[i], interner@, i, |s: Symbol| finalize_input_of(finalize@[i], name, s)),
            decreases finalize.len() - k,
        {
            let ghost before = interner@;
            let arg = intern_arg_name(interner, k);
            let type_ = match &finalize[k] {
                FinalizeType::Plaintext(t) => from_snarkvm(t, name),
                FinalizeType::Future(_) => Type::Future(TypeList::Nil),
            };
            let input = Input::Internal(FunctionInput {
                identifier: Identifier::new(arg, Span::dummy()),
                mode: Mode::NoMode,
                type_,
                span: Span::dummy(),
                id: 0,
            });
            proof {
                assert forall|i: int| 0 <= i < k implies is_named_input(#[trigger] inputs@[i], interner@, i, |s: Symbol| finalize_input_of(finalize@[i], name, s)) by {
                    if let Input::Internal(fi) = inputs@[i] {
                        assert(interner@.subrange(0, before.len() as int) == before);
                        assert(interner@[fi.identifier.name as int] == interner@.subrange(0, before.len() as int)[fi.identifier.name as int]);
                    }
                }
                assert forall|j: int| 0 <= j < future_locations@.len() implies is_future_location(#[trigger] future_locations@[j], futures_of(finalize@)[j], interner@) by {
                    assert(interner@.subrange(0, before.len() as int) == before);
                    assert(interner@[future_locations@[j].name as int] == interner@.subrange(0, before.len() as int)[future_locations@[j].name as int]);
                    assert(interner@[futures_of(finalize@)[j].resource.name as int] == interner@.subrange(0, before.len() as int)[futures_of(finalize@)[j].resource.name as int]);
                }
                assert(interner@.subrange(0, middle.len() as int) =~= middle) by {
                    assert(interner@.subrange(0, before.len() as int) == before);
                    assert(before.subrange(0, middle.len() as int) == middle);
                }
            }
            inputs.push(input);
            k = k + 1;
        }
        proof {
            assert(interner@.subrange(0, start.len() as int) =~= start) by {
                assert(interner@.subrange(0, middle.len() as int) == middle);
                assert(middle.subrange(0, start.len() as int) == start);
            }
        }
        let mut output: Vec<Output> = Vec::new();
        output.push(Output::Internal(FunctionOutput { mode: Mode::NoMode, type_: Type::Future(TypeList::Nil), span: Span::dummy(), id: 0 }));
        assert(output@ =~= seq![Output::Internal(FunctionOutput { mode: Mode::NoMode, type_: Type::Future(TypeList::Nil), span: no_span(), id: 0 })]);
        FunctionStub {
            annotations: Vec::new(),
            is_async: true,
            variant: Variant::Standard,
            identifier: Identifier::new(name, Span::dummy()),
            future_locations,
            input: inputs,
            output,
            output_type: Type::Future(TypeList::Nil),
            span: Span::dummy(),
            id: 0,
        }
    }

    /// Converts from a compiled closure to a `FunctionStub`, while also carrying the parent
    /// program name. Inputs are named `arg1`, `arg2`, ... in order; those names are interned.
    pub fn from_closure(closure: &ClosureCore, program: Symbol, interner: &mut Interner) -> (f: FunctionStub)
        requires
            forall|i: int| 0 <= i < closure.inputs@.len() ==> is_plaintext(#[trigger] closure.inputs@[i]),
            forall|i: int| 0 <= i < closure.outputs@.len() ==> is_plaintext(#[trigger] closure.outputs@[i]),
            old(interner)@.len() + closure.inputs@.len() < u32::MAX,
        ensures
            f.output@ == closure.outputs@.map_values(|r: RegisterType| closure_output_of(r, program)),
            f.output_type == combined_type(closure.outputs@.map_values(|r: RegisterType| output_type_of(closure_output_of(r, program)))),
            f.input@.len() == closure.inputs@.len(),
            forall|i: int| 0 <= i < f.input@.len() ==> is_named_input(#[trigger] f.input@[i], final(interner)@, i,
                |s: Symbol| closure_input_of(closure.inputs@[i], program, s)),
            extends(final(interner)@, old(interner)@),
            f.annotations@.len() == 0,
            !f.is_async,
            f.variant == Variant::Standard,
            f.identifier == closure.name,
            f.future_locations@.len() == 0,
            f.span == no_span(),
            f.id == 0,
    {
        let mut outputs: Vec<Output> = Vec::new();
        let mut output_vec: Vec<Type> = Vec::new();
        let mut i: usize = 0;
        while i < closure.outputs.len()
            invariant
                i <= closure.outputs@.len(),
                forall|i: int| 0 <= i < closure.outputs@.len() ==> is_plaintext(#[trigger] closure.outputs@[i]),
                outputs@ =~= closure.outputs@.subrange(0, i as int).map_values(|r: RegisterType| closure_output_of(r, program)),
                output_vec@ =~= closure.outputs@.subrange(0, i as int).map_values(|r: RegisterType| output_type_of(closure_output_of(r, program))),
            decreases closure.outputs.len() - i,
        {
            let type_ = match &closure.outputs[i] {
                RegisterType::Plaintext(t) => from_snarkvm(t, program),
                _ => {
                    assert(is_plaintext(closure.outputs@[i as int]));
                    Type::Errored
                },
            };
            output_vec.push(clone_type(&type_));
            outputs.push(Output::Internal(FunctionOutput { mode: Mode::NoMode, type_, span: Span::dummy(), id: 0 }));
            i = i + 1;
            assert(outputs@ =~= closure.outputs@.subrange(0, i as int).map_values(|r: RegisterType| closure_output_of(r, program)));
            assert(output_vec@ =~= closure.outputs@.subrange(0, i as int).map_values(|r: RegisterType| output_type_of(closure_output_of(r, program))));
        }
        assert(closure.outputs@.subrange(0, closure.outputs@.len() as int) =~= closure.outputs@);
        let output_type = combine_types(output_vec);

        let mut inputs: Vec<Input> = Vec::new();
        let mut k: usize = 0;
        let ghost start = interner@;
        assert(interner@.subrange(0, start.len() as int) =~= start);
        while k < closure.inputs.len()
            invariant
                k <= closure.inputs@.len(),
                forall|i: int| 0 <= i < closure.inputs@.len() ==> is_plaintext(#[trigger] closure.inputs@[i]),
                start == old(interner)@,
                start.len() + closure.inputs@.len() < u32::MAX,
                extends(interner@, start),
                interner@.len() <= start.len() + k,
                inputs@.len() == k,
                forall|i: int| 0 <= i < k ==> is_named_input(#[trigger] inputs@[i], interner@, i, |s: Symbol| closure_input_of(closure.inputs@[i], program, s)),
            decreases closure.inputs.len() - k,
        {
            let ghost before = interner@;
            let arg = intern_arg_name(interner, k);
            let type_ = match &closure.inputs[k] {
                RegisterType::Plaintext(t) => from_snarkvm(t, program),
                _ => {
                    assert(is_plaintext(closure.inputs@[k as int]));
                    Type::Errored
                },
            };
            let input = Input::Internal(FunctionInput {
                identifier: Identifier::new(arg, Span::dummy()),
                mode: Mode::NoMode,
                type_,
                span: Span::dummy(),
                id: 0,
            });
            proof {
                assert forall|i: int| 0 <= i < k implies is_named_input(#[trigger] inputs@[i], interner@, i, |s: Symbol| closure_input_of(closure.inputs@[i], program, s)) by {
                    if let Input::Internal(fi) = inputs@[i] {
                        assert(interner@.subrange(0, before.len() as int) == before);
                        assert(interner@[fi.identifier.name as int] == interner@.subrange(0, before.len() as int)[fi.identifier.name as int]);
                    }
                }
                assert(interner@.subrange(0, start.len() as int) =~= start) by {
                    assert(interner@.subrange(0, before.len() as int) == before);
                    assert(before.subrange(0, start.len() as int) == start);
                }
            }
            inputs.push(input);
            k = k + 1;
        }

        FunctionStub {
            annotations: Vec::new(),
            is_async: false,
            variant: Variant::Standard,
            identifier: closure.name,
            future_locations: Vec::new(),
            input: inputs,
            output: outputs,
            output_type,
            span: Span::dummy(),
            id: 0,
        }
    }
}

/// The mode of a stub's input or output is the visibility of the compiled value: a constant value
/// gives `Constant`, a public one `Public`, a private one `Private`. An input and an output of the
/// same value type have the same mode and the same type.
pub proof fn law_stub_modes_follow_visibility(v: ValueType, program: Symbol, name: Symbol)
    ensures
        v is Constant ==> (output_of(v, program) matches Output::Internal(o) && o.mode == Mode::Constant),
        v is Public ==> (output_of(v, program) matches Output::Internal(o) && o.mode == Mode::Public),
        v is Private ==> (output_of(v, program) matches Output::Internal(o) && o.mode == Mode::Private),
        v is Constant ==> (input_of(v, program, name) matches Input::Internal(i) && i.mode == Mode::Constant),
        v is Public ==> (input_of(v, program, name) matches Input::Internal(i) && i.mode == Mode::Public),
        v is Private ==> (input_of(v, program, name) matches Input::Internal(i) && i.mode == Mode::Private),
        (v is Constant || v is Public || v is Private || v is Record) ==> (output_of(v, program) matches Output::Internal(o)
            && input_of(v, program, name) matches Input::Internal(i) && o.mode == i.mode && o.type_ == i.type_),
{
}

} // verus!
