//! The type rules of statements as a whole: blocks and their scopes, conditionals and loops,
//! code after a return, and whether a function returns and invokes its finalize block.

use vstd::prelude::*;

use crate::ast::statement::{
    AssertStatement, AssertVariant, AssignPlace, AssignStatement, Block, ConditionalStatement, DefinitionPlace, DefinitionStatement,
    ExpressionStatement, IterationStatement, Statement, StatementList,
};
use crate::ast::types::{clone_type, Identifier, Type, TypeList};
use crate::ast::value::{clone_literal, ValueExpression};
use crate::passes::check_statements::{
    assign_errors, find_variable, law_lookup_after_declare, bind_place, declaration_of, declare, frame_finalize, return_checkable, return_errors, shape_errors,
    update_errors, ReturnFrame,
};
use crate::passes::errors::TypeCheckerError;
use crate::passes::symbol_table::{function_names, shadow_error, StructSymbol, VariableSymbol, VariableType};
use crate::passes::type_checker::{eq_types_errors, type_errors, undefined_type_errors, TypeChecker, TypeClass};
use crate::span::{Span, Symbol};

verus! {

/// The state that the checks of statements change: the variables in scope, the errors reported,
/// whether the function has returned, and whether it has invoked its finalize block.
pub type FlowState = (Seq<(Symbol, VariableSymbol)>, Seq<TypeCheckerError>, bool, bool);

/// What the checks of statements read: the functions and structs of the program, whether the
/// checks are inside a finalize block, and the number of inputs of the function's finalize
/// block, if it has one.
pub type CheckContext = (Seq<Symbol>, Seq<StructSymbol>, bool, Option<usize>);

/// The variables of a scope that ends: those that were in scope where it began.
pub open spec fn truncated(variables: Seq<(Symbol, VariableSymbol)>, n: nat) -> Seq<(Symbol, VariableSymbol)> {
    if n <= variables.len() { variables.subrange(0, n as int) } else { variables }
}

/// The errors of an assertion.
pub open spec fn assert_errors(input: AssertStatement) -> Seq<TypeCheckerError> {
    match input.variant {
        AssertVariant::Assert(e) => e.errors@ + type_errors(TypeClass::Boolean, e.type_, e.span),
        AssertVariant::AssertEq(l, r) => l.errors@ + r.errors@ + eq_types_errors(l.type_, r.type_, input.span),
        AssertVariant::AssertNeq(l, r) => l.errors@ + r.errors@ + eq_types_errors(l.type_, r.type_, input.span),
    }
}

/// The errors of an expression statement.
pub open spec fn expression_statement_errors(input: ExpressionStatement) -> Seq<TypeCheckerError> {
    if input.is_call {
        input.expression.errors@
    } else {
        seq![TypeCheckerError::ExpressionStatementMustBeFunctionCall { span: input.span }]
    }
}

/// The state after a definition.
pub open spec fn definition_effect(c: CheckContext, st: FlowState, d: DefinitionStatement) -> FlowState {
    let errors = st.1 + undefined_type_errors(c.1, d.type_, d.span) + shape_errors(d.type_, d.span) + d.value.errors@;
    let r = bind_place(c.0, c.1, (st.0, errors), d.place, d.type_, declaration_of(d.declaration_type));
    (r.0, r.1, st.2, st.3)
}

/// The state after a statement. Nothing can follow a return: a statement after one is reported
/// and not checked.
pub open spec fn statement_effect(c: CheckContext, st: FlowState, s: Statement) -> FlowState
    decreases s, 0int,
{
    if st.2 {
        (st.0, st.1.push(TypeCheckerError::UnreachableCodeAfterReturn { span: s.spec_span() }), st.2, st.3)
    } else {
        match s {
            Statement::Assert(a) => (st.0, st.1 + assert_errors(a), st.2, st.3),
            Statement::Assign(a) => (st.0, st.1 + assign_errors(st.0, a), st.2, st.3),
            Statement::Block(b) => block_effect(c, st, b),
            Statement::Conditional(k) => conditional_effect(c, st, k),
            Statement::Decrement(d) => (st.0, st.1 + update_errors(c.2, d.mapping, d.mapping_check, d.index, d.amount, d.span), st.2, st.3),
            Statement::Definition(d) => definition_effect(c, st, d),
            Statement::Expression(e) => (st.0, st.1 + expression_statement_errors(e), st.2, st.3),
            Statement::Increment(d) => (st.0, st.1 + update_errors(c.2, d.mapping, d.mapping_check, d.index, d.amount, d.span), st.2, st.3),
            Statement::Iteration(i) => iteration_effect(c, st, *i),
            Statement::Return(r) => (st.0, st.1 + return_errors(c.2, c.3, r), true, st.3 || r.finalize_arguments is Some),
        }
    }
}

/// The state after the statements, in order.
pub open spec fn statements_effect(c: CheckContext, st: FlowState, l: StatementList) -> FlowState
    decreases l, 0int,
{
    match l {
        StatementList::Nil => st,
        StatementList::Cons(h, t) => statements_effect(c, statement_effect(c, st, *h), *t),
    }
}

/// The state after a block: its statements run in a scope of their own, whose variables go when
/// the block ends.
pub open spec fn block_effect(c: CheckContext, st: FlowState, b: Block) -> FlowState
    decreases b, 0int,
{
    let r = statements_effect(c, st, b.statements);
    (truncated(r.0, st.0.len()), r.1, r.2, r.3)
}

/// The state after a conditional: the condition is checked, then each branch from a state in
/// which nothing has returned or invoked the finalize block. Afterwards the function has
/// returned if it had before or both branches return; likewise for the finalize block.
pub open spec fn conditional_effect(c: CheckContext, st: FlowState, k: ConditionalStatement) -> FlowState
    decreases k, 0int,
{
    let t = block_effect(c, (st.0, st.1 + k.condition.errors@, false, false), k.then_block);
    match k.otherwise {
        None => (t.0, t.1, st.2, st.3),
        Some(o) => {
            let e = otherwise_effect(c, (t.0, t.1, false, false), *o);
            (e.0, e.1, st.2 || (t.2 && e.2), st.3 || (t.3 && e.3))
        },
    }
}

/// The state after the statement that a conditional runs where its condition does not hold.
pub open spec fn otherwise_effect(c: CheckContext, st: FlowState, s: Statement) -> FlowState
    decreases s, 0int,
{
    match s {
        Statement::Block(b) => block_effect(c, st, b),
        Statement::Conditional(k) => conditional_effect(c, st, k),
        _ => st,
    }
}

/// The state in which the body of a loop is checked: the loop variable must be an integer and is
/// declared as a constant in a scope of the loop, and nothing has returned or invoked the
/// finalize block.
pub open spec fn loop_scope(c: CheckContext, st: FlowState, variable: Identifier, t: Type, span: Span) -> FlowState {
    let typed = st.1 + type_errors(TypeClass::Int, Some(t), variable.span);
    let d = declare(c.0, c.1, (st.0, typed), variable.name, t, span, VariableType::Const);
    (d.0, d.1, false, false)
}

/// The state after the body of a loop, which is checked in the scope of the loop; the body
/// cannot return or invoke the finalize block.
pub open spec fn loop_body_effect(c: CheckContext, st: FlowState, variable: Identifier, t: Type, block: Block, span: Span) -> FlowState
    decreases block, 1int,
{
    let b = block_effect(c, loop_scope(c, st, variable, t, span), block);
    let body = b.1
        + (if b.2 { seq![TypeCheckerError::LoopBodyContainsReturn { span }] } else { Seq::empty() })
        + (if b.3 { seq![TypeCheckerError::LoopBodyContainsFinalize { span }] } else { Seq::empty() });
    (truncated(b.0, st.0.len()), body, st.2, st.3)
}

/// The errors of the bounds of a loop, which must be literals.
pub open spec fn bounds_errors(i: IterationStatement) -> Seq<TypeCheckerError> {
    i.start.errors@
        + (if i.start_literal is Some { Seq::empty() } else { seq![TypeCheckerError::LoopBoundMustBeALiteral { span: i.start.span }] })
        + i.stop.errors@
        + (if i.stop_literal is Some { Seq::empty() } else { seq![TypeCheckerError::LoopBoundMustBeALiteral { span: i.stop.span }] })
}

/// The state after a loop: its body, then its bounds.
pub open spec fn iteration_effect(c: CheckContext, st: FlowState, i: IterationStatement) -> FlowState
    decreases i, 0int,
{
    let b = loop_body_effect(c, st, i.variable, i.type_, i.block, i.span);
    (b.0, b.1 + bounds_errors(i), b.2, b.3)
}

/// The value that a bound of a loop holds after the check of the loop: the literal that the bound
/// is, where it is one; otherwise the value it held before.
pub open spec fn recorded_bound(literal: Option<ValueExpression>, value: Option<ValueExpression>) -> Option<ValueExpression> {
    if literal is Some {
        literal
    } else {
        value
    }
}

/// The statement after its check: the same statement, where each loop that the check reaches
/// records the values of its literal bounds. Nothing after a return is checked, so nothing there
/// is recorded.
pub open spec fn statement_output(c: CheckContext, st: FlowState, s: Statement) -> Statement
    decreases s, 0int,
{
    if st.2 {
        s
    } else {
        match s {
            Statement::Block(b) => Statement::Block(block_output(c, st, b)),
            Statement::Conditional(k) => Statement::Conditional(conditional_output(c, st, k)),
            Statement::Iteration(i) => Statement::Iteration(Box::new(iteration_output(c, st, *i))),
            _ => s,
        }
    }
}

/// The statements after their check, each checked in the state that those before it leave.
pub open spec fn statements_output(c: CheckContext, st: FlowState, l: StatementList) -> StatementList
    decreases l, 0int,
{
    match l {
        StatementList::Nil => StatementList::Nil,
        StatementList::Cons(h, t) => StatementList::Cons(
            Box::new(statement_output(c, st, *h)),
            Box::new(statements_output(c, statement_effect(c, st, *h), *t)),
        ),
    }
}

/// The block after its check.
pub open spec fn block_output(c: CheckContext, st: FlowState, b: Block) -> Block
    decreases b, 0int,
{
    Block { statements: statements_output(c, st, b.statements), span: b.span }
}

/// The conditional after its check: each branch checked in the state in which the check of the
/// conditional checks it.
pub open spec fn conditional_output(c: CheckContext, st: FlowState, k: ConditionalStatement) -> ConditionalStatement
    decreases k, 0int,
{
    let s0 = (st.0, st.1 + k.condition.errors@, false, false);
    let t = block_effect(c, s0, k.then_block);
    ConditionalStatement {
        condition: k.condition,
        then_block: block_output(c, s0, k.then_block),
        otherwise: match k.otherwise {
            None => None,
            Some(o) => Some(Box::new(otherwise_output(c, (t.0, t.1, false, false), *o))),
        },
        span: k.span,
    }
}

/// The statement that a conditional runs where its condition does not hold, after its check.
pub open spec fn otherwise_output(c: CheckContext, st: FlowState, s: Statement) -> Statement
    decreases s, 0int,
{
    match s {
        Statement::Block(b) => Statement::Block(block_output(c, st, b)),
        Statement::Conditional(k) => Statement::Conditional(conditional_output(c, st, k)),
        _ => s,
    }
}

/// The loop after its check: each literal bound is recorded as its value, and the body is
/// checked in the scope of the loop.
pub open spec fn iteration_output(c: CheckContext, st: FlowState, i: IterationStatement) -> IterationStatement
    decreases i, 0int,
{
    IterationStatement {
        variable: i.variable,
        type_: i.type_,
        start: i.start,
        start_literal: i.start_literal,
        start_value: recorded_bound(i.start_literal, i.start_value),
        stop: i.stop,
        stop_literal: i.stop_literal,
        stop_value: recorded_bound(i.stop_literal, i.stop_value),
        block: block_output(c, loop_scope(c, st, i.variable, i.type_, i.span), i.block),
        span: i.span,
    }
}

/// Whether each return statement among the statement and those it holds can be checked.
pub open spec fn returns_checkable(f: ReturnFrame, s: Statement) -> bool
    decreases s,
{
    match s {
        Statement::Block(b) => returns_checkable_list(f, b.statements),
        Statement::Conditional(k) => returns_checkable_conditional(f, k),
        Statement::Iteration(i) => returns_checkable_list(f, i.block.statements),
        Statement::Return(r) => return_checkable(f, r),
        _ => true,
    }
}

/// Whether each return statement in the branches of the conditional can be checked.
pub open spec fn returns_checkable_conditional(f: ReturnFrame, k: ConditionalStatement) -> bool
    decreases k,
{
    &&& returns_checkable_list(f, k.then_block.statements)
    &&& match k.otherwise {
        None => true,
        Some(o) => returns_checkable(f, *o),
    }
}

/// Whether each return statement among the statements can be checked.
pub open spec fn returns_checkable_list(f: ReturnFrame, l: StatementList) -> bool
    decreases l,
{
    match l {
        StatementList::Nil => true,
        StatementList::Cons(h, t) => returns_checkable(f, *h) && returns_checkable_list(f, *t),
    }
}

/// Whether the statement is one that the parser produces: the declared type of a definition is
/// neither a mapping nor erroneous, a tuple type has at least two members and a tuple place as
/// many as its type, and a conditional's other branch is a block or a conditional.
pub open spec fn wf_statement(s: Statement) -> bool
    decreases s,
{
    match s {
        Statement::Block(b) => wf_statements(b.statements),
        Statement::Conditional(k) => wf_conditional(k),
        Statement::Definition(d) => wf_definition(d),
        Statement::Iteration(i) => wf_statements(i.block.statements),
        _ => true,
    }
}

/// Whether the branches of the conditional are as the parser produces them.
pub open spec fn wf_conditional(k: ConditionalStatement) -> bool
    decreases k,
{
    &&& wf_statements(k.then_block.statements)
    &&& match k.otherwise {
        None => true,
        Some(o) => (*o is Block || *o is Conditional) && wf_statement(*o),
    }
}

/// Whether the statements are as the parser produces them.
pub open spec fn wf_statements(l: StatementList) -> bool
    decreases l,
{
    match l {
        StatementList::Nil => true,
        StatementList::Cons(h, t) => wf_statement(*h) && wf_statements(*t),
    }
}

/// Whether the definition is as the parser produces it.
pub open spec fn wf_definition(d: DefinitionStatement) -> bool {
    &&& !(d.type_ is Mapping)
    &&& !(d.type_ is Errored)
    &&& d.type_ matches Type::Tuple(l) ==> l.seq().len() >= 2
    &&& d.place matches DefinitionPlace::Tuple(elements) ==> (d.type_ matches Type::Tuple(l) && l.seq().len() == elements@.len())
}

impl TypeChecker {
    /// The state that the checks of statements change.
    pub open spec fn flow(self) -> FlowState {
        (self.symbol_table.variables@, self.errors(), self.has_return, self.has_finalize)
    }

    /// What the checks of statements read: the names of the functions and the structs in scope,
    /// whether the checks are inside a finalize block, and the number of inputs of the finalize
    /// block of the function being checked, as the symbol table gives it.
    pub open spec fn context(self) -> CheckContext {
        (function_names(self.symbol_table.functions@), self.symbol_table.structs@, self.is_finalize, frame_finalize(self.return_frame()))
    }

    /// Whether the two states agree on all that the checks of statements do not change.
    pub open spec fn same_frame(self, other: TypeChecker) -> bool {
        &&& self.symbol_table.functions@ == other.symbol_table.functions@
        &&& self.symbol_table.structs@ == other.symbol_table.structs@
        &&& self.call_graph == other.call_graph
        &&& self.function == other.function
        &&& self.variant == other.variant
        &&& self.is_finalize == other.is_finalize
        &&& self.is_imported == other.is_imported
        &&& self.is_return == other.is_return
    }

    /// Type checks a statement of the function being checked, and returns it with the values of
    /// the literal bounds of the loops that the check reaches recorded.
    pub fn visit_statement(&mut self, input: Statement) -> (output: Statement)
        requires
            wf_statement(input),
            returns_checkable(old(self).return_frame(), input),
            !old(self).is_return,
        ensures
            final(self).flow() == statement_effect(old(self).context(), old(self).flow(), input),
            output == statement_output(old(self).context(), old(self).flow(), input),
            final(self).same_frame(*old(self)),
        decreases input, 0int,
    {
        // No statements can follow a return statement.
        if self.has_return {
            self.emit_err(TypeCheckerError::UnreachableCodeAfterReturn { span: input.span() });
            return input;
        }
        match input {
            Statement::Assert(stmt) => {
                self.visit_assert(&stmt);
                Statement::Assert(stmt)
            },
            Statement::Assign(stmt) => {
                self.visit_assign(&stmt);
                Statement::Assign(stmt)
            },
            Statement::Block(stmt) => Statement::Block(self.visit_block(stmt)),
            Statement::Conditional(stmt) => Statement::Conditional(self.visit_conditional(stmt)),
            Statement::Decrement(stmt) => {
                self.visit_decrement(&stmt);
                Statement::Decrement(stmt)
            },
            Statement::Definition(stmt) => {
                self.visit_definition(&stmt);
                Statement::Definition(stmt)
            },
            Statement::Expression(stmt) => {
                self.visit_expression_statement(&stmt);
                Statement::Expression(stmt)
            },
            Statement::Increment(stmt) => {
                self.visit_increment(&stmt);
                Statement::Increment(stmt)
            },
            Statement::Iteration(stmt) => Statement::Iteration(Box::new(self.visit_iteration(*stmt))),
            Statement::Return(stmt) => {
                self.visit_return(&stmt);
                Statement::Return(stmt)
            },
        }
    }

    /// Type checks the statements, in order, and returns them as checked.
    fn visit_statements(&mut self, input: StatementList) -> (output: StatementList)
        requires
            wf_statements(input),
            returns_checkable_list(old(self).return_frame(), input),
            !old(self).is_return,
        ensures
            final(self).flow() == statements_effect(old(self).context(), old(self).flow(), input),
            output == statements_output(old(self).context(), old(self).flow(), input),
            final(self).same_frame(*old(self)),
        decreases input, 0int,
    {
        match input {
            StatementList::Nil => StatementList::Nil,
            StatementList::Cons(head, tail) => {
                let head = self.visit_statement(*head);
                let tail = self.visit_statements(*tail);
                StatementList::Cons(Box::new(head), Box::new(tail))
            },
        }
    }

    /// Type checks a block, in a scope of its own, and returns it as checked.
    pub fn visit_block(&mut self, input: Block) -> (output: Block)
        requires
            wf_statements(input.statements),
            returns_checkable_list(old(self).return_frame(), input.statements),
            !old(self).is_return,
        ensures
            final(self).flow() == block_effect(old(self).context(), old(self).flow(), input),
            output == block_output(old(self).context(), old(self).flow(), input),
            final(self).same_frame(*old(self)),
        decreases input, 0int,
    {
        // Enter a scope of the block.
        let scope = self.symbol_table.variables.len();
        let statements = self.visit_statements(input.statements);
        // Leave the scope.
        self.symbol_table.variables.truncate(scope);
        Block { statements, span: input.span }
    }

    /// Type checks a conditional statement, and returns it as checked.
    pub fn visit_conditional(&mut self, input: ConditionalStatement) -> (output: ConditionalStatement)
        requires
            wf_conditional(input),
            returns_checkable_conditional(old(self).return_frame(), input),
            !old(self).is_return,
        ensures
            final(self).flow() == conditional_effect(old(self).context(), old(self).flow(), input),
            output == conditional_output(old(self).context(), old(self).flow(), input),
            final(self).same_frame(*old(self)),
        decreases input, 0int,
    {
        let ConditionalStatement { condition, then_block, otherwise, span } = input;
        self.emit_errs(&condition.errors);

        // Check the then-block from a state in which nothing has returned or invoked the
        // finalize block.
        let previous_has_return = self.has_return;
        let previous_has_finalize = self.has_finalize;
        self.has_return = false;
        self.has_finalize = false;
        let then_block = self.visit_block(then_block);
        let then_block_has_return = self.has_return;
        let then_block_has_finalize = self.has_finalize;

        let mut otherwise_block_has_return = false;
        let mut otherwise_block_has_finalize = false;
        let otherwise = match otherwise {
            Some(statement) => {
                self.has_return = false;
                self.has_finalize = false;
                let checked = match *statement {
                    Statement::Block(stmt) => Statement::Block(self.visit_block(stmt)),
                    Statement::Conditional(stmt) => Statement::Conditional(self.visit_conditional(stmt)),
                    other => {
                        assert(false);
                        other
                    },
                };
                otherwise_block_has_return = self.has_return;
                otherwise_block_has_finalize = self.has_finalize;
                Some(Box::new(checked))
            },
            None => None,
        };

        // The function has returned where it had before or both branches return; likewise for
        // the finalize block.
        self.has_return = previous_has_return || (then_block_has_return && otherwise_block_has_return);
        self.has_finalize = previous_has_finalize || (then_block_has_finalize && otherwise_block_has_finalize);
        ConditionalStatement { condition, then_block, otherwise, span }
    }

    /// Type checks the body of a loop, in a scope of the loop that holds the loop variable, and
    /// returns it as checked.
    fn visit_loop_body(&mut self, variable: Identifier, type_: Type, block: Block, span: Span) -> (output: Block)
        requires
            wf_statements(block.statements),
            returns_checkable_list(old(self).return_frame(), block.statements),
            !old(self).is_return,
        ensures
            final(self).flow() == loop_body_effect(old(self).context(), old(self).flow(), variable, type_, block, span),
            output == block_output(old(self).context(), loop_scope(old(self).context(), old(self).flow(), variable, type_, span), block),
            final(self).same_frame(*old(self)),
        decreases block, 1int,
    {
        let iter_type = Some(type_);
        self.assert_int_type(&iter_type, variable.span);
        let type_ = match iter_type {
            Some(t) => t,
            None => {
                assert(false);
                return block;
            },
        };

        // Enter a scope of the loop, and declare the loop variable in it.
        let scope = self.symbol_table.variables.len();
        self.insert_variable(variable.name, type_, span, VariableType::Const);

        let prior_has_return = self.has_return;
        let prior_has_finalize = self.has_finalize;
        self.has_return = false;
        self.has_finalize = false;

        let block = self.visit_block(block);

        if self.has_return {
            self.emit_err(TypeCheckerError::LoopBodyContainsReturn { span });
        }
        if self.has_finalize {
            self.emit_err(TypeCheckerError::LoopBodyContainsFinalize { span });
        }
        self.has_return = prior_has_return;
        self.has_finalize = prior_has_finalize;

        // Leave the scope.
        self.symbol_table.variables.truncate(scope);
        block
    }

    /// Type checks a loop, and returns it with each bound that is a literal recorded as its
    /// value.
    pub fn visit_iteration(&mut self, input: IterationStatement) -> (output: IterationStatement)
        requires
            wf_statements(input.block.statements),
            returns_checkable_list(old(self).return_frame(), input.block.statements),
            !old(self).is_return,
        ensures
            final(self).flow() == iteration_effect(old(self).context(), old(self).flow(), input),
            output == iteration_output(old(self).context(), old(self).flow(), input),
            final(self).same_frame(*old(self)),
        decreases input, 0int,
    {
        let ghost whole = input;
        let IterationStatement {
            variable,
            type_,
            start,
            start_literal,
            start_value,
            stop,
            stop_literal,
            stop_value,
            block,
            span,
        } = input;
        let block = self.visit_loop_body(variable, clone_type(&type_), block, span);
        let ghost looped = self.errors();

        // A bound that is a literal is recorded as its value; any other is reported.
        self.emit_errs(&start.errors);
        let start_value = match &start_literal {
            Some(literal) => Some(clone_literal(literal)),
            None => {
                self.emit_err(TypeCheckerError::LoopBoundMustBeALiteral { span: start.span });
                start_value
            },
        };
        self.emit_errs(&stop.errors);
        let stop_value = match &stop_literal {
            Some(literal) => Some(clone_literal(literal)),
            None => {
                self.emit_err(TypeCheckerError::LoopBoundMustBeALiteral { span: stop.span });
                stop_value
            },
        };
        assert(self.errors() =~= looped + bounds_errors(whole));
        IterationStatement { variable, type_, start, start_literal, start_value, stop, stop_literal, stop_value, block, span }
    }
}

/// Whether `b` begins with `a`.
pub open spec fn extends(b: Seq<(Symbol, VariableSymbol)>, a: Seq<(Symbol, VariableSymbol)>) -> bool {
    a.len() <= b.len() && b.subrange(0, a.len() as int) == a
}

/// Binding the elements of a tuple only adds variables.
proof fn lemma_bind_elements_extends(
    functions: Seq<Symbol>,
    structs: Seq<StructSymbol>,
    state: (Seq<(Symbol, VariableSymbol)>, Seq<TypeCheckerError>),
    elements: Seq<crate::ast::statement::PlaceElement>,
    types: Seq<Type>,
    declaration: VariableType,
)
    ensures
        extends(crate::passes::check_statements::bind_elements(functions, structs, state, elements, types, declaration).0, state.0),
    decreases elements.len(),
{
    if elements.len() > 0 && types.len() > 0 {
        let next = match elements[0] {
            crate::ast::statement::PlaceElement::Identifier(id) => declare(functions, structs, state, id.name, types[0], id.span, declaration),
            crate::ast::statement::PlaceElement::Other(span) => (state.0, state.1.push(TypeCheckerError::LhsTupleElementMustBeAnIdentifier { span })),
        };
        assert(extends(next.0, state.0)) by {
            assert(next.0 == state.0 || next.0 == state.0.push(next.0.last()));
            assert(state.0.push(next.0.last()).subrange(0, state.0.len() as int) =~= state.0);
            assert(state.0.subrange(0, state.0.len() as int) =~= state.0);
        }
        lemma_bind_elements_extends(functions, structs, next, elements.drop_first(), types.drop_first(), declaration);
        let r = crate::passes::check_statements::bind_elements(functions, structs, next, elements.drop_first(), types.drop_first(), declaration).0;
        assert(r.subrange(0, state.0.len() as int) =~= r.subrange(0, next.0.len() as int).subrange(0, state.0.len() as int));
    } else {
        assert(state.0.subrange(0, state.0.len() as int) =~= state.0);
    }
}

/// A statement only adds variables to those in scope.
proof fn lemma_statement_extends(c: CheckContext, st: FlowState, s: Statement)
    ensures
        extends(statement_effect(c, st, s).0, st.0),
    decreases s, 0int,
{
    assert(st.0.subrange(0, st.0.len() as int) =~= st.0);
    if !st.2 {
        match s {
            Statement::Block(b) => law_block_scope(c, st, b),
            Statement::Conditional(k) => lemma_conditional_extends(c, st, k),
            Statement::Definition(d) => {
                let errors = st.1 + undefined_type_errors(c.1, d.type_, d.span) + shape_errors(d.type_, d.span) + d.value.errors@;
                let decl = declaration_of(d.declaration_type);
                match d.place {
                    DefinitionPlace::Identifier(id) => {
                        let r = declare(c.0, c.1, (st.0, errors), id.name, d.type_, id.span, decl);
                        assert(r.0 == st.0 || r.0 == st.0.push(r.0.last()));
                        assert(st.0.push(r.0.last()).subrange(0, st.0.len() as int) =~= st.0);
                    },
                    DefinitionPlace::Tuple(elements) => {
                        if let Type::Tuple(l) = d.type_ {
                            lemma_bind_elements_extends(c.0, c.1, (st.0, errors), elements@, l.seq(), decl);
                        }
                    },
                    DefinitionPlace::Other(_) => {},
                }
            },
            Statement::Iteration(i) => law_iteration_scope(c, st, *i),
            _ => {},
        }
    }
}

/// Statements only add variables to those in scope.
proof fn lemma_statements_extends(c: CheckContext, st: FlowState, l: StatementList)
    ensures
        extends(statements_effect(c, st, l).0, st.0),
    decreases l, 0int,
{
    match l {
        StatementList::Nil => {
            assert(st.0.subrange(0, st.0.len() as int) =~= st.0);
        },
        StatementList::Cons(h, t) => {
            let next = statement_effect(c, st, *h);
            lemma_statement_extends(c, st, *h);
            lemma_statements_extends(c, next, *t);
            let r = statements_effect(c, next, *t).0;
            assert(r.subrange(0, st.0.len() as int) =~= r.subrange(0, next.0.len() as int).subrange(0, st.0.len() as int));
        },
    }
}

/// The variables declared in a block go out of scope when it ends: after the block, the
/// variables in scope are those before it.
pub proof fn law_block_scope(c: CheckContext, st: FlowState, b: Block)
    ensures
        block_effect(c, st, b).0 == st.0,
        extends(block_effect(c, st, b).0, st.0),
    decreases b, 0int,
{
    lemma_statements_extends(c, st, b.statements);
    assert(st.0.subrange(0, st.0.len() as int) =~= st.0);
}

/// A conditional only adds variables to those in scope.
proof fn lemma_conditional_extends(c: CheckContext, st: FlowState, k: ConditionalStatement)
    ensures
        extends(conditional_effect(c, st, k).0, st.0),
    decreases k, 0int,
{
    let s0 = (st.0, st.1 + k.condition.errors@, false, false);
    law_block_scope(c, s0, k.then_block);
    let t = block_effect(c, s0, k.then_block);
    if let Some(o) = k.otherwise {
        lemma_otherwise_extends(c, (t.0, t.1, false, false), *o);
    }
    assert(st.0.subrange(0, st.0.len() as int) =~= st.0);
}

/// The other branch of a conditional only adds variables to those in scope.
proof fn lemma_otherwise_extends(c: CheckContext, st: FlowState, s: Statement)
    ensures
        extends(otherwise_effect(c, st, s).0, st.0),
    decreases s, 0int,
{
    assert(st.0.subrange(0, st.0.len() as int) =~= st.0);
    match s {
        Statement::Block(b) => law_block_scope(c, st, b),
        Statement::Conditional(k) => lemma_conditional_extends(c, st, k),
        _ => {},
    }
}

/// The loop variable and the variables declared in the body of a loop go out of scope when the
/// loop ends.
pub proof fn law_iteration_scope(c: CheckContext, st: FlowState, i: IterationStatement)
    ensures
        iteration_effect(c, st, i).0 == st.0,
        extends(iteration_effect(c, st, i).0, st.0),
    decreases i, 0int,
{
    lemma_loop_body_scope(c, st, i.variable, i.type_, i.block, i.span);
    assert(st.0.subrange(0, st.0.len() as int) =~= st.0);
}

/// After the body of a loop, the variables in scope are those before the loop.
proof fn lemma_loop_body_scope(c: CheckContext, st: FlowState, variable: Identifier, t: Type, block: Block, span: Span)
    ensures
        loop_body_effect(c, st, variable, t, block, span).0 == st.0,
    decreases block, 1int,
{
    let typed = st.1 + type_errors(TypeClass::Int, Some(t), variable.span);
    let d = declare(c.0, c.1, (st.0, typed), variable.name, t, span, VariableType::Const);
    assert(d.0 == st.0 || d.0 == st.0.push(d.0.last()));
    assert(st.0.push(d.0.last()).subrange(0, st.0.len() as int) =~= st.0);
    assert(st.0.subrange(0, st.0.len() as int) =~= st.0);
    law_block_scope(c, (d.0, d.1, false, false), block);
}

/// The loop variable is a constant in the body of its loop: where its name is free, the variable
/// that the body sees under that name is the loop variable, declared as a constant, and an
/// assignment to it in the body is refused as an assignment to a constant.
pub proof fn law_loop_variable_is_constant(
    c: CheckContext,
    st: FlowState,
    variable: Identifier,
    t: Type,
    span: Span,
    assignment: AssignStatement,
)
    requires
        shadow_error(c.0, c.1, st.0, variable.name, span) is None,
        assignment.place matches AssignPlace::Identifier(id) && id.name == variable.name,
    ensures
        find_variable(loop_scope(c, st, variable, t, span).0, variable.name)
            == Some(VariableSymbol { type_: t, span, declaration: VariableType::Const }),
        assignment.place matches AssignPlace::Identifier(id) ==> assign_errors(loop_scope(c, st, variable, t, span).0, assignment)
            == seq![TypeCheckerError::CannotAssignToConstVar { variable: id, span }] + assignment.value.errors@,
{
    let v = VariableSymbol { type_: t, span, declaration: VariableType::Const };
    law_lookup_after_declare(c.0, c.1, st.0, variable.name, v, variable.name);
}

} // verus!
