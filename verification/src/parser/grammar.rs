//! The productions, as functions from the state before to the state after
//! and the node that was built.
//!
//! A production that can contain itself takes the nesting budget `depth`:
//! each construct that holds a statement or an expression inside another one
//! spends one level of it, and a production that finds none left fails hard.
//! A production that repeats (a list) stops when a round consumes nothing.

use vstd::prelude::*;
use crate::ast::{FormalParameterKind, LiteralKind, Node, NodeId, VariableKind};
use crate::context::Context;
use crate::diagnostics::{spec_modifier_errors, Diagnostic, DiagnosticKind, ModifierPosition};
use crate::modifiers::{
    spec_first_accessibility,
    spec_has_kind,
    Modifier,
    ModifierKind,
};
use crate::parser::kinds::{spec_function_type, FunctionKind, StatementContext};
use crate::parser::model::ParserView;
use crate::span::Span;
use crate::token::Kind;

verus! {

pub open spec fn diag(kind: DiagnosticKind, span: Span) -> Diagnostic {
    Diagnostic { kind, span }
}

// ---------------------------------------------------------------------------
// Productions that contain no statement or expression.
// ---------------------------------------------------------------------------
/// `function`, or `async function` on one line, comes next.
pub open spec fn spec_at_function_with_async(m: ParserView) -> bool {
    m.at(Kind::Function) || (m.at(Kind::Async) && m.peek(1).kind == Kind::Function && !m.peek(
        1,
    ).is_on_new_line)
}

/// `declare`, followed on its line by `function` or `async`, comes next in a
/// TypeScript source.
pub open spec fn spec_at_ts_declaration(m: ParserView) -> bool {
    m.is_ts && m.at(Kind::Declare) && !m.peek(1).is_on_new_line && (m.peek(1).kind
        == Kind::Function || m.peek(1).kind == Kind::Async)
}

/// `yield` comes next and is to be read as an operator: the context makes it
/// one, or an operand follows on its line.
pub open spec fn spec_is_yield_expression(m: ParserView) -> bool {
    m.at(Kind::Yield) && (m.ctx.has_yield || (!m.peek(1).is_on_new_line && m.peek(
        1,
    ).kind.spec_starts_operand()))
}

/// Reports `await` or `yield` used as a name where `ctx` makes it an
/// operator.
#[verifier::opaque]
pub open spec fn s_check_identifier(m: ParserView, kind: Kind, ctx: Context) -> ParserView {
    let span = m.cur().spec_span();
    let m1 = if ctx.has_await && kind == Kind::Await {
        m.error(diag(DiagnosticKind::IdentifierAsync, span))
    } else {
        m
    };
    if ctx.has_yield && kind == Kind::Yield {
        m1.error(diag(DiagnosticKind::IdentifierGenerator, span))
    } else {
        m1
    }
}

/// Adds the reports for the modifiers of `list` that `position` does not
/// permit. The list itself is left as it is.
#[verifier::opaque]
pub open spec fn s_verify_modifiers(
    m: ParserView,
    list: Seq<Modifier>,
    position: ModifierPosition,
) -> ParserView {
    ParserView { errors: m.errors + spec_modifier_errors(list, position), ..m }
}

/// The name of a function.
///
/// A token that may name a binding is taken; for a function expression it is
/// judged against the function's own `await` and `yield` legality. Without
/// one: a declaration directly before `(` is reported and goes on without a
/// name, a reserved word where a declaration needs its name fails hard, and
/// anything else leaves the name absent in silence.
#[verifier::opaque]
pub open spec fn s_function_id(
    m: ParserView,
    func_kind: FunctionKind,
    is_async: bool,
    generator: bool,
) -> (ParserView, Option<NodeId>) {
    let kind = m.kind();
    if kind.spec_is_binding_identifier() {
        let ctx = if func_kind.spec_is_expression() {
            m.ctx.spec_and_await(is_async).spec_and_yield(generator)
        } else {
            m.ctx
        };
        let m1 = s_check_identifier(m, kind, ctx);
        let (m2, id) = m1.bump().store(Node::BindingIdentifier { span: m.cur().spec_span() });
        (m2, Some(id))
    } else if func_kind.spec_is_id_required() {
        if kind == Kind::LParen {
            (m.error(diag(DiagnosticKind::ExpectFunctionName, m.cur().spec_span())), None)
        } else if kind.spec_is_reserved_keyword() {
            (m.expect_without_advance(Kind::Ident), None)
        } else {
            (m, None)
        }
    } else {
        (m, None)
    }
}

/// A type: `void` or a name.
#[verifier::opaque]
pub open spec fn s_ts_type(m: ParserView) -> (ParserView, NodeId) {
    let span = m.cur().spec_span();
    if m.at(Kind::Void) {
        m.bump().store(Node::TSVoidKeyword { span })
    } else if m.kind().spec_is_identifier_name() {
        m.bump().store(Node::TSTypeReference { span })
    } else {
        m.unexpected_node()
    }
}

/// `: Type`, in a TypeScript source.
#[verifier::opaque]
pub open spec fn s_type_annotation(m: ParserView) -> (ParserView, Option<NodeId>) {
    if m.is_ts && m.at(Kind::Colon) {
        let start = m.start_span();
        let (m1, type_node) = s_ts_type(m.bump());
        let (m2, id) = m1.store(Node::TSTypeAnnotation { span: m1.end_span(start), type_node });
        (m2, Some(id))
    } else {
        (m, None)
    }
}

/// The names between `<` and `>`, separated by commas.
#[verifier::opaque]
pub open spec fn s_type_parameter_items(m: ParserView, first: bool, acc: Seq<NodeId>) -> (
    ParserView,
    Seq<NodeId>,
)
    decreases m.remaining(),
{
    if m.at(Kind::RAngle) || m.fatal is Some {
        (m, acc)
    } else if !first && !m.at(Kind::Comma) {
        (m.expect_failure(Kind::Comma), acc)
    } else {
        let m1 = if first {
            m
        } else {
            m.bump()
        };
        if !first && m1.at(Kind::RAngle) {
            (m1, acc)
        } else if m1.kind().spec_is_binding_identifier() {
            let span = m1.cur().spec_span();
            let (m2, name) = m1.bump().store(Node::BindingIdentifier { span });
            let (m3, item) = m2.store(Node::TSTypeParameter { span, name });
            s_type_parameter_items(m3, false, acc.push(item))
        } else {
            (m1.unexpected(), acc)
        }
    }
}

/// `<T, U>`, in a TypeScript source.
#[verifier::opaque]
pub open spec fn s_ts_type_parameters(m: ParserView) -> (ParserView, Option<NodeId>) {
    if m.is_ts && m.at(Kind::LAngle) {
        let start = m.start_span();
        let (m1, items) = s_type_parameter_items(m.bump(), true, Seq::empty());
        let m2 = m1.expect(Kind::RAngle);
        let (m3, params) = m2.store_list(items);
        let (m4, id) = m3.store(
            Node::TSTypeParameterDeclaration { span: m3.end_span(start), params },
        );
        (m4, Some(id))
    } else {
        (m, None)
    }
}

/// `this` or `this: Type` at the head of a parameter list.
#[verifier::opaque]
pub open spec fn s_ts_this_parameter(m: ParserView) -> (ParserView, NodeId) {
    let start = m.start_span();
    let this_span = m.cur().spec_span();
    let (m1, type_annotation) = s_type_annotation(m.bump());
    m1.store(Node::TSThisParameter { span: m1.end_span(start), this_span, type_annotation })
}

/// A binding: a name, in TypeScript with `?` and a type after it.
#[verifier::opaque]
pub open spec fn s_binding_pattern(m: ParserView) -> (ParserView, NodeId) {
    let kind = m.kind();
    if kind.spec_is_binding_identifier() {
        let start = m.start_span();
        let m1 = s_check_identifier(m, kind, m.ctx);
        let (m2, id) = m1.bump().store(Node::BindingIdentifier { span: m.cur().spec_span() });
        let (m3, optional) = if m2.is_ts {
            m2.eat(Kind::Question)
        } else {
            (m2, false)
        };
        let (m4, type_annotation) = s_type_annotation(m3);
        m4.store(Node::BindingPattern { span: m4.end_span(start), id, type_annotation, optional })
    } else {
        m.unexpected_node()
    }
}

/// `...name`.
#[verifier::opaque]
pub open spec fn s_rest_binding(m: ParserView) -> (ParserView, NodeId) {
    let start = m.start_span();
    let (m1, argument) = s_binding_pattern(m.bump());
    m1.store(Node::BindingRestElement { span: m1.end_span(start), argument })
}

/// The modifiers that stand before a declaration or a parameter. A word is
/// read as a modifier where a word follows it on its line; else it is the
/// name itself.
#[verifier::opaque]
pub open spec fn s_modifier_list(m: ParserView, acc: Seq<Modifier>) -> (ParserView, Seq<Modifier>)
    decreases m.remaining(),
{
    match ModifierKind::spec_from_token(m.kind()) {
        Some(kind) => {
            if !m.peek(1).is_on_new_line && m.peek(1).kind.spec_is_identifier_name() {
                s_modifier_list(m.bump(), acc.push(Modifier { span: m.cur().spec_span(), kind }))
            } else {
                (m, acc)
            }
        },
        None => (m, acc),
    }
}

/// The modifiers of a parameter: read only in a TypeScript source, and held
/// against what a parameter permits.
#[verifier::opaque]
pub open spec fn s_parameter_modifiers(m: ParserView) -> (ParserView, Seq<Modifier>) {
    let (m1, list) = if m.is_ts {
        s_modifier_list(m, Seq::empty())
    } else {
        (m, Seq::empty())
    };
    (s_verify_modifiers(m1, list, ModifierPosition::Parameter), list)
}

/// The report for an async or generator declaration that stands as the
/// unbraced body of a statement. The node is left as it is.
#[verifier::opaque]
pub open spec fn s_restricted_position_check(m: ParserView, decl: NodeId) -> ParserView {
    if 0 <= decl < m.nodes.len() {
        match m.nodes[decl as int] {
            Node::Function { span, is_async, generator, params, .. } => {
                let end = if 0 <= params < m.nodes.len() {
                    m.nodes[params as int].spec_span().end
                } else {
                    span.end
                };
                let at = Span::spec_closing(span.start, end);
                if is_async {
                    m.error(diag(DiagnosticKind::AsyncFunctionDeclaration, at))
                } else if generator {
                    m.error(diag(DiagnosticKind::GeneratorFunctionDeclaration, at))
                } else {
                    m
                }
            },
            _ => m,
        }
    } else {
        m
    }
}

// ---------------------------------------------------------------------------
// One level deeper.
// ---------------------------------------------------------------------------
pub open spec fn s_nested_assignment(m: ParserView, depth: nat) -> (ParserView, NodeId)
    decreases depth, 0nat, 0int,
{
    if depth == 0 {
        m.too_deep()
    } else {
        s_assignment(m, (depth - 1) as nat)
    }
}

pub open spec fn s_nested_expression(m: ParserView, depth: nat) -> (ParserView, NodeId)
    decreases depth, 0nat, 0int,
{
    if depth == 0 {
        m.too_deep()
    } else {
        s_expression(m, (depth - 1) as nat)
    }
}

pub open spec fn s_nested_lhs(m: ParserView, depth: nat) -> (ParserView, NodeId)
    decreases depth, 0nat, 0int,
{
    if depth == 0 {
        m.too_deep()
    } else {
        s_lhs(m, (depth - 1) as nat)
    }
}

pub open spec fn s_nested_statement(m: ParserView, depth: nat, stmt_ctx: StatementContext) -> (
    ParserView,
    NodeId,
)
    decreases depth, 0nat, 0int,
{
    if depth == 0 {
        m.too_deep()
    } else {
        s_statement(m, (depth - 1) as nat, stmt_ctx)
    }
}

pub open spec fn s_nested_statement_list(m: ParserView, depth: nat) -> (ParserView, Seq<NodeId>)
    decreases depth, 0nat, 0int,
{
    if depth == 0 {
        (m.too_deep().0, Seq::empty())
    } else {
        s_statement_list(m, (depth - 1) as nat, Seq::empty())
    }
}

pub open spec fn s_nested_function(
    m: ParserView,
    depth: nat,
    span: u32,
    id: Option<NodeId>,
    is_async: bool,
    generator: bool,
    func_kind: FunctionKind,
    param_kind: FormalParameterKind,
    modifiers: Seq<Modifier>,
) -> (ParserView, NodeId)
    decreases depth, 0nat, 0int,
{
    if depth == 0 {
        m.too_deep()
    } else {
        s_function(
            m,
            (depth - 1) as nat,
            span,
            id,
            is_async,
            generator,
            func_kind,
            param_kind,
            modifiers,
        )
    }
}

// ---------------------------------------------------------------------------
// Statements.
// ---------------------------------------------------------------------------
/// Statements up to `}` or the end of the input.
pub open spec fn s_statement_list(m: ParserView, depth: nat, acc: Seq<NodeId>) -> (
    ParserView,
    Seq<NodeId>,
)
    decreases depth, 90nat, m.remaining(),
{
    if m.at(Kind::RCurly) || m.at(Kind::Eof) {
        (m, acc)
    } else {
        let (m1, statement) = s_statement(m, depth, StatementContext::StatementList);
        if 0 <= m1.remaining() < m.remaining() {
            s_statement_list(m1, depth, acc.push(statement))
        } else {
            (m1, acc.push(statement))
        }
    }
}

/// A whole source: statements up to the end of the input. A `}` that closes
/// nothing fails hard.
#[verifier::opaque]
pub open spec fn s_program(m: ParserView, depth: nat) -> (ParserView, NodeId) {
    let start = m.start_span();
    let (m1, items) = s_statement_list(m, depth, Seq::empty());
    let m2 = if m1.at(Kind::Eof) {
        m1
    } else {
        m1.unexpected()
    };
    let (m3, body) = m2.store_list(items);
    m3.store(Node::Program { span: m3.end_span(start), body })
}

pub open spec fn s_statement(m: ParserView, depth: nat, stmt_ctx: StatementContext) -> (
    ParserView,
    NodeId,
)
    decreases depth, 81nat, 0int,
{
    if m.at(Kind::LCurly) {
        s_block(m, depth)
    } else if m.at(Kind::Semicolon) {
        let start = m.start_span();
        let m1 = m.bump();
        m1.store(Node::EmptyStatement { span: m1.end_span(start) })
    } else if m.at(Kind::If) {
        s_if_statement(m, depth)
    } else if m.at(Kind::Return) {
        s_return_statement(m, depth)
    } else if m.at(Kind::Var) || m.at(Kind::Const) || m.at(Kind::Let) {
        s_variable_declaration(m, depth)
    } else {
        s_declaration_statement(m, depth, stmt_ctx)
    }
}

/// A statement that starts with none of `{`, `;`, `if`, `return`, `var`,
/// `let` and `const`: an export, a class, a function, or an expression.
pub open spec fn s_declaration_statement(
    m: ParserView,
    depth: nat,
    stmt_ctx: StatementContext,
) -> (ParserView, NodeId)
    decreases depth, 80nat, 0int,
{
    if m.at(Kind::Export) {
        s_export_default(m, depth)
    } else if m.at(Kind::Class) {
        s_class_declaration(m, depth)
    } else if spec_at_function_with_async(m) {
        let span = m.start_span();
        let (m1, is_async) = m.eat(Kind::Async);
        s_function_declaration(m1, depth, span, is_async, stmt_ctx)
    } else if spec_at_ts_declaration(m) {
        s_ts_declaration(m, depth)
    } else {
        s_expression_statement(m, depth)
    }
}

pub open spec fn s_expression_statement(m: ParserView, depth: nat) -> (ParserView, NodeId)
    decreases depth, 79nat, 0int,
{
    let start = m.start_span();
    let (m1, expression) = s_expression(m, depth);
    let m2 = m1.asi();
    m2.store(Node::ExpressionStatement { span: m2.end_span(start), expression })
}

pub open spec fn s_block(m: ParserView, depth: nat) -> (ParserView, NodeId)
    decreases depth, 78nat, 0int,
{
    let start = m.start_span();
    let (m1, items) = s_nested_statement_list(m.expect(Kind::LCurly), depth);
    let m2 = m1.expect(Kind::RCurly);
    let (m3, body) = m2.store_list(items);
    m3.store(Node::BlockStatement { span: m3.end_span(start), body })
}

pub open spec fn s_if_statement(m: ParserView, depth: nat) -> (ParserView, NodeId)
    decreases depth, 77nat, 0int,
{
    let start = m.start_span();
    let (m1, test) = s_expression(m.bump().expect(Kind::LParen), depth);
    let (m2, consequent) = s_nested_statement(
        m1.expect(Kind::RParen),
        depth,
        StatementContext::If,
    );
    let (m3, alternate) = if m2.at(Kind::Else) {
        let (m, alternate) = s_nested_statement(m2.bump(), depth, StatementContext::If);
        (m, Some(alternate))
    } else {
        (m2, None)
    };
    m3.store(Node::IfStatement { span: m3.end_span(start), test, consequent, alternate })
}

pub open spec fn s_return_statement(m: ParserView, depth: nat) -> (ParserView, NodeId)
    decreases depth, 76nat, 0int,
{
    let start = m.start_span();
    let m1 = if m.ctx.has_return {
        m.bump()
    } else {
        m.bump().error(diag(DiagnosticKind::ReturnOutsideFunction, m.cur().spec_span()))
    };
    let (m2, argument) = if m1.can_insert_semicolon() {
        (m1, None)
    } else {
        let (m, argument) = s_expression(m1, depth);
        (m, Some(argument))
    };
    let m3 = m2.asi();
    m3.store(Node::ReturnStatement { span: m3.end_span(start), argument })
}

pub open spec fn spec_variable_kind(kind: Kind) -> VariableKind {
    match kind {
        Kind::Const => VariableKind::Const,
        Kind::Let => VariableKind::Let,
        _ => VariableKind::Var,
    }
}

/// `var`, `let` or `const` with one binding and, if it is there, its value.
pub open spec fn s_variable_declaration(m: ParserView, depth: nat) -> (ParserView, NodeId)
    decreases depth, 75nat, 0int,
{
    let start = m.start_span();
    let kind = spec_variable_kind(m.kind());
    let m0 = m.bump();
    let declarator_start = m0.start_span();
    let (m1, id) = s_binding_pattern(m0);
    let (m2, init) = if m1.at(Kind::Eq) {
        let (m, init) = s_assignment(m1.bump(), depth);
        (m, Some(init))
    } else {
        (m1, None)
    };
    let (m3, declarator) = m2.store(
        Node::VariableDeclarator { span: m2.end_span(declarator_start), id, init },
    );
    let m4 = m3.asi();
    let (m5, declarations) = m4.store_list(seq![declarator]);
    m5.store(Node::VariableDeclaration { span: m5.end_span(start), kind, declarations })
}

/// `export default` before a function or an expression.
pub open spec fn s_export_default(m: ParserView, depth: nat) -> (ParserView, NodeId)
    decreases depth, 72nat, 0int,
{
    let start = m.start_span();
    let m0 = m.bump().expect(Kind::Default);
    let (m2, declaration) = if spec_at_function_with_async(m0) {
        let span = m0.start_span();
        let (m1, is_async) = m0.eat(Kind::Async);
        s_function_impl(m1, depth, span, is_async, FunctionKind::DefaultExport)
    } else {
        let (m1, expression) = s_assignment(m0, depth);
        (m1.asi(), expression)
    };
    m2.store(Node::ExportDefaultDeclaration { span: m2.end_span(start), declaration })
}

/// `declare function ...`: the modifiers, then the function.
pub open spec fn s_ts_declaration(m: ParserView, depth: nat) -> (ParserView, NodeId)
    decreases depth, 71nat, 0int,
{
    let start = m.start_span();
    let (m1, modifiers) = s_modifier_list(m, Seq::empty());
    s_ts_function_impl(m1, depth, start, FunctionKind::TSDeclaration, modifiers)
}

/// A function declaration in statement position. As the unbraced body of
/// another statement an async or generator declaration is reported once the
/// node is built.
pub open spec fn s_function_declaration(
    m: ParserView,
    depth: nat,
    span: u32,
    is_async: bool,
    stmt_ctx: StatementContext,
) -> (ParserView, NodeId)
    decreases depth, 70nat, 0int,
{
    let (m1, decl) = s_function_impl(m, depth, span, is_async, FunctionKind::Declaration);
    if stmt_ctx.spec_is_single_statement() {
        (s_restricted_position_check(m1, decl), decl)
    } else {
        (m1, decl)
    }
}

// ---------------------------------------------------------------------------
// Classes.
// ---------------------------------------------------------------------------
/// `class Name { ... }` with methods as its elements.
pub open spec fn s_class_declaration(m: ParserView, depth: nat) -> (ParserView, NodeId)
    decreases depth, 74nat, 0int,
{
    let start = m.start_span();
    let m0 = m.bump();
    let (m1, id) = if m0.kind().spec_is_binding_identifier() {
        let (m, id) = m0.bump().store(Node::BindingIdentifier { span: m0.cur().spec_span() });
        (m, Some(id))
    } else {
        (m0, None)
    };
    let (m2, items) = s_class_elements(m1.expect(Kind::LCurly), depth, Seq::empty());
    let m3 = m2.expect(Kind::RCurly);
    let (m4, body) = m3.store_list(items);
    m4.store(Node::ClassDeclaration { span: m4.end_span(start), id, body })
}

pub open spec fn s_class_elements(m: ParserView, depth: nat, acc: Seq<NodeId>) -> (
    ParserView,
    Seq<NodeId>,
)
    decreases depth, 73nat, m.remaining(),
{
    if m.at(Kind::RCurly) || m.at(Kind::Eof) {
        (m, acc)
    } else if m.at(Kind::Semicolon) {
        s_class_elements(m.bump(), depth, acc)
    } else {
        let (m1, element) = s_method_definition(m, depth);
        if 0 <= m1.remaining() < m.remaining() {
            s_class_elements(m1, depth, acc.push(element))
        } else {
            (m1, acc.push(element))
        }
    }
}

/// Whether the word at the current token stands before a method's name
/// rather than being the name.
pub open spec fn spec_at_method_prefix(m: ParserView, kind: Kind) -> bool {
    m.at(kind) && !m.peek(1).is_on_new_line && (m.peek(1).kind.spec_is_identifier_name() || m.peek(
        1,
    ).kind == Kind::Star)
}

/// `static? async? *? name(...) { ... }`.
pub open spec fn s_method_definition(m: ParserView, depth: nat) -> (ParserView, NodeId)
    decreases depth, 67nat, 0int,
{
    let start = m.start_span();
    let (m1, is_static) = if spec_at_method_prefix(m, Kind::Static) {
        (m.bump(), true)
    } else {
        (m, false)
    };
    let (m2, is_async) = if spec_at_method_prefix(m1, Kind::Async) {
        (m1.bump(), true)
    } else {
        (m1, false)
    };
    let (m3, generator) = m2.eat(Kind::Star);
    if m3.kind().spec_is_identifier_name() {
        let (m4, key) = m3.bump().store(Node::IdentifierName { span: m3.cur().spec_span() });
        let (m5, value) = s_method(m4, depth, is_async, generator);
        m5.store(Node::MethodDefinition { span: m5.end_span(start), key, value, is_static })
    } else {
        m3.unexpected_node()
    }
}

// ---------------------------------------------------------------------------
// Functions.
// ---------------------------------------------------------------------------
/// A function in JavaScript position, from `function` on.
pub open spec fn s_function_impl(
    m: ParserView,
    depth: nat,
    span: u32,
    is_async: bool,
    func_kind: FunctionKind,
) -> (ParserView, NodeId)
    decreases depth, 68nat, 0int,
{
    let (m1, generator) = m.expect(Kind::Function).eat(Kind::Star);
    let (m2, id) = s_function_id(m1, func_kind, is_async, generator);
    s_function(
        m2,
        depth,
        span,
        id,
        is_async,
        generator,
        func_kind,
        FormalParameterKind::FormalParameter,
        Seq::empty(),
    )
}

/// A function after TypeScript modifiers, from `function` on.
pub open spec fn s_ts_function_impl(
    m: ParserView,
    depth: nat,
    start_span: u32,
    func_kind: FunctionKind,
    modifiers: Seq<Modifier>,
) -> (ParserView, NodeId)
    decreases depth, 68nat, 0int,
{
    let is_async = spec_has_kind(modifiers, ModifierKind::Async);
    let (m1, generator) = m.expect(Kind::Function).eat(Kind::Star);
    let (m2, id) = s_function_id(m1, func_kind, is_async, generator);
    s_function(
        m2,
        depth,
        start_span,
        id,
        is_async,
        generator,
        func_kind,
        FormalParameterKind::FormalParameter,
        modifiers,
    )
}

/// A method, from `(` on.
pub open spec fn s_method(m: ParserView, depth: nat, is_async: bool, generator: bool) -> (
    ParserView,
    NodeId,
)
    decreases depth, 66nat, 0int,
{
    s_function(
        m,
        depth,
        m.start_span(),
        None,
        is_async,
        generator,
        FunctionKind::Expression,
        FormalParameterKind::UniqueFormalParameters,
        Seq::empty(),
    )
}

/// What a function is made of, as far as it is read from the source.
#[derive(Clone, Copy, Debug, PartialEq, Eq, Structural)]
pub struct FunctionParts {
    pub type_parameters: Option<NodeId>,
    pub this_param: Option<NodeId>,
    pub params: NodeId,
    pub return_type: Option<NodeId>,
    pub body: Option<NodeId>,
}

/// The signature and the body of a function: type parameters, the parameter
/// list, the return type, and the body, which is there exactly if `{` comes
/// next.
///
/// All of it is read under the caller's context with `in` allowed and with
/// `await` and `yield` set by the function's own flags; afterwards the
/// caller's three axes are put back.
pub open spec fn s_function_parts(
    m: ParserView,
    depth: nat,
    is_async: bool,
    generator: bool,
    param_kind: FormalParameterKind,
) -> (ParserView, FunctionParts)
    decreases depth, 64nat, 0int,
{
    let ctx = m.ctx;
    let (m1, type_parameters) = s_ts_type_parameters(
        m.with_ctx(ctx.spec_enter_function(is_async, generator)),
    );
    let (m2, (this_param, params)) = s_formal_parameters(m1, depth, param_kind);
    let (m3, return_type) = s_type_annotation(m2);
    let (m4, body) = if m3.at(Kind::LCurly) {
        let (m, body) = s_function_body(m3, depth);
        (m, Some(body))
    } else {
        (m3, None)
    };
    (
        m4.with_ctx(ctx.spec_restore_onto(m4.ctx)),
        FunctionParts { type_parameters, this_param, params, return_type, body },
    )
}

/// The node of a function whose signature and body were read.
///
/// The node's type follows [`spec_function_type`]; a function whose type has
/// no body ends like a statement. The modifiers are checked last, against
/// what a function permits, so that the node is complete when they are
/// judged; one that is not permitted is reported and stays.
#[verifier::opaque]
pub open spec fn s_finish_function(
    m: ParserView,
    span: u32,
    id: Option<NodeId>,
    is_async: bool,
    generator: bool,
    func_kind: FunctionKind,
    modifiers: Seq<Modifier>,
    parts: FunctionParts,
) -> (ParserView, NodeId) {
    let function_type = spec_function_type(func_kind, parts.body is Some);
    let m1 = if function_type.spec_is_bodiless() {
        m.asi()
    } else {
        m
    };
    let m2 = s_verify_modifiers(m1, modifiers, ModifierPosition::Function);
    m2.store(
        Node::Function {
            span: m2.end_span(span),
            function_type,
            id,
            generator,
            is_async,
            declare: spec_has_kind(modifiers, ModifierKind::Declare),
            type_parameters: parts.type_parameters,
            this_param: parts.this_param,
            params: parts.params,
            return_type: parts.return_type,
            body: parts.body,
        },
    )
}

/// A function from its type parameters on.
///
/// After signature and body ([`s_function_parts`]): without a body a
/// JavaScript source fails hard; else the node is made
/// ([`s_finish_function`]).
pub open spec fn s_function(
    m: ParserView,
    depth: nat,
    span: u32,
    id: Option<NodeId>,
    is_async: bool,
    generator: bool,
    func_kind: FunctionKind,
    param_kind: FormalParameterKind,
    modifiers: Seq<Modifier>,
) -> (ParserView, NodeId)
    decreases depth, 65nat, 0int,
{
    let (m1, parts) = s_function_parts(m, depth, is_async, generator, param_kind);
    if !m1.is_ts && parts.body is None {
        m1.unexpected_node()
    } else {
        s_finish_function(m1, span, id, is_async, generator, func_kind, modifiers, parts)
    }
}

/// `{ statements }`, read with `return` allowed.
pub open spec fn s_function_body(m: ParserView, depth: nat) -> (ParserView, NodeId)
    decreases depth, 63nat, 0int,
{
    let start = m.start_span();
    let m1 = m.expect(Kind::LCurly);
    let (m2, items) = s_nested_statement_list(
        m1.with_ctx(m1.ctx.spec_with(Context::spec_empty().spec_and_return(true), Context::spec_empty())),
        depth,
    );
    let m3 = m2.with_ctx(m1.ctx).expect(Kind::RCurly);
    let (m4, statements) = m3.store_list(items);
    m4.store(Node::FunctionBody { span: m4.end_span(start), statements })
}

/// `( this?, parameters, ...rest? )`.
pub open spec fn s_formal_parameters(m: ParserView, depth: nat, kind: FormalParameterKind) -> (
    ParserView,
    (Option<NodeId>, NodeId),
)
    decreases depth, 63nat, 0int,
{
    let start = m.start_span();
    let m1 = m.expect(Kind::LParen);
    let (m2, this_param) = if m1.is_ts && m1.at(Kind::This) {
        let (m, this_param) = s_ts_this_parameter(m1);
        (
            if m.at(Kind::RParen) {
                m
            } else {
                m.expect(Kind::Comma)
            },
            Some(this_param),
        )
    } else {
        (m1, None)
    };
    let (m3, (items, rest)) = s_parameter_list(m2, depth, true, Seq::empty(), None);
    let m4 = m3.expect(Kind::RParen);
    let (m5, list) = m4.store_list(items);
    let (m6, params) = m5.store(
        Node::FormalParameters { span: m5.end_span(start), kind, items: list, rest },
    );
    (m6, (this_param, params))
}

/// The span of the node at `id`, or an empty span where there is none.
pub open spec fn spec_span_of(m: ParserView, id: NodeId) -> Span {
    if 0 <= id < m.nodes.len() {
        m.nodes[id as int].spec_span()
    } else {
        Span { start: 0, end: 0 }
    }
}

/// Parameters up to `)`, separated by commas. A rest parameter is kept aside;
/// one that something follows is reported, and what follows is still read as
/// parameters.
pub open spec fn s_parameter_list(
    m: ParserView,
    depth: nat,
    first: bool,
    acc: Seq<NodeId>,
    rest: Option<NodeId>,
) -> (ParserView, (Seq<NodeId>, Option<NodeId>))
    decreases depth, 62nat, m.remaining(),
{
    if m.at(Kind::RParen) || m.fatal is Some {
        (m, (acc, rest))
    } else if !first && !m.at(Kind::Comma) {
        (m.expect_failure(Kind::Comma), (acc, rest))
    } else {
        let comma_span = m.cur().spec_span();
        let m1 = if first {
            m
        } else {
            m.bump()
        };
        if !first && m1.at(Kind::RParen) {
            (
                if rest is Some {
                    m1.error(diag(DiagnosticKind::RestElementTrailingComma, comma_span))
                } else {
                    m1
                },
                (acc, rest),
            )
        } else {
            let m2 = match rest {
                Some(r) => m1.error(diag(DiagnosticKind::RestParameterLast, spec_span_of(m1, r))),
                None => m1,
            };
            if m2.at(Kind::Dot3) {
                let (m3, r) = s_rest_binding(m2);
                if 0 <= m3.remaining() < m.remaining() {
                    s_parameter_list(m3, depth, false, acc, Some(r))
                } else {
                    (m3, (acc, Some(r)))
                }
            } else {
                let (m3, p) = s_formal_parameter(m2, depth);
                if 0 <= m3.remaining() < m.remaining() {
                    s_parameter_list(m3, depth, false, acc.push(p), rest)
                } else {
                    (m3, (acc.push(p), rest))
                }
            }
        }
    }
}

/// One parameter: decorators, then modifiers, then the binding with its
/// default value.
pub open spec fn s_formal_parameter(m: ParserView, depth: nat) -> (ParserView, NodeId)
    decreases depth, 61nat, 0int,
{
    let start = m.start_span();
    let m1 = if m.at(Kind::At) {
        s_eat_decorators(m, depth)
    } else {
        m
    };
    let waiting = m1.decorators;
    let (m2, modifiers) = s_parameter_modifiers(m1.with_decorators(Seq::empty()));
    let (m3, pattern) = s_binding_pattern_with_initializer(m2, depth);
    let (m4, decorators) = m3.store_list(waiting);
    m4.store(
        Node::FormalParameter {
            span: m4.end_span(start),
            decorators,
            pattern,
            accessibility: spec_first_accessibility(modifiers),
            readonly: spec_has_kind(modifiers, ModifierKind::Readonly),
            is_override: spec_has_kind(modifiers, ModifierKind::Override),
        },
    )
}

/// Reads every `@decorator` that comes next and leaves them waiting.
pub open spec fn s_eat_decorators(m: ParserView, depth: nat) -> ParserView
    decreases depth, 59nat, m.remaining(),
{
    if m.at(Kind::At) {
        let (m1, decorator) = s_decorator(m, depth);
        let m2 = m1.with_decorators(m1.decorators.push(decorator));
        if 0 <= m2.remaining() < m.remaining() {
            s_eat_decorators(m2, depth)
        } else {
            m2
        }
    } else {
        m
    }
}

pub open spec fn s_decorator(m: ParserView, depth: nat) -> (ParserView, NodeId)
    decreases depth, 58nat, 0int,
{
    let start = m.start_span();
    let (m1, expression) = s_nested_lhs(m.bump(), depth);
    m1.store(Node::Decorator { span: m1.end_span(start), expression })
}

pub open spec fn s_binding_pattern_with_initializer(m: ParserView, depth: nat) -> (
    ParserView,
    NodeId,
)
    decreases depth, 57nat, 0int,
{
    let start = m.start_span();
    let (m1, left) = s_binding_pattern(m);
    if m1.at(Kind::Eq) {
        let (m2, right) = s_assignment(m1.bump(), depth);
        m2.store(Node::AssignmentPattern { span: m2.end_span(start), left, right })
    } else {
        (m1, left)
    }
}

// ---------------------------------------------------------------------------
// Expressions.
// ---------------------------------------------------------------------------
pub open spec fn s_expression(m: ParserView, depth: nat) -> (ParserView, NodeId)
    decreases depth, 56nat, 0int,
{
    s_assignment(m, depth)
}

/// An assignment, a `yield`, or anything that binds tighter.
pub open spec fn s_assignment(m: ParserView, depth: nat) -> (ParserView, NodeId)
    decreases depth, 55nat, 0int,
{
    if spec_is_yield_expression(m) {
        s_yield(m, depth)
    } else {
        let start = m.start_span();
        let (m1, left) = s_lhs(m, depth);
        if m1.at(Kind::Eq) {
            let (m2, right) = s_nested_assignment(m1.bump(), depth);
            m2.store(Node::AssignmentExpression { span: m2.end_span(start), left, right })
        } else {
            (m1, left)
        }
    }
}

/// `yield`, `yield argument` or `yield * argument`.
///
/// Where the context does not allow `yield` this is reported and the
/// expression is read all the same. A line break after `yield` ends it.
/// Otherwise `*` may follow, and an argument is read unless a token that ends
/// a `yield` comes next and there was no `*`; the argument is read with
/// `yield` allowed, and the earlier legality is put back after it.
pub open spec fn s_yield(m: ParserView, depth: nat) -> (ParserView, NodeId)
    decreases depth, 54nat, 0int,
{
    let start = m.start_span();
    let has_yield = m.ctx.has_yield;
    let m1 = if has_yield {
        m.bump()
    } else {
        m.bump().error(diag(DiagnosticKind::YieldExpression, m.cur().spec_span()))
    };
    if m1.cur().is_on_new_line {
        m1.store(Node::YieldExpression { span: m1.end_span(start), delegate: false, argument: None })
    } else {
        let (m2, delegate) = m1.eat(Kind::Star);
        if !m2.kind().spec_ends_yield() || delegate {
            let (m3, argument) = s_nested_assignment(
                m2.with_ctx(m2.ctx.spec_union_yield_if(true)),
                depth,
            );
            let m4 = m3.with_ctx(m3.ctx.spec_and_yield(has_yield));
            m4.store(
                Node::YieldExpression {
                    span: m4.end_span(start),
                    delegate,
                    argument: Some(argument),
                },
            )
        } else {
            m2.store(Node::YieldExpression { span: m2.end_span(start), delegate, argument: None })
        }
    }
}

/// A primary expression or a `new` expression, and the member accesses and
/// calls that follow it.
pub open spec fn s_lhs(m: ParserView, depth: nat) -> (ParserView, NodeId)
    decreases depth, 45nat, 0int,
{
    let start = m.start_span();
    let (m1, base) = if m.at(Kind::New) {
        s_new(m, depth)
    } else {
        s_primary(m, depth)
    };
    s_postfix(m1, depth, start, base, true)
}

/// `new callee` or `new callee(arguments)`; the callee takes member accesses
/// but no call.
pub open spec fn s_new(m: ParserView, depth: nat) -> (ParserView, NodeId)
    decreases depth, 44nat, 0int,
{
    let start = m.start_span();
    let m0 = m.bump();
    let callee_start = m0.start_span();
    let (m1, base) = s_primary(m0, depth);
    let (m2, callee) = s_postfix(m1, depth, callee_start, base, false);
    let (m3, items) = if m2.at(Kind::LParen) {
        s_arguments(m2, depth)
    } else {
        (m2, Seq::empty())
    };
    let (m4, arguments) = m3.store_list(items);
    m4.store(Node::NewExpression { span: m4.end_span(start), callee, arguments })
}

/// What follows an expression: `.name`, `[expression]` and, where calls are
/// allowed, `(arguments)`, each any number of times.
pub open spec fn s_postfix(
    m: ParserView,
    depth: nat,
    start: u32,
    base: NodeId,
    allow_call: bool,
) -> (ParserView, NodeId)
    decreases depth, 43nat, m.remaining(),
{
    if m.at(Kind::Dot) {
        let m1 = m.bump();
        if m1.kind().spec_is_identifier_name() {
            let (m2, property) = m1.bump().store(
                Node::IdentifierName { span: m1.cur().spec_span() },
            );
            let (m3, member) = m2.store(
                Node::StaticMemberExpression { span: m2.end_span(start), object: base, property },
            );
            s_postfix(m3, depth, start, member, allow_call)
        } else {
            m1.unexpected_node()
        }
    } else if m.at(Kind::LBrack) {
        let (m1, expression) = s_nested_expression(m.bump(), depth);
        let m2 = m1.expect(Kind::RBrack);
        let (m3, member) = m2.store(
            Node::ComputedMemberExpression { span: m2.end_span(start), object: base, expression },
        );
        if 0 <= m3.remaining() < m.remaining() {
            s_postfix(m3, depth, start, member, allow_call)
        } else {
            (m3, member)
        }
    } else if allow_call && m.at(Kind::LParen) {
        let (m1, items) = s_arguments(m, depth);
        let (m2, arguments) = m1.store_list(items);
        let (m3, call) = m2.store(
            Node::CallExpression { span: m2.end_span(start), callee: base, arguments },
        );
        if 0 <= m3.remaining() < m.remaining() {
            s_postfix(m3, depth, start, call, allow_call)
        } else {
            (m3, call)
        }
    } else {
        (m, base)
    }
}

/// `( arguments )`.
pub open spec fn s_arguments(m: ParserView, depth: nat) -> (ParserView, Seq<NodeId>)
    decreases depth, 41nat, 0int,
{
    let (m1, items) = s_element_list(m.expect(Kind::LParen), depth, Kind::RParen, true, Seq::empty());
    (m1.expect(Kind::RParen), items)
}

/// Elements up to `close`, separated by commas; a comma may stand before
/// `close`.
pub open spec fn s_element_list(
    m: ParserView,
    depth: nat,
    close: Kind,
    first: bool,
    acc: Seq<NodeId>,
) -> (ParserView, Seq<NodeId>)
    decreases depth, 33nat, m.remaining(),
{
    if m.at(close) || m.fatal is Some {
        (m, acc)
    } else if !first && !m.at(Kind::Comma) {
        (m.expect_failure(Kind::Comma), acc)
    } else {
        let m1 = if first {
            m
        } else {
            m.bump()
        };
        if !first && m1.at(close) {
            (m1, acc)
        } else {
            let (m2, element) = s_element(m1, depth);
            if 0 <= m2.remaining() < m.remaining() {
                s_element_list(m2, depth, close, false, acc.push(element))
            } else {
                (m2, acc.push(element))
            }
        }
    }
}

/// An argument or an array element: an expression, or `...expression`.
pub open spec fn s_element(m: ParserView, depth: nat) -> (ParserView, NodeId)
    decreases depth, 32nat, 0int,
{
    if m.at(Kind::Dot3) {
        let start = m.start_span();
        let (m1, argument) = s_nested_assignment(m.bump(), depth);
        m1.store(Node::SpreadElement { span: m1.end_span(start), argument })
    } else {
        s_nested_assignment(m, depth)
    }
}

pub open spec fn spec_literal_kind(kind: Kind) -> Option<LiteralKind> {
    match kind {
        Kind::Null => Some(LiteralKind::Null),
        Kind::True => Some(LiteralKind::True),
        Kind::False => Some(LiteralKind::False),
        Kind::Number => Some(LiteralKind::Number),
        Kind::Str => Some(LiteralKind::Str),
        _ => None,
    }
}

pub open spec fn s_primary(m: ParserView, depth: nat) -> (ParserView, NodeId)
    decreases depth, 40nat, 0int,
{
    let kind = m.kind();
    let span = m.cur().spec_span();
    if kind == Kind::This {
        m.bump().store(Node::ThisExpression { span })
    } else if spec_literal_kind(kind) is Some {
        m.bump().store(Node::Literal { span, kind: spec_literal_kind(kind)->0 })
    } else if kind == Kind::RegExp {
        m.bump().store(Node::RegExpLiteral { span })
    } else if kind == Kind::LBrack {
        s_array(m, depth)
    } else if kind == Kind::LParen {
        s_parenthesized(m, depth)
    } else if kind == Kind::Function {
        s_function_expression(m, depth, m.start_span(), false)
    } else if spec_at_function_with_async(m) {
        s_function_expression(m.bump(), depth, m.start_span(), true)
    } else if kind.spec_is_binding_identifier() {
        s_check_identifier(m, kind, m.ctx).bump().store(Node::IdentifierReference { span })
    } else {
        m.unexpected_node()
    }
}

pub open spec fn s_array(m: ParserView, depth: nat) -> (ParserView, NodeId)
    decreases depth, 37nat, 0int,
{
    let start = m.start_span();
    let (m1, items) = s_element_list(m.bump(), depth, Kind::RBrack, true, Seq::empty());
    let m2 = m1.expect(Kind::RBrack);
    let (m3, elements) = m2.store_list(items);
    m3.store(Node::ArrayExpression { span: m3.end_span(start), elements })
}

pub open spec fn s_parenthesized(m: ParserView, depth: nat) -> (ParserView, NodeId)
    decreases depth, 36nat, 0int,
{
    let start = m.start_span();
    let (m1, expression) = s_nested_expression(m.bump(), depth);
    let m2 = m1.expect(Kind::RParen);
    m2.store(Node::ParenthesizedExpression { span: m2.end_span(start), expression })
}

/// A function expression, from `function` on.
pub open spec fn s_function_expression(m: ParserView, depth: nat, span: u32, is_async: bool) -> (
    ParserView,
    NodeId,
)
    decreases depth, 35nat, 0int,
{
    let (m1, generator) = m.expect(Kind::Function).eat(Kind::Star);
    let (m2, id) = s_function_id(m1, FunctionKind::Expression, is_async, generator);
    s_nested_function(
        m2,
        depth,
        span,
        id,
        is_async,
        generator,
        FunctionKind::Expression,
        FormalParameterKind::FormalParameter,
        Seq::empty(),
    )
}

} // verus!
