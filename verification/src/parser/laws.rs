//! What the productions promise, stated of the model for every state.

use vstd::prelude::*;
use crate::ast::{Node, NodeId};
use crate::diagnostics::DiagnosticKind;
use crate::modifiers::Modifier;
use crate::parser::grammar::{
    diag,
    s_check_identifier,
    s_finish_function,
    s_function_id,
    s_restricted_position_check,
    s_verify_modifiers,
    s_yield,
    FunctionParts,
};
use crate::parser::kinds::{spec_function_type, FunctionKind};
use crate::parser::model::ParserView;
use crate::token::Kind;

verus! {

/// The type of a function node is the one that the table gives for the kind
/// that was asked for and for the presence of a body, and the node holds the
/// parts and flags it was made from. Modifiers change neither.
pub proof fn lemma_function_type_follows_table(
    m: ParserView,
    span: u32,
    id: Option<NodeId>,
    is_async: bool,
    generator: bool,
    func_kind: FunctionKind,
    modifiers: Seq<Modifier>,
    parts: FunctionParts,
)
    requires
        m.nodes.len() <= usize::MAX,
    ensures
        ({
            let (after, function) = s_finish_function(
                m,
                span,
                id,
                is_async,
                generator,
                func_kind,
                modifiers,
                parts,
            );
            &&& function == m.nodes.len()
            &&& after.nodes.len() == m.nodes.len() + 1
            &&& after.nodes[function as int] matches Node::Function {
                function_type,
                id: name,
                generator: g,
                is_async: a,
                body,
                params,
                ..
            }
            &&& function_type == spec_function_type(func_kind, parts.body is Some)
            &&& body == parts.body
            &&& params == parts.params
            &&& name == id
            &&& g == generator
            &&& a == is_async
            &&& (body is None ==> function_type.spec_is_bodiless())
        }),
{
    reveal(s_finish_function);
    reveal(s_verify_modifiers);
}

/// The name of a function is there exactly if a token that may name a
/// binding comes next. Where none comes: a declaration directly before `(`
/// gets one report and goes on; a declaration before a reserved word fails
/// hard without any report; anything else changes nothing.
pub proof fn lemma_function_id_cases(
    m: ParserView,
    func_kind: FunctionKind,
    is_async: bool,
    generator: bool,
)
    ensures
        ({
            let (after, id) = s_function_id(m, func_kind, is_async, generator);
            let kind = m.kind();
            &&& id is Some <==> kind.spec_is_binding_identifier()
            &&& kind.spec_is_binding_identifier() ==> after.pos == m.bump().pos && after.fatal
                == m.fatal
            &&& !kind.spec_is_binding_identifier() && func_kind == FunctionKind::Declaration
                && kind == Kind::LParen ==> after == m.error(
                diag(DiagnosticKind::ExpectFunctionName, m.cur().spec_span()),
            )
            &&& !kind.spec_is_binding_identifier() && func_kind == FunctionKind::Declaration
                && kind.spec_is_reserved_keyword() ==> after == m.expect_failure(Kind::Ident)
                && after.fatal is Some && after.errors == m.errors
            &&& !kind.spec_is_binding_identifier() && (func_kind != FunctionKind::Declaration || (
            kind != Kind::LParen && !kind.spec_is_reserved_keyword())) ==> after == m
        }),
{
    reveal(s_function_id);
    reveal(s_check_identifier);
}

/// A function expression's own flags decide whether `await` and `yield` may
/// name it; a declaration's name is judged by the context around it.
pub proof fn lemma_function_name_context(
    m: ParserView,
    func_kind: FunctionKind,
    is_async: bool,
    generator: bool,
)
    requires
        m.kind() == Kind::Yield || m.kind() == Kind::Await,
    ensures
        ({
            let (after, id) = s_function_id(m, func_kind, is_async, generator);
            let forbidden = if func_kind == FunctionKind::Expression {
                if m.kind() == Kind::Yield {
                    generator
                } else {
                    is_async
                }
            } else {
                if m.kind() == Kind::Yield {
                    m.ctx.has_yield
                } else {
                    m.ctx.has_await
                }
            };
            after.errors.len() == m.errors.len() + if forbidden {
                1int
            } else {
                0int
            }
        }),
{
    reveal(s_function_id);
    reveal(s_check_identifier);
}

/// The check of a declaration that stands as the unbraced body of a
/// statement only ever reports: it leaves every node, the position and the
/// hard failure as they are, and it reports exactly once where the
/// declaration is async or a generator, and not at all else.
pub proof fn lemma_restricted_position_only_reports(m: ParserView, decl: NodeId)
    ensures
        ({
            let after = s_restricted_position_check(m, decl);
            let restricted = decl < m.nodes.len() && (m.nodes[decl as int] matches Node::Function {
                is_async,
                generator,
                ..
            } && (is_async || generator));
            &&& after.nodes == m.nodes
            &&& after.lists == m.lists
            &&& after.pos == m.pos
            &&& after.fatal == m.fatal
            &&& after.ctx == m.ctx
            &&& after.errors.len() == m.errors.len() + if restricted {
                1int
            } else {
                0int
            }
            &&& restricted ==> after.errors.last().kind == (if m.nodes[decl as int]->is_async {
                DiagnosticKind::AsyncFunctionDeclaration
            } else {
                DiagnosticKind::GeneratorFunctionDeclaration
            })
        }),
{
    reveal(s_restricted_position_check);
}

/// A `yield` that a line break follows, or a token that ends it, is a
/// complete node without argument. Exactly the word is consumed, nothing
/// fails hard, and the one report that there may be is that of a context
/// that does not allow `yield`.
pub proof fn lemma_yield_without_argument(m: ParserView, depth: nat)
    requires
        0 <= m.pos < m.tokens.len(),
        m.nodes.len() <= usize::MAX,
        m.bump().cur().is_on_new_line || (m.bump().kind().spec_ends_yield()),
    ensures
        ({
            let (after, id) = s_yield(m, depth);
            &&& after.nodes[id as int] matches Node::YieldExpression { delegate, argument, .. }
            &&& !delegate
            &&& argument is None
            &&& after.pos == m.pos + 1
            &&& after.fatal == m.fatal
            &&& after.ctx == m.ctx
            &&& after.errors == if m.ctx.has_yield {
                m.errors
            } else {
                m.errors.push(diag(DiagnosticKind::YieldExpression, m.cur().spec_span()))
            }
        }),
{
}

} // verus!
