//! Names, bindings, modifiers and type annotations: the productions that
//! hold no statement and no expression.

use vstd::prelude::*;
use crate::ast::{Node, NodeId};
use crate::context::Context;
use crate::diagnostics::{spec_modifier_errors, Diagnostic, DiagnosticKind, ModifierPosition};
use crate::modifiers::{Modifier, ModifierKind, Modifiers};
use crate::parser::cursor::{leads, ParserImpl};
use crate::parser::grammar::{
    s_binding_pattern,
    s_check_identifier,
    s_modifier_list,
    s_parameter_modifiers,
    s_rest_binding,
    s_ts_this_parameter,
    s_ts_type,
    s_ts_type_parameters,
    s_type_annotation,
    s_type_parameter_items,
    s_verify_modifiers,
};
use crate::span::Span;
use crate::token::Kind;

verus! {

broadcast use {
    crate::parser::model::lemma_kept_reflexive,
    crate::parser::model::lemma_kept_transitive,
};

/// Every modifier of the list points at a valid span.
pub open spec fn modifiers_wf(list: Seq<Modifier>) -> bool {
    forall|i: int| 0 <= i < list.len() ==> (#[trigger] list[i]).span.wf()
}

impl ParserImpl {
    /// Reports `await` or `yield` used as a name where `ctx` makes it an
    /// operator. The token stays where it is.
    pub fn check_identifier(&mut self, kind: Kind, ctx: Context)
        requires
            old(self).wf(),
        ensures
            final(self)@ == s_check_identifier(old(self)@, kind, ctx),
            leads(*old(self), *final(self)),
            final(self)@.pos == old(self)@.pos,
            final(self)@.nodes == old(self)@.nodes,
            final(self)@.prev_end == old(self)@.prev_end,
            final(self)@.fatal == old(self)@.fatal,
    {
        reveal(s_check_identifier);
        let span = self.cur_token().span();
        if ctx.has_await() && kind == Kind::Await {
            self.error(Diagnostic { kind: DiagnosticKind::IdentifierAsync, span });
        }
        if ctx.has_yield() && kind == Kind::Yield {
            self.error(Diagnostic { kind: DiagnosticKind::IdentifierGenerator, span });
        }
    }

    /// Consumes the current token as a name and gives its span.
    pub fn parse_identifier_kind(&mut self) -> (span: Span)
        requires
            old(self).wf(),
        ensures
            final(self)@ == old(self)@.bump(),
            span == old(self)@.cur().spec_span(),
            span.wf(),
            leads(*old(self), *final(self)),
    {
        let span = self.cur_token().span();
        self.bump_any();
        span
    }

    /// Holds a list of modifiers against what `position` permits and reports
    /// each one that it does not permit. The list is left as it is.
    pub fn verify_modifiers(&mut self, modifiers: &Modifiers, position: ModifierPosition)
        requires
            old(self).wf(),
            modifiers_wf(modifiers@),
        ensures
            final(self)@ == s_verify_modifiers(old(self)@, modifiers@, position),
            leads(*old(self), *final(self)),
            final(self)@.pos == old(self)@.pos,
            final(self)@.fatal == old(self)@.fatal,
    {
        reveal(s_verify_modifiers);
        let allowed = position.allowed();
        let mut i: usize = 0;
        assert(modifiers@.take(0) =~= Seq::<Modifier>::empty());
        assert(self.errors@ =~= old(self).errors@ + spec_modifier_errors(
            modifiers@.take(0),
            position,
        ));
        while i < modifiers.len()
            invariant
                i <= modifiers@.len(),
                allowed == position.spec_allowed(),
                modifiers_wf(modifiers@),
                self.wf(),
                leads(*old(self), *self),
                self.errors@ == old(self).errors@ + spec_modifier_errors(
                    modifiers@.take(i as int),
                    position,
                ),
                self@ == (crate::parser::model::ParserView {
                    errors: self@.errors,
                    ..old(self)@
                }),
                self.depth == old(self).depth,
            decreases modifiers@.len() - i,
        {
            reveal(s_verify_modifiers);
            let modifier = modifiers.get(i);
            proof {
                assert(modifiers@.take(i + 1).drop_last() =~= modifiers@.take(i as int));
                assert(modifiers@.take(i + 1).last() == modifier);
            }
            if !allowed.contains(modifier.kind) {
                self.error(position.diagnose(modifier));
            }
            i += 1;
            assert(self.errors@ =~= old(self).errors@ + spec_modifier_errors(
                modifiers@.take(i as int),
                position,
            ));
        }
        proof {
            assert(modifiers@.take(i as int) =~= modifiers@);
        }
    }

    /// The modifiers that stand before a declaration or a parameter, in
    /// order.
    pub fn parse_modifier_list(&mut self) -> (modifiers: Modifiers)
        requires
            old(self).wf(),
        ensures
            (final(self)@, modifiers@) == s_modifier_list(old(self)@, Seq::empty()),
            modifiers_wf(modifiers@),
            leads(*old(self), *final(self)),
            final(self)@.errors == old(self)@.errors,
            final(self)@.fatal == old(self)@.fatal,
    {
        reveal(s_modifier_list);
        let mut list: Vec<Modifier> = Vec::new();
        loop
            invariant
                self.wf(),
                leads(*old(self), *self),
                modifiers_wf(list@),
                s_modifier_list(old(self)@, Seq::empty()) == s_modifier_list(self@, list@),
                self@.errors == old(self)@.errors,
                self@.fatal == old(self)@.fatal,
            ensures
                (self@, list@) == s_modifier_list(old(self)@, Seq::empty()),
            decreases self@.remaining(),
        {
            reveal(s_modifier_list);
            let token = self.cur_token();
            match ModifierKind::from_token(token.kind) {
                Some(kind) => {
                    let next = self.peek_token(1);
                    if !next.is_on_new_line && next.kind.is_identifier_name() {
                        list.push(Modifier { span: token.span(), kind });
                        self.bump_any();
                    } else {
                        break ;
                    }
                },
                None => {
                    break ;
                },
            }
        }
        Modifiers::new(list)
    }

    /// The modifiers of a parameter: read only in a TypeScript source, and
    /// held against what a parameter permits.
    pub fn parse_parameter_modifiers(&mut self) -> (modifiers: Modifiers)
        requires
            old(self).wf(),
        ensures
            (final(self)@, modifiers@) == s_parameter_modifiers(old(self)@),
            leads(*old(self), *final(self)),
            final(self)@.fatal == old(self)@.fatal,
    {
        reveal(s_parameter_modifiers);
        let modifiers = self.parse_class_element_modifiers();
        self.verify_modifiers(&modifiers, ModifierPosition::Parameter);
        modifiers
    }

    /// The modifiers before a class element or a parameter; none in a
    /// JavaScript source.
    pub fn parse_class_element_modifiers(&mut self) -> (modifiers: Modifiers)
        requires
            old(self).wf(),
        ensures
            (final(self)@, modifiers@) == if old(self)@.is_ts {
                s_modifier_list(old(self)@, Seq::empty())
            } else {
                (old(self)@, Seq::empty())
            },
            modifiers_wf(modifiers@),
            leads(*old(self), *final(self)),
            final(self)@.errors == old(self)@.errors,
            final(self)@.fatal == old(self)@.fatal,
    {
        reveal(s_modifier_list);
        if self.is_ts {
            self.parse_modifier_list()
        } else {
            Modifiers::empty()
        }
    }

    /// A type: `void` or a name.
    pub fn parse_ts_type(&mut self) -> (id: NodeId)
        requires
            old(self).wf(),
        ensures
            (final(self)@, id) == s_ts_type(old(self)@),
            leads(*old(self), *final(self)),
            id < final(self)@.nodes.len(),
            old(self)@.progressed(final(self)@),
    {
        reveal(s_ts_type);
        let token = self.cur_token();
        let span = token.span();
        if token.kind == Kind::Void {
            self.bump_any();
            self.store(Node::TSVoidKeyword { span })
        } else if token.kind.is_identifier_name() {
            self.bump_any();
            self.store(Node::TSTypeReference { span })
        } else {
            self.unexpected()
        }
    }

    /// `: Type`, in a TypeScript source; nothing elsewhere.
    pub fn parse_ts_return_type_annotation(&mut self) -> (annotation: Option<NodeId>)
        requires
            old(self).wf(),
        ensures
            (final(self)@, annotation) == s_type_annotation(old(self)@),
            leads(*old(self), *final(self)),
            annotation matches Some(id) ==> id < final(self)@.nodes.len(),
    {
        reveal(s_type_annotation);
        if self.is_ts && self.at(Kind::Colon) {
            let start = self.start_span();
            self.bump_any();
            let type_node = self.parse_ts_type();
            let span = self.end_span(start);
            Some(self.store(Node::TSTypeAnnotation { span, type_node }))
        } else {
            None
        }
    }

    /// `<T, U>`, in a TypeScript source; nothing elsewhere.
    pub fn parse_ts_type_parameters(&mut self) -> (parameters: Option<NodeId>)
        requires
            old(self).wf(),
        ensures
            (final(self)@, parameters) == s_ts_type_parameters(old(self)@),
            leads(*old(self), *final(self)),
            parameters matches Some(id) ==> id < final(self)@.nodes.len(),
    {
        reveal(s_ts_type_parameters);
        reveal(s_type_parameter_items);
        if !(self.is_ts && self.at(Kind::LAngle)) {
            return None;
        }
        let start = self.start_span();
        self.bump_any();
        let ghost begin = self@;
        let mut items: Vec<NodeId> = Vec::new();
        let mut first = true;
        loop
            invariant_except_break
                s_type_parameter_items(begin, true, Seq::empty()) == s_type_parameter_items(
                    self@,
                    first,
                    items@,
                ),
            invariant
                self.wf(),
                leads(*old(self), *self),
                forall|i: int| 0 <= i < items@.len() ==> #[trigger] items@[i] < self@.nodes.len(),
            ensures
                (self@, items@) == s_type_parameter_items(begin, true, Seq::empty()),
            decreases self@.remaining() + (if self@.fatal is Some { 0int } else { 1int }),
        {
            reveal(s_type_parameter_items);
            if self.at(Kind::RAngle) || self.has_fatal_error() {
                break ;
            }
            if first {
                first = false;
            } else {
                if !self.at(Kind::Comma) {
                    self.expect(Kind::Comma);
                    break ;
                }
                self.bump_any();
                if self.at(Kind::RAngle) {
                    break ;
                }
            }
            if self.cur_kind().is_binding_identifier() {
                let span = self.parse_identifier_kind();
                let name = self.store(Node::BindingIdentifier { span });
                let item = self.store(Node::TSTypeParameter { span, name });
                items.push(item);
            } else {
                let span = self.cur_token().span();
                self.set_fatal_error(Diagnostic { kind: DiagnosticKind::UnexpectedToken, span });
                break ;
            }
        }
        self.expect(Kind::RAngle);
        let params = self.store_list(&items);
        let span = self.end_span(start);
        Some(self.store(Node::TSTypeParameterDeclaration { span, params }))
    }

    /// `this` or `this: Type` at the head of a parameter list.
    pub fn parse_ts_this_parameter(&mut self) -> (id: NodeId)
        requires
            old(self).wf(),
        ensures
            (final(self)@, id) == s_ts_this_parameter(old(self)@),
            leads(*old(self), *final(self)),
            id < final(self)@.nodes.len(),
    {
        reveal(s_ts_this_parameter);
        let start = self.start_span();
        let this_span = self.parse_identifier_kind();
        let type_annotation = self.parse_ts_return_type_annotation();
        let span = self.end_span(start);
        self.store(Node::TSThisParameter { span, this_span, type_annotation })
    }

    /// A binding: a name, in TypeScript with `?` and a type after it.
    pub fn parse_binding_pattern(&mut self) -> (id: NodeId)
        requires
            old(self).wf(),
        ensures
            (final(self)@, id) == s_binding_pattern(old(self)@),
            leads(*old(self), *final(self)),
            id < final(self)@.nodes.len(),
            old(self)@.progressed(final(self)@),
    {
        reveal(s_binding_pattern);
        let kind = self.cur_kind();
        if kind.is_binding_identifier() {
            let start = self.start_span();
            let ctx = self.ctx;
            self.check_identifier(kind, ctx);
            let span = self.parse_identifier_kind();
            let name = self.store(Node::BindingIdentifier { span });
            let optional = if self.is_ts {
                self.eat(Kind::Question)
            } else {
                false
            };
            let type_annotation = self.parse_ts_return_type_annotation();
            let span = self.end_span(start);
            self.store(Node::BindingPattern { span, id: name, type_annotation, optional })
        } else {
            self.unexpected()
        }
    }

    /// `...name`.
    pub fn parse_rest_binding(&mut self) -> (id: NodeId)
        requires
            old(self).wf(),
        ensures
            (final(self)@, id) == s_rest_binding(old(self)@),
            leads(*old(self), *final(self)),
            id < final(self)@.nodes.len(),
            old(self)@.progressed(final(self)@),
    {
        reveal(s_rest_binding);
        let start = self.start_span();
        self.bump_any();
        let argument = self.parse_binding_pattern();
        let span = self.end_span(start);
        self.store(Node::BindingRestElement { span, argument })
    }
}

} // verus!
