//! Expressions.

use vstd::prelude::*;
use crate::ast::{LiteralKind, Node, NodeId};
use crate::parser::cursor::{leads, ParserImpl};
use crate::parser::grammar::{
    s_array,
    s_arguments,
    s_assignment,
    s_element,
    s_element_list,
    s_expression,
    s_lhs,
    s_new,
    s_parenthesized,
    s_postfix,
    s_primary,
    spec_is_yield_expression,
    spec_literal_kind,
};
use crate::token::Kind;

verus! {

broadcast use {
    crate::parser::model::lemma_kept_reflexive,
    crate::parser::model::lemma_kept_transitive,
};

/// The kind of literal that a token is, if it is one.
pub fn literal_kind(kind: Kind) -> (literal: Option<LiteralKind>)
    ensures
        literal == spec_literal_kind(kind),
{
    match kind {
        Kind::Null => Some(LiteralKind::Null),
        Kind::True => Some(LiteralKind::True),
        Kind::False => Some(LiteralKind::False),
        Kind::Number => Some(LiteralKind::Number),
        Kind::Str => Some(LiteralKind::Str),
        _ => None,
    }
}

impl ParserImpl {
    pub fn parse_expression(&mut self) -> (id: NodeId)
        requires
            old(self).wf(),
        ensures
            (final(self)@, id) == s_expression(old(self)@, old(self).depth as nat),
            leads(*old(self), *final(self)),
            id < final(self)@.nodes.len(),
            old(self)@.progressed(final(self)@),
        decreases old(self).depth, 56nat,
    {
        self.parse_assignment_expression_or_higher()
    }

    /// Whether `yield` comes next and is to be read as an operator.
    pub fn is_yield_expression(&self) -> (b: bool)
        requires
            self.wf(),
        ensures
            b == spec_is_yield_expression(self@),
    {
        if !self.at(Kind::Yield) {
            return false;
        }
        if self.ctx.has_yield() {
            return true;
        }
        let next = self.peek_token(1);
        !next.is_on_new_line && next.kind.starts_operand()
    }

    /// An assignment, a `yield`, or anything that binds tighter.
    pub fn parse_assignment_expression_or_higher(&mut self) -> (id: NodeId)
        requires
            old(self).wf(),
        ensures
            (final(self)@, id) == s_assignment(old(self)@, old(self).depth as nat),
            leads(*old(self), *final(self)),
            id < final(self)@.nodes.len(),
            old(self)@.progressed(final(self)@),
        decreases old(self).depth, 55nat,
    {
        if self.is_yield_expression() {
            return self.parse_yield_expression();
        }
        let start = self.start_span();
        let left = self.parse_lhs_expression();
        if self.at(Kind::Eq) {
            self.bump_any();
            let right = self.parse_nested_assignment();
            let span = self.end_span(start);
            self.store(Node::AssignmentExpression { span, left, right })
        } else {
            left
        }
    }

    /// A primary expression or a `new` expression, and the member accesses
    /// and calls that follow it.
    pub fn parse_lhs_expression(&mut self) -> (id: NodeId)
        requires
            old(self).wf(),
        ensures
            (final(self)@, id) == s_lhs(old(self)@, old(self).depth as nat),
            leads(*old(self), *final(self)),
            id < final(self)@.nodes.len(),
            old(self)@.progressed(final(self)@),
        decreases old(self).depth, 45nat,
    {
        let start = self.start_span();
        let base = if self.at(Kind::New) {
            self.parse_new_expression()
        } else {
            self.parse_primary_expression()
        };
        self.parse_postfix(start, base, true)
    }

    /// `new callee` or `new callee(arguments)`.
    pub fn parse_new_expression(&mut self) -> (id: NodeId)
        requires
            old(self).wf(),
        ensures
            (final(self)@, id) == s_new(old(self)@, old(self).depth as nat),
            leads(*old(self), *final(self)),
            id < final(self)@.nodes.len(),
            old(self)@.progressed(final(self)@),
        decreases old(self).depth, 44nat,
    {
        let start = self.start_span();
        self.bump_any();
        let callee_start = self.start_span();
        let base = self.parse_primary_expression();
        let callee = self.parse_postfix(callee_start, base, false);
        let items = if self.at(Kind::LParen) {
            self.parse_arguments()
        } else {
            Vec::new()
        };
        let arguments = self.store_list(&items);
        let span = self.end_span(start);
        self.store(Node::NewExpression { span, callee, arguments })
    }

    /// What follows an expression: `.name`, `[expression]` and, where calls
    /// are allowed, `(arguments)`, each any number of times.
    pub fn parse_postfix(&mut self, start: u32, base: NodeId, allow_call: bool) -> (id: NodeId)
        requires
            old(self).wf(),
            base < old(self)@.nodes.len(),
        ensures
            (final(self)@, id) == s_postfix(
                old(self)@,
                old(self).depth as nat,
                start,
                base,
                allow_call,
            ),
            leads(*old(self), *final(self)),
            id < final(self)@.nodes.len(),
        decreases old(self).depth, 43nat,
    {
        let ghost begin = self@;
        let ghost depth = self.depth as nat;
        let mut cur = base;
        loop
            invariant_except_break
                s_postfix(begin, depth, start, base, allow_call) == s_postfix(
                    self@,
                    depth,
                    start,
                    cur,
                    allow_call,
                ),
            invariant
                self.wf(),
                leads(*old(self), *self),
                depth == old(self).depth,
                cur < self@.nodes.len(),
            ensures
                (self@, cur) == s_postfix(begin, depth, start, base, allow_call),
            decreases self@.remaining(),
        {
            if self.at(Kind::Dot) {
                self.bump_any();
                if self.cur_kind().is_identifier_name() {
                    let name = self.parse_identifier_kind();
                    let property = self.store(Node::IdentifierName { span: name });
                    let span = self.end_span(start);
                    cur = self.store(Node::StaticMemberExpression { span, object: cur, property });
                } else {
                    cur = self.unexpected();
                    break ;
                }
            } else if self.at(Kind::LBrack) {
                self.bump_any();
                let expression = self.parse_nested_expression();
                self.expect(Kind::RBrack);
                let span = self.end_span(start);
                cur = self.store(Node::ComputedMemberExpression { span, object: cur, expression });
            } else if allow_call && self.at(Kind::LParen) {
                let items = self.parse_arguments();
                let arguments = self.store_list(&items);
                let span = self.end_span(start);
                cur = self.store(Node::CallExpression { span, callee: cur, arguments });
            } else {
                break ;
            }
        }
        cur
    }

    /// `( arguments )`.
    pub fn parse_arguments(&mut self) -> (items: Vec<NodeId>)
        requires
            old(self).wf(),
        ensures
            (final(self)@, items@) == s_arguments(old(self)@, old(self).depth as nat),
            leads(*old(self), *final(self)),
            forall|i: int| 0 <= i < items@.len() ==> #[trigger] items@[i] < final(self)@.nodes.len(),
            old(self)@.pos < old(self)@.tokens.len() ==> final(self)@.pos > old(self)@.pos,
        decreases old(self).depth, 41nat,
    {
        self.expect(Kind::LParen);
        let items = self.parse_element_list(Kind::RParen);
        self.expect(Kind::RParen);
        items
    }

    /// Elements up to `close`, separated by commas; a comma may stand before
    /// `close`.
    pub fn parse_element_list(&mut self, close: Kind) -> (items: Vec<NodeId>)
        requires
            old(self).wf(),
        ensures
            (final(self)@, items@) == s_element_list(
                old(self)@,
                old(self).depth as nat,
                close,
                true,
                Seq::empty(),
            ),
            leads(*old(self), *final(self)),
            forall|i: int| 0 <= i < items@.len() ==> #[trigger] items@[i] < final(self)@.nodes.len(),
        decreases old(self).depth, 33nat,
    {
        let ghost begin = self@;
        let ghost depth = self.depth as nat;
        let mut items: Vec<NodeId> = Vec::new();
        let mut first = true;
        loop
            invariant_except_break
                s_element_list(begin, depth, close, true, Seq::empty()) == s_element_list(
                    self@,
                    depth,
                    close,
                    first,
                    items@,
                ),
            invariant
                self.wf(),
                leads(*old(self), *self),
                depth == old(self).depth,
                forall|i: int| 0 <= i < items@.len() ==> #[trigger] items@[i] < self@.nodes.len(),
            ensures
                (self@, items@) == s_element_list(begin, depth, close, true, Seq::empty()),
            decreases
                    self@.remaining() + (if self@.fatal is Some {
                        0int
                    } else {
                        1int
                    }),
        {
            if self.at(close) || self.has_fatal_error() {
                break ;
            }
            if first {
                first = false;
            } else {
                if !self.at(Kind::Comma) {
                    self.expect(Kind::Comma);
                    break ;
                }
                self.bump_any();
                if self.at(close) {
                    break ;
                }
            }
            let element = self.parse_element();
            items.push(element);
        }
        items
    }

    /// An argument or an array element: an expression, or `...expression`.
    pub fn parse_element(&mut self) -> (id: NodeId)
        requires
            old(self).wf(),
        ensures
            (final(self)@, id) == s_element(old(self)@, old(self).depth as nat),
            leads(*old(self), *final(self)),
            id < final(self)@.nodes.len(),
            old(self)@.progressed(final(self)@),
        decreases old(self).depth, 32nat,
    {
        if self.at(Kind::Dot3) {
            let start = self.start_span();
            self.bump_any();
            let argument = self.parse_nested_assignment();
            let span = self.end_span(start);
            self.store(Node::SpreadElement { span, argument })
        } else {
            self.parse_nested_assignment()
        }
    }

    /// A name, `this`, a literal, an array, a parenthesized expression or a
    /// function expression. Any other token fails hard.
    pub fn parse_primary_expression(&mut self) -> (id: NodeId)
        requires
            old(self).wf(),
        ensures
            (final(self)@, id) == s_primary(old(self)@, old(self).depth as nat),
            leads(*old(self), *final(self)),
            id < final(self)@.nodes.len(),
            old(self)@.progressed(final(self)@),
        decreases old(self).depth, 40nat,
    {
        let token = self.cur_token();
        let kind = token.kind;
        let span = token.span();
        if kind == Kind::This {
            self.bump_any();
            return self.store(Node::ThisExpression { span });
        }
        if let Some(literal) = literal_kind(kind) {
            self.bump_any();
            return self.store(Node::Literal { span, kind: literal });
        }
        if kind == Kind::RegExp {
            self.bump_any();
            return self.store(Node::RegExpLiteral { span });
        }
        if kind == Kind::LBrack {
            return self.parse_array_expression();
        }
        if kind == Kind::LParen {
            return self.parse_parenthesized_expression();
        }
        if kind == Kind::Function {
            return self.parse_function_expression(token.start, false);
        }
        if self.at_function_with_async() {
            self.bump_any();
            return self.parse_function_expression(token.start, true);
        }
        if kind.is_binding_identifier() {
            let ctx = self.ctx;
            self.check_identifier(kind, ctx);
            self.bump_any();
            return self.store(Node::IdentifierReference { span });
        }
        self.unexpected()
    }

    /// `[ elements ]`.
    pub fn parse_array_expression(&mut self) -> (id: NodeId)
        requires
            old(self).wf(),
        ensures
            (final(self)@, id) == s_array(old(self)@, old(self).depth as nat),
            leads(*old(self), *final(self)),
            id < final(self)@.nodes.len(),
            old(self)@.pos < old(self)@.tokens.len() ==> final(self)@.pos > old(self)@.pos,
        decreases old(self).depth, 37nat,
    {
        let start = self.start_span();
        self.bump_any();
        let items = self.parse_element_list(Kind::RBrack);
        self.expect(Kind::RBrack);
        let elements = self.store_list(&items);
        let span = self.end_span(start);
        self.store(Node::ArrayExpression { span, elements })
    }

    /// `( expression )`.
    pub fn parse_parenthesized_expression(&mut self) -> (id: NodeId)
        requires
            old(self).wf(),
        ensures
            (final(self)@, id) == s_parenthesized(old(self)@, old(self).depth as nat),
            leads(*old(self), *final(self)),
            id < final(self)@.nodes.len(),
            old(self)@.pos < old(self)@.tokens.len() ==> final(self)@.pos > old(self)@.pos,
        decreases old(self).depth, 36nat,
    {
        let start = self.start_span();
        self.bump_any();
        let expression = self.parse_nested_expression();
        self.expect(Kind::RParen);
        let span = self.end_span(start);
        self.store(Node::ParenthesizedExpression { span, expression })
    }
}

} // verus!
