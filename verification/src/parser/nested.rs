//! The steps that spend one level of the nesting budget.

use vstd::prelude::*;
use crate::ast::{opt_below, FormalParameterKind, Node, NodeId};
use crate::modifiers::Modifiers;
use crate::parser::binding::modifiers_wf;
use crate::parser::cursor::{leads, ParserImpl};
use crate::parser::grammar::{
    s_nested_assignment,
    s_nested_expression,
    s_nested_function,
    s_nested_lhs,
    s_nested_statement,
    s_nested_statement_list,
};
use crate::parser::kinds::{FunctionKind, StatementContext};

verus! {

broadcast use {
    crate::parser::model::lemma_kept_reflexive,
    crate::parser::model::lemma_kept_transitive,
};

impl ParserImpl {
    /// An assignment expression, one level deeper.
    pub fn parse_nested_assignment(&mut self) -> (id: NodeId)
        requires
            old(self).wf(),
        ensures
            (final(self)@, id) == s_nested_assignment(old(self)@, old(self).depth as nat),
            leads(*old(self), *final(self)),
            id < final(self)@.nodes.len(),
            old(self)@.progressed(final(self)@),
        decreases old(self).depth, 0nat,
    {
        let span = self.cur_token().span();
        if !self.descend() {
            return self.store(Node::Dummy { span });
        }
        let id = self.parse_assignment_expression_or_higher();
        self.ascend();
        id
    }

    /// An expression, one level deeper.
    pub fn parse_nested_expression(&mut self) -> (id: NodeId)
        requires
            old(self).wf(),
        ensures
            (final(self)@, id) == s_nested_expression(old(self)@, old(self).depth as nat),
            leads(*old(self), *final(self)),
            id < final(self)@.nodes.len(),
            old(self)@.progressed(final(self)@),
        decreases old(self).depth, 0nat,
    {
        let span = self.cur_token().span();
        if !self.descend() {
            return self.store(Node::Dummy { span });
        }
        let id = self.parse_expression();
        self.ascend();
        id
    }

    /// A left-hand-side expression, one level deeper.
    pub fn parse_nested_lhs(&mut self) -> (id: NodeId)
        requires
            old(self).wf(),
        ensures
            (final(self)@, id) == s_nested_lhs(old(self)@, old(self).depth as nat),
            leads(*old(self), *final(self)),
            id < final(self)@.nodes.len(),
            old(self)@.progressed(final(self)@),
        decreases old(self).depth, 0nat,
    {
        let span = self.cur_token().span();
        if !self.descend() {
            return self.store(Node::Dummy { span });
        }
        let id = self.parse_lhs_expression();
        self.ascend();
        id
    }

    /// A function from its type parameters on, one level deeper.
    pub fn parse_nested_function(
        &mut self,
        span: u32,
        id: Option<NodeId>,
        is_async: bool,
        generator: bool,
        func_kind: FunctionKind,
        param_kind: FormalParameterKind,
        modifiers: &Modifiers,
    ) -> (function: NodeId)
        requires
            old(self).wf(),
            opt_below(id, old(self)@.nodes.len() as int),
            modifiers_wf(modifiers@),
        ensures
            (final(self)@, function) == s_nested_function(
                old(self)@,
                old(self).depth as nat,
                span,
                id,
                is_async,
                generator,
                func_kind,
                param_kind,
                modifiers@,
            ),
            leads(*old(self), *final(self)),
            function < final(self)@.nodes.len(),
        decreases old(self).depth, 0nat,
    {
        let at = self.cur_token().span();
        if !self.descend() {
            return self.store(Node::Dummy { span: at });
        }
        let function = self.parse_function(
            span,
            id,
            is_async,
            generator,
            func_kind,
            param_kind,
            modifiers,
        );
        self.ascend();
        function
    }

    /// A statement, one level deeper.
    pub fn parse_nested_statement(&mut self, stmt_ctx: StatementContext) -> (id: NodeId)
        requires
            old(self).wf(),
        ensures
            (final(self)@, id) == s_nested_statement(
                old(self)@,
                old(self).depth as nat,
                stmt_ctx,
            ),
            leads(*old(self), *final(self)),
            id < final(self)@.nodes.len(),
            old(self)@.progressed(final(self)@),
        decreases old(self).depth, 0nat,
    {
        let span = self.cur_token().span();
        if !self.descend() {
            return self.store(Node::Dummy { span });
        }
        let id = self.parse_statement(stmt_ctx);
        self.ascend();
        id
    }

    /// Statements up to `}` or the end of the input, one level deeper.
    pub fn parse_nested_statement_list(&mut self) -> (items: Vec<NodeId>)
        requires
            old(self).wf(),
        ensures
            (final(self)@, items@) == s_nested_statement_list(old(self)@, old(self).depth as nat),
            leads(*old(self), *final(self)),
            forall|i: int| 0 <= i < items@.len() ==> #[trigger] items@[i] < final(self)@.nodes.len(),
        decreases old(self).depth, 0nat,
    {
        let span = self.cur_token().span();
        if !self.descend() {
            let _ = self.store(Node::Dummy { span });
            return Vec::new();
        }
        let items = self.parse_statement_list();
        self.ascend();
        items
    }
}

} // verus!
