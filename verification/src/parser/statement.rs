//! Statements, classes, and the whole program.

use vstd::prelude::*;
use crate::ast::{Node, NodeId, VariableKind};
use crate::diagnostics::{Diagnostic, DiagnosticKind};
use crate::parser::cursor::{leads, ParserImpl};
use crate::parser::grammar::{
    s_block,
    s_class_declaration,
    s_class_elements,
    s_declaration_statement,
    s_export_default,
    s_expression_statement,
    s_if_statement,
    s_method_definition,
    s_program,
    s_return_statement,
    s_statement,
    s_statement_list,
    s_ts_declaration,
    s_variable_declaration,
    spec_at_method_prefix,
    spec_at_ts_declaration,
    spec_variable_kind,
};
use crate::parser::kinds::{FunctionKind, StatementContext};
use crate::token::Kind;

verus! {

broadcast use {
    crate::parser::model::lemma_kept_reflexive,
    crate::parser::model::lemma_kept_transitive,
};

pub fn variable_kind(kind: Kind) -> (k: VariableKind)
    ensures
        k == spec_variable_kind(kind),
{
    match kind {
        Kind::Const => VariableKind::Const,
        Kind::Let => VariableKind::Let,
        _ => VariableKind::Var,
    }
}

impl ParserImpl {
    /// Statements up to `}` or the end of the input.
    pub fn parse_statement_list(&mut self) -> (items: Vec<NodeId>)
        requires
            old(self).wf(),
        ensures
            (final(self)@, items@) == s_statement_list(
                old(self)@,
                old(self).depth as nat,
                Seq::empty(),
            ),
            leads(*old(self), *final(self)),
            forall|i: int| 0 <= i < items@.len() ==> #[trigger] items@[i] < final(self)@.nodes.len(),
        decreases old(self).depth, 90nat,
    {
        let ghost begin = self@;
        let ghost depth = self.depth as nat;
        let mut items: Vec<NodeId> = Vec::new();
        loop
            invariant_except_break
                s_statement_list(begin, depth, Seq::empty()) == s_statement_list(
                    self@,
                    depth,
                    items@,
                ),
            invariant
                self.wf(),
                leads(*old(self), *self),
                depth == old(self).depth,
                forall|i: int| 0 <= i < items@.len() ==> #[trigger] items@[i] < self@.nodes.len(),
            ensures
                (self@, items@) == s_statement_list(begin, depth, Seq::empty()),
            decreases self@.remaining(),
        {
            if self.at(Kind::RCurly) || self.at(Kind::Eof) {
                break ;
            }
            let statement = self.parse_statement(StatementContext::StatementList);
            items.push(statement);
        }
        items
    }

    /// A whole source: statements up to the end of the input. A `}` that
    /// closes nothing fails hard.
    pub fn parse_program(&mut self) -> (id: NodeId)
        requires
            old(self).wf(),
        ensures
            (final(self)@, id) == s_program(old(self)@, old(self).depth as nat),
            leads(*old(self), *final(self)),
            id < final(self)@.nodes.len(),
            final(self)@.nodes[id as int] is Program,
    {
        reveal(s_program);
        let start = self.start_span();
        let items = self.parse_statement_list();
        if !self.at(Kind::Eof) {
            let span = self.cur_token().span();
            self.set_fatal_error(Diagnostic { kind: DiagnosticKind::UnexpectedToken, span });
        }
        let body = self.store_list(&items);
        let span = self.end_span(start);
        self.store(Node::Program { span, body })
    }

    /// Whether `declare`, followed on its line by `function` or `async`,
    /// comes next in a TypeScript source.
    pub fn at_ts_declaration(&self) -> (b: bool)
        requires
            self.wf(),
        ensures
            b == spec_at_ts_declaration(self@),
    {
        if !(self.is_ts && self.at(Kind::Declare)) {
            return false;
        }
        let next = self.peek_token(1);
        !next.is_on_new_line && (next.kind == Kind::Function || next.kind == Kind::Async)
    }

    /// One statement. `stmt_ctx` says whether it stands in a list or as the
    /// unbraced body of another statement.
    pub fn parse_statement(&mut self, stmt_ctx: StatementContext) -> (id: NodeId)
        requires
            old(self).wf(),
        ensures
            (final(self)@, id) == s_statement(old(self)@, old(self).depth as nat, stmt_ctx),
            leads(*old(self), *final(self)),
            id < final(self)@.nodes.len(),
            old(self)@.progressed(final(self)@),
        decreases old(self).depth, 81nat,
    {
        let kind = self.cur_kind();
        if kind == Kind::LCurly {
            return self.parse_block();
        }
        if kind == Kind::Semicolon {
            let start = self.start_span();
            self.bump_any();
            let span = self.end_span(start);
            return self.store(Node::EmptyStatement { span });
        }
        if kind == Kind::If {
            return self.parse_if_statement();
        }
        if kind == Kind::Return {
            return self.parse_return_statement();
        }
        if kind == Kind::Var || kind == Kind::Const || kind == Kind::Let {
            return self.parse_variable_declaration();
        }
        self.parse_declaration_statement(stmt_ctx)
    }

    /// A statement that starts with none of `{`, `;`, `if`, `return`, `var`,
    /// `let` and `const`: an export, a class, a function, or an expression.
    pub fn parse_declaration_statement(&mut self, stmt_ctx: StatementContext) -> (id: NodeId)
        requires
            old(self).wf(),
        ensures
            (final(self)@, id) == s_declaration_statement(
                old(self)@,
                old(self).depth as nat,
                stmt_ctx,
            ),
            leads(*old(self), *final(self)),
            id < final(self)@.nodes.len(),
            old(self)@.progressed(final(self)@),
        decreases old(self).depth, 80nat,
    {
        let kind = self.cur_kind();
        if kind == Kind::Export {
            return self.parse_export_default();
        }
        if kind == Kind::Class {
            return self.parse_class_declaration();
        }
        if self.at_function_with_async() {
            let span = self.start_span();
            let is_async = self.eat(Kind::Async);
            return self.parse_function_declaration(span, is_async, stmt_ctx);
        }
        if self.at_ts_declaration() {
            return self.parse_ts_declaration();
        }
        self.parse_expression_statement()
    }

    pub fn parse_expression_statement(&mut self) -> (id: NodeId)
        requires
            old(self).wf(),
        ensures
            (final(self)@, id) == s_expression_statement(old(self)@, old(self).depth as nat),
            leads(*old(self), *final(self)),
            id < final(self)@.nodes.len(),
            old(self)@.progressed(final(self)@),
        decreases old(self).depth, 79nat,
    {
        let start = self.start_span();
        let expression = self.parse_expression();
        self.asi();
        let span = self.end_span(start);
        self.store(Node::ExpressionStatement { span, expression })
    }

    /// `{ statements }`.
    pub fn parse_block(&mut self) -> (id: NodeId)
        requires
            old(self).wf(),
        ensures
            (final(self)@, id) == s_block(old(self)@, old(self).depth as nat),
            leads(*old(self), *final(self)),
            id < final(self)@.nodes.len(),
            old(self)@.pos < old(self)@.tokens.len() ==> final(self)@.pos > old(self)@.pos,
        decreases old(self).depth, 78nat,
    {
        let start = self.start_span();
        self.expect(Kind::LCurly);
        let items = self.parse_nested_statement_list();
        self.expect(Kind::RCurly);
        let body = self.store_list(&items);
        let span = self.end_span(start);
        self.store(Node::BlockStatement { span, body })
    }

    /// `if (test) statement` and, if it is there, `else statement`.
    pub fn parse_if_statement(&mut self) -> (id: NodeId)
        requires
            old(self).wf(),
        ensures
            (final(self)@, id) == s_if_statement(old(self)@, old(self).depth as nat),
            leads(*old(self), *final(self)),
            id < final(self)@.nodes.len(),
            old(self)@.pos < old(self)@.tokens.len() ==> final(self)@.pos > old(self)@.pos,
        decreases old(self).depth, 77nat,
    {
        let start = self.start_span();
        self.bump_any();
        self.expect(Kind::LParen);
        let test = self.parse_expression();
        self.expect(Kind::RParen);
        let consequent = self.parse_nested_statement(StatementContext::If);
        let alternate = if self.at(Kind::Else) {
            self.bump_any();
            Some(self.parse_nested_statement(StatementContext::If))
        } else {
            None
        };
        let span = self.end_span(start);
        self.store(Node::IfStatement { span, test, consequent, alternate })
    }

    /// `return` with its value, if one stands on its line. Outside of a
    /// function body it is reported and read all the same.
    pub fn parse_return_statement(&mut self) -> (id: NodeId)
        requires
            old(self).wf(),
        ensures
            (final(self)@, id) == s_return_statement(old(self)@, old(self).depth as nat),
            leads(*old(self), *final(self)),
            id < final(self)@.nodes.len(),
            old(self)@.pos < old(self)@.tokens.len() ==> final(self)@.pos > old(self)@.pos,
        decreases old(self).depth, 76nat,
    {
        let start = self.start_span();
        let keyword = self.cur_token().span();
        self.bump_any();
        if !self.ctx.has_return() {
            self.error(Diagnostic { kind: DiagnosticKind::ReturnOutsideFunction, span: keyword });
        }
        let argument = if self.can_insert_semicolon() {
            None
        } else {
            Some(self.parse_expression())
        };
        self.asi();
        let span = self.end_span(start);
        self.store(Node::ReturnStatement { span, argument })
    }

    /// `var`, `let` or `const` with one binding and, if it is there, its
    /// value.
    pub fn parse_variable_declaration(&mut self) -> (id: NodeId)
        requires
            old(self).wf(),
        ensures
            (final(self)@, id) == s_variable_declaration(old(self)@, old(self).depth as nat),
            leads(*old(self), *final(self)),
            id < final(self)@.nodes.len(),
            old(self)@.pos < old(self)@.tokens.len() ==> final(self)@.pos > old(self)@.pos,
        decreases old(self).depth, 75nat,
    {
        let start = self.start_span();
        let kind = variable_kind(self.cur_kind());
        self.bump_any();
        let declarator_start = self.start_span();
        let name = self.parse_binding_pattern();
        let init = if self.at(Kind::Eq) {
            self.bump_any();
            Some(self.parse_assignment_expression_or_higher())
        } else {
            None
        };
        let span = self.end_span(declarator_start);
        let declarator = self.store(Node::VariableDeclarator { span, id: name, init });
        self.asi();
        let mut items: Vec<NodeId> = Vec::new();
        items.push(declarator);
        assert(items@ =~= seq![declarator]);
        let declarations = self.store_list(&items);
        let span = self.end_span(start);
        self.store(Node::VariableDeclaration { span, kind, declarations })
    }

    /// `export default` before a function, which may go without a name, or
    /// before an expression.
    pub fn parse_export_default(&mut self) -> (id: NodeId)
        requires
            old(self).wf(),
        ensures
            (final(self)@, id) == s_export_default(old(self)@, old(self).depth as nat),
            leads(*old(self), *final(self)),
            id < final(self)@.nodes.len(),
            old(self)@.pos < old(self)@.tokens.len() ==> final(self)@.pos > old(self)@.pos,
        decreases old(self).depth, 72nat,
    {
        let start = self.start_span();
        self.bump_any();
        self.expect(Kind::Default);
        let declaration = if self.at_function_with_async() {
            let span = self.start_span();
            let is_async = self.eat(Kind::Async);
            self.parse_function_impl(span, is_async, FunctionKind::DefaultExport)
        } else {
            let expression = self.parse_assignment_expression_or_higher();
            self.asi();
            expression
        };
        let span = self.end_span(start);
        self.store(Node::ExportDefaultDeclaration { span, declaration })
    }

    /// `declare function ...`: the modifiers, then the function.
    pub fn parse_ts_declaration(&mut self) -> (id: NodeId)
        requires
            old(self).wf(),
        ensures
            (final(self)@, id) == s_ts_declaration(old(self)@, old(self).depth as nat),
            leads(*old(self), *final(self)),
            id < final(self)@.nodes.len(),
            old(self)@.progressed(final(self)@),
        decreases old(self).depth, 71nat,
    {
        let start = self.start_span();
        let modifiers = self.parse_modifier_list();
        self.parse_ts_function_impl(start, FunctionKind::TSDeclaration, &modifiers)
    }

    /// `class Name { ... }` with methods as its elements.
    pub fn parse_class_declaration(&mut self) -> (id: NodeId)
        requires
            old(self).wf(),
        ensures
            (final(self)@, id) == s_class_declaration(old(self)@, old(self).depth as nat),
            leads(*old(self), *final(self)),
            id < final(self)@.nodes.len(),
            old(self)@.pos < old(self)@.tokens.len() ==> final(self)@.pos > old(self)@.pos,
        decreases old(self).depth, 74nat,
    {
        let start = self.start_span();
        self.bump_any();
        let name = if self.cur_kind().is_binding_identifier() {
            let span = self.parse_identifier_kind();
            Some(self.store(Node::BindingIdentifier { span }))
        } else {
            None
        };
        self.expect(Kind::LCurly);
        let items = self.parse_class_elements();
        self.expect(Kind::RCurly);
        let body = self.store_list(&items);
        let span = self.end_span(start);
        self.store(Node::ClassDeclaration { span, id: name, body })
    }

    /// The elements of a class up to `}`.
    pub fn parse_class_elements(&mut self) -> (items: Vec<NodeId>)
        requires
            old(self).wf(),
        ensures
            (final(self)@, items@) == s_class_elements(
                old(self)@,
                old(self).depth as nat,
                Seq::empty(),
            ),
            leads(*old(self), *final(self)),
            forall|i: int| 0 <= i < items@.len() ==> #[trigger] items@[i] < final(self)@.nodes.len(),
        decreases old(self).depth, 73nat,
    {
        let ghost begin = self@;
        let ghost depth = self.depth as nat;
        let mut items: Vec<NodeId> = Vec::new();
        loop
            invariant_except_break
                s_class_elements(begin, depth, Seq::empty()) == s_class_elements(
                    self@,
                    depth,
                    items@,
                ),
            invariant
                self.wf(),
                leads(*old(self), *self),
                depth == old(self).depth,
                forall|i: int| 0 <= i < items@.len() ==> #[trigger] items@[i] < self@.nodes.len(),
            ensures
                (self@, items@) == s_class_elements(begin, depth, Seq::empty()),
            decreases self@.remaining(),
        {
            if self.at(Kind::RCurly) || self.at(Kind::Eof) {
                break ;
            }
            if self.at(Kind::Semicolon) {
                self.bump_any();
            } else {
                let element = self.parse_method_definition();
                items.push(element);
            }
        }
        items
    }

    /// Whether the word `kind` at the current token stands before a method's
    /// name rather than being the name.
    pub fn at_method_prefix(&self, kind: Kind) -> (b: bool)
        requires
            self.wf(),
        ensures
            b == spec_at_method_prefix(self@, kind),
    {
        if !self.at(kind) {
            return false;
        }
        let next = self.peek_token(1);
        !next.is_on_new_line && (next.kind.is_identifier_name() || next.kind == Kind::Star)
    }

    /// `static? async? *? name(...) { ... }`.
    pub fn parse_method_definition(&mut self) -> (id: NodeId)
        requires
            old(self).wf(),
        ensures
            (final(self)@, id) == s_method_definition(old(self)@, old(self).depth as nat),
            leads(*old(self), *final(self)),
            id < final(self)@.nodes.len(),
            old(self)@.progressed(final(self)@),
        decreases old(self).depth, 67nat,
    {
        let start = self.start_span();
        let is_static = if self.at_method_prefix(Kind::Static) {
            self.bump_any();
            true
        } else {
            false
        };
        let is_async = if self.at_method_prefix(Kind::Async) {
            self.bump_any();
            true
        } else {
            false
        };
        let generator = self.eat(Kind::Star);
        if self.cur_kind().is_identifier_name() {
            let name = self.parse_identifier_kind();
            let key = self.store(Node::IdentifierName { span: name });
            let value = self.parse_method(is_async, generator);
            let span = self.end_span(start);
            self.store(Node::MethodDefinition { span, key, value, is_static })
        } else {
            self.unexpected()
        }
    }
}

} // verus!
