//! Functions: names, parameter lists, bodies, and the `yield` expression.

use vstd::prelude::*;
use crate::ast::{opt_below, FormalParameterKind, Node, NodeId};
use crate::context::Context;
use crate::diagnostics::{Diagnostic, DiagnosticKind, ModifierPosition};
use crate::modifiers::{Modifiers, ModifierKind};
use crate::parser::binding::modifiers_wf;
use crate::parser::cursor::{leads, ParserImpl};
use crate::parser::grammar::{
    diag,
    s_binding_pattern_with_initializer,
    s_decorator,
    s_eat_decorators,
    s_formal_parameter,
    s_formal_parameters,
    s_function,
    s_function_body,
    s_function_declaration,
    s_function_expression,
    s_function_id,
    s_function_impl,
    s_finish_function,
    s_function_parts,
    FunctionParts,
    s_method,
    s_parameter_list,
    s_restricted_position_check,
    s_ts_function_impl,
    s_ts_type_parameters,
    s_type_annotation,
    s_yield,
    spec_at_function_with_async,
};
use crate::parser::kinds::{function_type, spec_function_type, FunctionKind, StatementContext};
use crate::parser::model::{
    lemma_kept_at,
    lemma_sound_function,
    lemma_sound_span,
    sound,
};
use crate::span::Span;
use crate::token::Kind;

verus! {

broadcast use {
    crate::parser::model::lemma_kept_reflexive,
    crate::parser::model::lemma_kept_transitive,
};

impl ParserImpl {
    /// Whether `function`, or `async function` on one line, comes next.
    /// Looks one token ahead and comes back: the state is left as it was.
    pub fn at_function_with_async(&mut self) -> (b: bool)
        requires
            old(self).wf(),
        ensures
            b == spec_at_function_with_async(old(self)@),
            final(self)@ == old(self)@,
            final(self).depth == old(self).depth,
            final(self).wf(),
    {
        if self.at(Kind::Function) {
            return true;
        }
        if !self.at(Kind::Async) {
            return false;
        }
        let checkpoint = self.checkpoint();
        self.bump_any();
        let token = self.cur_token();
        let found = token.kind == Kind::Function && !token.is_on_new_line;
        proof {
            reveal(sound);
            crate::parser::model::lemma_rewound_is_as_before(old(self)@, self@);
        }
        self.rewind(checkpoint);
        found
    }

    /// The name of a function, if there is one.
    ///
    /// A token that may name a binding is taken; for a function expression
    /// it is judged against the function's own `await` and `yield` legality.
    /// Without one: a declaration directly before `(` is reported and goes on
    /// without a name, a reserved word where a declaration needs its name
    /// fails hard, and anything else leaves the name absent in silence.
    pub fn parse_function_id(&mut self, func_kind: FunctionKind, is_async: bool, generator: bool) -> (id:
        Option<NodeId>)
        requires
            old(self).wf(),
        ensures
            (final(self)@, id) == s_function_id(old(self)@, func_kind, is_async, generator),
            leads(*old(self), *final(self)),
            opt_below(id, final(self)@.nodes.len() as int),
            id is Some <==> old(self)@.kind().spec_is_binding_identifier(),
            final(self)@.fatal is Some && old(self)@.fatal is None ==> func_kind
                == FunctionKind::Declaration && old(self)@.kind().spec_is_reserved_keyword(),
    {
        reveal(s_function_id);
        let kind = self.cur_kind();
        if kind.is_binding_identifier() {
            let mut ctx = self.ctx;
            if func_kind.is_expression() {
                ctx = ctx.and_await(is_async).and_yield(generator);
            }
            self.check_identifier(kind, ctx);
            let span = self.parse_identifier_kind();
            Some(self.store(Node::BindingIdentifier { span }))
        } else {
            if func_kind.is_id_required() {
                if kind == Kind::LParen {
                    let span = self.cur_token().span();
                    self.error(Diagnostic { kind: DiagnosticKind::ExpectFunctionName, span });
                } else if kind.is_reserved_keyword() {
                    self.expect_without_advance(Kind::Ident);
                }
            }
            None
        }
    }

    /// `{ statements }`, read with `return` allowed; the context is put back
    /// before the closing brace is taken.
    pub fn parse_function_body(&mut self) -> (id: NodeId)
        requires
            old(self).wf(),
        ensures
            (final(self)@, id) == s_function_body(old(self)@, old(self).depth as nat),
            leads(*old(self), *final(self)),
            id < final(self)@.nodes.len(),
        decreases old(self).depth, 63nat,
    {
        let start = self.start_span();
        self.expect(Kind::LCurly);
        let ctx = self.ctx;
        self.ctx = ctx.with(Context::only_return(), Context::empty());
        let items = self.parse_nested_statement_list();
        self.ctx = ctx;
        self.expect(Kind::RCurly);
        let statements = self.store_list(&items);
        let span = self.end_span(start);
        self.store(Node::FunctionBody { span, statements })
    }

    /// `( this?, parameters, ...rest? )`: the `this` parameter of a
    /// TypeScript source, and the node of the list.
    pub fn parse_formal_parameters(&mut self, params_kind: FormalParameterKind) -> (r: (
        Option<NodeId>,
        NodeId,
    ))
        requires
            old(self).wf(),
        ensures
            (final(self)@, r) == s_formal_parameters(
                old(self)@,
                old(self).depth as nat,
                params_kind,
            ),
            leads(*old(self), *final(self)),
            opt_below(r.0, final(self)@.nodes.len() as int),
            r.1 < final(self)@.nodes.len(),
            old(self)@.pos < old(self)@.tokens.len() ==> final(self)@.pos > old(self)@.pos,
        decreases old(self).depth, 63nat,
    {
        let start = self.start_span();
        self.expect(Kind::LParen);
        let this_param = if self.is_ts && self.at(Kind::This) {
            let param = self.parse_ts_this_parameter();
            if !self.at(Kind::RParen) {
                self.expect(Kind::Comma);
            }
            Some(param)
        } else {
            None
        };
        let (list, rest) = self.parse_delimited_list_with_rest();
        self.expect(Kind::RParen);
        let items = self.store_list(&list);
        let span = self.end_span(start);
        let params = self.store(Node::FormalParameters { span, kind: params_kind, items, rest });
        (this_param, params)
    }

    /// Parameters up to `)`, separated by commas, and the rest parameter.
    ///
    /// A rest parameter is legal only as the last entry. One that something
    /// follows is reported, and what follows is still read as parameters.
    pub fn parse_delimited_list_with_rest(&mut self) -> (r: (Vec<NodeId>, Option<NodeId>))
        requires
            old(self).wf(),
        ensures
            (final(self)@, (r.0@, r.1)) == s_parameter_list(
                old(self)@,
                old(self).depth as nat,
                true,
                Seq::empty(),
                None,
            ),
            leads(*old(self), *final(self)),
            forall|i: int| 0 <= i < r.0@.len() ==> #[trigger] r.0@[i] < final(self)@.nodes.len(),
            opt_below(r.1, final(self)@.nodes.len() as int),
        decreases old(self).depth, 62nat,
    {
        let ghost begin = self@;
        let ghost depth = self.depth as nat;
        let mut list: Vec<NodeId> = Vec::new();
        let mut rest: Option<NodeId> = None;
        let mut first = true;
        loop
            invariant_except_break
                s_parameter_list(begin, depth, true, Seq::empty(), None) == s_parameter_list(
                    self@,
                    depth,
                    first,
                    list@,
                    rest,
                ),
            invariant
                self.wf(),
                leads(*old(self), *self),
                depth == old(self).depth,
                forall|i: int| 0 <= i < list@.len() ==> #[trigger] list@[i] < self@.nodes.len(),
                opt_below(rest, self@.nodes.len() as int),
            ensures
                (self@, (list@, rest)) == s_parameter_list(
                    begin,
                    depth,
                    true,
                    Seq::empty(),
                    None,
                ),
            decreases
                    self@.remaining() + (if self@.fatal is Some {
                        0int
                    } else {
                        1int
                    }),
        {
            if self.at(Kind::RParen) || self.has_fatal_error() {
                break ;
            }
            let comma_span = self.cur_token().span();
            if first {
                first = false;
            } else {
                if !self.at(Kind::Comma) {
                    self.expect(Kind::Comma);
                    break ;
                }
                self.bump_any();
                if self.at(Kind::RParen) {
                    if rest.is_some() {
                        self.error(
                            Diagnostic {
                                kind: DiagnosticKind::RestElementTrailingComma,
                                span: comma_span,
                            },
                        );
                    }
                    break ;
                }
            }
            if let Some(r) = rest {
                proof {
                    lemma_sound_span(self@, r as int);
                }
                let span = self.ast.node(r).span();
                self.error(Diagnostic { kind: DiagnosticKind::RestParameterLast, span });
            }
            if self.at(Kind::Dot3) {
                let r = self.parse_rest_binding();
                rest = Some(r);
            } else {
                let p = self.parse_formal_parameter();
                list.push(p);
            }
        }
        (list, rest)
    }

    /// Takes the decorators that wait for their item.
    pub fn consume_decorators(&mut self) -> (decorators: Vec<NodeId>)
        requires
            old(self).wf(),
        ensures
            final(self)@ == old(self)@.with_decorators(Seq::empty()),
            decorators@ == old(self)@.decorators,
            forall|i: int|
                0 <= i < decorators@.len() ==> #[trigger] decorators@[i] < final(self)@.nodes.len(),
            leads(*old(self), *final(self)),
    {
        let mut taken: Vec<NodeId> = Vec::new();
        proof {
            reveal(sound);
        }
        std::mem::swap(&mut self.decorators, &mut taken);
        taken
    }

    /// Reads every `@decorator` that comes next and leaves them waiting for
    /// the item they belong to.
    pub fn eat_decorators(&mut self)
        requires
            old(self).wf(),
        ensures
            final(self)@ == s_eat_decorators(old(self)@, old(self).depth as nat),
            leads(*old(self), *final(self)),
        decreases old(self).depth, 59nat,
    {
        let ghost begin = self@;
        let ghost depth = self.depth as nat;
        loop
            invariant_except_break
                s_eat_decorators(begin, depth) == s_eat_decorators(self@, depth),
            invariant
                self.wf(),
                leads(*old(self), *self),
                depth == old(self).depth,
            ensures
                self@ == s_eat_decorators(begin, depth),
            decreases self@.remaining(),
        {
            if !self.at(Kind::At) {
                break ;
            }
            let decorator = self.parse_decorator();
            proof {
                reveal(sound);
            }
            self.decorators.push(decorator);
        }
    }

    /// `@expression`.
    pub fn parse_decorator(&mut self) -> (id: NodeId)
        requires
            old(self).wf(),
        ensures
            (final(self)@, id) == s_decorator(old(self)@, old(self).depth as nat),
            leads(*old(self), *final(self)),
            id < final(self)@.nodes.len(),
            old(self)@.pos < old(self)@.tokens.len() ==> final(self)@.pos > old(self)@.pos,
        decreases old(self).depth, 58nat,
    {
        let start = self.start_span();
        self.bump_any();
        let expression = self.parse_nested_lhs();
        let span = self.end_span(start);
        self.store(Node::Decorator { span, expression })
    }

    /// One parameter: decorators first, then modifiers, then the binding with
    /// its default value. A parameter permits an accessibility, `readonly`
    /// and `override`; any other modifier is reported and kept.
    pub fn parse_formal_parameter(&mut self) -> (id: NodeId)
        requires
            old(self).wf(),
        ensures
            (final(self)@, id) == s_formal_parameter(old(self)@, old(self).depth as nat),
            leads(*old(self), *final(self)),
            id < final(self)@.nodes.len(),
            old(self)@.progressed(final(self)@),
        decreases old(self).depth, 61nat,
    {
        let start = self.start_span();
        if self.at(Kind::At) {
            self.eat_decorators();
        }
        let waiting = self.consume_decorators();
        let modifiers = self.parse_parameter_modifiers();
        let pattern = self.parse_binding_pattern_with_initializer();
        let decorators = self.store_list(&waiting);
        let span = self.end_span(start);
        self.store(
            Node::FormalParameter {
                span,
                decorators,
                pattern,
                accessibility: modifiers.accessibility(),
                readonly: modifiers.contains_readonly(),
                is_override: modifiers.contains_override(),
            },
        )
    }

    /// A binding and, after `=`, its default value.
    pub fn parse_binding_pattern_with_initializer(&mut self) -> (id: NodeId)
        requires
            old(self).wf(),
        ensures
            (final(self)@, id) == s_binding_pattern_with_initializer(
                old(self)@,
                old(self).depth as nat,
            ),
            leads(*old(self), *final(self)),
            id < final(self)@.nodes.len(),
            old(self)@.progressed(final(self)@),
        decreases old(self).depth, 57nat,
    {
        let start = self.start_span();
        let left = self.parse_binding_pattern();
        if self.at(Kind::Eq) {
            self.bump_any();
            let right = self.parse_assignment_expression_or_higher();
            let span = self.end_span(start);
            self.store(Node::AssignmentPattern { span, left, right })
        } else {
            left
        }
    }

    /// The signature and the body of a function.
    ///
    /// The steps, in order: type parameters; the parameter list; the return
    /// type; the body, which is there exactly if `{` comes next. All of it is
    /// read with `in` allowed and with `await` and `yield` as the function's
    /// own flags say; then the caller's context is put back, whatever was
    /// found.
    pub fn parse_function_parts(
        &mut self,
        is_async: bool,
        generator: bool,
        param_kind: FormalParameterKind,
    ) -> (parts: FunctionParts)
        requires
            old(self).wf(),
        ensures
            (final(self)@, parts) == s_function_parts(
                old(self)@,
                old(self).depth as nat,
                is_async,
                generator,
                param_kind,
            ),
            leads(*old(self), *final(self)),
            final(self)@.ctx == old(self)@.ctx,
            opt_below(parts.type_parameters, final(self)@.nodes.len() as int),
            opt_below(parts.this_param, final(self)@.nodes.len() as int),
            parts.params < final(self)@.nodes.len(),
            opt_below(parts.return_type, final(self)@.nodes.len() as int),
            opt_below(parts.body, final(self)@.nodes.len() as int),
            old(self)@.pos < old(self)@.tokens.len() ==> final(self)@.pos > old(self)@.pos,
        decreases old(self).depth, 64nat,
    {
        let ctx = self.ctx;
        self.ctx = self.ctx.and_in(true).and_await(is_async).and_yield(generator);
        let ghost depth = self.depth as nat;
        let ghost s0 = self@;
        assert(s0 == old(self)@.with_ctx(ctx.spec_enter_function(is_async, generator)));

        let type_parameters = self.parse_ts_type_parameters();
        let ghost s1 = self@;
        assert((s1, type_parameters) == s_ts_type_parameters(s0));

        let (this_param, params) = self.parse_formal_parameters(param_kind);
        let ghost s2 = self@;
        assert((s2, (this_param, params)) == s_formal_parameters(s1, depth, param_kind));

        let return_type = self.parse_ts_return_type_annotation();
        let ghost s3 = self@;
        assert((s3, return_type) == s_type_annotation(s2));

        let body = if self.at(Kind::LCurly) {
            Some(self.parse_function_body())
        } else {
            None
        };
        let ghost s4 = self@;
        assert(s3.at(Kind::LCurly) ==> (s4, body->0) == s_function_body(s3, depth) && body is Some);
        assert(!s3.at(Kind::LCurly) ==> s4 == s3 && body is None);
        assert(s0.extends(s4));

        self.ctx = self.ctx.and_in(ctx.has_in()).and_await(ctx.has_await()).and_yield(
            ctx.has_yield(),
        );
        assert(self.ctx == ctx);
        assert(self@ == s4.with_ctx(ctx.spec_restore_onto(s4.ctx)));
        FunctionParts { type_parameters, this_param, params, return_type, body }
    }

    /// Makes the node of a function whose signature and body were read.
    ///
    /// The node's type is [`spec_function_type`] of `func_kind` and the
    /// body's presence; a function whose type has no body ends like a
    /// statement. The modifiers are held against what a function permits,
    /// `declare` and `async`, once everything else is done; any other is
    /// reported and kept.
    pub fn finish_function(
        &mut self,
        span: u32,
        id: Option<NodeId>,
        is_async: bool,
        generator: bool,
        func_kind: FunctionKind,
        modifiers: &Modifiers,
        parts: FunctionParts,
    ) -> (function: NodeId)
        requires
            old(self).wf(),
            modifiers_wf(modifiers@),
            opt_below(id, old(self)@.nodes.len() as int),
            opt_below(parts.type_parameters, old(self)@.nodes.len() as int),
            opt_below(parts.this_param, old(self)@.nodes.len() as int),
            parts.params < old(self)@.nodes.len(),
            opt_below(parts.return_type, old(self)@.nodes.len() as int),
            opt_below(parts.body, old(self)@.nodes.len() as int),
        ensures
            (final(self)@, function) == s_finish_function(
                old(self)@,
                span,
                id,
                is_async,
                generator,
                func_kind,
                modifiers@,
                parts,
            ),
            leads(*old(self), *final(self)),
            function < final(self)@.nodes.len(),
            final(self)@.nodes[function as int] matches Node::Function { function_type, body, .. }
                && function_type == spec_function_type(func_kind, body is Some) && body
                == parts.body,
    {
        reveal(s_finish_function);
        let function_type = function_type(func_kind, parts.body.is_some());

        if function_type.is_bodiless() {
            self.asi();
        }
        self.verify_modifiers(modifiers, ModifierPosition::Function);

        let span = self.end_span(span);
        self.store(
            Node::Function {
                span,
                function_type,
                id,
                generator,
                is_async,
                declare: modifiers.contains_declare(),
                type_parameters: parts.type_parameters,
                this_param: parts.this_param,
                params: parts.params,
                return_type: parts.return_type,
                body: parts.body,
            },
        )
    }

    /// A function from its type parameters on.
    ///
    /// Signature and body are read first
    /// ([`ParserImpl::parse_function_parts`]); the context is the caller's
    /// again after them. Without a body a JavaScript source fails hard.
    /// Else the node is made ([`ParserImpl::finish_function`]): its type is
    /// [`spec_function_type`] of `func_kind` and the body's presence.
    pub fn parse_function(
        &mut self,
        span: u32,
        id: Option<NodeId>,
        is_async: bool,
        generator: bool,
        func_kind: FunctionKind,
        param_kind: FormalParameterKind,
        modifiers: &Modifiers,
    ) -> (function: NodeId)
        requires
            old(self).wf(),
            opt_below(id, old(self)@.nodes.len() as int),
            modifiers_wf(modifiers@),
        ensures
            (final(self)@, function) == s_function(
                old(self)@,
                old(self).depth as nat,
                span,
                id,
                is_async,
                generator,
                func_kind,
                param_kind,
                modifiers@,
            ),
            leads(*old(self), *final(self)),
            function < final(self)@.nodes.len(),
            final(self)@.ctx == old(self)@.ctx,
            match final(self)@.nodes[function as int] {
                Node::Function { function_type, body, .. } => function_type == spec_function_type(
                    func_kind,
                    body is Some,
                ),
                Node::Dummy { .. } => final(self)@.fatal is Some,
                _ => false,
            },
            old(self)@.pos < old(self)@.tokens.len() ==> final(self)@.pos > old(self)@.pos,
        decreases old(self).depth, 65nat,
    {
        let parts = self.parse_function_parts(is_async, generator, param_kind);

        if !self.is_ts && parts.body.is_none() {
            return self.unexpected();
        }
        self.finish_function(span, id, is_async, generator, func_kind, modifiers, parts)
    }

    /// A function declaration in statement position.
    ///
    /// As the unbraced body of another statement an async or generator
    /// declaration is illegal. That is found once the node is built and is
    /// only reported: the node stays as it is.
    pub fn parse_function_declaration(
        &mut self,
        span: u32,
        is_async: bool,
        stmt_ctx: StatementContext,
    ) -> (decl: NodeId)
        requires
            old(self).wf(),
        ensures
            (final(self)@, decl) == s_function_declaration(
                old(self)@,
                old(self).depth as nat,
                span,
                is_async,
                stmt_ctx,
            ),
            leads(*old(self), *final(self)),
            decl < final(self)@.nodes.len(),
            old(self)@.progressed(final(self)@),
        decreases old(self).depth, 70nat,
    {
        reveal(s_restricted_position_check);
        let decl = self.parse_function_impl(span, is_async, FunctionKind::Declaration);
        if stmt_ctx.is_single_statement() {
            match self.ast.node(decl) {
                Node::Function { span: whole, is_async: declared_async, generator, params, .. } => {
                    proof {
                        lemma_sound_function(self@, decl as int);
                        lemma_sound_span(self@, params as int);
                    }
                    let end = self.ast.node(params).span().end;
                    let at = Span::closing(whole.start, end);
                    if declared_async {
                        self.error(
                            Diagnostic { kind: DiagnosticKind::AsyncFunctionDeclaration, span: at },
                        );
                    } else if generator {
                        self.error(
                            Diagnostic {
                                kind: DiagnosticKind::GeneratorFunctionDeclaration,
                                span: at,
                            },
                        );
                    }
                },
                _ => {},
            }
        }
        decl
    }

    /// A function in JavaScript position; the current token is `function`.
    pub fn parse_function_impl(&mut self, span: u32, is_async: bool, func_kind: FunctionKind) -> (function:
        NodeId)
        requires
            old(self).wf(),
        ensures
            (final(self)@, function) == s_function_impl(
                old(self)@,
                old(self).depth as nat,
                span,
                is_async,
                func_kind,
            ),
            leads(*old(self), *final(self)),
            function < final(self)@.nodes.len(),
            old(self)@.progressed(final(self)@),
        decreases old(self).depth, 68nat,
    {
        self.expect(Kind::Function);
        let generator = self.eat(Kind::Star);
        let id = self.parse_function_id(func_kind, is_async, generator);
        self.parse_function(
            span,
            id,
            is_async,
            generator,
            func_kind,
            FormalParameterKind::FormalParameter,
            &Modifiers::empty(),
        )
    }

    /// A function after TypeScript modifiers; the current token is
    /// `function`. The function is async exactly if the modifiers say so.
    pub fn parse_ts_function_impl(
        &mut self,
        start_span: u32,
        func_kind: FunctionKind,
        modifiers: &Modifiers,
    ) -> (function: NodeId)
        requires
            old(self).wf(),
            modifiers_wf(modifiers@),
        ensures
            (final(self)@, function) == s_ts_function_impl(
                old(self)@,
                old(self).depth as nat,
                start_span,
                func_kind,
                modifiers@,
            ),
            leads(*old(self), *final(self)),
            function < final(self)@.nodes.len(),
            old(self)@.progressed(final(self)@),
        decreases old(self).depth, 68nat,
    {
        let is_async = modifiers.contains(ModifierKind::Async);
        self.expect(Kind::Function);
        let generator = self.eat(Kind::Star);
        let id = self.parse_function_id(func_kind, is_async, generator);
        self.parse_function(
            start_span,
            id,
            is_async,
            generator,
            func_kind,
            FormalParameterKind::FormalParameter,
            modifiers,
        )
    }

    /// A function expression; the current token is `function`.
    pub fn parse_function_expression(&mut self, span: u32, is_async: bool) -> (function: NodeId)
        requires
            old(self).wf(),
        ensures
            (final(self)@, function) == s_function_expression(
                old(self)@,
                old(self).depth as nat,
                span,
                is_async,
            ),
            leads(*old(self), *final(self)),
            function < final(self)@.nodes.len(),
            old(self)@.progressed(final(self)@),
        decreases old(self).depth, 35nat,
    {
        let func_kind = FunctionKind::Expression;
        self.expect(Kind::Function);

        let generator = self.eat(Kind::Star);
        let id = self.parse_function_id(func_kind, is_async, generator);
        self.parse_nested_function(
            span,
            id,
            is_async,
            generator,
            func_kind,
            FormalParameterKind::FormalParameter,
            &Modifiers::empty(),
        )
    }

    /// A method, from `(` on: an unnamed function expression whose parameters
    /// must be unique.
    pub fn parse_method(&mut self, is_async: bool, generator: bool) -> (function: NodeId)
        requires
            old(self).wf(),
        ensures
            (final(self)@, function) == s_method(
                old(self)@,
                old(self).depth as nat,
                is_async,
                generator,
            ),
            leads(*old(self), *final(self)),
            function < final(self)@.nodes.len(),
        decreases old(self).depth, 66nat,
    {
        let span = self.start_span();
        self.parse_function(
            span,
            None,
            is_async,
            generator,
            FunctionKind::Expression,
            FormalParameterKind::UniqueFormalParameters,
            &Modifiers::empty(),
        )
    }

    /// `yield`, `yield argument` or `yield * argument`; the current token is
    /// `yield`.
    ///
    /// Where the context does not allow `yield`, that is reported and the
    /// expression is read all the same: the result is always a complete
    /// `yield` node. A line break after `yield` ends the expression.
    /// Otherwise `*` may follow, and an argument is read unless a token that
    /// ends a `yield` comes next and there was no `*`. The argument is read
    /// with `yield` allowed; the earlier legality is put back after it.
    pub fn parse_yield_expression(&mut self) -> (id: NodeId)
        requires
            old(self).wf(),
        ensures
            (final(self)@, id) == s_yield(old(self)@, old(self).depth as nat),
            leads(*old(self), *final(self)),
            id < final(self)@.nodes.len(),
            final(self)@.nodes[id as int] is YieldExpression,
            !old(self)@.ctx.has_yield ==> final(self)@.errors.len() > old(self)@.errors.len()
                && final(self)@.errors[old(self)@.errors.len() as int] == diag(
                DiagnosticKind::YieldExpression,
                old(self)@.cur().spec_span(),
            ),
            old(self)@.bump().cur().is_on_new_line || (old(self)@.bump().kind().spec_ends_yield()
                && !old(self)@.bump().at(Kind::Star)) ==> final(self)@.fatal == old(self)@.fatal,
            old(self)@.pos < old(self)@.tokens.len() ==> final(self)@.pos > old(self)@.pos,
        decreases old(self).depth, 54nat,
    {
        let start = self.start_span();
        let yield_span = self.cur_token().span();
        self.bump_any();

        let has_yield = self.ctx.has_yield();
        if !has_yield {
            self.error(Diagnostic { kind: DiagnosticKind::YieldExpression, span: yield_span });
        }
        let ghost reported = self@;
        let mut delegate = false;
        let mut argument: Option<NodeId> = None;

        if !self.cur_token().is_on_new_line {
            delegate = self.eat(Kind::Star);
            let not_assignment_expr = self.cur_kind().ends_yield();
            if !not_assignment_expr || delegate {
                self.ctx = self.ctx.union_yield_if(true);
                argument = Some(self.parse_nested_assignment());
                self.ctx = self.ctx.and_yield(has_yield);
            }
        }
        let span = self.end_span(start);
        let id = self.store(Node::YieldExpression { span, delegate, argument });
        proof {
            if !old(self)@.ctx.has_yield {
                let n = old(self)@.errors.len() as int;
                assert(reported.errors[n] == diag(
                    DiagnosticKind::YieldExpression,
                    old(self)@.cur().spec_span(),
                ));
                lemma_kept_at(reported, self@, n);
            }
        }
        id
    }
}

} // verus!
