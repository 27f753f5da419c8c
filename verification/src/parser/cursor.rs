//! The engine's state and the steps that every production is made of.

use vstd::prelude::*;
use crate::ast::{lemma_tree_wf_lists_grow, Ast, Node, NodeId, NodeList};
use crate::context::Context;
use crate::diagnostics::{Diagnostic, DiagnosticKind};
use crate::parser::model::{kept, sound, starts, Checkpoint, ParserView};
use crate::span::Span;
use crate::token::{Kind, Token};

verus! {

broadcast use {
    crate::parser::model::lemma_kept_reflexive,
    crate::parser::model::lemma_kept_transitive,
};

/// How deep productions may nest unless the caller says otherwise.
pub const DEFAULT_DEPTH: usize = 256;

/// The grammar engine: one per parse, with its own tokens, tree and
/// diagnostics.
pub struct ParserImpl {
    pub tokens: Vec<Token>,
    pub is_ts: bool,
    pub pos: usize,
    pub prev_token_end: u32,
    pub ctx: Context,
    /// How many more levels productions may nest.
    pub depth: usize,
    pub ast: Ast,
    pub errors: Vec<Diagnostic>,
    pub fatal_error: Option<Diagnostic>,
    pub decorators: Vec<NodeId>,
}

impl View for ParserImpl {
    type V = ParserView;

    open spec fn view(&self) -> ParserView {
        ParserView {
            tokens: self.tokens@,
            is_ts: self.is_ts,
            pos: self.pos as int,
            prev_end: self.prev_token_end,
            ctx: self.ctx,
            nodes: self.ast.nodes@,
            lists: self.ast.lists@,
            errors: self.errors@,
            fatal: self.fatal_error,
            decorators: self.decorators@,
        }
    }
}

/// A production led from the state `before` to the state `after`: the state
/// is well formed, the nesting budget is as it was, and
/// [`ParserView::extends`] holds.
pub open spec fn leads(before: ParserImpl, after: ParserImpl) -> bool {
    &&& after.wf()
    &&& after.depth == before.depth
    &&& before@.extends(after@)
}

impl ParserImpl {
    pub open spec fn wf(&self) -> bool {
        self@.wf()
    }

    /// An engine at the start of `tokens`.
    pub fn new(tokens: Vec<Token>, is_ts: bool) -> (p: ParserImpl)
        ensures
            p.wf(),
            p.depth == DEFAULT_DEPTH,
            p@ == (ParserView {
                tokens: tokens@,
                is_ts,
                pos: 0,
                prev_end: 0,
                ctx: Context::spec_initial(),
                nodes: Seq::empty(),
                lists: Seq::empty(),
                errors: Seq::empty(),
                fatal: None,
                decorators: Seq::empty(),
            }),
    {
        proof {
            reveal(sound);
        }
        ParserImpl {
            tokens,
            is_ts,
            pos: 0,
            prev_token_end: 0,
            ctx: Context::initial(),
            depth: DEFAULT_DEPTH,
            ast: Ast::new(),
            errors: Vec::new(),
            fatal_error: None,
            decorators: Vec::new(),
        }
    }

    /// The same engine with another nesting budget.
    pub fn with_depth(self, depth: usize) -> (p: ParserImpl)
        ensures
            p@ == self@,
            p.depth == depth,
    {
        let mut p = self;
        p.depth = depth;
        p
    }

    /// The token `n` places after the current one.
    pub fn peek_token(&self, n: usize) -> (t: Token)
        requires
            self.wf(),
        ensures
            t == self@.peek(n as int),
    {
        if n < self.tokens.len() - self.pos {
            self.tokens[self.pos + n]
        } else {
            Token {
                kind: Kind::Eof,
                start: self.prev_token_end,
                end: self.prev_token_end,
                is_on_new_line: false,
            }
        }
    }

    pub fn cur_token(&self) -> (t: Token)
        requires
            self.wf(),
        ensures
            t == self@.cur(),
    {
        self.peek_token(0)
    }

    pub fn cur_kind(&self) -> (k: Kind)
        requires
            self.wf(),
        ensures
            k == self@.kind(),
    {
        self.peek_token(0).kind
    }

    pub fn at(&self, kind: Kind) -> (b: bool)
        requires
            self.wf(),
        ensures
            b == self@.at(kind),
    {
        self.cur_kind() == kind
    }

    pub fn start_span(&self) -> (start: u32)
        requires
            self.wf(),
        ensures
            start == self@.start_span(),
    {
        self.cur_token().start
    }

    pub fn end_span(&self, start: u32) -> (span: Span)
        ensures
            span == self@.end_span(start),
            span.wf(),
    {
        Span::closing(start, self.prev_token_end)
    }

    /// Whether a hard failure has ended the parse.
    pub fn has_fatal_error(&self) -> (b: bool)
        ensures
            b == (self@.fatal is Some),
    {
        self.fatal_error.is_some()
    }

    /// Consumes the current token, whatever it is.
    pub fn bump_any(&mut self)
        requires
            old(self).wf(),
        ensures
            final(self)@ == old(self)@.bump(),
            leads(*old(self), *final(self)),
    {
        if self.pos < self.tokens.len() {
            self.prev_token_end = self.tokens[self.pos].end;
            self.pos += 1;
        }
    }

    /// Consumes the current token if it is of kind `kind`.
    pub fn eat(&mut self, kind: Kind) -> (eaten: bool)
        requires
            old(self).wf(),
        ensures
            (final(self)@, eaten) == old(self)@.eat(kind),
            leads(*old(self), *final(self)),
    {
        if self.at(kind) {
            self.bump_any();
            true
        } else {
            false
        }
    }

    /// Records a recoverable diagnostic; the parse goes on.
    pub fn error(&mut self, diagnostic: Diagnostic)
        requires
            old(self).wf(),
            diagnostic.span.wf(),
            !diagnostic.kind.spec_is_fatal(),
        ensures
            final(self)@ == old(self)@.error(diagnostic),
            leads(*old(self), *final(self)),
    {
        self.errors.push(diagnostic);
        proof {
            reveal(sound);
            reveal(kept);
            let before = old(self)@;
            let after = self@;
            assert forall|i: int| 0 <= i < after.errors.len() implies (#[trigger] after.errors[i]).span.wf()
                && !after.errors[i].kind.spec_is_fatal() by {
                if i < before.errors.len() {
                    assert(after.errors[i] == before.errors[i]);
                }
            }
            assert(starts(before.errors, after.errors));
            assert(starts(before.nodes, after.nodes));
            assert(starts(before.lists, after.lists));
        }
    }

    /// Records a hard failure and gives up the rest of the input. Only the
    /// first hard failure of a parse is kept.
    pub fn set_fatal_error(&mut self, diagnostic: Diagnostic)
        requires
            old(self).wf(),
            diagnostic.span.wf(),
            diagnostic.kind.spec_is_fatal(),
        ensures
            final(self)@ == old(self)@.fail(diagnostic),
            final(self)@.fatal is Some,
            leads(*old(self), *final(self)),
    {
        proof {
            reveal(sound);
        }
        if self.fatal_error.is_none() {
            self.fatal_error = Some(diagnostic);
            self.pos = self.tokens.len();
        }
    }

    /// Fails hard on the current token and gives a placeholder node.
    pub fn unexpected(&mut self) -> (id: NodeId)
        requires
            old(self).wf(),
        ensures
            (final(self)@, id) == old(self)@.unexpected_node(),
            final(self)@.fatal is Some,
            id < final(self)@.nodes.len(),
            final(self)@.nodes[id as int] is Dummy,
            leads(*old(self), *final(self)),
    {
        let span = self.cur_token().span();
        self.set_fatal_error(Diagnostic { kind: DiagnosticKind::UnexpectedToken, span });
        self.store(Node::Dummy { span })
    }

    /// Requires the current token to be of kind `kind` and consumes it;
    /// fails hard where it is another.
    pub fn expect(&mut self, kind: Kind)
        requires
            old(self).wf(),
        ensures
            final(self)@ == old(self)@.expect(kind),
            leads(*old(self), *final(self)),
            old(self)@.pos < old(self)@.tokens.len() ==> final(self)@.pos > old(self)@.pos,
    {
        if self.at(kind) {
            self.bump_any();
        } else {
            let token = self.cur_token();
            self.set_fatal_error(
                Diagnostic {
                    kind: DiagnosticKind::ExpectToken { expected: kind, found: token.kind },
                    span: token.span(),
                },
            );
        }
    }

    /// Requires the current token to be of kind `kind` and leaves it in
    /// place; fails hard where it is another.
    pub fn expect_without_advance(&mut self, kind: Kind)
        requires
            old(self).wf(),
        ensures
            final(self)@ == old(self)@.expect_without_advance(kind),
            leads(*old(self), *final(self)),
    {
        if !self.at(kind) {
            let token = self.cur_token();
            self.set_fatal_error(
                Diagnostic {
                    kind: DiagnosticKind::ExpectToken { expected: kind, found: token.kind },
                    span: token.span(),
                },
            );
        }
    }

    pub fn can_insert_semicolon(&self) -> (b: bool)
        requires
            self.wf(),
        ensures
            b == self@.can_insert_semicolon(),
    {
        let token = self.cur_token();
        token.kind == Kind::Semicolon || token.kind == Kind::RCurly || token.kind == Kind::Eof
            || token.is_on_new_line
    }

    /// Ends a statement: consumes a semicolon, accepts an implied one, or
    /// fails hard where neither is there.
    pub fn asi(&mut self)
        requires
            old(self).wf(),
        ensures
            final(self)@ == old(self)@.asi(),
            leads(*old(self), *final(self)),
    {
        if !self.can_insert_semicolon() {
            let end = self.prev_token_end;
            self.set_fatal_error(
                Diagnostic {
                    kind: DiagnosticKind::AutoSemicolonInsertion,
                    span: Span { start: end, end },
                },
            );
        } else if self.at(Kind::Semicolon) {
            self.bump_any();
        }
    }

    /// Stores a node whose children are all there already.
    pub fn store(&mut self, node: Node) -> (id: NodeId)
        requires
            old(self).wf(),
            node.wf_at(old(self)@.nodes.len() as int, old(self)@.lists),
        ensures
            (final(self)@, id) == old(self)@.store(node),
            id == old(self)@.nodes.len(),
            id < final(self)@.nodes.len(),
            final(self)@.nodes[id as int] == node,
            leads(*old(self), *final(self)),
    {
        let id = self.ast.nodes.len();
        self.ast.nodes.push(node);
        proof {
            reveal(sound);
            reveal(kept);
            let before = old(self)@;
            let after = self@;
            assert forall|i: int| 0 <= i < after.nodes.len() implies (#[trigger] after.nodes[i]).wf_at(
                i,
                after.lists,
            ) by {
                if i < before.nodes.len() {
                    assert(after.nodes[i] == before.nodes[i]);
                }
            }
            assert(starts(before.nodes, after.nodes));
            assert(starts(before.lists, after.lists));
            assert(starts(before.errors, after.errors));
            assert(crate::ast::spec_tree_wf(after.nodes, after.lists));
            assert(0 <= after.pos <= after.tokens.len());
            assert(after.fatal is Some ==> after.pos == after.tokens.len());
            assert forall|i: int| 0 <= i < after.decorators.len() implies #[trigger] after.decorators[i]
                < after.nodes.len() by {
                assert(before.decorators[i] < before.nodes.len());
            }
            assert(after.errors == before.errors);
            assert(after.wf());
        }
        id
    }

    /// Stores a list of children that are all there already.
    pub fn store_list(&mut self, items: &Vec<NodeId>) -> (list: NodeList)
        requires
            old(self).wf(),
            forall|i: int| 0 <= i < items@.len() ==> #[trigger] items@[i] < old(self)@.nodes.len(),
        ensures
            (final(self)@, list) == old(self)@.store_list(items@),
            crate::ast::list_below(list, final(self)@.nodes.len() as int, final(self)@.lists),
            leads(*old(self), *final(self)),
    {
        let start = self.ast.lists.len();
        let ghost before = self.ast.lists@;
        let mut i: usize = 0;
        while i < items.len()
            invariant
                i <= items.len(),
                self.ast.lists@ == before + items@.subrange(0, i as int),
                self.ast.nodes == old(self).ast.nodes,
                self.tokens == old(self).tokens,
                self.is_ts == old(self).is_ts,
                self.pos == old(self).pos,
                self.prev_token_end == old(self).prev_token_end,
                self.ctx == old(self).ctx,
                self.depth == old(self).depth,
                self.errors == old(self).errors,
                self.fatal_error == old(self).fatal_error,
                self.decorators == old(self).decorators,
            decreases items.len() - i,
        {
            self.ast.lists.push(items[i]);
            i += 1;
            assert(self.ast.lists@ =~= before + items@.subrange(0, i as int));
        }
        assert(items@.subrange(0, items@.len() as int) =~= items@);
        let list = NodeList { start, len: items.len() };
        proof {
            reveal(sound);
            reveal(kept);
            lemma_tree_wf_lists_grow(old(self)@.nodes, before, items@);
            let after = self@;
            assert(after.lists == before + items@);
            assert(starts(old(self)@.nodes, after.nodes));
            assert(starts(before, after.lists));
            assert(starts(old(self)@.errors, after.errors));
            assert(after.nodes == old(self)@.nodes);
            assert(crate::ast::spec_tree_wf(after.nodes, after.lists));
            assert(0 <= after.pos <= after.tokens.len());
            assert(after.fatal is Some ==> after.pos == after.tokens.len());
            assert forall|i: int| 0 <= i < after.decorators.len() implies #[trigger] after.decorators[i]
                < after.nodes.len() by {
                assert(old(self)@.decorators[i] < old(self)@.nodes.len());
            }
            assert(after.errors == old(self)@.errors);
            assert(after.wf());
            assert forall|k: int| list.start <= k < list.start + list.len implies #[trigger] after.lists[k]
                < after.nodes.len() by {
                assert(after.lists[k] == items@[k - list.start]);
            }
        }
        list
    }

    /// What is needed to come back to the present state after a tentative
    /// scan.
    pub fn checkpoint(&self) -> (checkpoint: Checkpoint)
        requires
            self.wf(),
        ensures
            checkpoint == self@.checkpoint(),
            checkpoint.pos == self@.pos,
            checkpoint.errors_len == self@.errors.len(),
    {
        Checkpoint {
            pos: self.pos,
            prev_token_end: self.prev_token_end,
            errors_len: self.errors.len(),
            fatal_error: self.fatal_error,
        }
    }

    /// Gives up a tentative scan: goes back to where `checkpoint` was taken
    /// and drops every diagnostic that was raised since, so that none of them
    /// is ever shown.
    pub fn rewind(&mut self, checkpoint: Checkpoint)
        requires
            old(self).wf(),
            checkpoint.pos <= old(self)@.tokens.len(),
            checkpoint.errors_len <= old(self)@.errors.len(),
            checkpoint.fatal_error matches Some(f) ==> f.span.wf() && f.kind.spec_is_fatal()
                && checkpoint.pos == old(self)@.tokens.len(),
        ensures
            final(self)@ == old(self)@.rewound(checkpoint),
            final(self).wf(),
            final(self).depth == old(self).depth,
    {
        proof {
            reveal(sound);
        }
        self.pos = checkpoint.pos;
        self.prev_token_end = checkpoint.prev_token_end;
        self.errors.truncate(checkpoint.errors_len);
        self.fatal_error = checkpoint.fatal_error;
    }

    /// Goes one level deeper if the nesting budget allows it; fails hard
    /// otherwise.
    pub fn descend(&mut self) -> (ok: bool)
        requires
            old(self).wf(),
        ensures
            ok == (old(self).depth > 0),
            ok ==> final(self)@ == old(self)@ && final(self).depth == old(self).depth - 1,
            !ok ==> final(self)@ == old(self)@.fail(
                Diagnostic {
                    kind: DiagnosticKind::NestingTooDeep,
                    span: old(self)@.cur().spec_span(),
                },
            ) && final(self).depth == old(self).depth,
            final(self).wf(),
            old(self)@.extends(final(self)@),
    {
        if self.depth == 0 {
            let span = self.cur_token().span();
            self.set_fatal_error(Diagnostic { kind: DiagnosticKind::NestingTooDeep, span });
            false
        } else {
            self.depth -= 1;
            true
        }
    }

    /// Comes back up one level.
    pub fn ascend(&mut self)
        requires
            old(self).depth < usize::MAX,
        ensures
            final(self)@ == old(self)@,
            final(self).depth == old(self).depth + 1,
    {
        self.depth += 1;
    }
}

} // verus!
