//! The state of a parse as a mathematical value, and the steps every
//! production is made of.

use vstd::prelude::*;
use crate::ast::{spec_tree_wf, Node, NodeId, NodeList};
use crate::context::Context;
use crate::diagnostics::{Diagnostic, DiagnosticKind};
use crate::span::Span;
use crate::token::{Kind, Token};

verus! {

/// Everything a production reads or changes.
pub struct ParserView {
    /// The tokens of the source, in order.
    pub tokens: Seq<Token>,
    /// Whether TypeScript productions are on.
    pub is_ts: bool,
    /// Index of the current token; `tokens.len()` once the input is used up.
    pub pos: int,
    /// Where the last consumed token ended.
    pub prev_end: u32,
    pub ctx: Context,
    pub nodes: Seq<Node>,
    pub lists: Seq<NodeId>,
    /// The recoverable diagnostics so far, in the order they were raised.
    pub errors: Seq<Diagnostic>,
    /// The hard failure that ended the parse, if there was one.
    pub fatal: Option<Diagnostic>,
    /// Decorators that were read and wait for the item they belong to.
    pub decorators: Seq<NodeId>,
}

/// What is kept of a state to come back to it after a tentative scan.
#[derive(Clone, Copy, Debug, PartialEq, Eq, Structural)]
pub struct Checkpoint {
    pub pos: usize,
    pub prev_token_end: u32,
    pub errors_len: usize,
    pub fatal_error: Option<Diagnostic>,
}

/// The nodes, the child lists and the diagnostics of a parse.
pub struct Stored {
    pub nodes: Seq<Node>,
    pub lists: Seq<NodeId>,
    pub errors: Seq<Diagnostic>,
}

/// The tree is well formed, every waiting decorator is a node of it, every
/// diagnostic points at a valid span, and what ended the parse is told apart
/// from what did not by its kind.
#[verifier::opaque]
pub open spec fn sound(s: Stored, fatal: Option<Diagnostic>, decorators: Seq<NodeId>) -> bool {
    &&& spec_tree_wf(s.nodes, s.lists)
    &&& forall|i: int| 0 <= i < decorators.len() ==> #[trigger] decorators[i] < s.nodes.len()
    &&& forall|i: int|
        0 <= i < s.errors.len() ==> (#[trigger] s.errors[i]).span.wf()
            && !s.errors[i].kind.spec_is_fatal()
    &&& fatal matches Some(f) ==> f.span.wf() && f.kind.spec_is_fatal()
}

/// Everything that `before` holds is still there in `after`, at its place
/// and unchanged: nodes, child lists and diagnostics only grow at their end.
#[verifier::opaque]
pub open spec fn kept(before: Stored, after: Stored) -> bool {
    &&& starts(before.nodes, after.nodes)
    &&& starts(before.lists, after.lists)
    &&& starts(before.errors, after.errors)
}

pub broadcast proof fn lemma_kept_reflexive(a: Stored)
    ensures
        #[trigger] kept(a, a),
{
    reveal(kept);
}

pub broadcast proof fn lemma_kept_transitive(a: Stored, b: Stored, c: Stored)
    requires
        #[trigger] kept(a, b),
        #[trigger] kept(b, c),
    ensures
        kept(a, c),
{
    reveal(kept);
}

/// The span of a stored node is valid.
pub proof fn lemma_sound_span(m: ParserView, id: int)
    requires
        m.wf(),
        0 <= id < m.nodes.len(),
    ensures
        m.nodes[id].spec_span().wf(),
{
    reveal(sound);
    assert(m.nodes[id].wf_at(id, m.lists));
}

/// The parameter list of a stored function is stored before it.
pub proof fn lemma_sound_function(m: ParserView, id: int)
    requires
        m.wf(),
        0 <= id < m.nodes.len(),
        m.nodes[id] is Function,
    ensures
        m.nodes[id]->Function_params < id,
        m.nodes[id]->Function_body is None ==> m.nodes[id]->Function_function_type.spec_is_bodiless(),
{
    reveal(sound);
    assert(m.nodes[id].wf_at(id, m.lists));
}

/// Coming back to a checkpoint gives the position, the hard failure and the
/// diagnostics of the state it was taken in, whatever was scanned since.
pub proof fn lemma_rewound_is_as_before(before: ParserView, after: ParserView)
    requires
        before.wf(),
        before.pos <= usize::MAX,
        before.errors.len() <= usize::MAX,
        before.extends(after),
    ensures
        after.rewound(before.checkpoint()).pos == before.pos,
        after.rewound(before.checkpoint()).prev_end == before.prev_end,
        after.rewound(before.checkpoint()).fatal == before.fatal,
        after.rewound(before.checkpoint()).errors == before.errors,
        after.rewound(before.checkpoint()).ctx == before.ctx,
        after.rewound(before.checkpoint()).tokens == before.tokens,
{
    reveal(kept);
    assert(after.errors.take(before.errors.len() as int) =~= before.errors);
}

/// What [`kept`] says of one node and of one diagnostic.
pub proof fn lemma_kept_at(before: ParserView, after: ParserView, i: int)
    requires
        kept(before.stored(), after.stored()),
    ensures
        0 <= i < before.nodes.len() ==> after.nodes[i] == before.nodes[i],
        0 <= i < before.lists.len() ==> after.lists[i] == before.lists[i],
        0 <= i < before.errors.len() ==> after.errors[i] == before.errors[i],
{
    reveal(kept);
}

/// `a` is the beginning of `b`.
pub open spec fn starts<T>(a: Seq<T>, b: Seq<T>) -> bool {
    &&& a.len() <= b.len()
    &&& forall|i: int| 0 <= i < a.len() ==> #[trigger] a[i] == b[i]
}

impl ParserView {
    /// The token that stands for the end of the input.
    pub open spec fn eof_token(self) -> Token {
        Token { kind: Kind::Eof, start: self.prev_end, end: self.prev_end, is_on_new_line: false }
    }

    /// The token `n` places after the current one.
    pub open spec fn peek(self, n: int) -> Token {
        if 0 <= self.pos + n < self.tokens.len() {
            self.tokens[self.pos + n]
        } else {
            self.eof_token()
        }
    }

    pub open spec fn cur(self) -> Token {
        self.peek(0)
    }

    pub open spec fn kind(self) -> Kind {
        self.cur().kind
    }

    pub open spec fn at(self, kind: Kind) -> bool {
        self.kind() == kind
    }

    /// Number of tokens not yet consumed.
    pub open spec fn remaining(self) -> int {
        self.tokens.len() - self.pos
    }

    pub open spec fn start_span(self) -> u32 {
        self.cur().start
    }

    /// The span from `start` to the end of the last consumed token.
    pub open spec fn end_span(self, start: u32) -> Span {
        Span::spec_closing(start, self.prev_end)
    }

    /// Consumes the current token, if there is one.
    pub open spec fn bump(self) -> ParserView {
        if 0 <= self.pos < self.tokens.len() {
            ParserView { pos: self.pos + 1, prev_end: self.cur().end, ..self }
        } else {
            self
        }
    }

    /// Consumes the current token if it is of kind `kind`.
    pub open spec fn eat(self, kind: Kind) -> (ParserView, bool) {
        if self.at(kind) {
            (self.bump(), true)
        } else {
            (self, false)
        }
    }

    /// Records a recoverable diagnostic.
    pub open spec fn error(self, diagnostic: Diagnostic) -> ParserView {
        ParserView { errors: self.errors.push(diagnostic), ..self }
    }

    /// Records a hard failure: the first one is kept, and the rest of the
    /// input is given up.
    pub open spec fn fail(self, diagnostic: Diagnostic) -> ParserView {
        if self.fatal is Some {
            self
        } else {
            ParserView { fatal: Some(diagnostic), pos: self.tokens.len() as int, ..self }
        }
    }

    /// The hard failure for a token that no production accepts here.
    pub open spec fn unexpected(self) -> ParserView {
        self.fail(
            Diagnostic { kind: DiagnosticKind::UnexpectedToken, span: self.cur().spec_span() },
        )
    }

    /// The hard failure for a missing token of kind `kind`.
    pub open spec fn expect_failure(self, kind: Kind) -> ParserView {
        self.fail(
            Diagnostic {
                kind: DiagnosticKind::ExpectToken { expected: kind, found: self.kind() },
                span: self.cur().spec_span(),
            },
        )
    }

    /// Requires the current token to be of kind `kind` and consumes it.
    pub open spec fn expect(self, kind: Kind) -> ParserView {
        if self.at(kind) {
            self.bump()
        } else {
            self.expect_failure(kind)
        }
    }

    /// Requires the current token to be of kind `kind` and leaves it in place.
    pub open spec fn expect_without_advance(self, kind: Kind) -> ParserView {
        if self.at(kind) {
            self
        } else {
            self.expect_failure(kind)
        }
    }

    /// Whether a statement may end before the current token.
    pub open spec fn can_insert_semicolon(self) -> bool {
        self.at(Kind::Semicolon) || self.at(Kind::RCurly) || self.at(Kind::Eof)
            || self.cur().is_on_new_line
    }

    /// Ends a statement: consumes a semicolon, accepts an implied one, or
    /// fails hard where neither is there.
    pub open spec fn asi(self) -> ParserView {
        if !self.can_insert_semicolon() {
            self.fail(
                Diagnostic {
                    kind: DiagnosticKind::AutoSemicolonInsertion,
                    span: Span { start: self.prev_end, end: self.prev_end },
                },
            )
        } else if self.at(Kind::Semicolon) {
            self.bump()
        } else {
            self
        }
    }

    /// Stores `node` and gives its index.
    pub open spec fn store(self, node: Node) -> (ParserView, NodeId) {
        (ParserView { nodes: self.nodes.push(node), ..self }, self.nodes.len() as NodeId)
    }

    /// Stores a list of children and gives its place in the table.
    pub open spec fn store_list(self, items: Seq<NodeId>) -> (ParserView, NodeList) {
        (
            ParserView { lists: self.lists + items, ..self },
            NodeList { start: self.lists.len() as usize, len: items.len() as usize },
        )
    }

    /// The placeholder node for a production that gave up at the current
    /// token.
    pub open spec fn dummy_node(self) -> Node {
        Node::Dummy { span: self.cur().spec_span() }
    }

    /// Fails hard on the current token and stores a placeholder.
    pub open spec fn unexpected_node(self) -> (ParserView, NodeId) {
        self.unexpected().store(self.dummy_node())
    }

    /// Fails hard because the input nests too deeply and stores a
    /// placeholder.
    pub open spec fn too_deep(self) -> (ParserView, NodeId) {
        self.fail(
            Diagnostic { kind: DiagnosticKind::NestingTooDeep, span: self.cur().spec_span() },
        ).store(self.dummy_node())
    }

    /// The same state under another context.
    pub open spec fn with_ctx(self, ctx: Context) -> ParserView {
        ParserView { ctx, ..self }
    }

    /// The same state with other decorators waiting.
    pub open spec fn with_decorators(self, decorators: Seq<NodeId>) -> ParserView {
        ParserView { decorators, ..self }
    }

    /// The part of the state that only ever grows at its end.
    pub open spec fn stored(self) -> Stored {
        Stored { nodes: self.nodes, lists: self.lists, errors: self.errors }
    }

    /// What holds of the state between any two steps: the position lies in
    /// the input, a hard failure has given up the rest of the input, and
    /// [`sound`] holds.
    pub open spec fn wf(self) -> bool {
        &&& 0 <= self.pos <= self.tokens.len()
        &&& self.fatal is Some ==> self.pos == self.tokens.len()
        &&& sound(self.stored(), self.fatal, self.decorators)
    }

    /// What every production keeps: it reads the same tokens in the same
    /// mode, never goes back in them, leaves the context as it found it,
    /// changes no node, list or diagnostic that was there ([`kept`]), and
    /// keeps a hard failure once there is one.
    pub open spec fn extends(self, after: ParserView) -> bool {
        &&& after.tokens == self.tokens
        &&& after.is_ts == self.is_ts
        &&& after.ctx == self.ctx
        &&& self.pos <= after.pos
        &&& self.nodes.len() <= after.nodes.len()
        &&& self.lists.len() <= after.lists.len()
        &&& self.errors.len() <= after.errors.len()
        &&& kept(self.stored(), after.stored())
        &&& self.fatal is Some ==> after.fatal == self.fatal
    }

    /// The state after a tentative scan was given up: the position and the
    /// hard failure are those of the checkpoint, and no diagnostic that was
    /// raised since stays. Nodes that the scan stored stay where they are;
    /// nothing refers to them.
    pub open spec fn rewound(self, checkpoint: Checkpoint) -> ParserView {
        ParserView {
            pos: checkpoint.pos as int,
            prev_end: checkpoint.prev_token_end,
            errors: self.errors.take(checkpoint.errors_len as int),
            fatal: checkpoint.fatal_error,
            ..self
        }
    }

    /// The checkpoint of this state.
    pub open spec fn checkpoint(self) -> Checkpoint {
        Checkpoint {
            pos: self.pos as usize,
            prev_token_end: self.prev_end,
            errors_len: self.errors.len() as usize,
            fatal_error: self.fatal,
        }
    }

    /// The step consumed a token or failed hard.
    pub open spec fn progressed(self, after: ParserView) -> bool {
        after.pos > self.pos || after.fatal is Some
    }
}

} // verus!
