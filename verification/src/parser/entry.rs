//! A whole parse, from tokens or from source text to the tree and its
//! diagnostics.

use vstd::prelude::*;
use vstd::string::StringSliceAdditionalSpecFns;
use crate::ast::{Ast, NodeId};
use crate::context::Context;
use crate::diagnostics::Diagnostic;
use crate::lexer::{spec_tokenize, tokenize};
use crate::parser::cursor::{ParserImpl, DEFAULT_DEPTH};
use crate::parser::grammar::s_program;
use crate::parser::model::{sound, ParserView};
use crate::token::Token;

verus! {

/// What a parse gives back.
pub struct ParserReturn {
    /// The tree. It is well formed whatever the input was.
    pub ast: Ast,
    /// The root of the tree, a `Program` node.
    pub program: NodeId,
    /// Every diagnostic that was raised, in the order in which it was
    /// raised; a hard failure is the last of them.
    pub errors: Vec<Diagnostic>,
    /// Whether a hard failure ended the parse before the end of the input.
    pub panicked: bool,
}

/// The state in which a parse of `tokens` starts.
pub open spec fn spec_start(tokens: Seq<Token>, is_ts: bool) -> ParserView {
    ParserView {
        tokens,
        is_ts,
        pos: 0,
        prev_end: 0,
        ctx: Context::spec_initial(),
        nodes: Seq::empty(),
        lists: Seq::empty(),
        errors: Seq::empty(),
        fatal: None,
        decorators: Seq::empty(),
    }
}

/// The diagnostics of a finished parse: the recoverable ones, then the hard
/// failure if there was one.
pub open spec fn spec_all_errors(m: ParserView) -> Seq<Diagnostic> {
    match m.fatal {
        Some(f) => m.errors.push(f),
        None => m.errors,
    }
}

/// What [`parse_tokens`] returns for `tokens`.
pub open spec fn spec_parse_result(ret: ParserReturn, tokens: Seq<Token>, is_ts: bool) -> bool {
    let (m, program) = s_program(spec_start(tokens, is_ts), DEFAULT_DEPTH as nat);
    &&& ret.ast.nodes@ == m.nodes
    &&& ret.ast.lists@ == m.lists
    &&& ret.program == program
    &&& ret.errors@ == spec_all_errors(m)
    &&& ret.panicked == (m.fatal is Some)
}

/// Parses a program from its tokens. A tree comes back for every input.
pub fn parse_tokens(tokens: Vec<Token>, is_ts: bool) -> (ret: ParserReturn)
    ensures
        spec_parse_result(ret, tokens@, is_ts),
        ret.ast.wf(),
        ret.program < ret.ast.nodes@.len(),
        ret.ast.nodes@[ret.program as int] is Program,
        forall|i: int| 0 <= i < ret.errors@.len() ==> (#[trigger] ret.errors@[i]).span.wf(),
        ret.panicked ==> ret.errors@.len() > 0 && ret.errors@.last().kind.spec_is_fatal(),
{
    let mut parser = ParserImpl::new(tokens, is_ts);
    let program = parser.parse_program();
    proof {
        reveal(sound);
    }
    let ParserImpl { ast, errors, fatal_error, .. } = parser;
    let mut errors = errors;
    let panicked = fatal_error.is_some();
    if let Some(fatal) = fatal_error {
        errors.push(fatal);
    }
    ParserReturn { ast, program, errors, panicked }
}

/// Parses a program from its source text: cuts it into tokens, then parses
/// those. Gives nothing for a text too long for its offsets to fit a span.
pub fn parse(source: &str, is_ts: bool) -> (ret: Option<ParserReturn>)
    ensures
        ret is Some <==> source.spec_bytes().len() <= u32::MAX,
        ret matches Some(r) ==> spec_parse_result(r, spec_tokenize(source.spec_bytes()), is_ts)
            && r.ast.wf() && r.program < r.ast.nodes@.len(),
{
    let bytes = source.as_bytes();
    if bytes.len() > u32::MAX as usize {
        return None;
    }
    let tokens = tokenize(bytes);
    Some(parse_tokens(tokens, is_ts))
}

} // verus!
