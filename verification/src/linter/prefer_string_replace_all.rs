//! The rule that prefers `String#replaceAll()` over `String#replace()` with a
//! global regular expression.

use vstd::prelude::*;
use vstd::string::{StrSliceExecFns, StringExecFns};
use crate::ast::{Ast, LiteralKind, Node, NodeId, NodeList};
use crate::linter::context::{
    diagnostics_view,
    slice_text,
    LintContext,
    LintDiagnostic,
    LintDiagnosticView,
};
use crate::text::{
    chars_of,
    contains_between,
    last_index_before,
    spec_last_index_before,
    str_equal,
};

verus! {

/// The characters that mean something in a regular expression.
pub open spec fn spec_is_pattern_syntax(c: char) -> bool {
    c == '^' || c == '$' || c == '+' || c == '[' || c == '{' || c == '(' || c == '\\' || c == '.'
        || c == '?' || c == '*' || c == '|'
}

pub fn is_pattern_syntax(c: char) -> (b: bool)
    ensures
        b == spec_is_pattern_syntax(c),
{
    c == '^' || c == '$' || c == '+' || c == '[' || c == '{' || c == '(' || c == '\\' || c == '.'
        || c == '?' || c == '*' || c == '|'
}

/// A pattern is a simple string when none of its characters means something
/// in a regular expression: it then matches exactly its own text.
pub open spec fn spec_is_simple_string(s: Seq<char>) -> bool {
    forall|i: int| 0 <= i < s.len() ==> !spec_is_pattern_syntax(#[trigger] s[i])
}

/// Whether the characters of `chars` between `from` and `to` form a simple
/// string.
pub fn is_simple_chars(chars: &Vec<char>, from: usize, to: usize) -> (simple: bool)
    requires
        from <= to <= chars@.len(),
    ensures
        simple == spec_is_simple_string(chars@.subrange(from as int, to as int)),
{
    let ghost part = chars@.subrange(from as int, to as int);
    let mut i: usize = from;
    while i < to
        invariant
            from <= i <= to <= chars@.len(),
            part == chars@.subrange(from as int, to as int),
            forall|j: int| 0 <= j < i - from ==> !spec_is_pattern_syntax(#[trigger] part[j]),
        decreases to - i,
    {
        if is_pattern_syntax(chars[i]) {
            assert(part[i - from] == chars@[i as int]);
            return false;
        }
        assert(part[i - from] == chars@[i as int]);
        i += 1;
    }
    true
}

/// Executable form of [`spec_is_simple_string`].
pub fn is_simple_string(str: &str) -> (simple: bool)
    ensures
        simple == spec_is_simple_string(str@),
{
    let chars = chars_of(str);
    assert(chars@.subrange(0, chars@.len() as int) =~= str@);
    is_simple_chars(&chars, 0, chars.len())
}

/// The place of the slash that closes the body of a regular expression
/// literal, if `text` is well formed as one: it starts with a slash and has
/// another one.
pub open spec fn spec_closing_slash(text: Seq<char>) -> Option<int> {
    if text.len() >= 2 && text[0] == '/' {
        match spec_last_index_before(text, '/', text.len() as int) {
            Some(j) => if j > 0 {
                Some(j)
            } else {
                None
            },
            None => None,
        }
    } else {
        None
    }
}

/// The pattern of a regular expression literal: what stands between its
/// slashes.
pub open spec fn spec_regex_pattern(text: Seq<char>) -> Option<Seq<char>> {
    match spec_closing_slash(text) {
        Some(j) => Some(text.subrange(1, j)),
        None => None,
    }
}

/// Whether a regular expression literal has the flag `g`.
pub open spec fn spec_regex_is_global(text: Seq<char>) -> bool {
    match spec_closing_slash(text) {
        Some(j) => exists|i: int| j < i < text.len() && text[i] == 'g',
        None => false,
    }
}

/// The characters that are flags of a regular expression.
pub open spec fn spec_is_regex_flag(c: char) -> bool {
    c == 'd' || c == 'g' || c == 'i' || c == 'm' || c == 's' || c == 'u' || c == 'v' || c == 'y'
}

pub fn is_regex_flag(c: char) -> (b: bool)
    ensures
        b == spec_is_regex_flag(c),
{
    c == 'd' || c == 'g' || c == 'i' || c == 'm' || c == 's' || c == 'u' || c == 'v' || c == 'y'
}

/// Whether a string literal, quotes included, spells flags of a regular
/// expression with `g` among them.
pub open spec fn spec_flags_text_is_global(text: Seq<char>) -> bool {
    &&& text.len() >= 2
    &&& forall|i: int| 1 <= i < text.len() - 1 ==> spec_is_regex_flag(#[trigger] text[i])
    &&& exists|i: int| 1 <= i < text.len() - 1 && text[i] == 'g'
}

/// The source text of the node `id`.
pub open spec fn spec_node_text(nodes: Seq<Node>, source: Seq<char>, id: NodeId) -> Option<
    Seq<char>,
> {
    if id < nodes.len() {
        slice_text(source, nodes[id as int].spec_span().start as int, nodes[id as int].spec_span().end as int)
    } else {
        None
    }
}

/// The children that `list` names, or nothing where it does not lie in the
/// table.
pub open spec fn spec_items(lists: Seq<NodeId>, list: NodeList) -> Seq<NodeId> {
    if list.start + list.len <= lists.len() {
        lists.subrange(list.start as int, list.start + list.len)
    } else {
        Seq::empty()
    }
}

/// Whether the expression `id` is a regular expression with the flag `g`: a
/// literal that has it, or `new RegExp(pattern, flags)` whose flags are a
/// string literal that has it.
pub open spec fn spec_is_reg_exp_with_global_flag(
    nodes: Seq<Node>,
    lists: Seq<NodeId>,
    source: Seq<char>,
    id: NodeId,
) -> bool {
    if id >= nodes.len() {
        false
    } else {
        match nodes[id as int] {
            Node::RegExpLiteral { .. } => match spec_node_text(nodes, source, id) {
                Some(text) => spec_regex_is_global(text),
                None => false,
            },
            Node::NewExpression { callee, arguments, .. } => {
                let items = spec_items(lists, arguments);
                &&& callee < nodes.len()
                &&& nodes[callee as int] is IdentifierReference
                &&& spec_node_text(nodes, source, callee) == Some("RegExp"@)
                &&& items.len() > 1
                &&& items[1] < nodes.len()
                &&& nodes[items[1] as int] matches Node::Literal { kind: LiteralKind::Str, .. }
                &&& match spec_node_text(nodes, source, items[1]) {
                    Some(text) => spec_flags_text_is_global(text),
                    None => false,
                }
            },
            _ => false,
        }
    }
}

/// The string that can stand in place of the expression `id`: the pattern of
/// a regular expression literal that has the flag `g` and whose pattern is
/// a simple string.
pub open spec fn spec_pattern_replacement(nodes: Seq<Node>, source: Seq<char>, id: NodeId) -> Option<
    Seq<char>,
> {
    if id < nodes.len() && nodes[id as int] is RegExpLiteral {
        match spec_node_text(nodes, source, id) {
            Some(text) => if spec_regex_is_global(text) && spec_is_simple_string(
                spec_regex_pattern(text)->0,
            ) {
                spec_regex_pattern(text)
            } else {
                None
            },
            None => None,
        }
    } else {
        None
    }
}

/// What the rule reports of the node `id`.
///
/// Only a call of a member `replace` or `replaceAll`, written with a dot,
/// with exactly two arguments of which the first is no spread, is reported.
/// `replaceAll` is reported where its pattern can be a string
/// ([`spec_pattern_replacement`]), `replace` where its pattern is a global
/// regular expression ([`spec_is_reg_exp_with_global_flag`]). The report
/// points at the member's name.
pub open spec fn spec_check(nodes: Seq<Node>, lists: Seq<NodeId>, source: Seq<char>, id: NodeId) -> Option<
    LintDiagnosticView,
> {
    if id >= nodes.len() {
        None
    } else {
        match nodes[id as int] {
            Node::CallExpression { callee, arguments, .. } => {
                if callee >= nodes.len() {
                    None
                } else {
                    match nodes[callee as int] {
                        Node::StaticMemberExpression { property, .. } => {
                            let name = spec_node_text(nodes, source, property);
                            let items = spec_items(lists, arguments);
                            if !(name == Some("replace"@) || name == Some("replaceAll"@)) {
                                None
                            } else if items.len() != 2 {
                                None
                            } else if items[0] >= nodes.len() || nodes[items[0] as int]
                                is SpreadElement {
                                None
                            } else if name == Some("replaceAll"@) {
                                match spec_pattern_replacement(nodes, source, items[0]) {
                                    Some(replacement) => Some(
                                        LintDiagnosticView::StringLiteral {
                                            span: nodes[property as int].spec_span(),
                                            replacement,
                                        },
                                    ),
                                    None => None,
                                }
                            } else if spec_is_reg_exp_with_global_flag(
                                nodes,
                                lists,
                                source,
                                items[0],
                            ) {
                                Some(
                                    LintDiagnosticView::UseReplaceAll {
                                        span: nodes[property as int].spec_span(),
                                    },
                                )
                            } else {
                                None
                            }
                        },
                        _ => None,
                    }
                }
            },
            _ => None,
        }
    }
}

/// The place of the slash that closes the body of a regular expression
/// literal.
pub fn closing_slash(chars: &Vec<char>) -> (found: Option<usize>)
    ensures
        match found {
            Some(j) => spec_closing_slash(chars@) == Some(j as int) && 0 < j < chars@.len(),
            None => spec_closing_slash(chars@) is None,
        },
{
    if chars.len() >= 2 && chars[0] == '/' {
        match last_index_before(chars, '/', chars.len()) {
            Some(j) => if j > 0 {
                Some(j)
            } else {
                None
            },
            None => None,
        }
    } else {
        None
    }
}

/// Executable form of [`spec_flags_text_is_global`].
pub fn flags_text_is_global(text: &str) -> (global: bool)
    ensures
        global == spec_flags_text_is_global(text@),
{
    let chars = chars_of(text);
    if chars.len() < 2 {
        return false;
    }
    let mut i: usize = 1;
    while i < chars.len() - 1
        invariant
            1 <= i <= chars@.len() - 1,
            chars@ == text@,
            forall|j: int| 1 <= j < i ==> spec_is_regex_flag(#[trigger] chars@[j]),
        decreases chars@.len() - i,
    {
        if !is_regex_flag(chars[i]) {
            return false;
        }
        i += 1;
    }
    contains_between(&chars, 'g', 1, chars.len() - 1)
}

/// Executable form of [`spec_is_reg_exp_with_global_flag`].
pub fn is_reg_exp_with_global_flag(ast: &Ast, ctx: &LintContext, expr: NodeId) -> (global: bool)
    ensures
        global == spec_is_reg_exp_with_global_flag(ast.nodes@, ast.lists@, ctx.source@, expr),
{
    match ast.get(expr) {
        Some(Node::RegExpLiteral { span }) => match ctx.text(span) {
            Some(text) => {
                let chars = chars_of(text);
                match closing_slash(&chars) {
                    Some(j) => contains_between(&chars, 'g', j + 1, chars.len()),
                    None => false,
                }
            },
            None => false,
        },
        Some(Node::NewExpression { callee, arguments, .. }) => {
            let is_reg_exp = match ast.get(callee) {
                Some(Node::IdentifierReference { span }) => match ctx.text(span) {
                    Some(name) => str_equal(name, "RegExp"),
                    None => false,
                },
                _ => false,
            };
            if !is_reg_exp {
                return false;
            }
            let items = ast.items(arguments);
            if items.len() <= 1 {
                return false;
            }
            match ast.get(items[1]) {
                Some(Node::Literal { span, kind: LiteralKind::Str }) => match ctx.text(span) {
                    Some(text) => flags_text_is_global(text),
                    None => false,
                },
                _ => false,
            }
        },
        _ => false,
    }
}

/// Executable form of [`spec_pattern_replacement`].
pub fn get_pattern_replacement<'a>(ast: &Ast, ctx: &LintContext<'a>, expr: NodeId) -> (replacement:
    Option<&'a str>)
    ensures
        match replacement {
            Some(r) => spec_pattern_replacement(ast.nodes@, ctx.source@, expr) == Some(r@),
            None => spec_pattern_replacement(ast.nodes@, ctx.source@, expr) is None,
        },
{
    let Some(Node::RegExpLiteral { span }) = ast.get(expr) else {
        return None;
    };
    let Some(text) = ctx.text(span) else {
        return None;
    };
    let chars = chars_of(text);
    let Some(j) = closing_slash(&chars) else {
        return None;
    };
    if !contains_between(&chars, 'g', j + 1, chars.len()) {
        return None;
    }
    if !is_simple_chars(&chars, 1, j) {
        return None;
    }
    Some(text.substring_char(1, j))
}

/// The rule. It keeps no state.
#[derive(Debug, Clone)]
pub struct PreferStringReplaceAll;

impl PreferStringReplaceAll {
    /// Reports what the rule finds at the node `node`: at most one report,
    /// which is [`spec_check`] of the node.
    pub fn run(&self, ast: &Ast, node: NodeId, ctx: &mut LintContext)
        ensures
            final(ctx).source == old(ctx).source,
            diagnostics_view(final(ctx).diagnostics@) == match spec_check(
                ast.nodes@,
                ast.lists@,
                old(ctx).source@,
                node,
            ) {
                Some(report) => diagnostics_view(old(ctx).diagnostics@).push(report),
                None => diagnostics_view(old(ctx).diagnostics@),
            },
    {
        let Some(Node::CallExpression { callee, arguments, .. }) = ast.get(node) else {
            return ;
        };
        let Some(Node::StaticMemberExpression { property, .. }) = ast.get(callee) else {
            return ;
        };
        let Some(name) = ast.get(property) else {
            return ;
        };
        let Some(method_name_str) = ctx.text(name.span()) else {
            return ;
        };
        let is_replace = str_equal(method_name_str, "replace");
        let is_replace_all = str_equal(method_name_str, "replaceAll");
        if !(is_replace || is_replace_all) {
            return ;
        }
        let items = ast.items(arguments);
        if items.len() != 2 {
            return ;
        }
        let pattern = items[0];
        match ast.get(pattern) {
            None => {
                return ;
            },
            Some(Node::SpreadElement { .. }) => {
                return ;
            },
            _ => {},
        }
        proof {
            reveal_strlit("replace");
            reveal_strlit("replaceAll");
        }
        let ghost before = diagnostics_view(ctx.diagnostics@);
        if is_replace_all {
            if let Some(k) = get_pattern_replacement(ast, ctx, pattern) {
                ctx.diagnostic(
                    LintDiagnostic::StringLiteral {
                        span: name.span(),
                        replacement: String::from_str(k),
                    },
                );
                assert(diagnostics_view(ctx.diagnostics@) =~= before.push(
                    ctx.diagnostics@.last()@,
                ));
            }
        } else if is_reg_exp_with_global_flag(ast, ctx, pattern) {
            ctx.diagnostic(LintDiagnostic::UseReplaceAll { span: name.span() });
            assert(diagnostics_view(ctx.diagnostics@) =~= before.push(ctx.diagnostics@.last()@));
        }
    }
}

/// The reports of the rule for the first `n` nodes of a tree, in the order
/// of the nodes.
pub open spec fn spec_check_until(
    nodes: Seq<Node>,
    lists: Seq<NodeId>,
    source: Seq<char>,
    n: nat,
) -> Seq<LintDiagnosticView>
    decreases n,
{
    if n == 0 {
        Seq::empty()
    } else {
        let before = spec_check_until(nodes, lists, source, (n - 1) as nat);
        match spec_check(nodes, lists, source, (n - 1) as NodeId) {
            Some(report) => before.push(report),
            None => before,
        }
    }
}

impl PreferStringReplaceAll {
    /// The name under which a configuration file speaks of the rule.
    pub fn name() -> (name: &'static str)
        ensures
            name@ == "prefer-string-replace-all"@,
    {
        "prefer-string-replace-all"
    }

    /// The plugin that the rule belongs to.
    pub fn plugin_name() -> (name: &'static str)
        ensures
            name@ == "unicorn"@,
    {
        "unicorn"
    }

    /// The category of the rule.
    pub fn category() -> (name: &'static str)
        ensures
            name@ == "pedantic"@,
    {
        "pedantic"
    }

    /// Runs the rule on every node of a tree, in the order in which the
    /// nodes are stored.
    pub fn run_on_tree(&self, ast: &Ast, ctx: &mut LintContext)
        ensures
            final(ctx).source == old(ctx).source,
            diagnostics_view(final(ctx).diagnostics@) == diagnostics_view(old(ctx).diagnostics@)
                + spec_check_until(
                ast.nodes@,
                ast.lists@,
                old(ctx).source@,
                ast.nodes@.len(),
            ),
    {
        let mut id: usize = 0;
        let ghost before = diagnostics_view(ctx.diagnostics@);
        assert(before + Seq::<LintDiagnosticView>::empty() =~= before);
        while id < ast.len()
            invariant
                id <= ast.nodes@.len(),
                ctx.source == old(ctx).source,
                before == diagnostics_view(old(ctx).diagnostics@),
                diagnostics_view(ctx.diagnostics@) == before + spec_check_until(
                    ast.nodes@,
                    ast.lists@,
                    old(ctx).source@,
                    id as nat,
                ),
            decreases ast.nodes@.len() - id,
        {
            let ghost so_far = spec_check_until(ast.nodes@, ast.lists@, old(ctx).source@, id as nat);
            self.run(ast, id, ctx);
            id += 1;
            proof {
                match spec_check(ast.nodes@, ast.lists@, old(ctx).source@, (id - 1) as NodeId) {
                    Some(report) => {
                        assert((before + so_far).push(report) =~= before + so_far.push(report));
                    },
                    None => {},
                }
            }
        }
    }
}

impl Default for PreferStringReplaceAll {
    fn default() -> (rule: PreferStringReplaceAll)
        ensures
            rule == PreferStringReplaceAll,
    {
        PreferStringReplaceAll
    }
}

} // verus!
