//! What a rule is given when it runs: the source text, and the place where
//! its reports go.

use vstd::prelude::*;
use vstd::string::StringExecFns;
use vstd::utf8::{decode_utf8, encode_utf8, is_char_boundary};
use crate::span::Span;

verus! {

/// The part of a text between two byte offsets of its UTF-8 form; nothing
/// where an offset lies outside of the text or inside a character.
pub open spec fn slice_text(text: Seq<char>, start: int, end: int) -> Option<Seq<char>> {
    let bytes = encode_utf8(text);
    if 0 <= start <= end <= bytes.len() && is_char_boundary(bytes, start) && is_char_boundary(
        bytes,
        end,
    ) {
        Some(decode_utf8(bytes.subrange(start, end)))
    } else {
        None
    }
}

/// `str::get` with a range of byte offsets: the part of the text between
/// them, nothing where indexing with the range would panic.
#[verifier::external_body]
pub(crate) fn str_slice<'a>(text: &'a str, start: usize, end: usize) -> (r: Option<&'a str>)
    ensures
        match r {
            Some(part) => slice_text(text@, start as int, end as int) == Some(part@),
            None => slice_text(text@, start as int, end as int) is None,
        },
{
    text.get(start..end)
}

/// What a rule reports.
#[derive(Debug)]
pub enum LintDiagnostic {
    /// A regular expression that matches only its own text, where a string
    /// would do.
    StringLiteral { span: Span, replacement: String },
    /// `replace` with a global regular expression, where `replaceAll` says
    /// the same.
    UseReplaceAll { span: Span },
}

/// A [`LintDiagnostic`] with its text as a sequence of characters.
pub enum LintDiagnosticView {
    StringLiteral { span: Span, replacement: Seq<char> },
    UseReplaceAll { span: Span },
}

impl View for LintDiagnostic {
    type V = LintDiagnosticView;

    open spec fn view(&self) -> LintDiagnosticView {
        match self {
            LintDiagnostic::StringLiteral { span, replacement } => LintDiagnosticView::StringLiteral {
                span: *span,
                replacement: replacement@,
            },
            LintDiagnostic::UseReplaceAll { span } => LintDiagnosticView::UseReplaceAll {
                span: *span,
            },
        }
    }
}

impl LintDiagnostic {
    /// The place that the report points at.
    pub fn span(&self) -> (span: Span)
        ensures
            span == match self@ {
                LintDiagnosticView::StringLiteral { span, .. } => span,
                LintDiagnosticView::UseReplaceAll { span } => span,
            },
    {
        match self {
            LintDiagnostic::StringLiteral { span, .. } => *span,
            LintDiagnostic::UseReplaceAll { span } => *span,
        }
    }

    /// The report written out for a reader.
    pub fn message(&self) -> (text: String)
        ensures
            text@ == match self@ {
                LintDiagnosticView::StringLiteral { replacement, .. } =>
                "eslint-plugin-unicorn(prefer-string-replace-all): This pattern can be replaced with `"@
                    + replacement + "`."@,
                LintDiagnosticView::UseReplaceAll { .. } =>
                "eslint-plugin-unicorn(prefer-string-replace-all): Prefer `String#replaceAll()` over `String#replace()` when using a regex with the global flag."@,
            },
    {
        match self {
            LintDiagnostic::StringLiteral { replacement, .. } => String::from_str(
                "eslint-plugin-unicorn(prefer-string-replace-all): This pattern can be replaced with `",
            ).concat(replacement.as_str()).concat("`."),
            LintDiagnostic::UseReplaceAll { .. } => String::from_str(
                "eslint-plugin-unicorn(prefer-string-replace-all): Prefer `String#replaceAll()` over `String#replace()` when using a regex with the global flag.",
            ),
        }
    }
}

/// The views of a list of reports.
pub open spec fn diagnostics_view(list: Seq<LintDiagnostic>) -> Seq<LintDiagnosticView> {
    Seq::new(list.len(), |i: int| list[i]@)
}

/// The source text of a lint run and the reports of its rules.
pub struct LintContext<'a> {
    pub source: &'a str,
    pub diagnostics: Vec<LintDiagnostic>,
}

impl<'a> LintContext<'a> {
    pub fn new(source: &'a str) -> (ctx: LintContext<'a>)
        ensures
            ctx.source@ == source@,
            ctx.diagnostics@.len() == 0,
    {
        LintContext { source, diagnostics: Vec::new() }
    }

    /// The source text that a span covers.
    pub open spec fn spec_text(&self, span: Span) -> Option<Seq<char>> {
        slice_text(self.source@, span.start as int, span.end as int)
    }

    pub fn text(&self, span: Span) -> (part: Option<&'a str>)
        ensures
            match part {
                Some(p) => self.spec_text(span) == Some(p@),
                None => self.spec_text(span) is None,
            },
    {
        str_slice(self.source, span.start as usize, span.end as usize)
    }

    /// Adds a report.
    pub fn diagnostic(&mut self, diagnostic: LintDiagnostic)
        ensures
            final(self).source == old(self).source,
            final(self).diagnostics@ == old(self).diagnostics@.push(diagnostic),
    {
        self.diagnostics.push(diagnostic);
    }
}

} // verus!
