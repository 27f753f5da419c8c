//! Diagnostics: what the grammar engine reports while it goes on parsing.

use vstd::prelude::*;
use vstd::string::StringExecFns;
use crate::span::Span;
use crate::token::Kind;
use crate::modifiers::{Modifier, ModifierFlags, ModifierKind};

verus! {

/// What a diagnostic is about.
#[derive(Clone, Copy, Debug, PartialEq, Eq, Structural)]
pub enum DiagnosticKind {
    /// A token that no production accepts at its place. Ends the parse.
    UnexpectedToken,
    /// One token was required and another was found. Ends the parse.
    ExpectToken { expected: Kind, found: Kind },
    /// The input nests deeper than the engine follows. Ends the parse.
    NestingTooDeep,
    /// A statement is followed by something that cannot end it. Ends the
    /// parse.
    AutoSemicolonInsertion,
    /// A function declaration without a name, directly before `(`.
    ExpectFunctionName,
    /// `yield` where the context does not allow it.
    YieldExpression,
    /// `await` used as a name where it is an operator.
    IdentifierAsync,
    /// `yield` used as a name where it is an operator.
    IdentifierGenerator,
    /// A rest parameter that is not the last parameter.
    RestParameterLast,
    /// A comma between a rest parameter and the closing parenthesis.
    RestElementTrailingComma,
    /// An async function declaration as the unbraced body of a statement.
    AsyncFunctionDeclaration,
    /// A generator declaration as the unbraced body of a statement.
    GeneratorFunctionDeclaration,
    /// A modifier that a function does not permit.
    ModifierCannotBeUsedHere { modifier: ModifierKind },
    /// A modifier that a parameter does not permit.
    CannotAppearOnAParameter { modifier: ModifierKind },
    /// `return` outside of a function body.
    ReturnOutsideFunction,
}

/// How grave a diagnostic is.
#[derive(Clone, Copy, Debug, PartialEq, Eq, Structural)]
pub enum Severity {
    Error,
    Warning,
}

/// One report: what it is about and the source range it points at.
#[derive(Clone, Copy, Debug, PartialEq, Eq, Structural)]
pub struct Diagnostic {
    pub kind: DiagnosticKind,
    pub span: Span,
}

/// The position whose permitted modifiers a list is checked against.
#[derive(Clone, Copy, Debug, PartialEq, Eq, Structural)]
pub enum ModifierPosition {
    Function,
    Parameter,
}

impl ModifierPosition {
    /// The modifiers that the position permits.
    pub open spec fn spec_allowed(self) -> ModifierFlags {
        match self {
            ModifierPosition::Function => ModifierFlags::spec_function_mask(),
            ModifierPosition::Parameter => ModifierFlags::spec_parameter_mask(),
        }
    }

    /// The report for a modifier that the position does not permit.
    pub open spec fn spec_diagnose(self, modifier: Modifier) -> Diagnostic {
        match self {
            ModifierPosition::Function => modifier_cannot_be_used_here(modifier),
            ModifierPosition::Parameter => cannot_appear_on_a_parameter(modifier),
        }
    }

    pub fn allowed(self) -> (f: ModifierFlags)
        ensures
            f == self.spec_allowed(),
    {
        match self {
            ModifierPosition::Function => ModifierFlags::function_mask(),
            ModifierPosition::Parameter => ModifierFlags::parameter_mask(),
        }
    }

    pub fn diagnose(self, modifier: Modifier) -> (d: Diagnostic)
        ensures
            d == self.spec_diagnose(modifier),
    {
        match self {
            ModifierPosition::Function => Diagnostic {
                kind: DiagnosticKind::ModifierCannotBeUsedHere { modifier: modifier.kind },
                span: modifier.span,
            },
            ModifierPosition::Parameter => Diagnostic {
                kind: DiagnosticKind::CannotAppearOnAParameter { modifier: modifier.kind },
                span: modifier.span,
            },
        }
    }
}

pub open spec fn modifier_cannot_be_used_here(modifier: Modifier) -> Diagnostic {
    Diagnostic {
        kind: DiagnosticKind::ModifierCannotBeUsedHere { modifier: modifier.kind },
        span: modifier.span,
    }
}

pub open spec fn cannot_appear_on_a_parameter(modifier: Modifier) -> Diagnostic {
    Diagnostic {
        kind: DiagnosticKind::CannotAppearOnAParameter { modifier: modifier.kind },
        span: modifier.span,
    }
}

/// The reports for the modifiers of `list` that `position` does not permit,
/// one for each, in the order of the list.
pub open spec fn spec_modifier_errors(list: Seq<Modifier>, position: ModifierPosition) -> Seq<
    Diagnostic,
>
    decreases list.len(),
{
    if list.len() == 0 {
        Seq::empty()
    } else {
        let before = spec_modifier_errors(list.drop_last(), position);
        if position.spec_allowed().spec_contains(list.last().kind) {
            before
        } else {
            before.push(position.spec_diagnose(list.last()))
        }
    }
}

/// A position reports exactly the modifiers that it does not permit: there is
/// no report at all exactly if every modifier of the list is permitted, never
/// more reports than modifiers, and every report is the one for a modifier
/// of the list that is not permitted.
pub proof fn lemma_modifier_errors(list: Seq<Modifier>, position: ModifierPosition)
    ensures
        spec_modifier_errors(list, position).len() <= list.len(),
        spec_modifier_errors(list, position).len() == 0 <==> forall|i: int|
            0 <= i < list.len() ==> position.spec_allowed().spec_contains(
                (#[trigger] list[i]).kind,
            ),
        forall|k: int|
            0 <= k < spec_modifier_errors(list, position).len() ==> exists|i: int|
                0 <= i < list.len() && !position.spec_allowed().spec_contains(list[i].kind)
                    && #[trigger] spec_modifier_errors(list, position)[k]
                    == position.spec_diagnose(#[trigger] list[i]),
        forall|k: int|
            0 <= k < spec_modifier_errors(list, position).len() ==> !(
            #[trigger] spec_modifier_errors(list, position)[k]).kind.spec_is_fatal(),
    decreases list.len(),
{
    if list.len() > 0 {
        let head = list.drop_last();
        lemma_modifier_errors(head, position);
        let before = spec_modifier_errors(head, position);
        let all = spec_modifier_errors(list, position);
        assert forall|i: int| 0 <= i < head.len() implies head[i] == list[i] by {}
        if position.spec_allowed().spec_contains(list.last().kind) {
            assert(all == before);
            if before.len() == 0 {
                assert forall|i: int| 0 <= i < list.len() implies position.spec_allowed().spec_contains(
                    (#[trigger] list[i]).kind,
                ) by {
                    if i < head.len() {
                        assert(head[i] == list[i]);
                    }
                }
            } else {
                let i = choose|i: int|
                    0 <= i < head.len() && !position.spec_allowed().spec_contains(
                        (#[trigger] head[i]).kind,
                    );
                assert(list[i] == head[i]);
            }
            assert forall|k: int| 0 <= k < all.len() implies exists|i: int|
                0 <= i < list.len() && !position.spec_allowed().spec_contains(list[i].kind)
                    && #[trigger] all[k] == position.spec_diagnose(#[trigger] list[i]) by {
                let i = choose|i: int|
                    0 <= i < head.len() && !position.spec_allowed().spec_contains(head[i].kind)
                        && #[trigger] before[k] == position.spec_diagnose(#[trigger] head[i]);
                assert(list[i] == head[i]);
            }
        } else {
            assert(all == before.push(position.spec_diagnose(list.last())));
            assert(!position.spec_allowed().spec_contains(list[list.len() - 1].kind));
            assert forall|k: int| 0 <= k < all.len() implies exists|i: int|
                0 <= i < list.len() && !position.spec_allowed().spec_contains(list[i].kind)
                    && #[trigger] all[k] == position.spec_diagnose(#[trigger] list[i]) by {
                if k < before.len() {
                    let i = choose|i: int|
                        0 <= i < head.len() && !position.spec_allowed().spec_contains(
                            head[i].kind,
                        ) && #[trigger] before[k] == position.spec_diagnose(#[trigger] head[i]);
                    assert(list[i] == head[i]);
                    assert(all[k] == before[k]);
                } else {
                    assert(all[k] == position.spec_diagnose(list[list.len() - 1]));
                }
            }
        }
    }
}

impl DiagnosticKind {
    /// Whether a diagnostic of this kind ends the parse.
    pub open spec fn spec_is_fatal(self) -> bool {
        self is UnexpectedToken || self is ExpectToken || self is NestingTooDeep
            || self is AutoSemicolonInsertion
    }

    pub fn is_fatal(self) -> (b: bool)
        ensures
            b == self.spec_is_fatal(),
    {
        match self {
            DiagnosticKind::UnexpectedToken => true,
            DiagnosticKind::ExpectToken { .. } => true,
            DiagnosticKind::NestingTooDeep => true,
            DiagnosticKind::AutoSemicolonInsertion => true,
            _ => false,
        }
    }

    /// The message of a diagnostic of this kind.
    pub open spec fn spec_message(self) -> Seq<char> {
        match self {
            DiagnosticKind::UnexpectedToken => "Unexpected token"@,
            DiagnosticKind::ExpectToken { .. } => "Expected another token here"@,
            DiagnosticKind::NestingTooDeep => "The input is nested too deeply"@,
            DiagnosticKind::AutoSemicolonInsertion =>
            "Expected a semicolon or an implicit semicolon after a statement, but found none"@,
            DiagnosticKind::ExpectFunctionName => "Expected function name"@,
            DiagnosticKind::YieldExpression =>
            "A 'yield' expression is only allowed in a generator body."@,
            DiagnosticKind::IdentifierAsync =>
            "Cannot use `await` as an identifier in an async context"@,
            DiagnosticKind::IdentifierGenerator =>
            "Cannot use `yield` as an identifier in a generator context"@,
            DiagnosticKind::RestParameterLast =>
            "A rest parameter must be last in a parameter list"@,
            DiagnosticKind::RestElementTrailingComma =>
            "A rest parameter or binding pattern may not have a trailing comma."@,
            DiagnosticKind::AsyncFunctionDeclaration =>
            "Async functions can only be declared at the top level or inside a block"@,
            DiagnosticKind::GeneratorFunctionDeclaration =>
            "Generators can only be declared at the top level or inside a block"@,
            DiagnosticKind::ModifierCannotBeUsedHere { .. } => "Modifier cannot be used here."@,
            DiagnosticKind::CannotAppearOnAParameter { .. } =>
            "Modifier cannot appear on a parameter."@,
            DiagnosticKind::ReturnOutsideFunction =>
            "TS1108: A 'return' statement can only be used within a function body."@,
        }
    }

    pub fn message(self) -> (s: String)
        ensures
            s@ == self.spec_message(),
    {
        match self {
            DiagnosticKind::UnexpectedToken => String::from_str("Unexpected token"),
            DiagnosticKind::ExpectToken { .. } => String::from_str("Expected another token here"),
            DiagnosticKind::NestingTooDeep => String::from_str("The input is nested too deeply"),
            DiagnosticKind::AutoSemicolonInsertion => String::from_str(
                "Expected a semicolon or an implicit semicolon after a statement, but found none",
            ),
            DiagnosticKind::ExpectFunctionName => String::from_str("Expected function name"),
            DiagnosticKind::YieldExpression => String::from_str(
                "A 'yield' expression is only allowed in a generator body.",
            ),
            DiagnosticKind::IdentifierAsync => String::from_str(
                "Cannot use `await` as an identifier in an async context",
            ),
            DiagnosticKind::IdentifierGenerator => String::from_str(
                "Cannot use `yield` as an identifier in a generator context",
            ),
            DiagnosticKind::RestParameterLast => String::from_str(
                "A rest parameter must be last in a parameter list",
            ),
            DiagnosticKind::RestElementTrailingComma => String::from_str(
                "A rest parameter or binding pattern may not have a trailing comma.",
            ),
            DiagnosticKind::AsyncFunctionDeclaration => String::from_str(
                "Async functions can only be declared at the top level or inside a block",
            ),
            DiagnosticKind::GeneratorFunctionDeclaration => String::from_str(
                "Generators can only be declared at the top level or inside a block",
            ),
            DiagnosticKind::ModifierCannotBeUsedHere { .. } => String::from_str(
                "Modifier cannot be used here.",
            ),
            DiagnosticKind::CannotAppearOnAParameter { .. } => String::from_str(
                "Modifier cannot appear on a parameter.",
            ),
            DiagnosticKind::ReturnOutsideFunction => String::from_str(
                "TS1108: A 'return' statement can only be used within a function body.",
            ),
        }
    }
}

impl Diagnostic {
    pub fn new(kind: DiagnosticKind, span: Span) -> (d: Diagnostic)
        ensures
            d == (Diagnostic { kind, span }),
    {
        Diagnostic { kind, span }
    }

    /// Every diagnostic of the grammar engine is an error.
    pub fn severity(self) -> (s: Severity)
        ensures
            s == Severity::Error,
    {
        Severity::Error
    }

    pub fn message(self) -> (s: String)
        ensures
            s@ == self.kind.spec_message(),
    {
        self.kind.message()
    }
}

} // verus!
