//! Tokens, as the token source hands them to the grammar engine.

use vstd::prelude::*;

verus! {

/// The kind of a token.
#[derive(Clone, Copy, Debug, PartialEq, Eq, Structural)]
pub enum Kind {
    /// End of input.
    Eof,
    /// A byte sequence that starts no token.
    Undetermined,
    /// An identifier that is no keyword of any sort.
    Ident,
    // Reserved words.
    Await,
    Class,
    Const,
    Default,
    Else,
    Export,
    False,
    Function,
    If,
    New,
    Null,
    Return,
    This,
    True,
    Var,
    Void,
    Yield,
    // Words that are keywords only in some positions.
    Abstract,
    Async,
    Declare,
    Let,
    Override,
    Private,
    Protected,
    Public,
    Readonly,
    Static,
    // Punctuators.
    LParen,
    RParen,
    LCurly,
    RCurly,
    LBrack,
    RBrack,
    LAngle,
    RAngle,
    Semicolon,
    Comma,
    Colon,
    Dot,
    Dot3,
    Question,
    Eq,
    Star,
    Slash,
    At,
    // Literals.
    Number,
    Str,
    RegExp,
}

impl Kind {
    /// Words that can never name a binding, `await` and `yield` included:
    /// whether those two are legal depends on the context.
    pub open spec fn spec_is_reserved_keyword(self) -> bool {
        matches!(
            self,
            Kind::Await | Kind::Class | Kind::Const | Kind::Default | Kind::Else | Kind::Export
                | Kind::False | Kind::Function | Kind::If | Kind::New | Kind::Null | Kind::Return
                | Kind::This | Kind::True | Kind::Var | Kind::Void | Kind::Yield
        )
    }

    /// Words that are identifiers wherever the grammar does not read them as
    /// a keyword.
    pub open spec fn spec_is_contextual_keyword(self) -> bool {
        matches!(
            self,
            Kind::Abstract | Kind::Async | Kind::Declare | Kind::Let | Kind::Override
                | Kind::Private | Kind::Protected | Kind::Public | Kind::Readonly | Kind::Static
        )
    }

    /// Anything spelled like an identifier.
    pub open spec fn spec_is_identifier_name(self) -> bool {
        self == Kind::Ident || self.spec_is_reserved_keyword()
            || self.spec_is_contextual_keyword()
    }

    /// A token that may name a binding. `await` and `yield` qualify here and
    /// are judged against the context afterwards.
    pub open spec fn spec_is_binding_identifier(self) -> bool {
        self == Kind::Ident || self.spec_is_contextual_keyword() || self == Kind::Await || self
            == Kind::Yield
    }

    /// Words that stand before a declaration or a parameter in TypeScript.
    pub open spec fn spec_is_modifier_kind(self) -> bool {
        matches!(
            self,
            Kind::Abstract | Kind::Async | Kind::Declare | Kind::Override | Kind::Private
                | Kind::Protected | Kind::Public | Kind::Readonly | Kind::Static
        )
    }

    /// Tokens after which a `yield` has no argument.
    pub open spec fn spec_ends_yield(self) -> bool {
        matches!(
            self,
            Kind::Semicolon | Kind::Eof | Kind::RCurly | Kind::RParen | Kind::RBrack | Kind::Colon
                | Kind::Comma
        )
    }

    /// Tokens that, on the line of a `yield` that the context does not make
    /// an operator, show that an operand follows and the word was meant as
    /// one.
    pub open spec fn spec_starts_operand(self) -> bool {
        self == Kind::Ident || self.spec_is_contextual_keyword() || matches!(
            self,
            Kind::Number | Kind::Str | Kind::RegExp | Kind::True | Kind::False | Kind::Null
                | Kind::This | Kind::Function | Kind::New | Kind::Yield | Kind::Await
        )
    }

    pub fn starts_operand(self) -> (b: bool)
        ensures
            b == self.spec_starts_operand(),
    {
        self == Kind::Ident || self.is_contextual_keyword() || matches!(
            self,
            Kind::Number | Kind::Str | Kind::RegExp | Kind::True | Kind::False | Kind::Null
                | Kind::This | Kind::Function | Kind::New | Kind::Yield | Kind::Await
        )
    }

    pub fn is_reserved_keyword(self) -> (b: bool)
        ensures
            b == self.spec_is_reserved_keyword(),
    {
        matches!(
            self,
            Kind::Await | Kind::Class | Kind::Const | Kind::Default | Kind::Else | Kind::Export
                | Kind::False | Kind::Function | Kind::If | Kind::New | Kind::Null | Kind::Return
                | Kind::This | Kind::True | Kind::Var | Kind::Void | Kind::Yield
        )
    }

    pub fn is_contextual_keyword(self) -> (b: bool)
        ensures
            b == self.spec_is_contextual_keyword(),
    {
        matches!(
            self,
            Kind::Abstract | Kind::Async | Kind::Declare | Kind::Let | Kind::Override
                | Kind::Private | Kind::Protected | Kind::Public | Kind::Readonly | Kind::Static
        )
    }

    pub fn is_identifier_name(self) -> (b: bool)
        ensures
            b == self.spec_is_identifier_name(),
    {
        self == Kind::Ident || self.is_reserved_keyword() || self.is_contextual_keyword()
    }

    pub fn is_binding_identifier(self) -> (b: bool)
        ensures
            b == self.spec_is_binding_identifier(),
    {
        self == Kind::Ident || self.is_contextual_keyword() || self == Kind::Await || self
            == Kind::Yield
    }

    pub fn is_modifier_kind(self) -> (b: bool)
        ensures
            b == self.spec_is_modifier_kind(),
    {
        matches!(
            self,
            Kind::Abstract | Kind::Async | Kind::Declare | Kind::Override | Kind::Private
                | Kind::Protected | Kind::Public | Kind::Readonly | Kind::Static
        )
    }

    pub fn ends_yield(self) -> (b: bool)
        ensures
            b == self.spec_ends_yield(),
    {
        matches!(
            self,
            Kind::Semicolon | Kind::Eof | Kind::RCurly | Kind::RParen | Kind::RBrack | Kind::Colon
                | Kind::Comma
        )
    }
}

/// One token: its kind, the bytes it covers, and whether a line break
/// separates it from the token before it.
#[derive(Clone, Copy, Debug, PartialEq, Eq, Structural)]
pub struct Token {
    pub kind: Kind,
    pub start: u32,
    pub end: u32,
    pub is_on_new_line: bool,
}

impl Token {
    pub open spec fn spec_span(self) -> crate::span::Span {
        crate::span::Span::spec_closing(self.start, self.end)
    }

    pub fn new(kind: Kind, start: u32, end: u32, is_on_new_line: bool) -> (t: Token)
        ensures
            t == (Token { kind, start, end, is_on_new_line }),
    {
        Token { kind, start, end, is_on_new_line }
    }

    pub fn kind(self) -> (k: Kind)
        ensures
            k == self.kind,
    {
        self.kind
    }

    /// The bytes the token covers, as a valid span.
    pub fn span(self) -> (s: crate::span::Span)
        ensures
            s == self.spec_span(),
            s.wf(),
    {
        crate::span::Span::closing(self.start, self.end)
    }

    pub fn is_on_new_line(self) -> (b: bool)
        ensures
            b == self.is_on_new_line,
    {
        self.is_on_new_line
    }
}

} // verus!
