//! The token source: cuts the bytes of a source text into tokens.
//!
//! Every byte lands in a token or between two tokens, so that no input is
//! refused: a byte that starts nothing, a string without its closing quote
//! and a regular expression without its closing slash become tokens of kind
//! [`Kind::Undetermined`], which no production accepts.

use vstd::prelude::*;
use crate::text::chars_of;
use crate::token::{Kind, Token};

verus! {

pub open spec fn spec_is_line_break(b: u8) -> bool {
    b == 10 || b == 13
}

pub open spec fn spec_is_space(b: u8) -> bool {
    b == 32 || b == 9 || b == 11 || b == 12 || spec_is_line_break(b)
}

pub open spec fn spec_is_digit(b: u8) -> bool {
    48 <= b <= 57
}

/// Letters, `_`, `$`, and every byte of a character outside ASCII.
pub open spec fn spec_is_ident_start(b: u8) -> bool {
    (65 <= b <= 90) || (97 <= b <= 122) || b == 95 || b == 36 || b >= 128
}

pub open spec fn spec_is_ident_part(b: u8) -> bool {
    spec_is_ident_start(b) || spec_is_digit(b)
}

pub fn is_line_break(b: u8) -> (r: bool)
    ensures
        r == spec_is_line_break(b),
{
    b == 10 || b == 13
}

pub fn is_space(b: u8) -> (r: bool)
    ensures
        r == spec_is_space(b),
{
    b == 32 || b == 9 || b == 11 || b == 12 || b == 10 || b == 13
}

pub fn is_digit(b: u8) -> (r: bool)
    ensures
        r == spec_is_digit(b),
{
    48 <= b && b <= 57
}

pub fn is_ident_start(b: u8) -> (r: bool)
    ensures
        r == spec_is_ident_start(b),
{
    (65 <= b && b <= 90) || (97 <= b && b <= 122) || b == 95 || b == 36 || b >= 128
}

pub fn is_ident_part(b: u8) -> (r: bool)
    ensures
        r == spec_is_ident_part(b),
{
    is_ident_start(b) || is_digit(b)
}

/// The bytes of a word of ASCII characters.
pub open spec fn bytes_of(word: Seq<char>) -> Seq<u8> {
    Seq::new(word.len(), |i: int| word[i] as u8)
}

/// The kind of the word `text`: a keyword where it spells one, else an
/// identifier.
pub open spec fn spec_word_kind(text: Seq<u8>) -> Kind {
    if text == bytes_of("await"@) {
        Kind::Await
    } else if text == bytes_of("class"@) {
        Kind::Class
    } else if text == bytes_of("const"@) {
        Kind::Const
    } else if text == bytes_of("default"@) {
        Kind::Default
    } else if text == bytes_of("else"@) {
        Kind::Else
    } else if text == bytes_of("export"@) {
        Kind::Export
    } else if text == bytes_of("false"@) {
        Kind::False
    } else if text == bytes_of("function"@) {
        Kind::Function
    } else if text == bytes_of("if"@) {
        Kind::If
    } else if text == bytes_of("new"@) {
        Kind::New
    } else if text == bytes_of("null"@) {
        Kind::Null
    } else if text == bytes_of("return"@) {
        Kind::Return
    } else if text == bytes_of("this"@) {
        Kind::This
    } else if text == bytes_of("true"@) {
        Kind::True
    } else if text == bytes_of("var"@) {
        Kind::Var
    } else if text == bytes_of("void"@) {
        Kind::Void
    } else if text == bytes_of("yield"@) {
        Kind::Yield
    } else if text == bytes_of("abstract"@) {
        Kind::Abstract
    } else if text == bytes_of("async"@) {
        Kind::Async
    } else if text == bytes_of("declare"@) {
        Kind::Declare
    } else if text == bytes_of("let"@) {
        Kind::Let
    } else if text == bytes_of("override"@) {
        Kind::Override
    } else if text == bytes_of("private"@) {
        Kind::Private
    } else if text == bytes_of("protected"@) {
        Kind::Protected
    } else if text == bytes_of("public"@) {
        Kind::Public
    } else if text == bytes_of("readonly"@) {
        Kind::Readonly
    } else if text == bytes_of("static"@) {
        Kind::Static
    } else {
        Kind::Ident
    }
}

/// After a token of kind `prev`, `/` starts a regular expression; after any
/// other it divides.
pub open spec fn spec_regex_allowed(prev: Kind) -> bool {
    !(prev == Kind::Ident || prev.spec_is_contextual_keyword() || matches!(
        prev,
        Kind::Number | Kind::Str | Kind::RegExp | Kind::RParen | Kind::RBrack | Kind::RCurly
            | Kind::This | Kind::True | Kind::False | Kind::Null
    ))
}

pub fn regex_allowed(prev: Kind) -> (r: bool)
    ensures
        r == spec_regex_allowed(prev),
{
    !(prev == Kind::Ident || prev.is_contextual_keyword() || matches!(
        prev,
        Kind::Number | Kind::Str | Kind::RegExp | Kind::RParen | Kind::RBrack | Kind::RCurly
            | Kind::This | Kind::True | Kind::False | Kind::Null
    ))
}

/// The first place at or after `pos` whose byte is no part of a word.
pub open spec fn spec_scan_word(src: Seq<u8>, pos: int) -> int
    decreases src.len() - pos,
{
    if 0 <= pos < src.len() && spec_is_ident_part(src[pos]) {
        spec_scan_word(src, pos + 1)
    } else {
        pos
    }
}

/// The first place at or after `pos` whose byte is no part of a number:
/// digits, letters, `_` and `.` are.
pub open spec fn spec_scan_number(src: Seq<u8>, pos: int) -> int
    decreases src.len() - pos,
{
    if 0 <= pos < src.len() && (spec_is_ident_part(src[pos]) || src[pos] == 46) && src[pos]
        < 128 {
        spec_scan_number(src, pos + 1)
    } else {
        pos
    }
}

/// The place of the first line break at or after `pos`, or the end.
pub open spec fn spec_scan_line(src: Seq<u8>, pos: int) -> int
    decreases src.len() - pos,
{
    if 0 <= pos < src.len() && !spec_is_line_break(src[pos]) {
        spec_scan_line(src, pos + 1)
    } else {
        pos
    }
}

/// Where the block comment ends whose text starts at `pos`: behind its
/// `*/`, or at the end of the input. The flag says whether a line break was
/// passed.
pub open spec fn spec_scan_block_comment(src: Seq<u8>, pos: int, new_line: bool) -> (int, bool)
    decreases src.len() - pos,
{
    if pos < 0 || pos >= src.len() {
        (pos, new_line)
    } else if src[pos] == 42 && pos + 1 < src.len() && src[pos + 1] == 47 {
        (pos + 2, new_line)
    } else {
        spec_scan_block_comment(src, pos + 1, new_line || spec_is_line_break(src[pos]))
    }
}

/// Where the next token starts: white space and comments are passed. The
/// flag says whether a line break was passed.
pub open spec fn spec_skip_trivia(src: Seq<u8>, pos: int, new_line: bool) -> (int, bool)
    decreases src.len() - pos,
{
    if pos < 0 || pos >= src.len() {
        (pos, new_line)
    } else if spec_is_space(src[pos]) {
        spec_skip_trivia(src, pos + 1, new_line || spec_is_line_break(src[pos]))
    } else if src[pos] == 47 && pos + 1 < src.len() && src[pos + 1] == 47 {
        let end = spec_scan_line(src, pos + 2);
        if pos < end <= src.len() {
            spec_skip_trivia(src, end, new_line)
        } else {
            (pos, new_line)
        }
    } else if src[pos] == 47 && pos + 1 < src.len() && src[pos + 1] == 42 {
        let (end, passed) = spec_scan_block_comment(src, pos + 2, new_line);
        if pos < end <= src.len() {
            spec_skip_trivia(src, end, passed)
        } else {
            (pos, new_line)
        }
    } else {
        (pos, new_line)
    }
}

/// Where the string ends whose text starts at `pos`, behind the opening
/// quote: behind the closing quote, or, where there is none on the line, at
/// the line's end. The flag says whether the closing quote was found. A
/// backslash takes the byte after it along.
pub open spec fn spec_scan_string(src: Seq<u8>, pos: int, quote: u8) -> (int, bool)
    decreases src.len() - pos,
{
    if pos < 0 || pos >= src.len() || spec_is_line_break(src[pos]) {
        (pos, false)
    } else if src[pos] == quote {
        (pos + 1, true)
    } else if src[pos] == 92 && pos + 1 < src.len() && !spec_is_line_break(src[pos + 1]) {
        spec_scan_string(src, pos + 2, quote)
    } else {
        spec_scan_string(src, pos + 1, quote)
    }
}

/// Where the body of the regular expression ends whose text starts at `pos`,
/// behind the opening slash: behind the closing slash, or, where there is
/// none on the line, at the line's end. A slash inside `[...]` closes
/// nothing, and a backslash takes the byte after it along.
pub open spec fn spec_scan_regex(src: Seq<u8>, pos: int, in_class: bool) -> (int, bool)
    decreases src.len() - pos,
{
    if pos < 0 || pos >= src.len() || spec_is_line_break(src[pos]) {
        (pos, false)
    } else if src[pos] == 47 && !in_class {
        (pos + 1, true)
    } else if src[pos] == 92 && pos + 1 < src.len() && !spec_is_line_break(src[pos + 1]) {
        spec_scan_regex(src, pos + 2, in_class)
    } else {
        spec_scan_regex(
            src,
            pos + 1,
            if src[pos] == 91 {
                true
            } else if src[pos] == 93 {
                false
            } else {
                in_class
            },
        )
    }
}

/// The kind of the punctuator that is the single byte `b`.
pub open spec fn spec_punctuator(b: u8) -> Kind {
    if b == 40 {
        Kind::LParen
    } else if b == 41 {
        Kind::RParen
    } else if b == 123 {
        Kind::LCurly
    } else if b == 125 {
        Kind::RCurly
    } else if b == 91 {
        Kind::LBrack
    } else if b == 93 {
        Kind::RBrack
    } else if b == 60 {
        Kind::LAngle
    } else if b == 62 {
        Kind::RAngle
    } else if b == 59 {
        Kind::Semicolon
    } else if b == 44 {
        Kind::Comma
    } else if b == 58 {
        Kind::Colon
    } else if b == 46 {
        Kind::Dot
    } else if b == 63 {
        Kind::Question
    } else if b == 61 {
        Kind::Eq
    } else if b == 42 {
        Kind::Star
    } else if b == 47 {
        Kind::Slash
    } else if b == 64 {
        Kind::At
    } else {
        Kind::Undetermined
    }
}

pub fn punctuator(b: u8) -> (kind: Kind)
    ensures
        kind == spec_punctuator(b),
{
    if b == 40 {
        Kind::LParen
    } else if b == 41 {
        Kind::RParen
    } else if b == 123 {
        Kind::LCurly
    } else if b == 125 {
        Kind::RCurly
    } else if b == 91 {
        Kind::LBrack
    } else if b == 93 {
        Kind::RBrack
    } else if b == 60 {
        Kind::LAngle
    } else if b == 62 {
        Kind::RAngle
    } else if b == 59 {
        Kind::Semicolon
    } else if b == 44 {
        Kind::Comma
    } else if b == 58 {
        Kind::Colon
    } else if b == 46 {
        Kind::Dot
    } else if b == 63 {
        Kind::Question
    } else if b == 61 {
        Kind::Eq
    } else if b == 42 {
        Kind::Star
    } else if b == 47 {
        Kind::Slash
    } else if b == 64 {
        Kind::At
    } else {
        Kind::Undetermined
    }
}

/// The kind of the token that starts at `pos`, where a byte stands that is
/// no white space, and the place behind it.
pub open spec fn spec_lex_token(src: Seq<u8>, pos: int, prev: Kind) -> (Kind, int) {
    let b = src[pos];
    if spec_is_ident_start(b) {
        let end = spec_scan_word(src, pos + 1);
        (spec_word_kind(src.subrange(pos, end)), end)
    } else if spec_is_digit(b) {
        (Kind::Number, spec_scan_number(src, pos + 1))
    } else if b == 34 || b == 39 {
        let (end, closed) = spec_scan_string(src, pos + 1, b);
        (
            if closed {
                Kind::Str
            } else {
                Kind::Undetermined
            },
            end,
        )
    } else if b == 47 && spec_regex_allowed(prev) {
        let (end, closed) = spec_scan_regex(src, pos + 1, false);
        if closed {
            (Kind::RegExp, spec_scan_word(src, end))
        } else {
            (Kind::Undetermined, end)
        }
    } else if b == 46 && src.len() - pos > 2 && src[pos + 1] == 46 && src[pos + 2] == 46 {
        (Kind::Dot3, pos + 3)
    } else {
        (spec_punctuator(b), pos + 1)
    }
}

/// The tokens of `src` from `pos` on, after the tokens `acc` and a last
/// token of kind `prev`; the token for the end of the input closes them.
pub open spec fn spec_tokenize_from(src: Seq<u8>, pos: int, prev: Kind, acc: Seq<Token>) -> Seq<
    Token,
>
    decreases src.len() - pos,
{
    let (start, new_line) = spec_skip_trivia(src, pos, false);
    if start < pos || start >= src.len() {
        acc.push(
            Token {
                kind: Kind::Eof,
                start: src.len() as u32,
                end: src.len() as u32,
                is_on_new_line: new_line,
            },
        )
    } else {
        let (kind, end) = spec_lex_token(src, start, prev);
        let token = Token { kind, start: start as u32, end: end as u32, is_on_new_line: new_line };
        if start < end <= src.len() {
            spec_tokenize_from(src, end, kind, acc.push(token))
        } else {
            acc.push(token)
        }
    }
}

/// The tokens of a source text.
pub open spec fn spec_tokenize(src: Seq<u8>) -> Seq<Token> {
    spec_tokenize_from(src, 0, Kind::Eof, Seq::empty())
}

/// Whether the bytes of `src` between `start` and `end` spell `word`.
pub fn text_is(src: &[u8], start: usize, end: usize, word: &str) -> (same: bool)
    requires
        start <= end <= src@.len(),
    ensures
        same == (src@.subrange(start as int, end as int) == bytes_of(word@)),
{
    let chars = chars_of(word);
    let ghost text = src@.subrange(start as int, end as int);
    if chars.len() != end - start {
        assert(text.len() != bytes_of(word@).len());
        return false;
    }
    let mut i: usize = 0;
    while i < chars.len()
        invariant
            i <= chars@.len(),
            chars@ == word@,
            start <= end <= src@.len(),
            chars@.len() == end - start,
            text == src@.subrange(start as int, end as int),
            forall|j: int| 0 <= j < i ==> text[j] == bytes_of(word@)[j],
        decreases chars@.len() - i,
    {
        let c: char = chars[i];
        if src[start + i] != #[verifier::truncate] (c as u8) {
            assert(text[i as int] != bytes_of(word@)[i as int]);
            return false;
        }
        i += 1;
    }
    assert(text =~= bytes_of(word@));
    true
}

/// The kind of the word between `start` and `end`.
pub fn word_kind(src: &[u8], start: usize, end: usize) -> (kind: Kind)
    requires
        start <= end <= src@.len(),
    ensures
        kind == spec_word_kind(src@.subrange(start as int, end as int)),
{
    if text_is(src, start, end, "await") {
        Kind::Await
    } else if text_is(src, start, end, "class") {
        Kind::Class
    } else if text_is(src, start, end, "const") {
        Kind::Const
    } else if text_is(src, start, end, "default") {
        Kind::Default
    } else if text_is(src, start, end, "else") {
        Kind::Else
    } else if text_is(src, start, end, "export") {
        Kind::Export
    } else if text_is(src, start, end, "false") {
        Kind::False
    } else if text_is(src, start, end, "function") {
        Kind::Function
    } else if text_is(src, start, end, "if") {
        Kind::If
    } else if text_is(src, start, end, "new") {
        Kind::New
    } else if text_is(src, start, end, "null") {
        Kind::Null
    } else if text_is(src, start, end, "return") {
        Kind::Return
    } else if text_is(src, start, end, "this") {
        Kind::This
    } else if text_is(src, start, end, "true") {
        Kind::True
    } else if text_is(src, start, end, "var") {
        Kind::Var
    } else if text_is(src, start, end, "void") {
        Kind::Void
    } else if text_is(src, start, end, "yield") {
        Kind::Yield
    } else if text_is(src, start, end, "abstract") {
        Kind::Abstract
    } else if text_is(src, start, end, "async") {
        Kind::Async
    } else if text_is(src, start, end, "declare") {
        Kind::Declare
    } else if text_is(src, start, end, "let") {
        Kind::Let
    } else if text_is(src, start, end, "override") {
        Kind::Override
    } else if text_is(src, start, end, "private") {
        Kind::Private
    } else if text_is(src, start, end, "protected") {
        Kind::Protected
    } else if text_is(src, start, end, "public") {
        Kind::Public
    } else if text_is(src, start, end, "readonly") {
        Kind::Readonly
    } else if text_is(src, start, end, "static") {
        Kind::Static
    } else {
        Kind::Ident
    }
}

pub fn scan_word(src: &[u8], pos: usize) -> (end: usize)
    requires
        pos <= src@.len(),
    ensures
        end == spec_scan_word(src@, pos as int),
        pos <= end <= src@.len(),
{
    let mut i: usize = pos;
    while i < src.len() && is_ident_part(src[i])
        invariant
            pos <= i <= src@.len(),
            spec_scan_word(src@, pos as int) == spec_scan_word(src@, i as int),
        decreases src@.len() - i,
    {
        i += 1;
    }
    i
}

pub fn scan_number(src: &[u8], pos: usize) -> (end: usize)
    requires
        pos <= src@.len(),
    ensures
        end == spec_scan_number(src@, pos as int),
        pos <= end <= src@.len(),
{
    let mut i: usize = pos;
    while i < src.len() && (is_ident_part(src[i]) || src[i] == 46) && src[i] < 128
        invariant
            pos <= i <= src@.len(),
            spec_scan_number(src@, pos as int) == spec_scan_number(src@, i as int),
        decreases src@.len() - i,
    {
        i += 1;
    }
    i
}

pub fn scan_line(src: &[u8], pos: usize) -> (end: usize)
    requires
        pos <= src@.len(),
    ensures
        end == spec_scan_line(src@, pos as int),
        pos <= end <= src@.len(),
{
    let mut i: usize = pos;
    while i < src.len() && !is_line_break(src[i])
        invariant
            pos <= i <= src@.len(),
            spec_scan_line(src@, pos as int) == spec_scan_line(src@, i as int),
        decreases src@.len() - i,
    {
        i += 1;
    }
    i
}

pub fn scan_block_comment(src: &[u8], pos: usize, new_line: bool) -> (r: (usize, bool))
    requires
        pos <= src@.len(),
    ensures
        (r.0 as int, r.1) == spec_scan_block_comment(src@, pos as int, new_line),
        pos <= r.0 <= src@.len(),
{
    let mut i: usize = pos;
    let mut passed = new_line;
    while i < src.len()
        invariant
            pos <= i <= src@.len(),
            spec_scan_block_comment(src@, pos as int, new_line) == spec_scan_block_comment(
                src@,
                i as int,
                passed,
            ),
        decreases src@.len() - i,
    {
        if src[i] == 42 && i + 1 < src.len() && src[i + 1] == 47 {
            return (i + 2, passed);
        }
        passed = passed || is_line_break(src[i]);
        i += 1;
    }
    (i, passed)
}

pub fn skip_trivia(src: &[u8], pos: usize, new_line: bool) -> (r: (usize, bool))
    requires
        pos <= src@.len(),
    ensures
        (r.0 as int, r.1) == spec_skip_trivia(src@, pos as int, new_line),
        pos <= r.0 <= src@.len(),
{
    let mut i: usize = pos;
    let mut passed = new_line;
    while i < src.len()
        invariant
            pos <= i <= src@.len(),
            spec_skip_trivia(src@, pos as int, new_line) == spec_skip_trivia(
                src@,
                i as int,
                passed,
            ),
        decreases src@.len() - i,
    {
        let b = src[i];
        if is_space(b) {
            passed = passed || is_line_break(b);
            i += 1;
        } else if b == 47 && i + 1 < src.len() && src[i + 1] == 47 {
            i = scan_line(src, i + 2);
        } else if b == 47 && i + 1 < src.len() && src[i + 1] == 42 {
            let (end, seen) = scan_block_comment(src, i + 2, passed);
            i = end;
            passed = seen;
        } else {
            return (i, passed);
        }
    }
    (i, passed)
}

pub fn scan_string(src: &[u8], pos: usize, quote: u8) -> (r: (usize, bool))
    requires
        pos <= src@.len(),
    ensures
        (r.0 as int, r.1) == spec_scan_string(src@, pos as int, quote),
        pos <= r.0 <= src@.len(),
{
    let mut i: usize = pos;
    while i < src.len()
        invariant
            pos <= i <= src@.len(),
            spec_scan_string(src@, pos as int, quote) == spec_scan_string(src@, i as int, quote),
        decreases src@.len() - i,
    {
        let b = src[i];
        if is_line_break(b) {
            return (i, false);
        }
        if b == quote {
            return (i + 1, true);
        }
        if b == 92 && i + 1 < src.len() && !is_line_break(src[i + 1]) {
            i += 2;
        } else {
            i += 1;
        }
    }
    (i, false)
}

pub fn scan_regex(src: &[u8], pos: usize) -> (r: (usize, bool))
    requires
        pos <= src@.len(),
    ensures
        (r.0 as int, r.1) == spec_scan_regex(src@, pos as int, false),
        pos <= r.0 <= src@.len(),
{
    let mut i: usize = pos;
    let mut in_class = false;
    while i < src.len()
        invariant
            pos <= i <= src@.len(),
            spec_scan_regex(src@, pos as int, false) == spec_scan_regex(src@, i as int, in_class),
        decreases src@.len() - i,
    {
        let b = src[i];
        if is_line_break(b) {
            return (i, false);
        }
        if b == 47 && !in_class {
            return (i + 1, true);
        }
        if b == 92 && i + 1 < src.len() && !is_line_break(src[i + 1]) {
            i += 2;
        } else {
            if b == 91 {
                in_class = true;
            } else if b == 93 {
                in_class = false;
            }
            i += 1;
        }
    }
    (i, false)
}

/// The kind of the token that starts at `pos` and the place behind it.
pub fn lex_token(src: &[u8], pos: usize, prev: Kind) -> (r: (Kind, usize))
    requires
        pos < src@.len(),
    ensures
        (r.0, r.1 as int) == spec_lex_token(src@, pos as int, prev),
        pos < r.1 <= src@.len(),
{
    let b = src[pos];
    if is_ident_start(b) {
        let end = scan_word(src, pos + 1);
        (word_kind(src, pos, end), end)
    } else if is_digit(b) {
        (Kind::Number, scan_number(src, pos + 1))
    } else if b == 34 || b == 39 {
        let (end, closed) = scan_string(src, pos + 1, b);
        if closed {
            (Kind::Str, end)
        } else {
            (Kind::Undetermined, end)
        }
    } else if b == 47 && regex_allowed(prev) {
        let (end, closed) = scan_regex(src, pos + 1);
        if closed {
            (Kind::RegExp, scan_word(src, end))
        } else {
            (Kind::Undetermined, end)
        }
    } else if b == 46 && src.len() - pos > 2 && src[pos + 1] == 46 && src[pos + 2] == 46 {
        (Kind::Dot3, pos + 3)
    } else {
        (punctuator(b), pos + 1)
    }
}

/// Cuts a source text into tokens. The last token is the one for the end of
/// the input.
pub fn tokenize(source: &[u8]) -> (tokens: Vec<Token>)
    requires
        source@.len() <= u32::MAX,
    ensures
        tokens@ == spec_tokenize(source@),
        tokens@.len() > 0,
        tokens@.last().kind == Kind::Eof,
{
    let mut tokens: Vec<Token> = Vec::new();
    let mut pos: usize = 0;
    let mut prev = Kind::Eof;
    loop
        invariant_except_break
            spec_tokenize(source@) == spec_tokenize_from(source@, pos as int, prev, tokens@),
        invariant
            pos <= source@.len() <= u32::MAX,
        ensures
            tokens@ == spec_tokenize(source@),
            tokens@.len() > 0,
            tokens@.last().kind == Kind::Eof,
        decreases source@.len() - pos,
    {
        let (start, new_line) = skip_trivia(source, pos, false);
        if start >= source.len() {
            tokens.push(
                Token {
                    kind: Kind::Eof,
                    start: source.len() as u32,
                    end: source.len() as u32,
                    is_on_new_line: new_line,
                },
            );
            break ;
        }
        let (kind, end) = lex_token(source, start, prev);
        tokens.push(Token { kind, start: start as u32, end: end as u32, is_on_new_line: new_line });
        pos = end;
        prev = kind;
    }
    tokens
}

} // verus!
