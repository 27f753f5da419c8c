use oxc_front::lexer::{regex_allowed, tokenize};
use oxc_front::token::{Kind, Token};

fn kinds(source: &str) -> Vec<Kind> {
    tokenize(source.as_bytes()).iter().map(|t| t.kind).collect()
}

fn spans(source: &str) -> Vec<(u32, u32, bool)> {
    tokenize(source.as_bytes()).iter().map(|t| (t.start, t.end, t.is_on_new_line)).collect()
}

#[test]
fn empty_source_is_one_end_token() {
    assert_eq!(
        tokenize(b""),
        vec![Token { kind: Kind::Eof, start: 0, end: 0, is_on_new_line: false }]
    );
    assert_eq!(
        tokenize(b"  \n "),
        vec![Token { kind: Kind::Eof, start: 4, end: 4, is_on_new_line: true }]
    );
}

#[test]
fn words_and_punctuators() {
    assert_eq!(
        kinds("async function* f(a, ...b) { yield a }"),
        vec![
            Kind::Async,
            Kind::Function,
            Kind::Star,
            Kind::Ident,
            Kind::LParen,
            Kind::Ident,
            Kind::Comma,
            Kind::Dot3,
            Kind::Ident,
            Kind::RParen,
            Kind::LCurly,
            Kind::Yield,
            Kind::Ident,
            Kind::RCurly,
            Kind::Eof,
        ]
    );
    assert_eq!(
        spans("if (x)\n  y"),
        vec![(0, 2, false), (3, 4, false), (4, 5, false), (5, 6, false), (9, 10, true), (10, 10, false)]
    );
}

#[test]
fn every_keyword() {
    let words = [
        ("await", Kind::Await),
        ("class", Kind::Class),
        ("const", Kind::Const),
        ("default", Kind::Default),
        ("else", Kind::Else),
        ("export", Kind::Export),
        ("false", Kind::False),
        ("function", Kind::Function),
        ("if", Kind::If),
        ("new", Kind::New),
        ("null", Kind::Null),
        ("return", Kind::Return),
        ("this", Kind::This),
        ("true", Kind::True),
        ("var", Kind::Var),
        ("void", Kind::Void),
        ("yield", Kind::Yield),
        ("abstract", Kind::Abstract),
        ("async", Kind::Async),
        ("declare", Kind::Declare),
        ("let", Kind::Let),
        ("override", Kind::Override),
        ("private", Kind::Private),
        ("protected", Kind::Protected),
        ("public", Kind::Public),
        ("readonly", Kind::Readonly),
        ("static", Kind::Static),
        ("functions", Kind::Ident),
        ("Function", Kind::Ident),
        ("i", Kind::Ident),
        ("$x_1", Kind::Ident),
        ("größe", Kind::Ident),
    ];
    for (word, kind) in words {
        assert_eq!(kinds(word), vec![kind, Kind::Eof], "{}", word);
    }
}

#[test]
fn every_punctuator() {
    assert_eq!(
        kinds("( ) { } [ ] < > ; , : . ... ? = * @"),
        vec![
            Kind::LParen,
            Kind::RParen,
            Kind::LCurly,
            Kind::RCurly,
            Kind::LBrack,
            Kind::RBrack,
            Kind::LAngle,
            Kind::RAngle,
            Kind::Semicolon,
            Kind::Comma,
            Kind::Colon,
            Kind::Dot,
            Kind::Dot3,
            Kind::Question,
            Kind::Eq,
            Kind::Star,
            Kind::At,
            Kind::Eof,
        ]
    );
    assert_eq!(kinds(".."), vec![Kind::Dot, Kind::Dot, Kind::Eof]);
    assert_eq!(kinds("#"), vec![Kind::Undetermined, Kind::Eof]);
}

#[test]
fn comments_are_passed() {
    assert_eq!(kinds("a // b\nc"), vec![Kind::Ident, Kind::Ident, Kind::Eof]);
    assert_eq!(kinds("a /* b */ c"), vec![Kind::Ident, Kind::Ident, Kind::Eof]);
    assert_eq!(kinds("a /* b"), vec![Kind::Ident, Kind::Eof]);
    // a line break inside a comment counts
    assert_eq!(spans("a /* \n */ c")[1], (10, 11, true));
    assert_eq!(spans("a /* */ c")[1], (8, 9, false));
    assert_eq!(spans("a // x\nc")[1], (7, 8, true));
}

#[test]
fn numbers_and_strings() {
    assert_eq!(kinds("12 1.5 0x1f 1e3"), vec![Kind::Number; 4].into_iter().chain([Kind::Eof]).collect::<Vec<_>>());
    assert_eq!(kinds(r#""a" 'b' "c\"d" 'e\'f'"#), vec![Kind::Str, Kind::Str, Kind::Str, Kind::Str, Kind::Eof]);
    assert_eq!(spans(r#"x = "a b""#)[2], (4, 9, false));
    // a string that does not close on its line
    assert_eq!(kinds("'abc"), vec![Kind::Undetermined, Kind::Eof]);
    assert_eq!(kinds("'abc\nd"), vec![Kind::Undetermined, Kind::Ident, Kind::Eof]);
}

#[test]
fn slash_is_a_regex_or_a_division() {
    assert_eq!(kinds("x = /a/g"), vec![Kind::Ident, Kind::Eq, Kind::RegExp, Kind::Eof]);
    assert_eq!(spans("x = /a/g")[2], (4, 8, false));
    assert_eq!(kinds("f(/a/)"), vec![Kind::Ident, Kind::LParen, Kind::RegExp, Kind::RParen, Kind::Eof]);
    assert_eq!(kinds("a / b"), vec![Kind::Ident, Kind::Slash, Kind::Ident, Kind::Eof]);
    assert_eq!(kinds("(a) / 2"), vec![Kind::LParen, Kind::Ident, Kind::RParen, Kind::Slash, Kind::Number, Kind::Eof]);
    // a slash inside a class and an escaped slash close nothing
    assert_eq!(kinds(r"x = /[/]\//"), vec![Kind::Ident, Kind::Eq, Kind::RegExp, Kind::Eof]);
    assert_eq!(kinds("x = /a"), vec![Kind::Ident, Kind::Eq, Kind::Undetermined, Kind::Eof]);
    assert!(regex_allowed(Kind::Eof));
    assert!(regex_allowed(Kind::LParen));
    assert!(regex_allowed(Kind::Comma));
    assert!(regex_allowed(Kind::Return));
    assert!(!regex_allowed(Kind::Ident));
    assert!(!regex_allowed(Kind::RParen));
    assert!(!regex_allowed(Kind::Number));
}

#[test]
fn every_byte_lands_in_a_token_or_between_two() {
    let source = "function f(a, ...b) { return /x/g.test(a) /* c */ } // end";
    let tokens = tokenize(source.as_bytes());
    let mut at = 0;
    for t in &tokens {
        assert!(at <= t.start && t.start <= t.end);
        at = t.end;
    }
    assert_eq!(tokens.last().unwrap().kind, Kind::Eof);
    assert_eq!(tokens.last().unwrap().end as usize, source.len());
}
