use oxc_front::ast::{LiteralKind, Node, NodeId, VariableKind};
use oxc_front::diagnostics::DiagnosticKind;
use oxc_front::parser::entry::{parse, parse_tokens, ParserReturn};
use oxc_front::token::{Kind, Token};

fn parsed(source: &str) -> ParserReturn {
    parse(source, false).unwrap()
}

fn body_of(ret: &ParserReturn) -> Vec<NodeId> {
    match ret.ast.node(ret.program) {
        Node::Program { body, .. } => ret.ast.items(body),
        other => panic!("the root is {:?}", other),
    }
}

#[test]
fn empty_program() {
    let ret = parsed("");
    assert!(!ret.panicked);
    assert!(ret.errors.is_empty());
    assert!(body_of(&ret).is_empty());
    let ret = parse_tokens(Vec::new(), false);
    assert!(!ret.panicked);
    assert!(body_of(&ret).is_empty());
}

#[test]
fn statements_in_order() {
    let ret = parsed("; x; { y } if (a) b; else c\nreturn\nvar v = 1; let l; const c = [1, ...r]");
    assert!(!ret.panicked, "{:?}", ret.errors);
    // `return` stands outside of a function
    assert_eq!(
        ret.errors.iter().map(|e| e.kind).collect::<Vec<_>>(),
        vec![DiagnosticKind::ReturnOutsideFunction]
    );
    let body = body_of(&ret);
    let shapes: Vec<&str> = body
        .iter()
        .map(|id| match ret.ast.node(*id) {
            Node::EmptyStatement { .. } => "empty",
            Node::ExpressionStatement { .. } => "expression",
            Node::BlockStatement { .. } => "block",
            Node::IfStatement { alternate: Some(_), .. } => "if-else",
            Node::IfStatement { alternate: None, .. } => "if",
            Node::ReturnStatement { argument: None, .. } => "return",
            Node::ReturnStatement { argument: Some(_), .. } => "return-value",
            Node::VariableDeclaration { kind: VariableKind::Var, .. } => "var",
            Node::VariableDeclaration { kind: VariableKind::Let, .. } => "let",
            Node::VariableDeclaration { kind: VariableKind::Const, .. } => "const",
            other => panic!("{:?}", other),
        })
        .collect();
    assert_eq!(
        shapes,
        vec!["empty", "expression", "block", "if-else", "return", "var", "let", "const"]
    );
}

#[test]
fn statement_must_end() {
    let ret = parsed("a b");
    assert!(ret.panicked);
    assert_eq!(ret.errors.last().unwrap().kind, DiagnosticKind::AutoSemicolonInsertion);
    let ret = parsed("a\nb");
    assert!(!ret.panicked);
    assert_eq!(body_of(&ret).len(), 2);
    let ret = parsed("{ a }");
    assert!(!ret.panicked);
}

#[test]
fn stray_closing_brace_fails_hard() {
    let ret = parsed("a; }");
    assert!(ret.panicked);
    assert_eq!(ret.errors.last().unwrap().kind, DiagnosticKind::UnexpectedToken);
    assert_eq!(body_of(&ret).len(), 1);
}

#[test]
fn missing_token_fails_hard() {
    let ret = parsed("if x");
    assert!(ret.panicked);
    assert_eq!(
        ret.errors.last().unwrap().kind,
        DiagnosticKind::ExpectToken { expected: Kind::LParen, found: Kind::Ident }
    );
    let ret = parsed("f(a b)");
    assert_eq!(
        ret.errors.last().unwrap().kind,
        DiagnosticKind::ExpectToken { expected: Kind::Comma, found: Kind::Ident }
    );
    // only the first hard failure is kept
    assert_eq!(ret.errors.iter().filter(|e| e.kind.is_fatal()).count(), 1);
}

#[test]
fn expressions() {
    let ret = parsed("a.b[c](d, ...e).f = new G.h(1)(2)");
    assert!(!ret.panicked, "{:?}", ret.errors);
    let body = body_of(&ret);
    let Node::ExpressionStatement { expression, .. } = ret.ast.node(body[0]) else { panic!() };
    let Node::AssignmentExpression { left, right, .. } = ret.ast.node(expression) else { panic!() };
    assert!(matches!(ret.ast.node(left), Node::StaticMemberExpression { .. }));
    // `new` takes the first argument list; the second one is a call of its result
    let Node::CallExpression { callee, arguments, .. } = ret.ast.node(right) else { panic!() };
    assert_eq!(ret.ast.items(arguments).len(), 1);
    let Node::NewExpression { callee: class, arguments, .. } = ret.ast.node(callee) else {
        panic!()
    };
    assert_eq!(ret.ast.items(arguments).len(), 1);
    assert!(matches!(ret.ast.node(class), Node::StaticMemberExpression { .. }));
}

#[test]
fn literals() {
    let ret = parsed("[null, true, false, 1, 'a', /r/, this, (x)]");
    assert!(!ret.panicked, "{:?}", ret.errors);
    let array = ret.ast.nodes.iter().find_map(|n| match n {
        Node::ArrayExpression { elements, .. } => Some(ret.ast.items(*elements)),
        _ => None,
    });
    let shapes: Vec<String> = array
        .unwrap()
        .iter()
        .map(|id| match ret.ast.node(*id) {
            Node::Literal { kind, .. } => format!("{:?}", kind),
            Node::RegExpLiteral { .. } => "RegExp".to_string(),
            Node::ThisExpression { .. } => "This".to_string(),
            Node::ParenthesizedExpression { .. } => "Paren".to_string(),
            other => panic!("{:?}", other),
        })
        .collect();
    assert_eq!(shapes, vec!["Null", "True", "False", "Number", "Str", "RegExp", "This", "Paren"]);
    assert_eq!(format!("{:?}", LiteralKind::Str), "Str");
}

#[test]
fn trailing_commas() {
    assert!(!parsed("f(a, b,)").panicked);
    assert!(!parsed("[a, b,]").panicked);
    assert!(!parsed("function f(a, b,) {}").panicked);
    assert!(parsed("f(,)").panicked);
}

#[test]
fn tokens_without_an_end_token_are_parsed_to_their_end() {
    let tokens = vec![
        Token::new(Kind::Ident, 0, 1, false),
        Token::new(Kind::Semicolon, 1, 2, false),
    ];
    let ret = parse_tokens(tokens, false);
    assert!(!ret.panicked);
    assert_eq!(body_of(&ret).len(), 1);
    match ret.ast.node(ret.program) {
        Node::Program { span, .. } => assert_eq!((span.start, span.end), (0, 2)),
        other => panic!("{:?}", other),
    }
}

#[test]
fn await_as_a_name() {
    let ret = parsed("async function f() { await }");
    assert_eq!(
        ret.errors.iter().map(|e| e.kind).collect::<Vec<_>>(),
        vec![DiagnosticKind::IdentifierAsync]
    );
    let ret = parsed("function f() { await }");
    assert!(ret.errors.is_empty());
    let ret = parsed("function* f(yield) {}");
    assert_eq!(
        ret.errors.iter().map(|e| e.kind).collect::<Vec<_>>(),
        vec![DiagnosticKind::IdentifierGenerator]
    );
}
