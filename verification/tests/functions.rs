use oxc_front::ast::{Ast, FormalParameterKind, FunctionType, Node, NodeId};
use oxc_front::context::Context;
use oxc_front::diagnostics::{Diagnostic, DiagnosticKind};
use oxc_front::lexer::tokenize;
use oxc_front::modifiers::{Accessibility, ModifierKind, Modifiers};
use oxc_front::parser::cursor::ParserImpl;
use oxc_front::parser::entry::{parse, ParserReturn};
use oxc_front::parser::kinds::{function_type, FunctionKind, StatementContext};
use oxc_front::token::Kind;

fn parsed(source: &str, is_ts: bool) -> ParserReturn {
    parse(source, is_ts).unwrap()
}

fn kinds(errors: &[Diagnostic]) -> Vec<DiagnosticKind> {
    errors.iter().map(|e| e.kind).collect()
}

fn body_of(ret: &ParserReturn) -> Vec<NodeId> {
    match ret.ast.node(ret.program) {
        Node::Program { body, .. } => ret.ast.items(body),
        other => panic!("the root is {:?}", other),
    }
}

fn first_function(ret: &ParserReturn) -> Node {
    ret.ast.nodes.iter().copied().find(|n| matches!(n, Node::Function { .. })).unwrap()
}

fn engine(source: &str, is_ts: bool) -> ParserImpl {
    ParserImpl::new(tokenize(source.as_bytes()), is_ts)
}

#[test]
fn function_type_follows_the_table() {
    assert_eq!(function_type(FunctionKind::Declaration, true), FunctionType::FunctionDeclaration);
    assert_eq!(function_type(FunctionKind::Declaration, false), FunctionType::TSDeclareFunction);
    assert_eq!(function_type(FunctionKind::DefaultExport, true), FunctionType::FunctionDeclaration);
    assert_eq!(function_type(FunctionKind::DefaultExport, false), FunctionType::TSDeclareFunction);
    assert_eq!(function_type(FunctionKind::Expression, true), FunctionType::FunctionExpression);
    assert_eq!(
        function_type(FunctionKind::Expression, false),
        FunctionType::TSEmptyBodyFunctionExpression
    );
    assert_eq!(function_type(FunctionKind::TSDeclaration, true), FunctionType::TSDeclareFunction);
    assert_eq!(function_type(FunctionKind::TSDeclaration, false), FunctionType::TSDeclareFunction);
}

#[test]
fn function_kind_name_requirement() {
    assert!(FunctionKind::Declaration.is_id_required());
    assert!(!FunctionKind::DefaultExport.is_id_required());
    assert!(!FunctionKind::Expression.is_id_required());
    assert!(!FunctionKind::TSDeclaration.is_id_required());
    assert!(FunctionKind::Expression.is_expression());
    assert!(!FunctionKind::Declaration.is_expression());
}

#[test]
fn plain_function_declaration() {
    let ret = parsed("function f(a, b) { return a }", false);
    assert!(!ret.panicked);
    assert!(ret.errors.is_empty());
    let body = body_of(&ret);
    assert_eq!(body.len(), 1);
    match ret.ast.node(body[0]) {
        Node::Function {
            span,
            function_type,
            id,
            generator,
            is_async,
            declare,
            type_parameters,
            this_param,
            params,
            return_type,
            body,
        } => {
            assert_eq!((span.start, span.end), (0, 29));
            assert_eq!(function_type, FunctionType::FunctionDeclaration);
            assert!(!generator && !is_async && !declare);
            assert!(type_parameters.is_none() && this_param.is_none() && return_type.is_none());
            assert!(body.is_some());
            match ret.ast.node(id.unwrap()) {
                Node::BindingIdentifier { span } => assert_eq!((span.start, span.end), (9, 10)),
                other => panic!("{:?}", other),
            }
            match ret.ast.node(params) {
                Node::FormalParameters { span, kind, items, rest } => {
                    assert_eq!((span.start, span.end), (10, 16));
                    assert_eq!(kind, FormalParameterKind::FormalParameter);
                    assert_eq!(ret.ast.items(items).len(), 2);
                    assert!(rest.is_none());
                },
                other => panic!("{:?}", other),
            }
        },
        other => panic!("{:?}", other),
    }
}

#[test]
fn rest_parameter_misplacement() {
    let ret = parsed("function f(a, ...b, c) {}", false);
    assert!(!ret.panicked);
    assert_eq!(kinds(&ret.errors), vec![DiagnosticKind::RestParameterLast]);
    // the report points at the rest parameter
    assert_eq!((ret.errors[0].span.start, ret.errors[0].span.end), (14, 18));
    match first_function(&ret) {
        Node::Function { params, .. } => match ret.ast.node(params) {
            Node::FormalParameters { items, rest, .. } => {
                let items = ret.ast.items(items);
                assert_eq!(items.len(), 2);
                let spans: Vec<(u32, u32)> = items
                    .iter()
                    .map(|p| {
                        let s = ret.ast.node(*p).span();
                        (s.start, s.end)
                    })
                    .collect();
                assert_eq!(spans, vec![(11, 12), (20, 21)]);
                assert!(matches!(ret.ast.node(rest.unwrap()), Node::BindingRestElement { .. }));
            },
            other => panic!("{:?}", other),
        },
        other => panic!("{:?}", other),
    }
}

#[test]
fn rest_parameter_in_last_place_is_silent() {
    let ret = parsed("function f(a, ...b) {}", false);
    assert!(!ret.panicked);
    assert!(ret.errors.is_empty());
}

#[test]
fn rest_parameter_with_trailing_comma() {
    let ret = parsed("function f(...b,) {}", false);
    assert!(!ret.panicked);
    assert_eq!(kinds(&ret.errors), vec![DiagnosticKind::RestElementTrailingComma]);
}

#[test]
fn typescript_ambient_form() {
    let ret = parsed("function f(): void;", true);
    assert!(!ret.panicked);
    assert!(ret.errors.is_empty());
    match first_function(&ret) {
        Node::Function { function_type, body, return_type, .. } => {
            assert_eq!(function_type, FunctionType::TSDeclareFunction);
            assert!(body.is_none());
            assert!(matches!(
                ret.ast.node(return_type.unwrap()),
                Node::TSTypeAnnotation { .. }
            ));
        },
        other => panic!("{:?}", other),
    }
}

#[test]
fn ambient_form_is_a_hard_failure_in_javascript() {
    let ret = parsed("function f(): void;", false);
    assert!(ret.panicked);
    assert_eq!(ret.errors.last().unwrap().kind, DiagnosticKind::UnexpectedToken);
    // a tree comes back all the same
    assert!(matches!(ret.ast.node(ret.program), Node::Program { .. }));
}

#[test]
fn declare_function() {
    let ret = parsed("declare function f(a: T): void", true);
    assert!(!ret.panicked);
    assert!(ret.errors.is_empty());
    match first_function(&ret) {
        Node::Function { function_type, declare, body, .. } => {
            assert_eq!(function_type, FunctionType::TSDeclareFunction);
            assert!(declare);
            assert!(body.is_none());
        },
        other => panic!("{:?}", other),
    }
}

#[test]
fn declare_async_function_takes_its_flag_from_the_modifiers() {
    let ret = parsed("declare async function f(): void;", true);
    assert!(!ret.panicked);
    assert!(ret.errors.is_empty());
    match first_function(&ret) {
        Node::Function { function_type, declare, is_async, .. } => {
            assert_eq!(function_type, FunctionType::TSDeclareFunction);
            assert!(declare);
            assert!(is_async);
        },
        other => panic!("{:?}", other),
    }
}

#[test]
fn modifier_not_permitted_on_a_function_is_reported_and_kept() {
    let tokens = tokenize("function f() {}".as_bytes());
    let mut p = ParserImpl::new(tokens, true);
    let modifiers = Modifiers::new(vec![
        oxc_front::modifiers::Modifier {
            span: oxc_front::span::Span::new(0, 6),
            kind: ModifierKind::Public,
        },
        oxc_front::modifiers::Modifier {
            span: oxc_front::span::Span::new(7, 14),
            kind: ModifierKind::Declare,
        },
    ]);
    let f = p.parse_ts_function_impl(0, FunctionKind::Declaration, &modifiers);
    assert!(!p.has_fatal_error());
    assert_eq!(
        kinds(&p.errors),
        vec![DiagnosticKind::ModifierCannotBeUsedHere { modifier: ModifierKind::Public }]
    );
    assert_eq!(modifiers.len(), 2);
    assert!(matches!(p.ast.node(f), Node::Function { declare: true, .. }));
}

#[test]
fn restricted_position() {
    let ret = parsed("if (x) async function f() {}", false);
    assert!(!ret.panicked);
    assert_eq!(kinds(&ret.errors), vec![DiagnosticKind::AsyncFunctionDeclaration]);
    // from the start of the declaration to the end of its parameter list
    assert_eq!((ret.errors[0].span.start, ret.errors[0].span.end), (7, 25));
    assert!(matches!(first_function(&ret), Node::Function { is_async: true, body: Some(_), .. }));

    let ret = parsed("if (x) { async function f() {} }", false);
    assert!(!ret.panicked);
    assert!(ret.errors.is_empty());
}

#[test]
fn restricted_position_generator() {
    let ret = parsed("if (x) function* f() {}", false);
    assert_eq!(kinds(&ret.errors), vec![DiagnosticKind::GeneratorFunctionDeclaration]);
    let ret = parsed("if (x) y; else function* f() {}", false);
    assert_eq!(kinds(&ret.errors), vec![DiagnosticKind::GeneratorFunctionDeclaration]);
    let ret = parsed("if (x) function f() {}", false);
    assert!(ret.errors.is_empty());
    let ret = parsed("function* f() {}", false);
    assert!(ret.errors.is_empty());
}

#[test]
fn restricted_position_leaves_the_node_as_it_is() {
    let mut single = engine("async function f() {}", false);
    single.bump_any();
    let a = single.parse_function_declaration(0, true, StatementContext::If);
    let mut listed = engine("async function f() {}", false);
    listed.bump_any();
    let b = listed.parse_function_declaration(0, true, StatementContext::StatementList);
    assert_eq!(a, b);
    assert_eq!(single.ast.nodes, listed.ast.nodes);
    assert_eq!(single.errors.len(), 1);
    assert_eq!(listed.errors.len(), 0);
}

#[test]
fn anonymous_default_export() {
    let ret = parsed("export default function () {}", false);
    assert!(!ret.panicked);
    assert!(ret.errors.is_empty());
    match first_function(&ret) {
        Node::Function { id, function_type, .. } => {
            assert!(id.is_none());
            assert_eq!(function_type, FunctionType::FunctionDeclaration);
        },
        other => panic!("{:?}", other),
    }
    let body = body_of(&ret);
    assert!(matches!(ret.ast.node(body[0]), Node::ExportDefaultDeclaration { .. }));
}

#[test]
fn declaration_without_a_name() {
    let ret = parsed("function () {}", false);
    assert!(!ret.panicked);
    assert_eq!(kinds(&ret.errors), vec![DiagnosticKind::ExpectFunctionName]);
    assert!(matches!(first_function(&ret), Node::Function { id: None, .. }));
}

#[test]
fn declaration_named_by_a_reserved_word_fails_hard() {
    let ret = parsed("function if() {}", false);
    assert!(ret.panicked);
    assert_eq!(
        ret.errors.last().unwrap().kind,
        DiagnosticKind::ExpectToken { expected: Kind::Ident, found: Kind::If }
    );
}

#[test]
fn function_name_is_judged_against_the_right_context() {
    // an expression's name binds inside the function's own scope
    let ret = parsed("x = async function await() {}", false);
    assert_eq!(kinds(&ret.errors), vec![DiagnosticKind::IdentifierAsync]);
    let ret = parsed("x = function* yield() {}", false);
    assert_eq!(kinds(&ret.errors), vec![DiagnosticKind::IdentifierGenerator]);
    // a declaration's name binds in the enclosing scope
    let ret = parsed("async function await() {}", false);
    assert!(ret.errors.is_empty());
    let ret = parsed("function* yield() {}", false);
    assert!(ret.errors.is_empty());
    let ret = parsed("function* g() { function yield() {} }", false);
    assert_eq!(kinds(&ret.errors), vec![DiagnosticKind::IdentifierGenerator]);
}

#[test]
fn yield_outside_of_a_generator_is_reported_and_parsed() {
    let ret = parsed("function f() { yield 1 }", false);
    assert!(!ret.panicked);
    assert_eq!(kinds(&ret.errors), vec![DiagnosticKind::YieldExpression]);
    assert_eq!((ret.errors[0].span.start, ret.errors[0].span.end), (15, 20));
    let node = ret.ast.nodes.iter().copied().find(|n| matches!(n, Node::YieldExpression { .. }));
    match node.unwrap() {
        Node::YieldExpression { span, delegate, argument } => {
            assert_eq!((span.start, span.end), (15, 22));
            assert!(!delegate);
            assert!(matches!(ret.ast.node(argument.unwrap()), Node::Literal { .. }));
        },
        other => panic!("{:?}", other),
    }
}

#[test]
fn yield_forms() {
    let ret = parsed("function* g() { yield; yield x; yield* y; (yield) }", false);
    assert!(!ret.panicked, "{:?}", ret.errors);
    assert!(ret.errors.is_empty());
    let yields: Vec<(bool, bool)> = ret
        .ast
        .nodes
        .iter()
        .filter_map(|n| match n {
            Node::YieldExpression { delegate, argument, .. } => {
                Some((*delegate, argument.is_some()))
            },
            _ => None,
        })
        .collect();
    assert_eq!(yields, vec![(false, false), (false, true), (true, true), (false, false)]);
}

#[test]
fn yield_ends_at_a_line_break() {
    let ret = parsed("function* g() { yield\nx }", false);
    assert!(!ret.panicked);
    assert!(ret.errors.is_empty());
    let yields: Vec<bool> = ret
        .ast
        .nodes
        .iter()
        .filter_map(|n| match n {
            Node::YieldExpression { argument, .. } => Some(argument.is_some()),
            _ => None,
        })
        .collect();
    assert_eq!(yields, vec![false]);
}

#[test]
fn yield_is_legal_again_inside_a_nested_generator_argument() {
    // the argument of a stray `yield` is read with `yield` allowed
    let mut p = engine("yield yield 1", false);
    let before = p.ctx;
    assert!(!before.has_yield());
    let _ = p.parse_yield_expression();
    assert_eq!(kinds(&p.errors), vec![DiagnosticKind::YieldExpression]);
    assert_eq!(p.ctx, before);
    assert!(!p.has_fatal_error());
}

#[test]
fn context_is_restored_after_a_function() {
    for (source, is_async, generator) in [
        ("(a) { yield a }", false, true),
        ("(a) { return a }", true, false),
        ("(a = function* () { yield }) {}", true, true),
        ("(", false, false),
    ] {
        for ctx in [
            Context::initial(),
            Context::empty(),
            Context::empty().and_yield(true).and_return(true),
            Context::initial().and_await(true),
        ] {
            let mut p = engine(source, false);
            p.ctx = ctx;
            let _ = p.parse_function(
                0,
                None,
                is_async,
                generator,
                FunctionKind::Expression,
                FormalParameterKind::FormalParameter,
                &Modifiers::empty(),
            );
            assert_eq!(p.ctx, ctx);
        }
    }
}

#[test]
fn nested_function_does_not_inherit_await_and_yield() {
    let ret = parsed("async function* f() { function g() { yield 1 } }", false);
    assert_eq!(kinds(&ret.errors), vec![DiagnosticKind::YieldExpression]);
    let ret = parsed("function* f() { yield 1; function g() {} yield 2 }", false);
    assert!(ret.errors.is_empty(), "{:?}", ret.errors);
}

#[test]
fn parameter_modifiers() {
    let ret = parsed("function f(public readonly a, private override b?: T, c = 1) {}", true);
    assert!(!ret.panicked, "{:?}", ret.errors);
    assert!(ret.errors.is_empty());
    let params: Vec<(Option<Accessibility>, bool, bool)> = ret
        .ast
        .nodes
        .iter()
        .filter_map(|n| match n {
            Node::FormalParameter { accessibility, readonly, is_override, .. } => {
                Some((*accessibility, *readonly, *is_override))
            },
            _ => None,
        })
        .collect();
    assert_eq!(
        params,
        vec![
            (Some(Accessibility::Public), true, false),
            (Some(Accessibility::Private), false, true),
            (None, false, false),
        ]
    );
}

#[test]
fn modifier_not_permitted_on_a_parameter() {
    let ret = parsed("function f(static a, declare b) {}", true);
    assert!(!ret.panicked);
    assert_eq!(
        kinds(&ret.errors),
        vec![
            DiagnosticKind::CannotAppearOnAParameter { modifier: ModifierKind::Static },
            DiagnosticKind::CannotAppearOnAParameter { modifier: ModifierKind::Declare },
        ]
    );
}

#[test]
fn modifier_words_are_names_in_javascript() {
    let ret = parsed("function f(public, readonly) {}", false);
    assert!(!ret.panicked);
    assert!(ret.errors.is_empty());
    let ret = parsed("function f(public a) {}", false);
    assert!(ret.panicked);
}

#[test]
fn this_parameter() {
    let ret = parsed("function f(this: T, a) {}", true);
    assert!(!ret.panicked, "{:?}", ret.errors);
    match first_function(&ret) {
        Node::Function { this_param, params, .. } => {
            assert!(matches!(
                ret.ast.node(this_param.unwrap()),
                Node::TSThisParameter { .. }
            ));
            match ret.ast.node(params) {
                Node::FormalParameters { items, .. } => assert_eq!(ret.ast.items(items).len(), 1),
                other => panic!("{:?}", other),
            }
        },
        other => panic!("{:?}", other),
    }
    let ret = parsed("function f(this) {}", true);
    assert!(!ret.panicked);
    // `this` needs a comma before a parameter that follows it
    let ret = parsed("function f(this a) {}", true);
    assert!(ret.panicked);
    // in JavaScript `this` names no parameter
    let ret = parsed("function f(this) {}", false);
    assert!(ret.panicked);
}

#[test]
fn type_parameters() {
    let ret = parsed("function f<T, U>(a: T): U {}", true);
    assert!(!ret.panicked, "{:?}", ret.errors);
    match first_function(&ret) {
        Node::Function { type_parameters, .. } => match ret.ast.node(type_parameters.unwrap()) {
            Node::TSTypeParameterDeclaration { params, .. } => {
                assert_eq!(ret.ast.items(params).len(), 2)
            },
            other => panic!("{:?}", other),
        },
        other => panic!("{:?}", other),
    }
    let ret = parsed("function f<T>(a) {}", false);
    assert!(ret.panicked);
}

#[test]
fn decorators_on_parameters() {
    let ret = parsed("function f(@a @b.c x, y) {}", true);
    assert!(!ret.panicked, "{:?}", ret.errors);
    let counts: Vec<usize> = ret
        .ast
        .nodes
        .iter()
        .filter_map(|n| match n {
            Node::FormalParameter { decorators, .. } => Some(ret.ast.items(*decorators).len()),
            _ => None,
        })
        .collect();
    assert_eq!(counts, vec![2, 0]);
}

#[test]
fn function_expressions() {
    let ret = parsed("x = function () {}; y = async function* g() {}", false);
    assert!(!ret.panicked, "{:?}", ret.errors);
    let types: Vec<(FunctionType, bool, bool, bool)> = ret
        .ast
        .nodes
        .iter()
        .filter_map(|n| match n {
            Node::Function { function_type, is_async, generator, id, .. } => {
                Some((*function_type, *is_async, *generator, id.is_some()))
            },
            _ => None,
        })
        .collect();
    assert_eq!(
        types,
        vec![
            (FunctionType::FunctionExpression, false, false, false),
            (FunctionType::FunctionExpression, true, true, true),
        ]
    );
}

#[test]
fn empty_body_function_expression_in_typescript() {
    let ret = parsed("x = function ()", true);
    assert!(!ret.panicked, "{:?}", ret.errors);
    assert!(matches!(
        first_function(&ret),
        Node::Function {
            function_type: FunctionType::TSEmptyBodyFunctionExpression,
            body: None,
            ..
        }
    ));
}

#[test]
fn methods() {
    let ret = parsed("class C { m(a) {} static async *n() {}; }", false);
    assert!(!ret.panicked, "{:?}", ret.errors);
    let methods: Vec<(bool, bool, bool)> = ret
        .ast
        .nodes
        .iter()
        .filter_map(|n| match n {
            Node::MethodDefinition { value, is_static, .. } => match ret.ast.node(*value) {
                Node::Function { is_async, generator, function_type, id, params, .. } => {
                    assert_eq!(function_type, FunctionType::FunctionExpression);
                    assert!(id.is_none());
                    assert!(matches!(
                        ret.ast.node(params),
                        Node::FormalParameters {
                            kind: FormalParameterKind::UniqueFormalParameters,
                            ..
                        }
                    ));
                    Some((*is_static, is_async, generator))
                },
                other => panic!("{:?}", other),
            },
            _ => None,
        })
        .collect();
    assert_eq!(methods, vec![(false, false, false), (true, true, true)]);
}

#[test]
fn at_function_with_async_looks_ahead_and_comes_back() {
    for (source, expected) in [
        ("function f() {}", true),
        ("async function f() {}", true),
        ("async\nfunction f() {}", false),
        ("async x", false),
        ("x", false),
        ("", false),
    ] {
        let mut p = engine(source, false);
        let (pos, end) = (p.pos, p.prev_token_end);
        assert_eq!(p.at_function_with_async(), expected, "{}", source);
        assert_eq!((p.pos, p.prev_token_end), (pos, end));
        assert!(p.errors.is_empty());
    }
}

#[test]
fn every_diagnostic_is_kept() {
    let ret = parsed("function (a, ...b, c) { yield 1 } if (x) async function () {}", false);
    assert!(!ret.panicked);
    assert_eq!(
        kinds(&ret.errors),
        vec![
            DiagnosticKind::ExpectFunctionName,
            DiagnosticKind::RestParameterLast,
            DiagnosticKind::YieldExpression,
            DiagnosticKind::ExpectFunctionName,
            DiagnosticKind::AsyncFunctionDeclaration,
        ]
    );
}

#[test]
fn nesting_deeper_than_the_budget_fails_hard() {
    let tokens = tokenize("((((x))))".as_bytes());
    let mut shallow = ParserImpl::new(tokens.clone(), false).with_depth(3);
    let _ = shallow.parse_program();
    assert_eq!(shallow.fatal_error.unwrap().kind, DiagnosticKind::NestingTooDeep);
    assert_eq!(shallow.depth, 3);
    let mut deep = ParserImpl::new(tokens, false).with_depth(4);
    let _ = deep.parse_program();
    assert!(deep.fatal_error.is_none());
    assert_eq!(deep.depth, 4);

    let mut source = String::new();
    for _ in 0..100_000 {
        source.push('(');
    }
    let ret = parsed(&source, false);
    assert!(ret.panicked);
    assert_eq!(ret.errors.last().unwrap().kind, DiagnosticKind::NestingTooDeep);
}

#[test]
fn tree_is_well_formed_in_every_case() {
    fn check(ast: &Ast) {
        for (i, node) in ast.nodes.iter().enumerate() {
            let span = node.span();
            assert!(span.start <= span.end);
            if let Node::Function { function_type, body, params, .. } = node {
                assert!(*params < i);
                if body.is_none() {
                    assert!(function_type.is_bodiless());
                }
            }
        }
    }
    for source in [
        "function f(a, ...b, c) {}",
        "function f(",
        "function",
        "if (x) async function f() {}",
        "export default function () {}",
        "}",
        "x = [1, ...y, function* () { yield* z }]",
        "function f(): void;",
        "class C { m() { return new X(1).y[2](3) } }",
    ] {
        for is_ts in [false, true] {
            let ret = parsed(source, is_ts);
            check(&ret.ast);
            for e in &ret.errors {
                assert!(e.span.start <= e.span.end);
            }
        }
    }
}

#[test]
fn lookahead_can_be_given_up() {
    let mut p = engine("a b c", false);
    let checkpoint = p.checkpoint();
    p.bump_any();
    p.error(Diagnostic::new(
        DiagnosticKind::ExpectFunctionName,
        oxc_front::span::Span::new(0, 1),
    ));
    p.bump_any();
    assert_eq!(p.pos, 2);
    assert_eq!(p.errors.len(), 1);
    p.rewind(checkpoint);
    assert_eq!(p.pos, 0);
    assert_eq!(p.prev_token_end, 0);
    // what was reported during the attempt is never shown
    assert!(p.errors.is_empty());
    assert!(!p.has_fatal_error());
}
