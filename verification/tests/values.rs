use oxc_front::ast::{Ast, FunctionType, Node, NodeList};
use oxc_front::context::Context;
use oxc_front::diagnostics::{Diagnostic, DiagnosticKind, ModifierPosition, Severity};
use oxc_front::modifiers::{Accessibility, Modifier, ModifierFlags, ModifierKind, Modifiers};
use oxc_front::span::Span;
use oxc_front::token::{Kind, Token};

#[test]
fn context_axes_are_independent() {
    let c = Context::empty();
    assert!(!c.has_in() && !c.has_await() && !c.has_yield() && !c.has_return());
    let c = c.and_yield(true);
    assert!(c.has_yield() && !c.has_in() && !c.has_await() && !c.has_return());
    let c = c.and_in(true).and_await(true).and_return(true).and_yield(false);
    assert!(c.has_in() && c.has_await() && c.has_return() && !c.has_yield());
    assert_eq!(Context::initial(), Context::empty().and_in(true));
    assert_eq!(Context::only_return(), Context::empty().and_return(true));
}

#[test]
fn context_union_and_with() {
    let c = Context::empty();
    assert!(c.union_yield_if(true).has_yield());
    assert!(!c.union_yield_if(false).has_yield());
    assert!(c.and_yield(true).union_yield_if(false).has_yield());
    let c = Context::initial().and_await(true);
    let d = c.with(Context::only_return(), Context::empty().and_in(true));
    assert!(d.has_return() && d.has_await() && !d.has_in() && !d.has_yield());
}

#[test]
fn context_restored_after_entering_a_function() {
    for outer in [
        Context::empty(),
        Context::initial(),
        Context::empty().and_yield(true).and_await(true),
        Context::initial().and_return(true),
    ] {
        for (is_async, generator) in [(false, false), (true, false), (false, true), (true, true)] {
            let inner = outer.and_in(true).and_await(is_async).and_yield(generator);
            let back = inner
                .and_in(outer.has_in())
                .and_await(outer.has_await())
                .and_yield(outer.has_yield());
            assert_eq!(back, outer);
        }
        assert_eq!(outer.union_yield_if(true).and_yield(outer.has_yield()), outer);
    }
}

#[test]
fn span_closing_is_always_valid() {
    assert_eq!(Span::new(3, 7), Span { start: 3, end: 7 });
    assert_eq!(Span::closing(3, 7), Span { start: 3, end: 7 });
    assert_eq!(Span::closing(7, 3), Span { start: 7, end: 7 });
    let t = Token::new(Kind::Ident, 5, 2, false);
    assert_eq!(t.span(), Span { start: 5, end: 5 });
    assert_eq!(t.kind(), Kind::Ident);
    assert!(!t.is_on_new_line());
}

#[test]
fn token_kind_classes() {
    assert!(Kind::Function.is_reserved_keyword());
    assert!(Kind::Yield.is_reserved_keyword());
    assert!(!Kind::Async.is_reserved_keyword());
    assert!(Kind::Async.is_contextual_keyword());
    assert!(Kind::Ident.is_binding_identifier());
    assert!(Kind::Async.is_binding_identifier());
    assert!(Kind::Yield.is_binding_identifier());
    assert!(Kind::Await.is_binding_identifier());
    assert!(!Kind::Function.is_binding_identifier());
    assert!(!Kind::LParen.is_binding_identifier());
    assert!(Kind::Function.is_identifier_name());
    assert!(!Kind::Number.is_identifier_name());
    assert!(Kind::Readonly.is_modifier_kind());
    assert!(!Kind::Let.is_modifier_kind());
    for k in [Kind::Semicolon, Kind::Eof, Kind::RCurly, Kind::RParen, Kind::RBrack, Kind::Colon, Kind::Comma] {
        assert!(k.ends_yield());
    }
    assert!(!Kind::Ident.ends_yield());
    assert!(!Kind::Star.ends_yield());
    assert!(Kind::Number.starts_operand());
    assert!(!Kind::LParen.starts_operand());
}

#[test]
fn modifier_masks() {
    let p = ModifierFlags::parameter_mask();
    for k in [ModifierKind::Public, ModifierKind::Private, ModifierKind::Protected, ModifierKind::Readonly, ModifierKind::Override] {
        assert!(p.contains(k));
    }
    for k in [ModifierKind::Declare, ModifierKind::Async, ModifierKind::Abstract, ModifierKind::Static] {
        assert!(!p.contains(k));
    }
    let f = ModifierFlags::function_mask();
    assert!(f.contains(ModifierKind::Declare) && f.contains(ModifierKind::Async));
    for k in [ModifierKind::Public, ModifierKind::Readonly, ModifierKind::Override, ModifierKind::Abstract, ModifierKind::Static] {
        assert!(!f.contains(k));
    }
    assert_eq!(ModifierPosition::Function.allowed(), f);
    assert_eq!(ModifierPosition::Parameter.allowed(), p);
    assert!(!ModifierFlags::empty().contains(ModifierKind::Async));
    assert_eq!(ModifierFlags::accessibility(), ModifierFlags::only(ModifierKind::Public).union(ModifierFlags::only(ModifierKind::Private)).union(ModifierFlags::only(ModifierKind::Protected)));
}

#[test]
fn modifier_lists() {
    let at = |start, end, kind| Modifier { span: Span::new(start, end), kind };
    let m = Modifiers::new(vec![
        at(0, 8, ModifierKind::Readonly),
        at(9, 18, ModifierKind::Protected),
        at(19, 25, ModifierKind::Public),
    ]);
    assert_eq!(m.len(), 3);
    assert_eq!(m.get(1).kind, ModifierKind::Protected);
    assert!(m.contains(ModifierKind::Public));
    assert!(m.contains_readonly());
    assert!(!m.contains_override());
    assert!(!m.contains_declare());
    // the first accessibility that is written counts
    assert_eq!(m.accessibility(), Some(Accessibility::Protected));
    assert_eq!(Modifiers::empty().accessibility(), None);
    assert_eq!(ModifierKind::from_token(Kind::Static), Some(ModifierKind::Static));
    assert_eq!(ModifierKind::from_token(Kind::Let), None);
    assert_eq!(ModifierKind::Private.to_accessibility(), Some(Accessibility::Private));
    assert_eq!(ModifierKind::Async.to_accessibility(), None);
}

#[test]
fn diagnostics_texts() {
    let d = Diagnostic::new(DiagnosticKind::ExpectFunctionName, Span::new(1, 2));
    assert_eq!(d.message(), "Expected function name");
    assert_eq!(d.severity(), Severity::Error);
    assert!(!d.kind.is_fatal());
    for kind in [
        DiagnosticKind::UnexpectedToken,
        DiagnosticKind::ExpectToken { expected: Kind::Comma, found: Kind::Ident },
        DiagnosticKind::NestingTooDeep,
        DiagnosticKind::AutoSemicolonInsertion,
    ] {
        assert!(kind.is_fatal());
        assert!(!kind.message().is_empty());
    }
    assert_eq!(
        DiagnosticKind::YieldExpression.message(),
        "A 'yield' expression is only allowed in a generator body."
    );
    let m = Modifier { span: Span::new(0, 6), kind: ModifierKind::Static };
    assert_eq!(
        ModifierPosition::Parameter.diagnose(m),
        Diagnostic { kind: DiagnosticKind::CannotAppearOnAParameter { modifier: ModifierKind::Static }, span: Span::new(0, 6) }
    );
    assert_eq!(
        ModifierPosition::Function.diagnose(m).kind,
        DiagnosticKind::ModifierCannotBeUsedHere { modifier: ModifierKind::Static }
    );
}

#[test]
fn tree_accessors() {
    let mut ast = Ast::new();
    assert_eq!(ast.len(), 0);
    assert_eq!(ast.get(0), None);
    ast.nodes.push(Node::ThisExpression { span: Span::new(0, 4) });
    ast.nodes.push(Node::ThisExpression { span: Span::new(5, 9) });
    ast.lists.push(1);
    ast.lists.push(0);
    assert_eq!(ast.len(), 2);
    assert_eq!(ast.node(1).span(), Span::new(5, 9));
    assert_eq!(ast.get(1), Some(Node::ThisExpression { span: Span::new(5, 9) }));
    assert_eq!(ast.get(2), None);
    assert_eq!(ast.items(NodeList { start: 0, len: 2 }), vec![1, 0]);
    assert_eq!(ast.items(NodeList { start: 1, len: 1 }), vec![0]);
    assert_eq!(ast.items(NodeList { start: 1, len: 2 }), Vec::<usize>::new());
    assert_eq!(ast.items(NodeList { start: usize::MAX, len: 2 }), Vec::<usize>::new());
    assert_eq!(ast.item(NodeList { start: 0, len: 2 }, 1), Some(0));
    assert_eq!(ast.item(NodeList { start: 0, len: 2 }, 2), None);
    assert_eq!(ast.item(NodeList { start: 3, len: 2 }, 0), None);
    assert!(FunctionType::TSDeclareFunction.is_bodiless());
    assert!(FunctionType::TSEmptyBodyFunctionExpression.is_bodiless());
    assert!(!FunctionType::FunctionDeclaration.is_bodiless());
    assert!(!FunctionType::FunctionExpression.is_bodiless());
}
