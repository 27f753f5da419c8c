use oxc_front::linter::context::{LintContext, LintDiagnostic};
use oxc_front::linter::prefer_string_replace_all::{
    get_pattern_replacement, is_reg_exp_with_global_flag, PreferStringReplaceAll,
};
use oxc_front::ast::Node;
use oxc_front::parser::entry::parse;

fn reports(source: &str) -> Vec<LintDiagnostic> {
    let ret = parse(source, false).unwrap();
    assert!(!ret.panicked, "{}: {:?}", source, ret.errors);
    assert!(ret.errors.is_empty(), "{}: {:?}", source, ret.errors);
    let mut ctx = LintContext::new(source);
    PreferStringReplaceAll::default().run_on_tree(&ret.ast, &mut ctx);
    ctx.diagnostics
}

#[test]
fn test() {
    let pass = vec![
        r"foo.replace(/a/, bar)",
        r"foo.replaceAll(/a/, bar)",
        r#"foo.replace("string", bar)"#,
        r#"foo.replaceAll("string", bar)"#,
        r"foo.replace(/a/g)",
        r"foo.replaceAll(/a/g)",
        r"foo.replace(/\\./g)",
        r"foo.replaceAll(/\\./g)",
        r"new foo.replace(/a/g, bar)",
        r"new foo.replaceAll(/a/g, bar)",
        r"replace(/a/g, bar)",
        r"replaceAll(/a/g, bar)",
        r"foo[replace](/a/g, bar);",
        r"foo[replaceAll](/a/g, bar);",
        r"foo.methodNotReplace(/a/g, bar);",
        r"foo['replace'](/a/g, bar)",
        r"foo['replaceAll'](/a/g, bar)",
        r"foo.replace(/a/g, bar, extra);",
        r"foo.replaceAll(/a/g, bar, extra);",
        r"foo.replace();",
        r"foo.replaceAll();",
        r"foo.replace(...argumentsArray, ...argumentsArray2)",
        r"foo.replaceAll(...argumentsArray, ...argumentsArray2)",
        r"foo.replace(unknown, bar)",
        r#"const pattern = new RegExp("foo", unknown); foo.replace(pattern, bar)"#,
        r#"const pattern = new RegExp("foo"); foo.replace(pattern, bar)"#,
        r"const pattern = new RegExp(); foo.replace(pattern, bar)",
        r#"const pattern = "string"; foo.replace(pattern, bar)"#,
        r#"const pattern = new RegExp("foo", "g"); foo.replace(...[pattern], bar)"#,
        r#"const pattern = "not-a-regexp"; foo.replace(pattern, bar)"#,
        r#"const pattern = new RegExp("foo", "i"); foo.replace(pattern, bar)"#,
        r#"foo.replace(new NotRegExp("foo", "g"), bar)"#,
    ];

    let fail = vec![
        r"foo.replace(/a/g, bar)",
        r#"foo.replace(/"'/g, '\'')"#,
        r"foo.replace(/\./g, bar)",
        r"foo.replace(/\\\./g, bar)",
        r"foo.replace(/\|/g, bar)",
        r"foo.replace(/a/gu, bar)",
        r"foo.replace(/a/ug, bar)",
        r"foo.replace(/[a]/g, bar)",
        r"foo.replace(/a?/g, bar)",
        r"foo.replace(/.*/g, bar)",
        r"foo.replace(/a|b/g, bar)",
        r"foo.replace(/\W/g, bar)",
        r"foo.replace(/\u{61}/g, bar)",
        r"foo.replace(/\u{61}/gu, bar)",
        r"foo.replace(/\u{61}/gv, bar)",
        r#"foo.replace(/]/g, "bar")"#,
        r"foo.replace(/a/gi, bar)",
        r"foo.replace(/a/gui, bar)",
        r"foo.replace(/a/uig, bar)",
        r"foo.replace(/a/vig, bar)",
        r#"foo.replace(new RegExp("foo", "g"), bar)"#,
        r"foo.replace(/a]/g, _)",
        r"foo.replace(/[a]/g, _)",
        r"foo.replace(/a{1/g, _)",
        r"foo.replace(/a{1}/g, _)",
        r"foo.replace(/\u0022/g, _)",
        r"foo.replace(/\u0027/g, _)",
        r"foo.replace(/\cM\cj/g, _)",
        r"foo.replace(/\x22/g, _)",
        r"foo.replace(/\x27/g, _)",
        r"foo.replace(/\uD83D\ude00/g, _)",
        r"foo.replace(/\u{1f600}/gu, _)",
        r"foo.replace(/\n/g, _)",
        r"foo.replace(/\u{20}/gu, _)",
        r"foo.replace(/\u{20}/gv, _)",
        r"foo.replaceAll(/a]/g, _)",
        r"foo.replaceAll(/a very very very very very very very very very very very very very very very very very very very very very very very very very very very very very long string/g, _)",
        r#"foo.replace(/(?!a)+/g, "")"#,
        r#""Hello world".replaceAll(/world/g, 'world!');"#,
    ];

    for source in pass {
        assert!(reports(source).is_empty(), "{}", source);
    }
    for source in fail {
        assert_eq!(reports(source).len(), 1, "{}", source);
    }
}

#[test]
fn replace_with_global_regex_points_at_the_method_name() {
    let found = reports("foo.replace(/a/g, bar)");
    match &found[0] {
        LintDiagnostic::UseReplaceAll { span } => assert_eq!((span.start, span.end), (4, 11)),
        other => panic!("{:?}", other),
    }
}

#[test]
fn replace_all_with_simple_pattern_names_the_string() {
    let found = reports("foo.replaceAll(/a]/g, _)");
    match &found[0] {
        LintDiagnostic::StringLiteral { span, replacement } => {
            assert_eq!((span.start, span.end), (4, 14));
            assert_eq!(replacement, "a]");
        },
        other => panic!("{:?}", other),
    }
    let found = reports(r#""Hello world".replaceAll(/world/g, 'world!');"#);
    match &found[0] {
        LintDiagnostic::StringLiteral { replacement, .. } => assert_eq!(replacement, "world"),
        other => panic!("{:?}", other),
    }
}

#[test]
fn replace_all_with_pattern_syntax_is_left_alone() {
    assert!(reports(r"foo.replaceAll(/a.b/g, _)").is_empty());
    assert!(reports(r"foo.replaceAll(/a/i, _)").is_empty());
    assert!(reports(r#"foo.replaceAll(new RegExp("a", "g"), _)"#).is_empty());
}

#[test]
fn regexp_constructor_flags() {
    assert_eq!(reports(r#"foo.replace(new RegExp("foo", "gi"), bar)"#).len(), 1);
    assert_eq!(reports(r#"foo.replace(new RegExp("foo", 'g'), bar)"#).len(), 1);
    // a string that is no list of flags says nothing
    assert!(reports(r#"foo.replace(new RegExp("foo", "gx"), bar)"#).is_empty());
    assert!(reports(r#"foo.replace(new RegExp("foo", ""), bar)"#).is_empty());
    assert!(reports(r#"foo.replace(new RegExp("foo"), bar)"#).is_empty());
}

#[test]
fn text_outside_of_ascii() {
    assert_eq!(reports("föö.replace(/ä/g, bar)").len(), 1);
    let found = reports("föö.replaceAll(/äö/g, bar)");
    match &found[0] {
        LintDiagnostic::StringLiteral { replacement, .. } => assert_eq!(replacement, "äö"),
        other => panic!("{:?}", other),
    }
}

#[test]
fn helpers_on_single_nodes() {
    let source = "x = /a b/gu";
    let ret = parse(source, false).unwrap();
    let ctx = LintContext::new(source);
    let regex = ret.ast.nodes.iter().position(|n| matches!(n, Node::RegExpLiteral { .. })).unwrap();
    assert!(is_reg_exp_with_global_flag(&ret.ast, &ctx, regex));
    assert_eq!(get_pattern_replacement(&ret.ast, &ctx, regex), Some("a b"));
    let name = ret.ast.nodes.iter().position(|n| matches!(n, Node::IdentifierReference { .. })).unwrap();
    assert!(!is_reg_exp_with_global_flag(&ret.ast, &ctx, name));
    assert_eq!(get_pattern_replacement(&ret.ast, &ctx, name), None);
    // a node that is not there
    assert!(!is_reg_exp_with_global_flag(&ret.ast, &ctx, 10_000));
}

#[test]
fn rule_names_itself() {
    assert_eq!(PreferStringReplaceAll::name(), "prefer-string-replace-all");
    assert_eq!(PreferStringReplaceAll::plugin_name(), "unicorn");
    assert_eq!(PreferStringReplaceAll::category(), "pedantic");
}

#[test]
fn report_texts() {
    let found = reports("foo.replaceAll(/a]/g, _)");
    assert_eq!(
        found[0].message(),
        "eslint-plugin-unicorn(prefer-string-replace-all): This pattern can be replaced with `a]`."
    );
    let found = reports("foo.replace(/a/g, bar)");
    assert_eq!(
        found[0].message(),
        "eslint-plugin-unicorn(prefer-string-replace-all): Prefer `String#replaceAll()` over `String#replace()` when using a regex with the global flag."
    );
    assert_eq!((found[0].span().start, found[0].span().end), (4, 11));
}

#[test]
fn one_report_for_each_call() {
    let found = reports("a.replace(/x/g, b); c.replaceAll(/y/g, d); e.replace(/z/, f)");
    assert_eq!(found.len(), 2);
    assert!(matches!(found[0], LintDiagnostic::UseReplaceAll { .. }));
    assert!(matches!(found[1], LintDiagnostic::StringLiteral { .. }));
    // a call inside the arguments of another one
    let found = reports("a.replace(b.replace(/x/g, c), d)");
    assert_eq!(found.len(), 1);
}
