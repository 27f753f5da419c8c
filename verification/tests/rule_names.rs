use oxc_front::linter::prefer_string_replace_all::is_simple_string;
use oxc_front::linter::rule_name::parse_rule_name;

#[test]
fn rule_name_without_category_belongs_to_eslint() {
    assert_eq!(parse_rule_name("no-console"), ("eslint", "no-console"));
}

#[test]
fn rule_name_with_scoped_category() {
    assert_eq!(
        parse_rule_name("@typescript-eslint/no-loss-of-precision"),
        ("typescript", "no-loss-of-precision")
    );
    assert_eq!(parse_rule_name("jsx-a11y/alt-text"), ("jsx_a11y", "alt-text"));
    assert_eq!(parse_rule_name("unicorn/prefer-string-replace-all"), ("unicorn", "prefer-string-replace-all"));
}

#[test]
fn rule_name_splits_at_first_slash() {
    assert_eq!(parse_rule_name("a/b/c"), ("a", "b/c"));
    assert_eq!(parse_rule_name("@@x/"), ("x", ""));
    assert_eq!(parse_rule_name("/x"), ("", "x"));
}

#[test]
fn simple_strings() {
    assert!(is_simple_string("a"));
    assert!(is_simple_string(""));
    assert!(is_simple_string("a very long string ]"));
    assert!(!is_simple_string("a.b"));
    assert!(!is_simple_string("\\."));
    assert!(!is_simple_string("[a]"));
    assert!(!is_simple_string("a{1"));
    assert!(!is_simple_string("a|b"));
    assert!(!is_simple_string("(?!a)+"));
}
