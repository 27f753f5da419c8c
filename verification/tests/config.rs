use oxc_front::linter::config::{
    parse_rules, resolve_rule_value, AllowWarnDeny, ConfigError,
};
use oxc_front::linter::eslint_config::{config_error_message, ESLintConfig};
use oxc_front::linter::rules::{RuleEnum, RuleSet};
use oxc_front::linter::settings::{parse_settings, LintSettings};

fn json(text: &str) -> serde_json::Value {
    serde_json::from_str(text).unwrap()
}

fn set_of(rules: &[&RuleEnum]) -> RuleSet {
    let mut set = RuleSet::default();
    for r in rules {
        set.insert(r.id, r.duplicate());
    }
    set
}

fn names(set: &RuleSet) -> Vec<(usize, String, String, Option<String>)> {
    let mut out: Vec<_> = set
        .iter()
        .map(|(k, r)| {
            (*k, r.plugin_name.clone(), r.name.clone(), r.config.as_ref().map(|c| c.to_string()))
        })
        .collect();
    out.sort();
    out
}

#[test]
fn severity_words_and_numbers() {
    assert_eq!(AllowWarnDeny::try_from_str("allow").unwrap(), AllowWarnDeny::Allow);
    assert_eq!(AllowWarnDeny::try_from_str("off").unwrap(), AllowWarnDeny::Allow);
    assert_eq!(AllowWarnDeny::try_from_str("warn").unwrap(), AllowWarnDeny::Warn);
    assert_eq!(AllowWarnDeny::try_from_str("deny").unwrap(), AllowWarnDeny::Deny);
    assert_eq!(AllowWarnDeny::try_from_str("error").unwrap(), AllowWarnDeny::Deny);
    assert!(matches!(
        AllowWarnDeny::try_from_str("loud"),
        Err(ConfigError::InvalidSeverity { value }) if value == "loud"
    ));
    assert_eq!(AllowWarnDeny::try_from_value(&json("0")).unwrap(), AllowWarnDeny::Allow);
    assert_eq!(AllowWarnDeny::try_from_value(&json("1")).unwrap(), AllowWarnDeny::Warn);
    assert_eq!(AllowWarnDeny::try_from_value(&json("2")).unwrap(), AllowWarnDeny::Deny);
    assert_eq!(AllowWarnDeny::try_from_value(&json("\"off\"")).unwrap(), AllowWarnDeny::Allow);
    assert!(matches!(
        AllowWarnDeny::try_from_value(&json("3")),
        Err(ConfigError::InvalidSeverity { value }) if value == "3"
    ));
    assert!(matches!(
        AllowWarnDeny::try_from_value(&json("{\"a\":[1]}")),
        Err(ConfigError::InvalidSeverity { value }) if value == "{\"a\":[1]}"
    ));
    assert!(AllowWarnDeny::Warn.is_warn_deny());
    assert!(AllowWarnDeny::Deny.is_warn_deny());
    assert!(!AllowWarnDeny::Allow.is_warn_deny());
    assert!(AllowWarnDeny::Allow.is_allow());
}

#[test]
fn rule_value_forms() {
    let (severity, config) = resolve_rule_value(&json("\"off\"")).unwrap();
    assert_eq!(severity, AllowWarnDeny::Allow);
    assert!(config.is_none());

    let (severity, config) = resolve_rule_value(&json("[\"error\"]")).unwrap();
    assert_eq!(severity, AllowWarnDeny::Deny);
    assert!(config.is_none());

    let (severity, config) = resolve_rule_value(&json("[\"warn\", {\"max\": 3}]")).unwrap();
    assert_eq!(severity, AllowWarnDeny::Warn);
    assert_eq!(config.unwrap(), json("[{\"max\": 3}]"));

    let (severity, config) = resolve_rule_value(&json("[2, \"a\", \"b\", \"c\"]")).unwrap();
    assert_eq!(severity, AllowWarnDeny::Deny);
    // only the two items after the severity count
    assert_eq!(config.unwrap(), json("[\"a\", \"b\"]"));
}

#[test]
fn rule_value_errors() {
    assert!(matches!(
        resolve_rule_value(&json("[]")),
        Err(ConfigError::InvalidRuleValue { value, message })
            if value == "[]" && message == "Invalid rule value"
    ));
    assert!(matches!(
        resolve_rule_value(&json("{\"a\":1}")),
        Err(ConfigError::InvalidRuleValue { value, .. }) if value == "{\"a\":1}"
    ));
    assert!(matches!(
        resolve_rule_value(&json("1")),
        Err(ConfigError::InvalidRuleValue { value, .. }) if value == "1"
    ));
    assert!(matches!(
        resolve_rule_value(&json("\"sometimes\"")),
        Err(ConfigError::InvalidSeverity { value }) if value == "sometimes"
    ));
    assert!(matches!(
        resolve_rule_value(&json("[null, 1]")),
        Err(ConfigError::InvalidSeverity { value }) if value == "null"
    ));
}

#[test]
fn test_parse_rules() {
    let file = json(
        r#"{
            "rules": {
                "no-console": "off",
                "no-debugger": [2],
                "no-bitwise": ["error", { "allow": ["~"] }],
                "eqeqeq": ["error", "always", { "null": "ignore" }, "foo"],
                "@typescript-eslint/ban-types": "error",
                "jsx-a11y/alt-text": "warn",
                "@next/next/noop": [1]
            }
        }"#,
    );
    let rules = parse_rules(&file).unwrap();
    let mut got: Vec<(String, String, AllowWarnDeny, Option<String>)> = rules
        .iter()
        .map(|r| {
            (
                r.plugin_name.clone(),
                r.rule_name.clone(),
                r.severity,
                r.config.as_ref().map(|c| c.to_string()),
            )
        })
        .collect();
    got.sort_by(|a, b| (a.0.as_str(), a.1.as_str()).cmp(&(b.0.as_str(), b.1.as_str())));
    let expected = vec![
        ("eslint", "eqeqeq", AllowWarnDeny::Deny, Some(r#"["always",{"null":"ignore"}]"#)),
        ("eslint", "no-bitwise", AllowWarnDeny::Deny, Some(r#"[{"allow":["~"]}]"#)),
        ("eslint", "no-console", AllowWarnDeny::Allow, None),
        ("eslint", "no-debugger", AllowWarnDeny::Deny, None),
        ("jsx_a11y", "alt-text", AllowWarnDeny::Warn, None),
        ("next", "next/noop", AllowWarnDeny::Warn, None),
        ("typescript", "ban-types", AllowWarnDeny::Deny, None),
    ];
    let expected: Vec<(String, String, AllowWarnDeny, Option<String>)> = expected
        .into_iter()
        .map(|(p, n, s, c)| (p.to_string(), n.to_string(), s, c.map(|c| c.to_string())))
        .collect();
    assert_eq!(got, expected);
}

#[test]
fn rules_come_in_the_order_of_the_object() {
    let file = json(r#"{"rules": {"a": "off", "b": "warn", "c": "error"}}"#);
    let rules = parse_rules(&file).unwrap();
    let object = file.get("rules").unwrap().as_object().unwrap();
    let keys: Vec<&str> = object.keys().map(|k| k.as_str()).collect();
    let got: Vec<&str> = rules.iter().map(|r| r.rule_name.as_str()).collect();
    assert_eq!(got, keys);
}

#[test]
fn parse_rules_without_rules() {
    assert!(parse_rules(&json("{}")).unwrap().is_empty());
    assert!(parse_rules(&json("[]")).unwrap().is_empty());
    assert!(parse_rules(&json("{\"rules\": []}")).unwrap().is_empty());
    assert!(parse_rules(&json("{\"rules\": {}}")).unwrap().is_empty());
}

#[test]
fn parse_rules_gives_the_first_error() {
    let file = json(r#"{"rules": {"a": "off", "b": [], "c": "never"}}"#);
    assert!(matches!(parse_rules(&file), Err(ConfigError::InvalidRuleValue { .. })));
    let file = json(r#"{"rules": {"a": "never", "b": []}}"#);
    assert!(matches!(
        parse_rules(&file),
        Err(ConfigError::InvalidSeverity { value }) if value == "never"
    ));
}

#[test]
fn settings_of_jsx_a11y() {
    let settings = parse_settings(&json(
        r#"{"jsx-a11y": {"polymorphicPropName": "as", "components": {"Link": "a", "Btn": "button", "Odd": 3}}}"#,
    ));
    assert_eq!(settings.jsx_a11y.polymorphic_prop_name.as_deref(), Some("as"));
    assert_eq!(settings.jsx_a11y.component("Link").map(|s| s.as_str()), Some("a"));
    assert_eq!(settings.jsx_a11y.component("Btn").map(|s| s.as_str()), Some("button"));
    assert_eq!(settings.jsx_a11y.component("Odd"), None);
    assert_eq!(settings.jsx_a11y.component("Other"), None);
    assert_eq!(settings.jsx_a11y.components.len(), 2);
}

#[test]
fn settings_default_where_nothing_is_stated() {
    for text in ["{}", "[]", "3", r#"{"jsx-a11y": 1}"#, r#"{"other": {}}"#] {
        let settings = parse_settings(&json(text));
        assert!(settings.jsx_a11y.polymorphic_prop_name.is_none());
        assert!(settings.jsx_a11y.components.is_empty());
    }
    let settings = parse_settings(&json(r#"{"jsx-a11y": {"components": [], "polymorphicPropName": 1}}"#));
    assert!(settings.jsx_a11y.polymorphic_prop_name.is_none());
    assert!(settings.jsx_a11y.components.is_empty());
    let settings = LintSettings::default();
    assert!(settings.jsx_a11y.components.is_empty());
}

#[test]
fn config_from_text() {
    let config = ESLintConfig::new(
        "eslint.json",
        r#"{"rules": {"no-console": "warn"}, "settings": {"jsx-a11y": {"polymorphicPropName": "as"}}}"#,
    )
    .unwrap();
    assert_eq!(config.rules.len(), 1);
    assert_eq!(config.rules[0].plugin_name, "eslint");
    assert_eq!(config.rules[0].rule_name, "no-console");
    assert_eq!(config.rules[0].severity, AllowWarnDeny::Warn);
    let settings = config.settings();
    assert_eq!(settings.jsx_a11y.polymorphic_prop_name.as_deref(), Some("as"));
}

#[test]
fn config_that_is_no_json() {
    let reader = serde_json::from_str::<serde_json::Value>("{ rules }").unwrap_err().to_string();
    match ESLintConfig::new("dir/eslint.json", "{ rules }") {
        Err(ConfigError::InvalidJson { path, message }) => {
            assert_eq!(path, "dir/eslint.json");
            assert_eq!(message, reader);
        },
        _ => panic!("an error was due"),
    }
    match ESLintConfig::new("eslint.yaml", "{ rules }") {
        Err(ConfigError::InvalidJson { message, .. }) => {
            assert_eq!(message, "only json configuration is supported");
        },
        _ => panic!("an error was due"),
    }
    match ESLintConfig::new("eslintrc", "{ rules }") {
        Err(ConfigError::InvalidJson { message, .. }) => {
            assert_eq!(
                message,
                format!(
                    "{}, if the configuration is not a json file, please use json instead.",
                    reader
                )
            );
        },
        _ => panic!("an error was due"),
    }
}

#[test]
fn config_error_message_cases() {
    assert_eq!(config_error_message(Some("json".to_string()), "bad".to_string()), "bad");
    assert_eq!(
        config_error_message(Some("x-yaml".to_string()), "bad".to_string()),
        "only json configuration is supported"
    );
    assert_eq!(
        config_error_message(None, "bad".to_string()),
        "bad, if the configuration is not a json file, please use json instead."
    );
}

#[test]
fn config_error_texts() {
    let e = ConfigError::InvalidRuleValue {
        value: "[]".to_string(),
        message: "Invalid rule value".to_string(),
    };
    assert_eq!(e.message(), "Failed to parse rule value [] with error Invalid rule value");
    let e = ConfigError::InvalidJson { path: "a.json".to_string(), message: "m".to_string() };
    assert_eq!(e.message(), "Failed to parse config a.json with error m");
}

#[test]
fn config_with_rules_that_do_not_parse() {
    assert!(matches!(
        ESLintConfig::new("a.json", r#"{"rules": {"x": {}}}"#),
        Err(ConfigError::InvalidRuleValue { .. })
    ));
}

#[test]
fn override_turns_rules_on_and_off() {
    let no_console = RuleEnum::new(0, "eslint", "no-console");
    let no_debugger = RuleEnum::new(1, "eslint", "no-debugger");
    let eqeqeq = RuleEnum::new(2, "eslint", "eqeqeq");
    let ban_types = RuleEnum::new(3, "typescript", "ban-types");
    let all = vec![
        no_console.duplicate(),
        no_debugger.duplicate(),
        eqeqeq.duplicate(),
        ban_types.duplicate(),
    ];
    let mut set = set_of(&[&no_console, &no_debugger]);
    let config = ESLintConfig::new(
        "a.json",
        r#"{"rules": {
            "no-console": "off",
            "eqeqeq": ["error", "always"],
            "@typescript-eslint/ban-types": "warn",
            "unknown-rule": "error",
            "no-undef": "off"
        }}"#,
    )
    .unwrap();
    config.override_rules(&mut set, &all);
    assert_eq!(
        names(&set),
        vec![
            (1, "eslint".to_string(), "no-debugger".to_string(), None),
            (2, "eslint".to_string(), "eqeqeq".to_string(), Some("[\"always\"]".to_string())),
            (3, "typescript".to_string(), "ban-types".to_string(), None),
        ]
    );
}

#[test]
fn override_replaces_the_configuration_of_a_rule_in_the_set() {
    let eqeqeq = RuleEnum::new(2, "eslint", "eqeqeq");
    let all = vec![eqeqeq.duplicate()];
    let mut set = set_of(&[&eqeqeq.read_json(Some(json("[\"smart\"]")))]);
    let config = ESLintConfig::new("a.json", r#"{"rules": {"eqeqeq": ["warn", "always"]}}"#).unwrap();
    config.override_rules(&mut set, &all);
    assert_eq!(
        names(&set),
        vec![(2, "eslint".to_string(), "eqeqeq".to_string(), Some("[\"always\"]".to_string()))]
    );
}

#[test]
fn override_with_one_name_in_two_plugins() {
    let plain = RuleEnum::new(0, "eslint", "no-loss-of-precision");
    let all = vec![plain.duplicate()];

    // one of the two denies: the rule of that name in the set gets its configuration
    let mut set = set_of(&[&plain]);
    let config = ESLintConfig::new(
        "a.json",
        r#"{"rules": {
            "no-loss-of-precision": "off",
            "@typescript-eslint/no-loss-of-precision": ["error", 1]
        }}"#,
    )
    .unwrap();
    config.override_rules(&mut set, &all);
    assert_eq!(
        names(&set),
        vec![(0, "eslint".to_string(), "no-loss-of-precision".to_string(), Some("[1]".to_string()))]
    );

    // both allow: the rule leaves the set
    let mut set = set_of(&[&plain]);
    let config = ESLintConfig::new(
        "a.json",
        r#"{"rules": {
            "no-loss-of-precision": "off",
            "@typescript-eslint/no-loss-of-precision": "off"
        }}"#,
    )
    .unwrap();
    config.override_rules(&mut set, &all);
    assert!(set.is_empty());

    // no rule of that name in the set: nothing happens
    let other = RuleEnum::new(5, "eslint", "other");
    let mut set = set_of(&[&other]);
    config.override_rules(&mut set, &all);
    assert_eq!(names(&set), vec![(5, "eslint".to_string(), "other".to_string(), None)]);
}

#[test]
fn override_without_rules_changes_nothing() {
    let a = RuleEnum::new(0, "eslint", "a");
    let mut set = set_of(&[&a]);
    let config = ESLintConfig::new("a.json", "{}").unwrap();
    config.override_rules(&mut set, &[a.duplicate()]);
    assert_eq!(names(&set), vec![(0, "eslint".to_string(), "a".to_string(), None)]);
}
