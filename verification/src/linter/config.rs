//! The rules and settings that a configuration file states.

use vstd::prelude::*;
use vstd::string::StringExecFns;
use crate::linter::json::{
    get,
    spec_get,
    json_array,
    json_array_of,
    json_integer,
    json_members,
    json_string,
    json_text,
    members_view,
    value_as_array,
    value_as_i64,
    value_as_str,
    value_clone,
    value_from_array,
    value_members,
    value_to_string,
};
use crate::linter::rule_name::{parse_rule_name, spec_parse_rule_name};
use crate::text::str_equal;

verus! {

/// How a rule is to be applied.
#[derive(Clone, Copy, Debug, PartialEq, Eq, Structural)]
pub enum AllowWarnDeny {
    Allow,
    Warn,
    Deny,
}

/// Why a configuration could not be read.
#[derive(Debug)]
pub enum ConfigError {
    /// The text of the file is no JSON.
    InvalidJson { path: String, message: String },
    /// The value of a rule is neither a severity nor an array that starts
    /// with one.
    InvalidRuleValue { value: String, message: String },
    /// A severity that is none of the known words and numbers.
    InvalidSeverity { value: String },
}

/// A [`ConfigError`] with its texts as sequences of characters.
pub enum ConfigErrorView {
    InvalidJson { path: Seq<char>, message: Seq<char> },
    InvalidRuleValue { value: Seq<char>, message: Seq<char> },
    InvalidSeverity { value: Seq<char> },
}

impl View for ConfigError {
    type V = ConfigErrorView;

    open spec fn view(&self) -> ConfigErrorView {
        match self {
            ConfigError::InvalidJson { path, message } => ConfigErrorView::InvalidJson {
                path: path@,
                message: message@,
            },
            ConfigError::InvalidRuleValue { value, message } => ConfigErrorView::InvalidRuleValue {
                value: value@,
                message: message@,
            },
            ConfigError::InvalidSeverity { value } => ConfigErrorView::InvalidSeverity {
                value: value@,
            },
        }
    }
}

impl ConfigError {
    /// The error written out for a reader.
    pub fn message(&self) -> (text: String)
        ensures
            text@ == match self@ {
                ConfigErrorView::InvalidJson { path, message } =>
                "Failed to parse config "@ + path + " with error "@ + message,
                ConfigErrorView::InvalidRuleValue { value, message } =>
                "Failed to parse rule value "@ + value + " with error "@ + message,
                ConfigErrorView::InvalidSeverity { value } =>
                "Failed to parse rule severity, expected one of \"allow\", \"off\", \"deny\", \"error\" or \"warn\", but got "@
                    + value,
            },
    {
        match self {
            ConfigError::InvalidJson { path, message } => String::from_str(
                "Failed to parse config ",
            ).concat(path.as_str()).concat(" with error ").concat(message.as_str()),
            ConfigError::InvalidRuleValue { value, message } => String::from_str(
                "Failed to parse rule value ",
            ).concat(value.as_str()).concat(" with error ").concat(message.as_str()),
            ConfigError::InvalidSeverity { value } => String::from_str(
                "Failed to parse rule severity, expected one of \"allow\", \"off\", \"deny\", \"error\" or \"warn\", but got ",
            ).concat(value.as_str()),
        }
    }
}

/// The severity that a word names: `allow` and `off`, `warn`, `deny` and
/// `error`.
pub open spec fn spec_severity_of_text(text: Seq<char>) -> Option<AllowWarnDeny> {
    if text == "allow"@ || text == "off"@ {
        Some(AllowWarnDeny::Allow)
    } else if text == "deny"@ || text == "error"@ {
        Some(AllowWarnDeny::Deny)
    } else if text == "warn"@ {
        Some(AllowWarnDeny::Warn)
    } else {
        None
    }
}

/// The severity that a number names: 0, 1 and 2.
pub open spec fn spec_severity_of_number(n: i64) -> Option<AllowWarnDeny> {
    if n == 0 {
        Some(AllowWarnDeny::Allow)
    } else if n == 1 {
        Some(AllowWarnDeny::Warn)
    } else if n == 2 {
        Some(AllowWarnDeny::Deny)
    } else {
        None
    }
}

/// The severity that a JSON value names: a string by its word, an integer by
/// its number. Anything else is an error that holds the value as JSON text.
pub open spec fn spec_severity_of_value(value: serde_json::Value) -> Result<
    AllowWarnDeny,
    ConfigErrorView,
> {
    match json_string(value) {
        Some(text) => match spec_severity_of_text(text) {
            Some(severity) => Ok(severity),
            None => Err(ConfigErrorView::InvalidSeverity { value: text }),
        },
        None => match json_integer(value) {
            Some(n) => match spec_severity_of_number(n) {
                Some(severity) => Ok(severity),
                None => Err(ConfigErrorView::InvalidSeverity { value: json_text(value) }),
            },
            None => Err(ConfigErrorView::InvalidSeverity { value: json_text(value) }),
        },
    }
}

/// An executable result stands for a result of the model.
pub open spec fn result_is<T>(r: Result<T, ConfigError>, model: Result<T, ConfigErrorView>) -> bool {
    match (r, model) {
        (Ok(a), Ok(b)) => a == b,
        (Err(e), Err(f)) => e@ == f,
        _ => false,
    }
}

impl AllowWarnDeny {
    pub fn is_warn_deny(self) -> (b: bool)
        ensures
            b == (self != AllowWarnDeny::Allow),
    {
        self != AllowWarnDeny::Allow
    }

    pub fn is_allow(self) -> (b: bool)
        ensures
            b == (self == AllowWarnDeny::Allow),
    {
        self == AllowWarnDeny::Allow
    }

    /// The severity that a word names.
    pub fn try_from_str(text: &str) -> (r: Result<AllowWarnDeny, ConfigError>)
        ensures
            result_is(
                r,
                match spec_severity_of_text(text@) {
                    Some(severity) => Ok(severity),
                    None => Err(ConfigErrorView::InvalidSeverity { value: text@ }),
                },
            ),
    {
        if str_equal(text, "allow") || str_equal(text, "off") {
            Ok(AllowWarnDeny::Allow)
        } else if str_equal(text, "deny") || str_equal(text, "error") {
            Ok(AllowWarnDeny::Deny)
        } else if str_equal(text, "warn") {
            Ok(AllowWarnDeny::Warn)
        } else {
            Err(ConfigError::InvalidSeverity { value: String::from_str(text) })
        }
    }

    /// The severity that a JSON value names.
    pub fn try_from_value(value: &serde_json::Value) -> (r: Result<AllowWarnDeny, ConfigError>)
        ensures
            result_is(r, spec_severity_of_value(*value)),
    {
        if let Some(text) = value_as_str(value) {
            return AllowWarnDeny::try_from_str(text);
        }
        if let Some(n) = value_as_i64(value) {
            if n == 0 {
                return Ok(AllowWarnDeny::Allow);
            } else if n == 1 {
                return Ok(AllowWarnDeny::Warn);
            } else if n == 2 {
                return Ok(AllowWarnDeny::Deny);
            }
        }
        Err(ConfigError::InvalidSeverity { value: value_to_string(value) })
    }
}

/// The configuration that the items of a rule's array state: the second and
/// the third item, as an array of their own; none where there is no second
/// item.
pub open spec fn spec_rule_options(items: Seq<serde_json::Value>) -> Option<serde_json::Value> {
    if items.len() <= 1 {
        None
    } else {
        Some(json_array_of(items.subrange(1, if items.len() < 3 {
            items.len() as int
        } else {
            3
        })))
    }
}

/// The severity and the configuration that the value of a rule states.
///
/// A string states a severity and no configuration. An array with a first
/// item states the severity by that item and the configuration by the two
/// items after it. Anything else is an error that holds the value as JSON
/// text.
pub open spec fn spec_resolve_rule_value(value: serde_json::Value) -> Result<
    (AllowWarnDeny, Option<serde_json::Value>),
    ConfigErrorView,
> {
    match json_string(value) {
        Some(text) => match spec_severity_of_text(text) {
            Some(severity) => Ok((severity, None)),
            None => Err(ConfigErrorView::InvalidSeverity { value: text }),
        },
        None => match json_array(value) {
            Some(items) => if items.len() > 0 {
                match spec_severity_of_value(items[0]) {
                    Ok(severity) => Ok((severity, spec_rule_options(items))),
                    Err(e) => Err(e),
                }
            } else {
                Err(
                    ConfigErrorView::InvalidRuleValue {
                        value: json_text(value),
                        message: "Invalid rule value"@,
                    },
                )
            },
            None => Err(
                ConfigErrorView::InvalidRuleValue {
                    value: json_text(value),
                    message: "Invalid rule value"@,
                },
            ),
        },
    }
}

/// Executable form of [`spec_resolve_rule_value`].
pub fn resolve_rule_value(value: &serde_json::Value) -> (r: Result<
    (AllowWarnDeny, Option<serde_json::Value>),
    ConfigError,
>)
    ensures
        result_is(r, spec_resolve_rule_value(*value)),
{
    if let Some(text) = value_as_str(value) {
        return match AllowWarnDeny::try_from_str(text) {
            Ok(severity) => Ok((severity, None)),
            Err(e) => Err(e),
        };
    }
    if let Some(items) = value_as_array(value) {
        let mut config: Vec<serde_json::Value> = Vec::new();
        let mut i: usize = 1;
        while i < items.len() && i < 3
            invariant
                1 <= i <= 3,
                i <= items@.len() || items@.len() == 0,
                config@ == if items@.len() == 0 {
                    Seq::<serde_json::Value>::empty()
                } else {
                    items@.subrange(1, i as int)
                },
            decreases 3 - i,
        {
            config.push(value_clone(&items[i]));
            i += 1;
            assert(config@ =~= items@.subrange(1, i as int));
        }
        let config = if config.len() == 0 {
            None
        } else {
            Some(value_from_array(config))
        };
        if items.len() > 0 {
            return match AllowWarnDeny::try_from_value(&items[0]) {
                Ok(severity) => Ok((severity, config)),
                Err(e) => Err(e),
            };
        }
    }
    Err(
        ConfigError::InvalidRuleValue {
            value: value_to_string(value),
            message: String::from_str("Invalid rule value"),
        },
    )
}

/// One rule as a configuration file states it.
#[derive(Debug)]
pub struct ESLintRuleConfig {
    pub plugin_name: String,
    pub rule_name: String,
    pub severity: AllowWarnDeny,
    pub config: Option<serde_json::Value>,
}

/// An [`ESLintRuleConfig`] with its names as sequences of characters.
pub struct RuleConfigView {
    pub plugin_name: Seq<char>,
    pub rule_name: Seq<char>,
    pub severity: AllowWarnDeny,
    pub config: Option<serde_json::Value>,
}

impl View for ESLintRuleConfig {
    type V = RuleConfigView;

    open spec fn view(&self) -> RuleConfigView {
        RuleConfigView {
            plugin_name: self.plugin_name@,
            rule_name: self.rule_name@,
            severity: self.severity,
            config: self.config,
        }
    }
}

/// The views of a list of rules.
pub open spec fn rules_view(rules: Seq<ESLintRuleConfig>) -> Seq<RuleConfigView> {
    Seq::new(rules.len(), |i: int| rules[i]@)
}

/// The rule that one member of the `rules` object states.
pub open spec fn spec_rule_of(key: Seq<char>, value: serde_json::Value) -> Result<
    RuleConfigView,
    ConfigErrorView,
> {
    match spec_resolve_rule_value(value) {
        Ok((severity, config)) => Ok(
            RuleConfigView {
                plugin_name: spec_parse_rule_name(key).0,
                rule_name: spec_parse_rule_name(key).1,
                severity,
                config,
            },
        ),
        Err(e) => Err(e),
    }
}

/// The rules that the members of the `rules` object state, in their order;
/// the error of the first member that states none.
pub open spec fn spec_rules_of(members: Seq<(Seq<char>, serde_json::Value)>) -> Result<
    Seq<RuleConfigView>,
    ConfigErrorView,
>
    decreases members.len(),
{
    if members.len() == 0 {
        Ok(Seq::empty())
    } else {
        match spec_rules_of(members.drop_last()) {
            Ok(before) => match spec_rule_of(members.last().0, members.last().1) {
                Ok(rule) => Ok(before.push(rule)),
                Err(e) => Err(e),
            },
            Err(e) => Err(e),
        }
    }
}

/// The rules that a configuration states: those of the object under `rules`
/// of the root object, and none where the root or `rules` is no object.
pub open spec fn spec_parse_rules(root: serde_json::Value) -> Result<
    Seq<RuleConfigView>,
    ConfigErrorView,
> {
    match spec_get(root, "rules"@) {
        Some(rules) => match json_members(rules) {
            Some(members) => spec_rules_of(members),
            None => Ok(Seq::empty()),
        },
        None => Ok(Seq::empty()),
    }
}

/// A list of rules stands for a result of the model.
pub open spec fn rules_result_is(
    r: Result<Vec<ESLintRuleConfig>, ConfigError>,
    model: Result<Seq<RuleConfigView>, ConfigErrorView>,
) -> bool {
    match (r, model) {
        (Ok(rules), Ok(views)) => rules_view(rules@) == views,
        (Err(e), Err(f)) => e@ == f,
        _ => false,
    }
}

/// Executable form of [`spec_parse_rules`].
pub fn parse_rules(root_json: &serde_json::Value) -> (r: Result<Vec<ESLintRuleConfig>, ConfigError>)
    ensures
        rules_result_is(r, spec_parse_rules(*root_json)),
{
    let Some(rules_value) = get(root_json, "rules") else {
        assert(rules_view(Seq::<ESLintRuleConfig>::empty()) =~= Seq::<RuleConfigView>::empty());
        return Ok(Vec::new());
    };
    let Some(members) = value_members(rules_value) else {
        assert(rules_view(Seq::<ESLintRuleConfig>::empty()) =~= Seq::<RuleConfigView>::empty());
        return Ok(Vec::new());
    };
    let ghost all = members_view(members@);
    let mut rules: Vec<ESLintRuleConfig> = Vec::new();
    let mut i: usize = 0;
    assert(all.take(0) =~= Seq::empty());
    assert(rules_view(rules@) =~= Seq::<RuleConfigView>::empty());
    while i < members.len()
        invariant
            i <= members@.len(),
            all == members_view(members@),
            spec_rules_of(all.take(i as int)) == Ok::<Seq<RuleConfigView>, ConfigErrorView>(
                rules_view(rules@),
            ),
            spec_parse_rules(*root_json) == spec_rules_of(all),
        decreases members@.len() - i,
    {
        let (key, value) = members[i];
        proof {
            assert(all.take(i + 1).drop_last() =~= all.take(i as int));
            assert(all.take(i + 1).last() == (key@, *value));
        }
        let (plugin_name, rule_name) = parse_rule_name(key);
        match resolve_rule_value(value) {
            Ok((severity, config)) => {
                let ghost before = rules_view(rules@);
                rules.push(
                    ESLintRuleConfig {
                        plugin_name: String::from_str(plugin_name),
                        rule_name: String::from_str(rule_name),
                        severity,
                        config,
                    },
                );
                assert(rules_view(rules@) =~= before.push(rules@.last()@));
            },
            Err(e) => {
                proof {
                    lemma_rules_error_stays(all, i + 1);
                }
                return Err(e);
            },
        }
        i += 1;
    }
    assert(all.take(i as int) =~= all);
    Ok(rules)
}

/// Once the members up to `n` give an error, all members give that error.
pub proof fn lemma_rules_error_stays(members: Seq<(Seq<char>, serde_json::Value)>, n: int)
    requires
        0 <= n <= members.len(),
        spec_rules_of(members.take(n)) is Err,
    ensures
        spec_rules_of(members) == spec_rules_of(members.take(n)),
    decreases members.len() - n,
{
    if n < members.len() {
        assert(members.take(n + 1).drop_last() =~= members.take(n));
        lemma_rules_error_stays(members, n + 1);
    } else {
        assert(members.take(n) =~= members);
    }
}

} // verus!
