//! A configuration file as a whole: reading it, and applying what it says
//! to the rules of a run.

use vstd::prelude::*;
use vstd::string::StringExecFns;
use crate::linter::config::{
    parse_rules,
    rules_view,
    spec_parse_rules,
    AllowWarnDeny,
    ConfigError,
    ESLintRuleConfig,
};
use crate::linter::json::{json_parse, parse_json_text, value_clone};
use crate::linter::rules::{
    enumerates,
    find_in_set,
    find_rule,
    rule_set_ids,
    rule_set_insert,
    rule_set_remove,
    spec_find_id_from,
    spec_find_rule_from,
    RuleEnum,
    RuleSet,
};
use crate::linter::settings::{
    parse_settings_from_root,
    spec_parse_settings_from_root,
    LintSettings,
};
use crate::text::str_equal;

verus! {

/// What a configuration file states.
pub struct ESLintConfig {
    pub rules: Vec<ESLintRuleConfig>,
    pub settings: LintSettings,
}

/// The message for a file that is no JSON, from the message of the JSON
/// reader and from what the file's name says of its type.
///
/// For a name that says JSON the reader's message stands as it is. For a
/// name that says another type the message says that only JSON is
/// supported. For a name that says nothing the reader's message is followed
/// by the advice to use JSON.
pub open spec fn spec_config_error_message(subtype: Option<Seq<char>>, reader: Seq<char>) -> Seq<
    char,
> {
    match subtype {
        Some(s) => if s == "json"@ {
            reader
        } else {
            "only json configuration is supported"@
        },
        None => reader + ", if the configuration is not a json file, please use json instead."@,
    }
}

/// `message` is what [`spec_config_error_message`] gives for the reader's
/// message and some reading of the file's name.
pub open spec fn is_config_error_message(message: Seq<char>, reader: Seq<char>) -> bool {
    exists|subtype: Option<Seq<char>>|
        message == #[trigger] spec_config_error_message(subtype, reader)
}

pub open spec fn spec_opt_view(text: Option<String>) -> Option<Seq<char>> {
    match text {
        Some(t) => Some(t@),
        None => None,
    }
}

/// Executable form of [`spec_config_error_message`].
pub fn config_error_message(subtype: Option<String>, reader: String) -> (message: String)
    ensures
        message@ == spec_config_error_message(spec_opt_view(subtype), reader@),
{
    match subtype {
        Some(s) => {
            if str_equal(s.as_str(), "json") {
                reader
            } else {
                String::from_str("only json configuration is supported")
            }
        },
        None => reader.concat(
            ", if the configuration is not a json file, please use json instead.",
        ),
    }
}

/// `mime_guess::from_path(..).first()` and `Mime::subtype`: the subtype of
/// the first media type that the extension of a path stands for, if it
/// stands for any. How a path is cut into its parts depends on the platform,
/// so nothing is said of the result.
#[verifier::external_body]
pub(crate) fn guess_subtype(path: &str) -> Option<String> {
    mime_guess::from_path(path).first().map(|mime| mime.subtype().as_str().to_string())
}

/// The index `i` stands in one of the groups.
pub open spec fn stands_in_a_group(groups: Seq<Seq<usize>>, i: int) -> bool {
    exists|g: int, k: int|
        0 <= g < groups.len() && 0 <= k < groups[g].len() && #[trigger] groups[g][k] == i
}

/// The indices of `rules`, cut into groups of equal rule name.
///
/// Every index stands in exactly one group, in rising order inside it; the
/// rules of one group have the same name, and those of two groups have
/// different names.
pub open spec fn is_grouping(rules: Seq<ESLintRuleConfig>, groups: Seq<Seq<usize>>) -> bool {
    &&& forall|g: int, k: int|
        0 <= g < groups.len() && 0 <= k < groups[g].len() ==> #[trigger] groups[g][k] < rules.len()
    &&& forall|g: int| 0 <= g < groups.len() ==> (#[trigger] groups[g]).len() > 0
    &&& forall|g: int, j: int, k: int|
        0 <= g < groups.len() && 0 <= j < k < groups[g].len() ==> #[trigger] groups[g][j]
            < #[trigger] groups[g][k]
    &&& forall|i: int| 0 <= i < rules.len() ==> #[trigger] stands_in_a_group(groups, i)
    &&& forall|g: int, h: int, j: int, k: int|
        0 <= g < groups.len() && 0 <= h < groups.len() && 0 <= j < groups[g].len() && 0 <= k
            < groups[h].len() ==> ((g == h) <==> rules[#[trigger] groups[g][j] as int].rule_name@
            == rules[#[trigger] groups[h][k] as int].rule_name@)
}

/// The groups as sequences.
pub open spec fn groups_view(groups: Seq<Vec<usize>>) -> Seq<Seq<usize>> {
    Seq::new(groups.len(), |g: int| groups[g]@)
}

/// `Itertools::into_group_map_by` on the indices of the rules, keyed by rule
/// name: the groups, in the order in which the map that it builds walks
/// them. That order is not told.
#[verifier::external_body]
pub(crate) fn group_by_rule_name(rules: &Vec<ESLintRuleConfig>) -> (groups: Vec<Vec<usize>>)
    ensures
        is_grouping(rules@, groups_view(groups@)),
{
    itertools::Itertools::into_group_map_by(0..rules.len(), |i| rules[*i].rule_name.as_str())
        .into_values()
        .collect()
}

/// What one group of rules of the file asks of the set.
pub enum Action {
    Nothing,
    /// Put the rule into the set, in place of the rule of its number.
    Replace(RuleEnum),
    /// Take the rule of this number out of the set.
    Remove(usize),
}

/// The first place at or after `from` in `group` of a rule that is not
/// allowed.
pub open spec fn spec_first_warn_deny(rules: Seq<ESLintRuleConfig>, group: Seq<usize>, from: int) -> Option<
    int,
>
    decreases group.len() - from,
{
    if from < 0 || from >= group.len() {
        None
    } else if group[from] < rules.len() && rules[group[from] as int].severity
        != AllowWarnDeny::Allow {
        Some(from)
    } else {
        spec_first_warn_deny(rules, group, from + 1)
    }
}

/// What the group `group` asks of the set `set`, walked in the order `ids`.
///
/// A group of one rule: where the file warns or denies, the rule of that
/// name and plugin in the registry is put into the set with the file's
/// configuration; where the file allows, the rule of that name and plugin
/// is taken out of the set. A group of several rules, which share a name
/// and differ in their plugin: where one of them warns or denies, the rule
/// of that name in the set gets the configuration of the first such one;
/// where all allow, the rule of that name is taken out of the set.
pub open spec fn spec_group_action(
    rules: Seq<ESLintRuleConfig>,
    group: Seq<usize>,
    ids: Seq<usize>,
    set: Map<usize, RuleEnum>,
    all_rules: Seq<RuleEnum>,
) -> Action {
    if group.len() == 0 || group[0] >= rules.len() {
        Action::Nothing
    } else if group.len() == 1 {
        let config = rules[group[0] as int];
        if config.severity != AllowWarnDeny::Allow {
            match spec_find_rule_from(
                all_rules,
                config.rule_name@,
                Some(config.plugin_name@),
                0,
            ) {
                Some(i) => Action::Replace(all_rules[i].spec_read_json(config.config)),
                None => Action::Nothing,
            }
        } else {
            match spec_find_id_from(ids, set, config.rule_name@, Some(config.plugin_name@), 0) {
                Some(id) => Action::Remove(id),
                None => Action::Nothing,
            }
        }
    } else {
        let name = rules[group[0] as int].rule_name@;
        match spec_find_id_from(ids, set, name, None, 0) {
            Some(id) => match spec_first_warn_deny(rules, group, 0) {
                Some(k) => Action::Replace(
                    set[id].spec_read_json(rules[group[k] as int].config),
                ),
                None => Action::Remove(id),
            },
            None => Action::Nothing,
        }
    }
}

/// What the groups ask of the set, group by group.
pub open spec fn spec_plan(
    rules: Seq<ESLintRuleConfig>,
    groups: Seq<Seq<usize>>,
    ids: Seq<usize>,
    set: Map<usize, RuleEnum>,
    all_rules: Seq<RuleEnum>,
) -> Seq<Action> {
    Seq::new(groups.len(), |g: int| spec_group_action(rules, groups[g], ids, set, all_rules))
}

/// The set after every removal of `actions`, in order.
pub open spec fn spec_apply_removals(set: Map<usize, RuleEnum>, actions: Seq<Action>) -> Map<
    usize,
    RuleEnum,
>
    decreases actions.len(),
{
    if actions.len() == 0 {
        set
    } else {
        let before = spec_apply_removals(set, actions.drop_last());
        match actions.last() {
            Action::Remove(id) => before.remove(id),
            _ => before,
        }
    }
}

/// The set after every replacement of `actions`, in order.
pub open spec fn spec_apply_replacements(set: Map<usize, RuleEnum>, actions: Seq<Action>) -> Map<
    usize,
    RuleEnum,
>
    decreases actions.len(),
{
    if actions.len() == 0 {
        set
    } else {
        let before = spec_apply_replacements(set, actions.drop_last());
        match actions.last() {
            Action::Replace(rule) => before.insert(rule.id, rule),
            _ => before,
        }
    }
}

/// The set after `actions`: first every removal, then every replacement.
pub open spec fn spec_apply(set: Map<usize, RuleEnum>, actions: Seq<Action>) -> Map<
    usize,
    RuleEnum,
> {
    spec_apply_replacements(spec_apply_removals(set, actions), actions)
}

/// The configuration of a rule once more.
pub fn clone_config(config: &Option<serde_json::Value>) -> (copy: Option<serde_json::Value>)
    ensures
        copy == *config,
{
    match config {
        Some(c) => Some(value_clone(c)),
        None => None,
    }
}

/// Executable form of [`spec_group_action`].
pub fn group_action(
    rules: &Vec<ESLintRuleConfig>,
    group: &Vec<usize>,
    ids: &Vec<usize>,
    set: &RuleSet,
    all_rules: &[RuleEnum],
) -> (action: Action)
    ensures
        action == spec_group_action(rules@, group@, ids@, set@, all_rules@),
{
    if group.len() == 0 || group[0] >= rules.len() {
        return Action::Nothing;
    }
    if group.len() == 1 {
        let rule_config = &rules[group[0]];
        let rule_name = rule_config.rule_name.as_str();
        let plugin_name = rule_config.plugin_name.as_str();
        if rule_config.severity.is_warn_deny() {
            match find_rule(all_rules, rule_name, Some(plugin_name)) {
                Some(rule) => Action::Replace(rule.read_json(clone_config(&rule_config.config))),
                None => Action::Nothing,
            }
        } else {
            match find_in_set(ids, set, rule_name, Some(plugin_name)) {
                Some((id, _)) => Action::Remove(id),
                None => Action::Nothing,
            }
        }
    } else {
        let name = rules[group[0]].rule_name.as_str();
        match find_in_set(ids, set, name, None) {
            Some((id, rule)) => {
                let mut k: usize = 0;
                while k < group.len()
                    invariant
                        k <= group@.len(),
                        group@.len() > 1,
                        group@[0] < rules@.len(),
                        name@ == rules@[group@[0] as int].rule_name@,
                        spec_find_id_from(ids@, set@, name@, None, 0) == Some(id),
                        *rule == set@[id],
                        spec_first_warn_deny(rules@, group@, 0) == spec_first_warn_deny(
                            rules@,
                            group@,
                            k as int,
                        ),
                    decreases group@.len() - k,
                {
                    if group[k] < rules.len() && rules[group[k]].severity.is_warn_deny() {
                        return Action::Replace(
                            rule.read_json(clone_config(&rules[group[k]].config)),
                        );
                    }
                    k += 1;
                }
                Action::Remove(id)
            },
            None => Action::Nothing,
        }
    }
}

impl ESLintConfig {
    /// What the text of a configuration file states.
    ///
    /// `path` is the name of the file that `text` was read from; it is told
    /// in the error and helps to word it.
    pub fn new(path: &str, text: &str) -> (r: Result<ESLintConfig, ConfigError>)
        ensures
            match json_parse(text@) {
                Ok(root) => match spec_parse_rules(root) {
                    Ok(rules) => r matches Ok(config) && rules_view(config.rules@) == rules
                        && config.settings@ == spec_parse_settings_from_root(root),
                    Err(e) => r matches Err(f) && f@ == e,
                },
                Err(reader) => r matches Err(ConfigError::InvalidJson { path: p, message })
                    && p@ == path@ && is_config_error_message(message@, reader),
            },
    {
        let json = match ESLintConfig::read_json(path, text) {
            Ok(json) => json,
            Err(e) => {
                return Err(e);
            },
        };
        let rules = match parse_rules(&json) {
            Ok(rules) => rules,
            Err(e) => {
                return Err(e);
            },
        };
        let settings = parse_settings_from_root(&json);
        Ok(ESLintConfig { rules, settings })
    }

    pub fn settings(self) -> (settings: LintSettings)
        ensures
            settings == self.settings,
    {
        self.settings
    }

    /// The JSON value that the text of a configuration file holds.
    pub fn read_json(path: &str, text: &str) -> (r: Result<serde_json::Value, ConfigError>)
        ensures
            match json_parse(text@) {
                Ok(root) => r == Ok::<serde_json::Value, ConfigError>(root),
                Err(reader) => r matches Err(ConfigError::InvalidJson { path: p, message })
                    && p@ == path@ && is_config_error_message(message@, reader),
            },
    {
        match parse_json_text(text) {
            Ok(value) => Ok(value),
            Err(reader) => {
                let guess = guess_subtype(path);
                let ghost subtype = spec_opt_view(guess);
                let message = config_error_message(guess, reader);
                assert(message@ == spec_config_error_message(subtype, reader@));
                Err(ConfigError::InvalidJson { path: String::from_str(path), message })
            },
        }
    }

    /// Applies what the file says of rules to the set of rules of a run.
    ///
    /// The rules of the file are grouped by name, each group says what it
    /// asks of the set as it was ([`spec_group_action`]), and then every
    /// removal and after them every replacement is carried out. The order in
    /// which the groups come and the order in which the set is walked are
    /// not told; the result is that of some such orders.
    pub fn override_rules(&self, rules_for_override: &mut RuleSet, all_rules: &[RuleEnum])
        ensures
            exists|groups: Seq<Seq<usize>>, ids: Seq<usize>|
                is_grouping(self.rules@, groups) && enumerates(ids, old(rules_for_override)@)
                    && final(rules_for_override)@ == spec_apply(
                    old(rules_for_override)@,
                    #[trigger] spec_plan(
                        self.rules@,
                        groups,
                        ids,
                        old(rules_for_override)@,
                        all_rules@,
                    ),
                ),
    {
        let lookup = group_by_rule_name(&self.rules);
        let ids = rule_set_ids(rules_for_override);
        let actions = plan(&self.rules, &lookup, &ids, rules_for_override, all_rules);
        apply(rules_for_override, actions);
    }
}

/// Executable form of [`spec_plan`].
pub fn plan(
    rules: &Vec<ESLintRuleConfig>,
    groups: &Vec<Vec<usize>>,
    ids: &Vec<usize>,
    set: &RuleSet,
    all_rules: &[RuleEnum],
) -> (actions: Vec<Action>)
    ensures
        actions@ == spec_plan(rules@, groups_view(groups@), ids@, set@, all_rules@),
{
    let mut actions: Vec<Action> = Vec::new();
    let mut g: usize = 0;
    while g < groups.len()
        invariant
            g <= groups@.len(),
            actions@.len() == g,
            forall|i: int|
                0 <= i < g ==> actions@[i] == spec_group_action(
                    rules@,
                    #[trigger] groups@[i]@,
                    ids@,
                    set@,
                    all_rules@,
                ),
        decreases groups@.len() - g,
    {
        actions.push(group_action(rules, &groups[g], ids, set, all_rules));
        g += 1;
    }
    assert(actions@ =~= spec_plan(rules@, groups_view(groups@), ids@, set@, all_rules@));
    actions
}

/// Executable form of [`spec_apply`].
pub fn apply(set: &mut RuleSet, actions: Vec<Action>)
    ensures
        final(set)@ == spec_apply(old(set)@, actions@),
{
    let mut i: usize = 0;
    assert(actions@.take(0) =~= Seq::<Action>::empty());
    while i < actions.len()
        invariant
            i <= actions@.len(),
            set@ == spec_apply_removals(old(set)@, actions@.take(i as int)),
        decreases actions@.len() - i,
    {
        proof {
            assert(actions@.take(i + 1).drop_last() =~= actions@.take(i as int));
            assert(actions@.take(i + 1).last() == actions@[i as int]);
        }
        if let Action::Remove(id) = &actions[i] {
            rule_set_remove(set, *id);
        }
        i += 1;
    }
    assert(actions@.take(i as int) =~= actions@);
    let ghost removed = set@;
    let ghost all = actions@;
    let mut at: usize = 0;
    while at < actions.len()
        invariant
            at <= actions@.len(),
            actions@ == all,
            set@ == spec_apply_replacements(removed, all.take(at as int)),
        decreases actions@.len() - at,
    {
        proof {
            assert(all.take(at + 1).drop_last() =~= all.take(at as int));
            assert(all.take(at + 1).last() == all[at as int]);
        }
        if let Action::Replace(rule) = &actions[at] {
            rule_set_insert(set, rule.id, rule.duplicate());
        }
        at += 1;
    }
    assert(all.take(at as int) =~= all);
}

} // verus!
