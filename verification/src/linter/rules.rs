//! Rules as the registry knows them, and the set of rules that a run
//! applies.

use vstd::prelude::*;
use vstd::string::StringExecFns;
use crate::linter::json::value_clone;
use crate::text::str_equal;

verus! {

/// One rule of the registry: its number there, the plugin it belongs to, its
/// name, and the configuration it was given. Two rules are the same rule
/// when their numbers are equal, whatever their configuration.
#[derive(Debug)]
pub struct RuleEnum {
    pub id: usize,
    pub plugin_name: String,
    pub name: String,
    pub config: Option<serde_json::Value>,
}

/// The rules of a run, each under its number.
pub type RuleSet = rustc_hash::FxHashMap<usize, RuleEnum>;

impl RuleEnum {
    /// The rule with another configuration.
    pub open spec fn spec_read_json(self, config: Option<serde_json::Value>) -> RuleEnum {
        RuleEnum { config, ..self }
    }

    /// The rule has the name `name` and, where `plugin` says one, belongs to
    /// that plugin.
    pub open spec fn spec_is_named(self, name: Seq<char>, plugin: Option<Seq<char>>) -> bool {
        self.name@ == name && match plugin {
            Some(p) => self.plugin_name@ == p,
            None => true,
        }
    }

    pub fn new(id: usize, plugin_name: &str, name: &str) -> (rule: RuleEnum)
        ensures
            rule.id == id,
            rule.plugin_name@ == plugin_name@,
            rule.name@ == name@,
            rule.config is None,
    {
        RuleEnum {
            id,
            plugin_name: String::from_str(plugin_name),
            name: String::from_str(name),
            config: None,
        }
    }

    pub fn name(&self) -> (name: &str)
        ensures
            name@ == self.name@,
    {
        self.name.as_str()
    }

    pub fn plugin_name(&self) -> (name: &str)
        ensures
            name@ == self.plugin_name@,
    {
        self.plugin_name.as_str()
    }

    pub fn is_named(&self, name: &str, plugin: Option<&str>) -> (b: bool)
        ensures
            b == self.spec_is_named(
                name@,
                match plugin {
                    Some(p) => Some(p@),
                    None => None,
                },
            ),
    {
        str_equal(self.name.as_str(), name) && match plugin {
            Some(p) => str_equal(self.plugin_name.as_str(), p),
            None => true,
        }
    }

    /// The same rule with the configuration `config`.
    pub fn read_json(&self, config: Option<serde_json::Value>) -> (rule: RuleEnum)
        ensures
            rule == self.spec_read_json(config),
    {
        RuleEnum {
            id: self.id,
            plugin_name: self.plugin_name.clone(),
            name: self.name.clone(),
            config,
        }
    }

    /// The same rule once more.
    pub fn duplicate(&self) -> (rule: RuleEnum)
        ensures
            rule == *self,
    {
        RuleEnum {
            id: self.id,
            plugin_name: self.plugin_name.clone(),
            name: self.name.clone(),
            config: match &self.config {
                Some(c) => Some(value_clone(c)),
                None => None,
            },
        }
    }
}

/// `ids` names every rule of `set` once, in some order.
pub open spec fn enumerates(ids: Seq<usize>, set: Map<usize, RuleEnum>) -> bool {
    &&& ids.no_duplicates()
    &&& forall|i: int| 0 <= i < ids.len() ==> set.contains_key(#[trigger] ids[i])
    &&& forall|k: usize| set.contains_key(k) ==> ids.contains(k)
}

/// `HashMap::keys` on a set that hashes with `rustc_hash`: the numbers of the
/// rules in the set, each once, in the order in which the map walks them.
/// That order is not told.
#[verifier::external_body]
pub(crate) fn rule_set_ids(set: &RuleSet) -> (ids: Vec<usize>)
    ensures
        enumerates(ids@, set@),
{
    set.keys().copied().collect()
}

/// `HashMap::get` on a set that hashes with `rustc_hash`: the rule under a
/// number.
#[verifier::external_body]
pub(crate) fn rule_set_get(set: &RuleSet, id: usize) -> (rule: Option<&RuleEnum>)
    ensures
        match rule {
            Some(r) => set@.contains_key(id) && set@[id] == *r,
            None => !set@.contains_key(id),
        },
{
    set.get(&id)
}

/// `HashMap::remove` on a set that hashes with `rustc_hash`: afterwards
/// nothing stands under the number, and everything else is as before.
#[verifier::external_body]
pub(crate) fn rule_set_remove(set: &mut RuleSet, id: usize)
    ensures
        final(set)@ == old(set)@.remove(id),
{
    set.remove(&id);
}

/// `HashMap::insert` on a set that hashes with `rustc_hash`: afterwards the
/// rule stands under the number, whatever stood there, and everything else
/// is as before.
#[verifier::external_body]
pub(crate) fn rule_set_insert(set: &mut RuleSet, id: usize, rule: RuleEnum)
    ensures
        final(set)@ == old(set)@.insert(id, rule),
{
    set.insert(id, rule);
}

/// The first place at or after `from` of a rule of `rules` that is named so.
pub open spec fn spec_find_rule_from(
    rules: Seq<RuleEnum>,
    name: Seq<char>,
    plugin: Option<Seq<char>>,
    from: int,
) -> Option<int>
    decreases rules.len() - from,
{
    if from < 0 || from >= rules.len() {
        None
    } else if rules[from].spec_is_named(name, plugin) {
        Some(from)
    } else {
        spec_find_rule_from(rules, name, plugin, from + 1)
    }
}

/// The first of the numbers `ids`, from place `from` on, whose rule in `set`
/// is named so.
pub open spec fn spec_find_id_from(
    ids: Seq<usize>,
    set: Map<usize, RuleEnum>,
    name: Seq<char>,
    plugin: Option<Seq<char>>,
    from: int,
) -> Option<usize>
    decreases ids.len() - from,
{
    if from < 0 || from >= ids.len() {
        None
    } else if set.contains_key(ids[from]) && set[ids[from]].spec_is_named(name, plugin) {
        Some(ids[from])
    } else {
        spec_find_id_from(ids, set, name, plugin, from + 1)
    }
}

pub open spec fn spec_opt_text(text: Option<&str>) -> Option<Seq<char>> {
    match text {
        Some(t) => Some(t@),
        None => None,
    }
}

/// The first rule of `rules` that is named so.
pub fn find_rule<'a>(rules: &'a [RuleEnum], name: &str, plugin: Option<&str>) -> (found: Option<
    &'a RuleEnum,
>)
    ensures
        match spec_find_rule_from(rules@, name@, spec_opt_text(plugin), 0) {
            Some(i) => 0 <= i < rules@.len() && found == Some(&rules@[i]),
            None => found is None,
        },
{
    let mut i: usize = 0;
    while i < rules.len()
        invariant
            i <= rules@.len(),
            spec_find_rule_from(rules@, name@, spec_opt_text(plugin), 0) == spec_find_rule_from(
                rules@,
                name@,
                spec_opt_text(plugin),
                i as int,
            ),
        decreases rules@.len() - i,
    {
        if rules[i].is_named(name, plugin) {
            return Some(&rules[i]);
        }
        i += 1;
    }
    None
}

/// The first rule of `set`, in the order of `ids`, that is named so, with
/// the number it stands under.
pub fn find_in_set<'a>(ids: &Vec<usize>, set: &'a RuleSet, name: &str, plugin: Option<&str>) -> (found:
    Option<(usize, &'a RuleEnum)>)
    ensures
        match spec_find_id_from(ids@, set@, name@, spec_opt_text(plugin), 0) {
            Some(id) => set@.contains_key(id) && found == Some((id, &set@[id])),
            None => found is None,
        },
{
    let mut i: usize = 0;
    while i < ids.len()
        invariant
            i <= ids@.len(),
            spec_find_id_from(ids@, set@, name@, spec_opt_text(plugin), 0) == spec_find_id_from(
                ids@,
                set@,
                name@,
                spec_opt_text(plugin),
                i as int,
            ),
        decreases ids@.len() - i,
    {
        if let Some(rule) = rule_set_get(set, ids[i]) {
            if rule.is_named(name, plugin) {
                return Some((ids[i], rule));
            }
        }
        i += 1;
    }
    None
}

} // verus!
