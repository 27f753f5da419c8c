//! The settings that a configuration file states for the rules.

use vstd::prelude::*;
use vstd::string::StringExecFns;
use crate::linter::json::{
    find_member,
    get,
    json_members,
    json_string,
    members_view,
    spec_find_member,
    spec_get,
    value_as_str,
    value_members,
};

verus! {

/// `rustc_hash::FxBuildHasher`, the hasher of the maps and sets below.
#[verifier::external_type_specification]
#[verifier::external_body]
pub struct ExFxBuildHasher(rustc_hash::FxBuildHasher);

/// A map from component names to the names of the elements they stand for.
pub type ComponentMap = rustc_hash::FxHashMap<String, String>;

/// What a map from component names to element names holds.
pub uninterp spec fn component_entries(
    map: ComponentMap,
) -> Map<Seq<char>, Seq<char>>;

/// No component at all.
pub open spec fn spec_no_components() -> Map<Seq<char>, Seq<char>> {
    Map::empty()
}

/// `FxHashMap::default`: a map that holds nothing.
#[verifier::external_body]
pub(crate) fn components_new() -> (r: ComponentMap)
    ensures
        component_entries(r) == spec_no_components(),
{
    rustc_hash::FxHashMap::default()
}

/// `HashMap::insert` on a map that hashes with `rustc_hash`: afterwards the
/// map holds `value` under `key` and everything else as before.
#[verifier::external_body]
pub(crate) fn components_insert(
    map: &mut ComponentMap,
    key: String,
    value: String,
)
    ensures
        component_entries(*final(map)) == component_entries(*old(map)).insert(key@, value@),
{
    map.insert(key, value);
}

/// `HashMap::get` on a map that hashes with `rustc_hash`: what the map holds
/// under `key`.
#[verifier::external_body]
pub(crate) fn components_get<'a>(
    map: &'a ComponentMap,
    key: &str,
) -> (r: Option<&'a String>)
    ensures
        match r {
            Some(value) => component_entries(*map).contains_key(key@) && component_entries(
                *map,
            )[key@] == value@,
            None => !component_entries(*map).contains_key(key@),
        },
{
    map.get(key)
}

/// The settings of the accessibility rules for JSX.
pub struct JsxA11y {
    pub polymorphic_prop_name: Option<String>,
    pub components: ComponentMap,
}

/// A [`JsxA11y`] as plain values.
pub struct JsxA11yView {
    pub polymorphic_prop_name: Option<Seq<char>>,
    pub components: Map<Seq<char>, Seq<char>>,
}

impl View for JsxA11y {
    type V = JsxA11yView;

    open spec fn view(&self) -> JsxA11yView {
        JsxA11yView {
            polymorphic_prop_name: match self.polymorphic_prop_name {
                Some(name) => Some(name@),
                None => None,
            },
            components: component_entries(self.components),
        }
    }
}

/// The settings without any entry.
pub open spec fn spec_default_settings() -> JsxA11yView {
    JsxA11yView { polymorphic_prop_name: None, components: Map::empty() }
}

impl JsxA11y {
    pub fn new(
        polymorphic_prop_name: Option<String>,
        components: ComponentMap,
    ) -> (settings: JsxA11y)
        ensures
            settings.polymorphic_prop_name == polymorphic_prop_name,
            settings.components == components,
    {
        JsxA11y { polymorphic_prop_name, components }
    }

    pub fn set_components(
        &mut self,
        components: ComponentMap,
    )
        ensures
            final(self).components == components,
            final(self).polymorphic_prop_name == old(self).polymorphic_prop_name,
    {
        self.components = components;
    }

    pub fn set_polymorphic_prop_name(&mut self, name: Option<String>)
        ensures
            final(self).polymorphic_prop_name == name,
            final(self).components == old(self).components,
    {
        self.polymorphic_prop_name = name;
    }

    /// The element that a component stands for, if the settings name one.
    pub fn component(&self, name: &str) -> (element: Option<&String>)
        ensures
            match element {
                Some(e) => self@.components.contains_key(name@) && self@.components[name@] == e@,
                None => !self@.components.contains_key(name@),
            },
    {
        components_get(&self.components, name)
    }
}

/// The settings of a lint run.
pub struct LintSettings {
    pub jsx_a11y: JsxA11y,
}

impl View for LintSettings {
    type V = JsxA11yView;

    open spec fn view(&self) -> JsxA11yView {
        self.jsx_a11y@
    }
}

impl LintSettings {
    pub fn new(jsx_a11y: JsxA11y) -> (settings: LintSettings)
        ensures
            settings.jsx_a11y == jsx_a11y,
    {
        LintSettings { jsx_a11y }
    }
}

impl Default for LintSettings {
    fn default() -> (settings: LintSettings)
        ensures
            settings@ == spec_default_settings(),
    {
        LintSettings { jsx_a11y: JsxA11y { polymorphic_prop_name: None, components: components_new() } }
    }
}

/// The components that the members of a `components` object state: each key
/// with its text. A member whose value is no string states nothing.
pub open spec fn spec_components_of(members: Seq<(Seq<char>, serde_json::Value)>) -> Map<
    Seq<char>,
    Seq<char>,
>
    decreases members.len(),
{
    if members.len() == 0 {
        Map::empty()
    } else {
        let before = spec_components_of(members.drop_last());
        match json_string(members.last().1) {
            Some(text) => before.insert(members.last().0, text),
            None => before,
        }
    }
}

/// The settings that the value under `settings` states.
///
/// Only an object with an object under `jsx-a11y` states any. Of that
/// object, an object under `components` gives the components and a string
/// under `polymorphicPropName` gives that name.
pub open spec fn spec_parse_settings(value: serde_json::Value) -> JsxA11yView {
    match spec_get(value, "jsx-a11y"@) {
        Some(section) => match json_members(section) {
            Some(members) => JsxA11yView {
                polymorphic_prop_name: match spec_find_member(members, "polymorphicPropName"@) {
                    Some(name) => json_string(name),
                    None => None,
                },
                components: match spec_find_member(members, "components"@) {
                    Some(components) => match json_members(components) {
                        Some(entries) => spec_components_of(entries),
                        None => Map::empty(),
                    },
                    None => Map::empty(),
                },
            },
            None => spec_default_settings(),
        },
        None => spec_default_settings(),
    }
}

/// The settings that a configuration states: those of the value under
/// `settings` of the root object.
pub open spec fn spec_parse_settings_from_root(root: serde_json::Value) -> JsxA11yView {
    match spec_get(root, "settings"@) {
        Some(value) => spec_parse_settings(value),
        None => spec_default_settings(),
    }
}

/// Executable form of [`spec_parse_settings`].
pub fn parse_settings(setting_value: &serde_json::Value) -> (settings: LintSettings)
    ensures
        settings@ == spec_parse_settings(*setting_value),
{
    if let Some(section) = get(setting_value, "jsx-a11y") {
        if let Some(members) = value_members(section) {
            let mut jsx_a11y_setting = JsxA11y::new(None, components_new());

            if let Some(components) = find_member(&members, "components") {
                if let Some(entries) = value_members(components) {
                    let ghost all = members_view(entries@);
                    let mut components_map = components_new();
                    let mut i: usize = 0;
                    assert(all.take(0) =~= Seq::empty());
                    while i < entries.len()
                        invariant
                            i <= entries@.len(),
                            all == members_view(entries@),
                            component_entries(components_map) == spec_components_of(
                                all.take(i as int),
                            ),
                        decreases entries@.len() - i,
                    {
                        let (key, value) = entries[i];
                        proof {
                            assert(all.take(i + 1).drop_last() =~= all.take(i as int));
                            assert(all.take(i + 1).last() == (key@, *value));
                        }
                        if let Some(text) = value_as_str(value) {
                            components_insert(
                                &mut components_map,
                                String::from_str(key),
                                String::from_str(text),
                            );
                        }
                        i += 1;
                    }
                    assert(all.take(i as int) =~= all);
                    jsx_a11y_setting.set_components(components_map);
                }
            }
            if let Some(name) = find_member(&members, "polymorphicPropName") {
                if let Some(text) = value_as_str(name) {
                    jsx_a11y_setting.set_polymorphic_prop_name(Some(String::from_str(text)));
                }
            }
            return LintSettings::new(jsx_a11y_setting);
        }
    }
    LintSettings::default()
}

/// Executable form of [`spec_parse_settings_from_root`].
pub fn parse_settings_from_root(root_json: &serde_json::Value) -> (settings: LintSettings)
    ensures
        settings@ == spec_parse_settings_from_root(*root_json),
{
    match get(root_json, "settings") {
        Some(value) => parse_settings(value),
        None => LintSettings::default(),
    }
}

} // verus!
