//! Rule names as they are written in a configuration file.

use vstd::prelude::*;
use vstd::string::StrSliceExecFns;
use crate::text::{
    chars_of,
    first_index,
    spec_first_index,
    spec_leading,
    str_equal,
};

verus! {

/// The plugin that a category of a configuration file stands for.
pub open spec fn spec_plugin_of(category: Seq<char>) -> Seq<char> {
    if category == "typescript-eslint"@ {
        "typescript"@
    } else if category == "jsx-a11y"@ {
        "jsx_a11y"@
    } else {
        category
    }
}

/// The plugin and the rule that a key of the `rules` object names.
///
/// A key without `/` names a rule of the plugin `eslint`. Else what stands
/// before the first `/`, without the `@` signs at its start, is the category,
/// and what stands after it is the rule.
pub open spec fn spec_parse_rule_name(name: Seq<char>) -> (Seq<char>, Seq<char>) {
    match spec_first_index(name, '/') {
        Some(slash) => (
            spec_plugin_of(name.subrange(spec_leading(name.take(slash), '@', 0), slash)),
            name.skip(slash + 1),
        ),
        None => ("eslint"@, name),
    }
}

/// Executable form of [`spec_parse_rule_name`].
pub fn parse_rule_name<'a>(name: &'a str) -> (r: (&'a str, &'a str))
    ensures
        (r.0@, r.1@) == spec_parse_rule_name(name@),
{
    let chars = chars_of(name);
    let len = chars.len();
    match first_index(&chars, '/') {
        Some(slash) => {
            let ghost head = name@.take(slash as int);
            let mut start: usize = 0;
            while start < slash && chars[start] == '@'
                invariant
                    start <= slash < chars@.len(),
                    chars@ == name@,
                    head == name@.take(slash as int),
                    spec_leading(head, '@', 0) == spec_leading(head, '@', start as int),
                decreases slash - start,
            {
                assert(head[start as int] == chars@[start as int]);
                start += 1;
            }
            assert(spec_leading(head, '@', start as int) == start) by {
                if start < slash {
                    assert(head[start as int] == chars@[start as int]);
                }
            }
            let category = name.substring_char(start, slash);
            let rule = name.substring_char(slash + 1, len);
            assert(rule@ =~= name@.skip(slash + 1));
            let plugin = if str_equal(category, "typescript-eslint") {
                "typescript"
            } else if str_equal(category, "jsx-a11y") {
                "jsx_a11y"
            } else {
                category
            };
            (plugin, rule)
        },
        None => ("eslint", name),
    }
}

} // verus!
