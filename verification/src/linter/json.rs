//! JSON values, as `serde_json` reads and holds them.
//!
//! A value of `serde_json` is handled as it is. What the configuration logic
//! reads of one has a name here, and each function below says, without
//! proof, that one function of `serde_json` returns what its name gives.

use vstd::prelude::*;

verus! {

/// `serde_json::Value`, taken as it is: nothing inside it is seen here.
#[verifier::external_type_specification]
#[verifier::external_body]
pub struct ExJsonValue(serde_json::Value);

/// What `serde_json::from_str` makes of a text: the value, or the message of
/// the error.
pub uninterp spec fn json_parse(text: Seq<char>) -> Result<serde_json::Value, Seq<char>>;

/// The text of a value that is a string.
pub uninterp spec fn json_string(value: serde_json::Value) -> Option<Seq<char>>;

/// The items of a value that is an array, in order.
pub uninterp spec fn json_array(value: serde_json::Value) -> Option<Seq<serde_json::Value>>;

/// The members of a value that is an object, each with its key, in the
/// order in which the object hands them out.
pub uninterp spec fn json_members(value: serde_json::Value) -> Option<
    Seq<(Seq<char>, serde_json::Value)>,
>;

/// The number of a value that is an integer that fits `i64`.
pub uninterp spec fn json_integer(value: serde_json::Value) -> Option<i64>;

/// The array that holds the given items.
pub uninterp spec fn json_array_of(items: Seq<serde_json::Value>) -> serde_json::Value;

/// A value written out as compact JSON.
pub uninterp spec fn json_text(value: serde_json::Value) -> Seq<char>;

/// The members that `value_members` hands out, as the model holds them.
pub open spec fn members_view(members: Seq<(&str, &serde_json::Value)>) -> Seq<
    (Seq<char>, serde_json::Value),
> {
    Seq::new(members.len(), |i: int| (members[i].0@, *members[i].1))
}

/// `serde_json::from_str`, with an error turned into its message. The result
/// is [`json_parse`] of the text.
#[verifier::external_body]
pub(crate) fn parse_json_text(text: &str) -> (r: Result<serde_json::Value, String>)
    ensures
        match r {
            Ok(value) => json_parse(text@) == Ok::<serde_json::Value, Seq<char>>(value),
            Err(message) => json_parse(text@) == Err::<serde_json::Value, Seq<char>>(message@),
        },
{
    serde_json::from_str::<serde_json::Value>(text).map_err(|e| e.to_string())
}

/// `serde_json::Value::as_str`: the text of a string, nothing for any other
/// value.
#[verifier::external_body]
pub(crate) fn value_as_str(value: &serde_json::Value) -> (r: Option<&str>)
    ensures
        match r {
            Some(s) => json_string(*value) == Some(s@),
            None => json_string(*value) is None,
        },
{
    value.as_str()
}

/// `serde_json::Value::as_array`: the items of an array, nothing for any
/// other value.
#[verifier::external_body]
pub(crate) fn value_as_array(value: &serde_json::Value) -> (r: Option<&Vec<serde_json::Value>>)
    ensures
        match r {
            Some(items) => json_array(*value) == Some(items@),
            None => json_array(*value) is None,
        },
{
    value.as_array()
}

/// `serde_json::Value::as_object` and the iterator of the map it gives: the
/// members of an object in the map's order, nothing for any other value.
#[verifier::external_body]
pub(crate) fn value_members(value: &serde_json::Value) -> (r: Option<
    Vec<(&str, &serde_json::Value)>,
>)
    ensures
        match r {
            Some(members) => json_members(*value) == Some(members_view(members@)),
            None => json_members(*value) is None,
        },
{
    value.as_object().map(|object| object.iter().map(|(k, v)| (k.as_str(), v)).collect())
}

/// `serde_json::Value::as_i64`: the number of an integer that fits `i64`,
/// nothing for any other value.
#[verifier::external_body]
pub(crate) fn value_as_i64(value: &serde_json::Value) -> (r: Option<i64>)
    ensures
        r == json_integer(*value),
{
    value.as_i64()
}

/// `serde_json::Value`'s `Display`: the value as compact JSON.
#[verifier::external_body]
pub(crate) fn value_to_string(value: &serde_json::Value) -> (r: String)
    ensures
        r@ == json_text(*value),
{
    value.to_string()
}

/// `serde_json::Value::clone`: the same value again.
#[verifier::external_body]
pub(crate) fn value_clone(value: &serde_json::Value) -> (r: serde_json::Value)
    ensures
        r == *value,
{
    value.clone()
}

/// `serde_json::Value::Array`: the array that holds `items`.
#[verifier::external_body]
pub(crate) fn value_from_array(items: Vec<serde_json::Value>) -> (r: serde_json::Value)
    ensures
        r == json_array_of(items@),
        json_array(r) == Some(items@),
{
    serde_json::Value::Array(items)
}

/// The value of the first member at or after `from` whose key is `key`.
pub open spec fn spec_find_member_from(
    members: Seq<(Seq<char>, serde_json::Value)>,
    key: Seq<char>,
    from: int,
) -> Option<serde_json::Value>
    decreases members.len() - from,
{
    if from < 0 || from >= members.len() {
        None
    } else if members[from].0 == key {
        Some(members[from].1)
    } else {
        spec_find_member_from(members, key, from + 1)
    }
}

/// The value that an object holds under `key`.
pub open spec fn spec_find_member(members: Seq<(Seq<char>, serde_json::Value)>, key: Seq<char>) -> Option<
    serde_json::Value,
> {
    spec_find_member_from(members, key, 0)
}

/// The value that a JSON value holds under `key`: that of an object that has
/// such a member, nothing for anything else.
pub open spec fn spec_get(value: serde_json::Value, key: Seq<char>) -> Option<serde_json::Value> {
    match json_members(value) {
        Some(members) => spec_find_member(members, key),
        None => None,
    }
}

/// Executable form of [`spec_find_member`].
pub fn find_member<'a>(members: &Vec<(&'a str, &'a serde_json::Value)>, key: &str) -> (r: Option<
    &'a serde_json::Value,
>)
    ensures
        match r {
            Some(value) => spec_find_member(members_view(members@), key@) == Some(*value),
            None => spec_find_member(members_view(members@), key@) is None,
        },
{
    let mut i: usize = 0;
    while i < members.len()
        invariant
            i <= members@.len(),
            spec_find_member(members_view(members@), key@) == spec_find_member_from(
                members_view(members@),
                key@,
                i as int,
            ),
        decreases members@.len() - i,
    {
        if crate::text::str_equal(members[i].0, key) {
            return Some(members[i].1);
        }
        i += 1;
    }
    None
}

/// Executable form of [`spec_get`].
pub fn get<'a>(value: &'a serde_json::Value, key: &str) -> (r: Option<&'a serde_json::Value>)
    ensures
        match r {
            Some(found) => spec_get(*value, key@) == Some(*found),
            None => spec_get(*value, key@) is None,
        },
{
    match value_members(value) {
        Some(members) => find_member(&members, key),
        None => None,
    }
}

} // verus!
