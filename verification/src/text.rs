//! Text helpers: characters of strings, and places of characters in them.

use vstd::prelude::*;

verus! {

/// The characters of a string, one by one.
pub fn chars_of(s: &str) -> (chars: Vec<char>)
    ensures
        chars@ == s@,
{
    let mut chars: Vec<char> = Vec::new();
    for c in it: s.chars()
        invariant
            it.seq() == s@,
            chars@ == s@.take(it.index()),
    {
        chars.push(c);
        assert(chars@ =~= s@.take(it.index() + 1));
    }
    assert(s@.take(s@.len() as int) =~= s@);
    chars
}

/// Whether two strings hold the same characters.
pub fn str_equal(a: &str, b: &str) -> (same: bool)
    ensures
        same == (a@ == b@),
{
    let left = chars_of(a);
    let right = chars_of(b);
    if left.len() != right.len() {
        return false;
    }
    let mut i: usize = 0;
    while i < left.len()
        invariant
            i <= left@.len(),
            left@.len() == right@.len(),
            left@ == a@,
            right@ == b@,
            forall|j: int| 0 <= j < i ==> left@[j] == right@[j],
        decreases left@.len() - i,
    {
        if left[i] != right[i] {
            return false;
        }
        i += 1;
    }
    assert(a@ =~= b@);
    true
}

/// The first place at or after `from` where `c` stands in `s`.
pub open spec fn spec_first_index_from(s: Seq<char>, c: char, from: int) -> Option<int>
    decreases s.len() - from,
{
    if from < 0 || from >= s.len() {
        None
    } else if s[from] == c {
        Some(from)
    } else {
        spec_first_index_from(s, c, from + 1)
    }
}

/// The first place where `c` stands in `s`.
pub open spec fn spec_first_index(s: Seq<char>, c: char) -> Option<int> {
    spec_first_index_from(s, c, 0)
}

/// The last place before `before` where `c` stands in `s`.
pub open spec fn spec_last_index_before(s: Seq<char>, c: char, before: int) -> Option<int>
    decreases before,
{
    if before <= 0 || before > s.len() {
        None
    } else if s[before - 1] == c {
        Some(before - 1)
    } else {
        spec_last_index_before(s, c, before - 1)
    }
}

/// How many times `c` stands at the start of `s`.
pub open spec fn spec_leading(s: Seq<char>, c: char, from: int) -> int
    decreases s.len() - from,
{
    if from < 0 || from >= s.len() || s[from] != c {
        from
    } else {
        spec_leading(s, c, from + 1)
    }
}

pub fn first_index(chars: &Vec<char>, c: char) -> (found: Option<usize>)
    ensures
        match found {
            Some(i) => spec_first_index(chars@, c) == Some(i as int) && i < chars@.len(),
            None => spec_first_index(chars@, c) is None,
        },
{
    let mut i: usize = 0;
    while i < chars.len()
        invariant
            i <= chars@.len(),
            spec_first_index(chars@, c) == spec_first_index_from(chars@, c, i as int),
        decreases chars@.len() - i,
    {
        if chars[i] == c {
            return Some(i);
        }
        i += 1;
    }
    None
}

pub fn last_index_before(chars: &Vec<char>, c: char, before: usize) -> (found: Option<usize>)
    requires
        before <= chars@.len(),
    ensures
        match found {
            Some(i) => spec_last_index_before(chars@, c, before as int) == Some(i as int) && i
                < before,
            None => spec_last_index_before(chars@, c, before as int) is None,
        },
{
    let mut i: usize = before;
    while i > 0
        invariant
            i <= before <= chars@.len(),
            spec_last_index_before(chars@, c, before as int) == spec_last_index_before(
                chars@,
                c,
                i as int,
            ),
        decreases i,
    {
        if chars[i - 1] == c {
            return Some(i - 1);
        }
        i -= 1;
    }
    None
}

/// Whether `c` stands in `chars` between `from` and `to`.
pub fn contains_between(chars: &Vec<char>, c: char, from: usize, to: usize) -> (found: bool)
    requires
        from <= to <= chars@.len(),
    ensures
        found == exists|i: int| from <= i < to && chars@[i] == c,
{
    let mut i: usize = from;
    while i < to
        invariant
            from <= i <= to <= chars@.len(),
            forall|j: int| from <= j < i ==> chars@[j] != c,
        decreases to - i,
    {
        if chars[i] == c {
            return true;
        }
        i += 1;
    }
    false
}

} // verus!
