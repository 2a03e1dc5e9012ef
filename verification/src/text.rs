//! Views of optional and repeated strings, shared by the data model.

use vstd::prelude::*;

verus! {

/// The characters of an optional string.
pub open spec fn opt_str_view(o: Option<String>) -> Option<Seq<char>> {
    match o {
        Some(s) => Some(s@),
        None => None,
    }
}

/// The characters of each string of a sequence.
pub open spec fn strs_view(v: Seq<String>) -> Seq<Seq<char>> {
    v.map_values(|s: String| s@)
}

/// The characters of each string of an optional list.
pub open spec fn opt_strs_view(o: Option<Vec<String>>) -> Option<Seq<Seq<char>>> {
    match o {
        Some(v) => Some(strs_view(v@)),
        None => None,
    }
}

/// `value` if it is present, else `fallback`.
pub open spec fn or_text(value: Option<Seq<char>>, fallback: Seq<char>) -> Option<Seq<char>> {
    match value {
        Some(_) => value,
        None => Some(fallback),
    }
}

/// Whether an optional string is present and spells `text`.
pub fn opt_str_is(o: &Option<String>, text: &str) -> (b: bool)
    ensures
        b == (opt_str_view(*o) == Some(text@)),
{
    match o {
        Some(s) => {
            let t = text.to_owned();
            *s == t
        },
        None => false,
    }
}

/// A copy of an optional string.
pub fn clone_opt_str(o: &Option<String>) -> (copy: Option<String>)
    ensures
        opt_str_view(copy) == opt_str_view(*o),
{
    match o {
        Some(s) => Some(s.clone()),
        None => None,
    }
}

/// A list of the same strings.
pub fn clone_strs(names: &Vec<String>) -> (copy: Vec<String>)
    ensures
        strs_view(copy@) == strs_view(names@),
{
    let mut copy: Vec<String> = Vec::new();
    let mut i: usize = 0;
    while i < names.len()
        invariant
            i <= names.len(),
            copy.len() == i,
            forall|j: int| 0 <= j < i ==> (#[trigger] copy[j])@ == names[j]@,
        decreases names.len() - i,
    {
        copy.push(names[i].clone());
        i += 1;
    }
    assert(strs_view(copy@) =~= strs_view(names@));
    copy
}

/// Whether two optional strings are both missing or spell the same.
pub fn same_opt_str(a: &Option<String>, b: &Option<String>) -> (same: bool)
    ensures
        same == (opt_str_view(*a) == opt_str_view(*b)),
{
    match (a, b) {
        (Some(x), Some(y)) => *x == *y,
        (None, None) => true,
        _ => false,
    }
}

/// Whether two lists hold the same strings in the same order.
pub fn same_strs(a: &Vec<String>, b: &Vec<String>) -> (same: bool)
    ensures
        same == (strs_view(a@) == strs_view(b@)),
{
    if a.len() != b.len() {
        assert(strs_view(a@).len() != strs_view(b@).len());
        return false;
    }
    let mut i: usize = 0;
    while i < a.len()
        invariant
            i <= a.len(),
            a.len() == b.len(),
            forall|j: int| 0 <= j < i ==> (#[trigger] a[j])@ == b[j]@,
        decreases a.len() - i,
    {
        if a[i] != b[i] {
            assert(strs_view(a@)[i as int] != strs_view(b@)[i as int]);
            return false;
        }
        i += 1;
    }
    assert(strs_view(a@) =~= strs_view(b@));
    true
}

/// Whether `name` is one of `names`.
pub fn contains_str(names: &Vec<String>, name: &String) -> (found: bool)
    ensures
        found == strs_view(names@).contains(name@),
{
    let mut i: usize = 0;
    while i < names.len()
        invariant
            i <= names.len(),
            forall|j: int| 0 <= j < i ==> (#[trigger] strs_view(names@)[j]) != name@,
        decreases names.len() - i,
    {
        if names[i] == *name {
            assert(strs_view(names@)[i as int] == name@);
            return true;
        }
        i += 1;
    }
    false
}

} // verus!
