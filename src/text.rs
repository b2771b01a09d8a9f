//! String helpers shared by the modules: exact comparison, copies, and
//! ASCII case folding as the contracts speak of it.
use vstd::prelude::*;

verus! {

/// Character-wise ASCII lower-casing, as `str::to_ascii_lowercase` does it.
pub open spec fn ascii_lower_char(c: char) -> char {
    if 'A' <= c && c <= 'Z' {
        ((c as u32) + 32) as char
    } else {
        c
    }
}

pub open spec fn ascii_lower(s: Seq<char>) -> Seq<char> {
    s.map_values(|c: char| ascii_lower_char(c))
}

/// Whether two strings are equal when ASCII letters are compared without case.
pub open spec fn eq_ignore_ascii_case(a: Seq<char>, b: Seq<char>) -> bool {
    ascii_lower(a) == ascii_lower(b)
}

/// Exact equality of two string slices.
pub fn str_eq(a: &str, b: &str) -> (r: bool)
    ensures
        r == (a@ == b@),
{
    let x = a.to_owned();
    let y = b.to_owned();
    x == y
}

/// A copy of a list of strings, element by element.
pub fn clone_strings(v: &Vec<String>) -> (r: Vec<String>)
    ensures
        r@ == v@,
{
    let mut out: Vec<String> = Vec::new();
    let mut i: usize = 0;
    while i < v.len()
        invariant
            i <= v@.len(),
            out@ == v@.subrange(0, i as int),
        decreases v@.len() - i,
    {
        out.push(v[i].clone());
        i = i + 1;
    }
    assert(out@ == v@);
    out
}

/// The contents of each string of a list.
pub open spec fn string_views(v: Seq<String>) -> Seq<Seq<char>> {
    v.map_values(|s: String| s@)
}

/// Whether `item` is one of the elements of `v`.
pub fn contains_string(v: &Vec<String>, item: &String) -> (r: bool)
    ensures
        r == string_views(v@).contains(item@),
{
    let mut i: usize = 0;
    while i < v.len()
        invariant
            i <= v@.len(),
            forall|j: int| 0 <= j < i ==> v@[j]@ != item@,
        decreases v@.len() - i,
    {
        if v[i] == *item {
            assert(string_views(v@)[i as int] == item@);
            return true;
        }
        i = i + 1;
    }
    assert(!string_views(v@).contains(item@)) by {
        if string_views(v@).contains(item@) {
            let k = choose|k: int| 0 <= k < string_views(v@).len() && string_views(v@)[k] == item@;
            assert(v@[k]@ == item@);
        }
    }
    false
}

} // verus!
