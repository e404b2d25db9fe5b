//! Small helpers on strings and lists of strings.

use vstd::prelude::*;

verus! {

/// Equality of string slices compares their characters.
pub assume_specification[ <str as PartialEq>::eq ](a: &str, b: &str) -> (r: bool)
    ensures
        r == (a@ == b@),
;

/// A copy of a list of strings.
pub fn clone_strings(items: &Vec<String>) -> (r: Vec<String>)
    ensures
        r@ == items@,
{
    let mut out: Vec<String> = Vec::new();
    let mut i: usize = 0;
    while i < items.len()
        invariant
            i <= items.len(),
            out@ == items@.subrange(0, i as int),
        decreases items.len() - i,
    {
        out.push(items[i].clone());
        assert(out@ == items@.subrange(0, i + 1));
        i += 1;
    }
    assert(items@.subrange(0, i as int) == items@);
    out
}

/// A copy of a list of pairs of strings.
pub fn clone_pairs(items: &Vec<(String, String)>) -> (r: Vec<(String, String)>)
    ensures
        r@ == items@,
{
    let mut out: Vec<(String, String)> = Vec::new();
    let mut i: usize = 0;
    while i < items.len()
        invariant
            i <= items.len(),
            out@ == items@.subrange(0, i as int),
        decreases items.len() - i,
    {
        out.push((items[i].0.clone(), items[i].1.clone()));
        assert(out@ == items@.subrange(0, i + 1));
        i += 1;
    }
    assert(items@.subrange(0, i as int) == items@);
    out
}

} // verus!
