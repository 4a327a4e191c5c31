//! Searching for literal patterns in a sequence of characters.

use vstd::prelude::*;

verus! {

/// `p` stands in `h` starting at index `i`.
pub open spec fn occurs_at(h: Seq<char>, p: Seq<char>, i: int) -> bool {
    0 <= i && i + p.len() <= h.len() && h.subrange(i, i + p.len()) == p
}

/// The first index at or after `i` where `p` stands in `h`.
pub open spec fn first_from(h: Seq<char>, p: Seq<char>, i: int) -> Option<int>
    decreases h.len() + 1 - i,
{
    if i < 0 || i + p.len() > h.len() {
        None
    } else if occurs_at(h, p, i) {
        Some(i)
    } else {
        first_from(h, p, i + 1)
    }
}

/// A character that ends a URL in a banner line.
pub open spec fn is_url_stop(c: char) -> bool {
    c == '/' || c == ' '
}

/// The first index at or after `i` holding a URL stop character.
pub open spec fn first_stop_from(h: Seq<char>, i: int) -> Option<int>
    decreases h.len() - i,
{
    if i < 0 || i >= h.len() {
        None
    } else if is_url_stop(h[i]) {
        Some(i)
    } else {
        first_stop_from(h, i + 1)
    }
}

/// Relies on `str::chars`: the characters of `s`, in order.
#[verifier::external_body]
pub(crate) fn chars_of(s: &str) -> (r: Vec<char>)
    ensures
        r@ == s@,
{
    s.chars().collect()
}

/// Whether `p` stands in `h` at index `i`.
pub fn occurs_at_exec(h: &Vec<char>, p: &Vec<char>, i: usize) -> (r: bool)
    ensures
        r == occurs_at(h@, p@, i as int),
{
    if p.len() > h.len() || i > h.len() - p.len() {
        return false;
    }
    let mut k: usize = 0;
    while k < p.len()
        invariant
            k <= p.len(),
            i + p.len() <= h.len(),
            forall|j: int| 0 <= j < k ==> h@[i + j] == p@[j],
        decreases p.len() - k,
    {
        if h[i + k] != p[k] {
            assert(h@.subrange(i as int, i + p.len())[k as int] != p@[k as int]);
            return false;
        }
        k = k + 1;
    }
    assert(h@.subrange(i as int, i + p.len()) =~= p@);
    true
}

/// The first index at or after `from` where `p` stands in `h`.
pub fn find_from(h: &Vec<char>, p: &Vec<char>, from: usize) -> (r: Option<usize>)
    ensures
        r matches Some(i) ==> first_from(h@, p@, from as int) == Some(i as int),
        r is None ==> first_from(h@, p@, from as int) is None,
{
    if p.len() == 0 {
        if from <= h.len() {
            assert(h@.subrange(from as int, from as int) =~= p@);
            return Some(from);
        }
        return None;
    }
    let mut i: usize = from;
    while i <= h.len() && p.len() <= h.len() - i
        invariant
            from <= i,
            p.len() > 0,
            first_from(h@, p@, from as int) == first_from(h@, p@, i as int),
        decreases h.len() + 1 - i,
    {
        if occurs_at_exec(h, p, i) {
            return Some(i);
        }
        i = i + 1;
    }
    None
}

/// The first index at or after `from` holding a URL stop character.
pub fn find_stop_from(h: &Vec<char>, from: usize) -> (r: Option<usize>)
    ensures
        r matches Some(i) ==> first_stop_from(h@, from as int) == Some(i as int),
        r is None ==> first_stop_from(h@, from as int) is None,
{
    let mut i: usize = from;
    while i < h.len()
        invariant
            from <= i,
            first_stop_from(h@, from as int) == first_stop_from(h@, i as int),
        decreases h.len() - i,
    {
        if h[i] == '/' || h[i] == ' ' {
            return Some(i);
        }
        i = i + 1;
    }
    None
}

} // verus!
