//! Verified string comparison helpers.
//!
//! Identifiers (player names, league names) and status tags are plain
//! strings throughout the data model, so equality and case-insensitive
//! equality on `&str` are the workhorse predicates of the crate.

use vstd::prelude::*;

verus! {

/// Exact string equality, stated over the character views.
pub fn str_eq(a: &str, b: &str) -> (r: bool)
    ensures
        r == (a@ == b@),
{
    let alen = a.unicode_len();
    let blen = b.unicode_len();
    if alen != blen {
        proof {
            assert(a@ != b@);
        }
        return false;
    }
    let mut i: usize = 0;
    while i < alen
        invariant
            alen == a@.len(),
            blen == b@.len(),
            alen == blen,
            i <= alen,
            forall|j: int| 0 <= j < i ==> a@[j] == b@[j],
        decreases alen - i,
    {
        if a.get_char(i) != b.get_char(i) {
            return false;
        }
        i += 1;
    }
    proof {
        assert(a@ =~= b@);
    }
    true
}

/// The code point of a character with an ASCII letter folded to lower
/// case; every other character is left unchanged.
pub open spec fn lower_code(u: u32) -> u32 {
    if 65 <= u <= 90 {
        (u + 32) as u32
    } else {
        u
    }
}

/// Case-insensitive character equality, folding ASCII letters only.
pub open spec fn char_ieq(a: char, b: char) -> bool {
    lower_code(a as u32) == lower_code(b as u32)
}

/// Case-insensitive string equality, folding ASCII letters only.
pub open spec fn seq_ieq(a: Seq<char>, b: Seq<char>) -> bool {
    a.len() == b.len() && forall|i: int| 0 <= i < a.len() ==> char_ieq(a[i], b[i])
}

/// `needle` occurs in `hay` starting at position `k`, compared
/// case-insensitively.
pub open spec fn matches_at_ci(hay: Seq<char>, needle: Seq<char>, k: int) -> bool {
    &&& 0 <= k
    &&& k + needle.len() <= hay.len()
    &&& forall|i: int| 0 <= i < needle.len() ==> char_ieq(hay[k + i], needle[i])
}

/// `needle` occurs somewhere in `hay`, compared case-insensitively.
pub open spec fn contains_ci(hay: Seq<char>, needle: Seq<char>) -> bool {
    exists|k: int| matches_at_ci(hay, needle, k)
}

fn chars_ieq(a: char, b: char) -> (r: bool)
    ensures
        r == char_ieq(a, b),
{
    let ua = a as u32;
    let ub = b as u32;
    let la = if 65 <= ua && ua <= 90 {
        ua + 32
    } else {
        ua
    };
    let lb = if 65 <= ub && ub <= 90 {
        ub + 32
    } else {
        ub
    };
    la == lb
}

/// Case-insensitive string equality (ASCII folding).
pub fn str_ieq(a: &str, b: &str) -> (r: bool)
    ensures
        r == seq_ieq(a@, b@),
{
    let alen = a.unicode_len();
    let blen = b.unicode_len();
    if alen != blen {
        return false;
    }
    let mut i: usize = 0;
    while i < alen
        invariant
            alen == a@.len(),
            blen == b@.len(),
            alen == blen,
            i <= alen,
            forall|j: int| 0 <= j < i ==> char_ieq(a@[j], b@[j]),
        decreases alen - i,
    {
        if !chars_ieq(a.get_char(i), b.get_char(i)) {
            return false;
        }
        i += 1;
    }
    true
}

fn match_at_ci(hay: &str, needle: &str, k: usize) -> (r: bool)
    requires
        k + needle@.len() <= hay@.len(),
        hay@.len() <= usize::MAX,
    ensures
        r == matches_at_ci(hay@, needle@, k as int),
{
    let nlen = needle.unicode_len();
    let mut i: usize = 0;
    while i < nlen
        invariant
            nlen == needle@.len(),
            k + nlen <= hay@.len(),
            hay@.len() <= usize::MAX,
            i <= nlen,
            forall|j: int| 0 <= j < i ==> char_ieq(hay@[k + j], needle@[j]),
        decreases nlen - i,
    {
        if !chars_ieq(hay.get_char(k + i), needle.get_char(i)) {
            return false;
        }
        i += 1;
    }
    true
}

/// Case-insensitive substring search (ASCII folding), as a `%needle%`
/// pattern behaves in the store's filtered queries.
pub fn str_contains_ci(hay: &str, needle: &str) -> (r: bool)
    ensures
        r == contains_ci(hay@, needle@),
{
    let hlen = hay.unicode_len();
    let nlen = needle.unicode_len();
    if nlen > hlen {
        return false;
    }
    let mut k: usize = 0;
    while k <= hlen - nlen
        invariant
            hlen == hay@.len(),
            nlen == needle@.len(),
            nlen <= hlen,
            k <= hlen - nlen + 1,
            forall|k2: int| 0 <= k2 < k ==> !matches_at_ci(hay@, needle@, k2),
        decreases hlen - nlen + 1 - k,
    {
        if match_at_ci(hay, needle, k) {
            return true;
        }
        k += 1;
    }
    false
}

} // verus!
