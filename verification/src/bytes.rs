//! Byte-string helpers: suffix and substring tests, slicing, splitting.
//!
//! File names, paths, URLs and process output are held as `Vec<u8>`, so
//! every rule about them can be stated over `Seq<u8>`.

use vstd::prelude::*;

verus! {

/// `s` ends with `suffix`.
pub open spec fn ends_with(s: Seq<u8>, suffix: Seq<u8>) -> bool {
    suffix.len() <= s.len() && s.subrange(s.len() - suffix.len(), s.len() as int) == suffix
}

/// `pattern` occurs in `s` starting at position `i`.
pub open spec fn matches_at(s: Seq<u8>, pattern: Seq<u8>, i: int) -> bool {
    0 <= i && i + pattern.len() <= s.len() && s.subrange(i, i + pattern.len()) == pattern
}

/// `pattern` occurs somewhere in `s`.
pub open spec fn contains_seq(s: Seq<u8>, pattern: Seq<u8>) -> bool {
    exists|i: int| matches_at(s, pattern, i)
}

/// The views of a sequence of byte vectors.
pub open spec fn views_of(v: Seq<Vec<u8>>) -> Seq<Seq<u8>> {
    v.map_values(|b: Vec<u8>| b@)
}

pub broadcast proof fn lemma_views_of_push(v: Seq<Vec<u8>>, b: Vec<u8>)
    ensures
        #[trigger] views_of(v.push(b)) == views_of(v).push(b@),
{
    assert(views_of(v.push(b)) =~= views_of(v).push(b@));
}

/// Copy of a byte vector.
pub fn clone_bytes(v: &Vec<u8>) -> (r: Vec<u8>)
    ensures
        r@ == v@,
{
    let mut r: Vec<u8> = Vec::new();
    let mut i: usize = 0;
    while i < v.len()
        invariant
            i <= v@.len(),
            r@.len() == i,
            forall|j: int| 0 <= j < i ==> r@[j] == v@[j],
        decreases v@.len() - i,
    {
        r.push(v[i]);
        i += 1;
    }
    proof {
        assert(r@ =~= v@);
    }
    r
}

/// Equality of two byte vectors.
pub fn bytes_eq(a: &Vec<u8>, b: &Vec<u8>) -> (r: bool)
    ensures
        r == (a@ == b@),
{
    if a.len() != b.len() {
        return false;
    }
    let mut i: usize = 0;
    while i < a.len()
        invariant
            a@.len() == b@.len(),
            i <= a@.len(),
            forall|j: int| 0 <= j < i ==> a@[j] == b@[j],
        decreases a@.len() - i,
    {
        if a[i] != b[i] {
            return false;
        }
        i += 1;
    }
    proof {
        assert(a@ =~= b@);
    }
    true
}

/// Whether `s` ends with `suffix`.
pub fn ends_with_bytes(s: &Vec<u8>, suffix: &Vec<u8>) -> (r: bool)
    ensures
        r == ends_with(s@, suffix@),
{
    let n: usize = s.len();
    if suffix.len() > n {
        return false;
    }
    let offset: usize = n - suffix.len();
    let mut i: usize = 0;
    while i < suffix.len()
        invariant
            n == s@.len(),
            suffix@.len() <= s@.len(),
            offset == s@.len() - suffix@.len(),
            i <= suffix@.len(),
            forall|j: int| 0 <= j < i ==> s@[offset + j] == suffix@[j],
        decreases suffix@.len() - i,
    {
        if s[offset + i] != suffix[i] {
            proof {
                let tail = s@.subrange(s@.len() - suffix@.len(), s@.len() as int);
                assert(tail[i as int] == s@[offset + i]);
            }
            return false;
        }
        i += 1;
    }
    proof {
        assert(s@.subrange(s@.len() - suffix@.len(), s@.len() as int) =~= suffix@);
    }
    true
}

/// Whether `pattern` occurs in `s` at position `i`.
fn matches_at_bytes(s: &Vec<u8>, pattern: &Vec<u8>, i: usize) -> (r: bool)
    requires
        i + pattern@.len() <= s@.len(),
    ensures
        r == matches_at(s@, pattern@, i as int),
{
    let n: usize = s.len();
    let mut j: usize = 0;
    while j < pattern.len()
        invariant
            n == s@.len(),
            i + pattern@.len() <= s@.len(),
            j <= pattern@.len(),
            forall|k: int| 0 <= k < j ==> s@[i + k] == pattern@[k],
        decreases pattern@.len() - j,
    {
        if s[i + j] != pattern[j] {
            proof {
                let window = s@.subrange(i as int, i + pattern@.len());
                assert(window[j as int] == s@[i + j]);
            }
            return false;
        }
        j += 1;
    }
    proof {
        assert(s@.subrange(i as int, i + pattern@.len()) =~= pattern@);
    }
    true
}

/// Whether `pattern` occurs anywhere in `s`.
pub fn contains_bytes(s: &Vec<u8>, pattern: &Vec<u8>) -> (r: bool)
    ensures
        r == contains_seq(s@, pattern@),
{
    if pattern.len() > s.len() {
        proof {
            assert(forall|i: int| !matches_at(s@, pattern@, i));
        }
        return false;
    }
    let bound: usize = s.len() - pattern.len();
    let mut i: usize = 0;
    while i < bound
        invariant
            pattern@.len() <= s@.len(),
            bound == s@.len() - pattern@.len(),
            i <= bound,
            forall|j: int| 0 <= j < i ==> !matches_at(s@, pattern@, j),
        decreases bound - i,
    {
        if matches_at_bytes(s, pattern, i) {
            return true;
        }
        i += 1;
    }
    if matches_at_bytes(s, pattern, bound) {
        return true;
    }
    proof {
        assert(forall|j: int| matches_at(s@, pattern@, j) ==> 0 <= j <= bound);
    }
    false
}

/// The bytes of `s` from `start` (inclusive) to `end` (exclusive).
pub fn subvec(s: &Vec<u8>, start: usize, end: usize) -> (r: Vec<u8>)
    requires
        start <= end <= s@.len(),
    ensures
        r@ == s@.subrange(start as int, end as int),
{
    let mut r: Vec<u8> = Vec::new();
    let mut i: usize = start;
    while i < end
        invariant
            start <= i <= end <= s@.len(),
            r@.len() == i - start,
            forall|j: int| 0 <= j < r@.len() ==> r@[j] == s@[start + j],
        decreases end - i,
    {
        r.push(s[i]);
        i += 1;
    }
    proof {
        assert(r@ =~= s@.subrange(start as int, end as int));
    }
    r
}

/// Strips `suffix` from the end of `s`, if present.
pub fn strip_suffix_bytes(s: &Vec<u8>, suffix: &Vec<u8>) -> (r: Option<Vec<u8>>)
    ensures
        ends_with(s@, suffix@) ==> (r matches Some(p) && p@ == s@.subrange(
            0,
            s@.len() - suffix@.len(),
        )),
        !ends_with(s@, suffix@) ==> r is None,
{
    if ends_with_bytes(s, suffix) {
        Some(subvec(s, 0, s.len() - suffix.len()))
    } else {
        None
    }
}

} // verus!
