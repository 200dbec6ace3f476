//! Repository targets parsed out of repository URLs.
//!
//! A repository URL of the form `https://github.com/{owner}/{name}`
//! splits on `/` into at least five segments (scheme, empty, host,
//! owner, name); the fourth and fifth are the target's identity.  A URL
//! with fewer segments is malformed and yields no target.

use vstd::prelude::*;
use crate::bytes::{clone_bytes, subvec, views_of};

verus! {

/// The path-segment separator `/`.
pub open spec fn slash() -> u8 {
    47u8
}

/// The pieces of `s` between occurrences of `sep`, scanning from
/// position `i` with the current piece having started at `start`.
pub open spec fn split_from(s: Seq<u8>, sep: u8, i: int, start: int) -> Seq<Seq<u8>>
    recommends
        0 <= start <= i <= s.len(),
    decreases s.len() - i,
{
    if i < 0 || i >= s.len() {
        seq![s.subrange(start, s.len() as int)]
    } else if s[i] == sep {
        seq![s.subrange(start, i)] + split_from(s, sep, i + 1, i + 1)
    } else {
        split_from(s, sep, i + 1, start)
    }
}

/// The pieces of `s` between occurrences of `sep`.  Splitting never
/// yields an empty sequence of pieces: an empty input gives one empty
/// piece.
pub open spec fn split_spec(s: Seq<u8>, sep: u8) -> Seq<Seq<u8>> {
    split_from(s, sep, 0, 0)
}

/// Splits `s` on `sep`.
pub fn split_bytes(s: &Vec<u8>, sep: u8) -> (parts: Vec<Vec<u8>>)
    ensures
        views_of(parts@) == split_spec(s@, sep),
{
    let mut parts: Vec<Vec<u8>> = Vec::new();
    let mut start: usize = 0;
    let mut i: usize = 0;
    while i < s.len()
        invariant
            0 <= start <= i <= s@.len(),
            views_of(parts@) + split_from(s@, sep, i as int, start as int) == split_spec(s@, sep),
        decreases s@.len() - i,
    {
        if s[i] == sep {
            let ghost before = parts@;
            let piece = subvec(s, start, i);
            let ghost pv = piece@;
            parts.push(piece);
            proof {
                assert(views_of(parts@) =~= views_of(before).push(pv));
                assert(split_from(s@, sep, i as int, start as int) == seq![
                    s@.subrange(start as int, i as int),
                ] + split_from(s@, sep, i + 1, i + 1));
                assert(views_of(parts@) + split_from(s@, sep, i + 1, i + 1) =~= views_of(before)
                    + split_from(s@, sep, i as int, start as int));
            }
            start = i + 1;
        }
        i += 1;
    }
    let ghost before = parts@;
    let piece = subvec(s, start, s.len());
    let ghost pv = piece@;
    parts.push(piece);
    proof {
        assert(views_of(parts@) =~= views_of(before).push(pv));
        assert(split_from(s@, sep, s@.len() as int, start as int) == seq![
            s@.subrange(start as int, s@.len() as int),
        ]);
        assert(views_of(parts@) =~= views_of(before) + split_from(
            s@,
            sep,
            s@.len() as int,
            start as int,
        ));
    }
    parts
}

/// A remote repository's identity: its owner and its name.
pub struct RepositoryTarget {
    pub owner: Vec<u8>,
    pub name: Vec<u8>,
}

/// Parses a repository URL into a target.  The URL must split on `/`
/// into at least five segments; the fourth is the owner, the fifth the
/// repository name.  A shorter URL is malformed and yields nothing.
pub fn parse_repository_url(url: &Vec<u8>) -> (r: Option<RepositoryTarget>)
    ensures
        r is Some <==> split_spec(url@, slash()).len() >= 5,
        r matches Some(t) ==> t.owner@ == split_spec(url@, slash())[3] && t.name@ == split_spec(
            url@,
            slash(),
        )[4],
{
    let parts = split_bytes(url, 47u8);
    if parts.len() >= 5 {
        let owner = clone_bytes(&parts[3]);
        let name = clone_bytes(&parts[4]);
        Some(RepositoryTarget { owner, name })
    } else {
        None
    }
}

} // verus!
