//! The pragma line of a contract source.
//!
//! A source declares its compiler version on a line of the form
//! `pragma solidity <version>;` where `<version>` is an optional caret
//! followed by one or more digits and dots; the version (caret
//! included) of the first such line is the source's pragma version.
//! The line must start with the literal prefix; anything may follow
//! the semicolon.

use vstd::prelude::*;
use crate::bytes::{subvec, views_of};
use crate::target::split_spec;

verus! {

/// The line prefix `pragma solidity ` (with its trailing space).
pub open spec fn pragma_prefix() -> Seq<u8> {
    seq![
        112u8,
        114u8,
        97u8,
        103u8,
        109u8,
        97u8,
        32u8,
        115u8,
        111u8,
        108u8,
        105u8,
        100u8,
        105u8,
        116u8,
        121u8,
        32u8,
    ]
}

/// A byte a version number is made of: a digit or a dot.
pub open spec fn is_version_byte(b: u8) -> bool {
    b == 46 || (48 <= b && b <= 57)
}

/// The end of the run of version bytes starting at `j`.
pub open spec fn version_run_end(line: Seq<u8>, j: int) -> int
    decreases line.len() - j,
{
    if 0 <= j < line.len() && is_version_byte(line[j]) {
        version_run_end(line, j + 1)
    } else {
        j
    }
}

/// The version declared by one line, if the line starts with the
/// pragma prefix, carries an optional caret and at least one version
/// byte, and closes the version with a semicolon.
pub open spec fn pragma_line_version(line: Seq<u8>) -> Option<Seq<u8>> {
    let p = pragma_prefix().len() as int;
    if line.len() >= p && line.subrange(0, p) == pragma_prefix() {
        let j = if p < line.len() && line[p] == 94 {
            p + 1
        } else {
            p
        };
        let k = version_run_end(line, j);
        if j < k && k < line.len() && line[k] == 59 {
            Some(line.subrange(p, k))
        } else {
            None
        }
    } else {
        None
    }
}

/// The version declared by the first matching line, if any.
pub open spec fn first_pragma_in(lines: Seq<Seq<u8>>) -> Option<Seq<u8>>
    decreases lines.len(),
{
    if lines.len() == 0 {
        None
    } else {
        match pragma_line_version(lines[0]) {
            Some(v) => Some(v),
            None => first_pragma_in(lines.subrange(1, lines.len() as int)),
        }
    }
}

/// The pragma version of a whole source: that of the first matching
/// line, lines being separated by newlines.
pub open spec fn pragma_version_spec(source: Seq<u8>) -> Option<Seq<u8>> {
    first_pragma_in(split_spec(source, 10))
}

/// Lines known not to match can be skipped without changing the result.
proof fn lemma_first_pragma_skip(lines: Seq<Seq<u8>>, i: int)
    requires
        0 <= i <= lines.len(),
        forall|j: int| 0 <= j < i ==> pragma_line_version(#[trigger] lines[j]) is None,
    ensures
        first_pragma_in(lines) == first_pragma_in(lines.subrange(i, lines.len() as int)),
    decreases i,
{
    if i == 0 {
        assert(lines.subrange(0, lines.len() as int) =~= lines);
    } else {
        let tail = lines.subrange(1, lines.len() as int);
        assert(forall|j: int| 0 <= j < i - 1 ==> pragma_line_version(#[trigger] tail[j]) is None);
        lemma_first_pragma_skip(tail, i - 1);
        assert(tail.subrange(i - 1, tail.len() as int) =~= lines.subrange(
            i,
            lines.len() as int,
        ));
    }
}

/// Whether `b` is a digit or a dot.
fn version_byte(b: u8) -> (r: bool)
    ensures
        r == is_version_byte(b),
{
    b == 46 || (48 <= b && b <= 57)
}

/// Parses one line against the pragma rule.
pub fn parse_pragma_line(line: &Vec<u8>) -> (r: Option<Vec<u8>>)
    ensures
        (r is None) == (pragma_line_version(line@) is None),
        r matches Some(v) ==> (pragma_line_version(line@) matches Some(sv) && sv == v@),
{
    let prefix: Vec<u8> = vec![
        112u8, 114u8, 97u8, 103u8, 109u8, 97u8, 32u8, 115u8, 111u8, 108u8, 105u8, 100u8, 105u8,
        116u8, 121u8, 32u8,
    ];
    proof {
        assert(prefix@ =~= pragma_prefix());
    }
    let n: usize = line.len();
    let p: usize = prefix.len();
    if n < p {
        return None;
    }
    let mut i: usize = 0;
    while i < p
        invariant
            n == line@.len(),
            p == pragma_prefix().len(),
            prefix@ == pragma_prefix(),
            p <= n,
            i <= p,
            forall|q: int| 0 <= q < i ==> line@[q] == pragma_prefix()[q],
        decreases p - i,
    {
        if line[i] != prefix[i] {
            proof {
                let head = line@.subrange(0, p as int);
                assert(head[i as int] == line@[i as int]);
            }
            return None;
        }
        i += 1;
    }
    proof {
        assert(line@.subrange(0, p as int) =~= pragma_prefix());
    }
    let mut j: usize = p;
    if j < n && line[j] == 94 {
        j += 1;
    }
    let mut k: usize = j;
    while k < n && version_byte(line[k])
        invariant
            n == line@.len(),
            j <= k <= n,
            version_run_end(line@, j as int) == version_run_end(line@, k as int),
        decreases n - k,
    {
        k += 1;
    }
    proof {
        assert(version_run_end(line@, k as int) == k as int);
    }
    if j < k && k < n && line[k] == 59 {
        Some(subvec(line, p, k))
    } else {
        None
    }
}

/// The pragma version of a source text: the version of the first line
/// of the form `pragma solidity <version>;`, if any line matches.
pub fn get_pragma_version(source: &Vec<u8>) -> (r: Option<Vec<u8>>)
    ensures
        (r is None) == (pragma_version_spec(source@) is None),
        r matches Some(v) ==> (pragma_version_spec(source@) matches Some(sv) && sv == v@),
{
    let lines = crate::target::split_bytes(source, 10u8);
    let mut i: usize = 0;
    while i < lines.len()
        invariant
            i <= lines@.len(),
            views_of(lines@) == split_spec(source@, 10),
            forall|j: int| 0 <= j < i ==> pragma_line_version(
                #[trigger] views_of(lines@)[j],
            ) is None,
        decreases lines@.len() - i,
    {
        let parsed = parse_pragma_line(&lines[i]);
        match parsed {
            Some(v) => {
                proof {
                    let all = views_of(lines@);
                    lemma_first_pragma_skip(all, i as int);
                    assert(all.subrange(i as int, all.len() as int)[0] == all[i as int]);
                    assert(all[i as int] == lines@[i as int]@);
                }
                return Some(v);
            },
            None => {
                proof {
                    assert(views_of(lines@)[i as int] == lines@[i as int]@);
                }
            },
        }
        i += 1;
    }
    proof {
        let all = views_of(lines@);
        lemma_first_pragma_skip(all, all.len() as int);
        assert(all.subrange(all.len() as int, all.len() as int) =~= Seq::<Seq<u8>>::empty());
    }
    None
}

} // verus!
