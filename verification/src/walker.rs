//! The worklist form of the tree walk over a remote listing.
//!
//! The real file tree is fetched one listing at a time, so the walk is
//! kept as explicit state: directory paths still to be listed, and the
//! eligible file names found so far.  Absorbing one listing moves every
//! directory path onto the worklist and every eligible file name into
//! the result; the walk is complete when no path is pending.  An
//! explicit worklist bounds the memory of the walk by the size of the
//! tree, with no call-stack recursion.

use vstd::prelude::*;
use crate::bytes::{clone_bytes, views_of};
use crate::entry::ContentEntry;
use crate::filter::{eligible_entry, is_eligible};

verus! {

broadcast use crate::bytes::lemma_views_of_push;

/// The file names a single entry contributes to the walk's result.
pub open spec fn file_contrib(e: ContentEntry) -> Seq<Seq<u8>> {
    if eligible_entry(e) {
        seq![(e.name->0)@]
    } else {
        Seq::<Seq<u8>>::empty()
    }
}

/// The directory paths a single entry contributes to the worklist.
/// A directory without a path cannot be listed and is skipped.
pub open spec fn dir_contrib(e: ContentEntry) -> Seq<Seq<u8>> {
    if e.is_dir() && e.path is Some {
        seq![(e.path->0)@]
    } else {
        Seq::<Seq<u8>>::empty()
    }
}

/// The eligible file names of a listing, in listing order.
pub open spec fn eligible_names_of(entries: Seq<ContentEntry>) -> Seq<Seq<u8>>
    decreases entries.len(),
{
    if entries.len() == 0 {
        Seq::<Seq<u8>>::empty()
    } else {
        file_contrib(entries[0]) + eligible_names_of(
            entries.subrange(1, entries.len() as int),
        )
    }
}

/// The directory paths of a listing, in listing order.
pub open spec fn dir_paths_of(entries: Seq<ContentEntry>) -> Seq<Seq<u8>>
    decreases entries.len(),
{
    if entries.len() == 0 {
        Seq::<Seq<u8>>::empty()
    } else {
        dir_contrib(entries[0]) + dir_paths_of(entries.subrange(1, entries.len() as int))
    }
}

/// Extending a listing by one entry extends its eligible names and
/// directory paths by that entry's contributions.
pub proof fn lemma_contrib_snoc(entries: Seq<ContentEntry>, i: int)
    requires
        0 <= i < entries.len(),
    ensures
        eligible_names_of(entries.subrange(0, i + 1)) == eligible_names_of(
            entries.subrange(0, i),
        ) + file_contrib(entries[i]),
        dir_paths_of(entries.subrange(0, i + 1)) == dir_paths_of(entries.subrange(0, i))
            + dir_contrib(entries[i]),
    decreases i,
{
    let pre = entries.subrange(0, i);
    let ext = entries.subrange(0, i + 1);
    if i == 0 {
        reveal_with_fuel(eligible_names_of, 2);
        reveal_with_fuel(dir_paths_of, 2);
        assert(ext.subrange(1, ext.len() as int) =~= Seq::<ContentEntry>::empty());
        assert(eligible_names_of(ext) =~= file_contrib(entries[0]));
        assert(eligible_names_of(pre) =~= Seq::<Seq<u8>>::empty());
        assert(eligible_names_of(ext) =~= eligible_names_of(pre) + file_contrib(entries[0]));
        assert(dir_paths_of(ext) =~= dir_contrib(entries[0]));
        assert(dir_paths_of(pre) =~= Seq::<Seq<u8>>::empty());
        assert(dir_paths_of(ext) =~= dir_paths_of(pre) + dir_contrib(entries[0]));
    } else {
        let tail = entries.subrange(1, entries.len() as int);
        lemma_contrib_snoc(tail, i - 1);
        assert(ext[0] == entries[0]);
        assert(pre[0] == entries[0]);
        assert(ext.subrange(1, ext.len() as int) =~= tail.subrange(0, i));
        assert(pre.subrange(1, pre.len() as int) =~= tail.subrange(0, i - 1));
        assert(tail[i - 1] == entries[i]);
        assert(eligible_names_of(ext) =~= eligible_names_of(pre) + file_contrib(entries[i]));
        assert(dir_paths_of(ext) =~= dir_paths_of(pre) + dir_contrib(entries[i]));
    }
}

/// Every file name a listing contributes satisfies the source filter.
pub proof fn lemma_eligible_names_eligible(entries: Seq<ContentEntry>)
    ensures
        forall|i: int| 0 <= i < eligible_names_of(entries).len() ==> crate::filter::eligible_name(
            #[trigger] eligible_names_of(entries)[i],
        ),
    decreases entries.len(),
{
    if entries.len() > 0 {
        let head = file_contrib(entries[0]);
        let rest = eligible_names_of(entries.subrange(1, entries.len() as int));
        lemma_eligible_names_eligible(entries.subrange(1, entries.len() as int));
        assert forall|i: int| 0 <= i < eligible_names_of(entries).len() implies
            crate::filter::eligible_name(#[trigger] eligible_names_of(entries)[i]) by {
            assert(eligible_names_of(entries) == head + rest);
            if i < head.len() {
                assert(eligible_names_of(entries)[i] == head[i]);
            } else {
                assert(eligible_names_of(entries)[i] == rest[i - head.len()]);
            }
        }
    }
}

/// The walk's state: directory paths still to be listed, and eligible
/// file names found so far.
pub struct WalkState {
    pub pending: Vec<Vec<u8>>,
    pub found: Vec<Vec<u8>>,
}

impl WalkState {
    /// A fresh walk: only the repository root (the empty path) is
    /// pending, and nothing has been found.
    pub fn new() -> (s: WalkState)
        ensures
            s.pending@.len() == 1,
            s.pending@[0]@ == Seq::<u8>::empty(),
            s.found@.len() == 0,
    {
        let root: Vec<u8> = Vec::new();
        let mut pending: Vec<Vec<u8>> = Vec::new();
        pending.push(root);
        WalkState { pending, found: Vec::new() }
    }

    /// Absorbs one fetched listing: eligible file names join the
    /// result, directory paths join the worklist, everything else is
    /// skipped silently.
    pub fn absorb(&mut self, entries: &Vec<ContentEntry>)
        ensures
            views_of(final(self).found@) == views_of(old(self).found@) + eligible_names_of(
                entries@,
            ),
            views_of(final(self).pending@) == views_of(old(self).pending@) + dir_paths_of(
                entries@,
            ),
    {
        let mut i: usize = 0;
        proof {
            assert(entries@.subrange(0, 0) =~= Seq::<ContentEntry>::empty());
            assert(views_of(self.found@) =~= views_of(self.found@) + eligible_names_of(
                entries@.subrange(0, 0),
            ));
            assert(views_of(self.pending@) =~= views_of(self.pending@) + dir_paths_of(
                entries@.subrange(0, 0),
            ));
        }
        while i < entries.len()
            invariant
                i <= entries@.len(),
                views_of(self.found@) == views_of(old(self).found@) + eligible_names_of(
                    entries@.subrange(0, i as int),
                ),
                views_of(self.pending@) == views_of(old(self).pending@) + dir_paths_of(
                    entries@.subrange(0, i as int),
                ),
            decreases entries@.len() - i,
        {
            proof {
                lemma_contrib_snoc(entries@, i as int);
            }
            let e = &entries[i];
            if is_eligible(e) {
                match &e.name {
                    Some(n) => {
                        self.found.push(clone_bytes(n));
                    },
                    None => {
                        proof {
                            assert(false);
                        }
                    },
                }
            }
            if e.kind_is_dir() {
                match &e.path {
                    Some(p) => {
                        self.pending.push(clone_bytes(p));
                    },
                    None => {},
                }
            }
            proof {
                assert(views_of(self.found@) =~= views_of(old(self).found@) + eligible_names_of(
                    entries@.subrange(0, i + 1),
                ));
                assert(views_of(self.pending@) =~= views_of(old(self).pending@) + dir_paths_of(
                    entries@.subrange(0, i + 1),
                ));
            }
            i += 1;
        }
        proof {
            assert(entries@.subrange(0, entries@.len() as int) =~= entries@);
        }
    }

    /// Whether any directory path is still waiting to be listed.
    pub fn has_pending(&self) -> (r: bool)
        ensures
            r == (self.pending@.len() > 0),
    {
        self.pending.len() > 0
    }

    /// Takes the most recently queued directory path off the worklist.
    pub fn next_dir(&mut self) -> (r: Option<Vec<u8>>)
        ensures
            old(self).pending@.len() == 0 ==> (r is None
                && final(self).pending@ == old(self).pending@),
            old(self).pending@.len() > 0 ==> (r == Some(old(self).pending@.last())
                && final(self).pending@ == old(self).pending@.drop_last()),
            final(self).found == old(self).found,
    {
        self.pending.pop()
    }
}

} // verus!
