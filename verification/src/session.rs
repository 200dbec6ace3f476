//! The per-repository lifecycle, as a verified state machine.
//!
//! One `RepoSession` drives one repository through access check,
//! stale-workspace cleanup, clone, compile, tree walk, per-file
//! extraction, and final cleanup.  The surrounding application performs
//! each requested `Action` (all of which is I/O) and feeds the outcome
//! back as an `Event`; every decision between those steps is made here.
//!
//! Failure policy: an inaccessible repository is skipped outright; a
//! failed clone ends the session in `CloneFailed`, which the runner
//! treats as fatal to the whole run; a failed compile
//! is recorded and processing continues; a failed listing aborts this
//! repository's walk but still runs the final cleanup; a failed
//! extraction omits that one file; cleanup outcomes are never escalated.

use vstd::prelude::*;
use crate::bytes::{clone_bytes, views_of};
use crate::entry::ContentEntry;
use crate::outcome::{
    pairs_of,
    CompileOutcome,
    EligibleSource,
    ExtractionError,
    ListingError,
    RepositoryResult,
};
use crate::target::RepositoryTarget;
use crate::walker::{dir_paths_of, eligible_names_of, WalkState};

verus! {

broadcast use crate::bytes::lemma_views_of_push;

/// Where a session stands in the lifecycle.
#[derive(Clone, Copy, PartialEq, Eq, Structural, Debug)]
pub enum Phase {
    /// Waiting for the HTTP status of the access check.
    CheckingAccess,
    /// Waiting for the stale workspace to be deleted.
    CleaningBefore,
    /// Waiting for the clone to finish.
    Cloning,
    /// Waiting for the external compile to finish.
    Compiling,
    /// Waiting for the next directory listing.
    Walking,
    /// Waiting for the next file's extraction outcome.
    Extracting,
    /// Waiting for the workspace to be deleted after processing.
    CleaningAfter,
    /// Processing finished.
    Done,
    /// The repository was inaccessible; nothing was created.
    Skipped,
    /// The clone failed.
    CloneFailed,
}

/// The I/O step the application must perform next.
pub enum Action {
    /// Request the repository's root listing and report its HTTP status.
    CheckAccess { owner: Vec<u8>, name: Vec<u8> },
    /// Delete the repository's workspace, best-effort.
    DeleteWorkspace { repository: Vec<u8> },
    /// Clone the repository into its workspace.
    CloneRepository { owner: Vec<u8>, name: Vec<u8> },
    /// Run the external compile command in the workspace.
    RunCompile { repository: Vec<u8> },
    /// Fetch the listing of one directory path (empty means the root).
    FetchListing { owner: Vec<u8>, name: Vec<u8>, path: Vec<u8> },
    /// Run the external inspect command for one file.
    RunExtraction { repository: Vec<u8>, file_name: Vec<u8> },
}

/// The outcome of a performed action, fed back into the session.
pub enum Event {
    AccessChecked { status: u16 },
    WorkspaceCleaned { ok: bool },
    CloneFinished { ok: bool },
    CompileFinished { outcome: CompileOutcome },
    ListingFetched { result: Result<Vec<ContentEntry>, ListingError> },
    ExtractionFinished { result: Result<Vec<u8>, ExtractionError> },
}

/// One repository's processing state.
pub struct RepoSession {
    pub target: RepositoryTarget,
    pub phase: Phase,
    pub walk: WalkState,
    pub next_file: usize,
    pub collected: Vec<EligibleSource>,
    pub compile_outcome: Option<CompileOutcome>,
    pub walk_error: Option<ListingError>,
}

impl RepoSession {
    /// Internal consistency: up to and during the walk a directory is
    /// always pending (initially the root), and during extraction the
    /// current file index is in range.
    pub open spec fn wf(self) -> bool {
        &&& (match self.phase {
            Phase::CheckingAccess | Phase::CleaningBefore | Phase::Cloning | Phase::Compiling
                | Phase::Walking => self.walk.pending@.len() > 0,
            _ => true,
        })
        &&& (self.phase is Extracting ==> self.next_file < self.walk.found@.len())
    }

    /// No further action will be requested.
    pub open spec fn terminal(self) -> bool {
        self.phase is Done || self.phase is Skipped || self.phase is CloneFailed
    }

    /// The kind of event the pending action will produce.
    pub open spec fn expects(self, event: Event) -> bool {
        match self.phase {
            Phase::CheckingAccess => event is AccessChecked,
            Phase::CleaningBefore => event is WorkspaceCleaned,
            Phase::Cloning => event is CloneFinished,
            Phase::Compiling => event is CompileFinished,
            Phase::Walking => event is ListingFetched,
            Phase::Extracting => event is ExtractionFinished,
            Phase::CleaningAfter => event is WorkspaceCleaned,
            Phase::Done | Phase::Skipped | Phase::CloneFailed => false,
        }
    }

    /// A fresh session for one repository, about to check access.
    pub fn new(target: RepositoryTarget) -> (s: RepoSession)
        ensures
            s.wf(),
            s.phase is CheckingAccess,
            s.target == target,
            s.walk.found@.len() == 0,
            s.walk.pending@.len() == 1 && s.walk.pending@[0]@ == Seq::<u8>::empty(),
            s.collected@.len() == 0,
    {
        RepoSession {
            target,
            phase: Phase::CheckingAccess,
            walk: WalkState::new(),
            next_file: 0,
            collected: Vec::new(),
            compile_outcome: None,
            walk_error: None,
        }
    }

    /// The I/O step the application must perform next, or nothing once
    /// the session is terminal.
    pub fn current_action(&self) -> (a: Option<Action>)
        requires
            self.wf(),
        ensures
            self.phase is CheckingAccess ==> (a matches Some(Action::CheckAccess { owner, name })
                && owner@ == self.target.owner@ && name@ == self.target.name@),
            (self.phase is CleaningBefore || self.phase is CleaningAfter) ==> (a matches Some(
                Action::DeleteWorkspace { repository },
            ) && repository@ == self.target.name@),
            self.phase is Cloning ==> (a matches Some(Action::CloneRepository { owner, name })
                && owner@ == self.target.owner@ && name@ == self.target.name@),
            self.phase is Compiling ==> (a matches Some(Action::RunCompile { repository })
                && repository@ == self.target.name@),
            self.phase is Walking ==> (a matches Some(Action::FetchListing { owner, name, path })
                && owner@ == self.target.owner@ && name@ == self.target.name@ && path@
                == self.walk.pending@.last()@),
            self.phase is Extracting ==> (a matches Some(
                Action::RunExtraction { repository, file_name },
            ) && repository@ == self.target.name@ && file_name@
                == self.walk.found@[self.next_file as int]@),
            self.terminal() ==> a is None,
    {
        match self.phase {
            Phase::CheckingAccess => Some(Action::CheckAccess {
                owner: clone_bytes(&self.target.owner),
                name: clone_bytes(&self.target.name),
            }),
            Phase::CleaningBefore | Phase::CleaningAfter => Some(Action::DeleteWorkspace {
                repository: clone_bytes(&self.target.name),
            }),
            Phase::Cloning => Some(Action::CloneRepository {
                owner: clone_bytes(&self.target.owner),
                name: clone_bytes(&self.target.name),
            }),
            Phase::Compiling => Some(Action::RunCompile {
                repository: clone_bytes(&self.target.name),
            }),
            Phase::Walking => {
                let idx: usize = self.walk.pending.len() - 1;
                Some(Action::FetchListing {
                    owner: clone_bytes(&self.target.owner),
                    name: clone_bytes(&self.target.name),
                    path: clone_bytes(&self.walk.pending[idx]),
                })
            },
            Phase::Extracting => Some(Action::RunExtraction {
                repository: clone_bytes(&self.target.name),
                file_name: clone_bytes(&self.walk.found[self.next_file]),
            }),
            Phase::Done | Phase::Skipped | Phase::CloneFailed => None,
        }
    }

    /// Feeds the outcome of the pending action into the session.
    pub fn on_event(&mut self, event: Event)
        requires
            old(self).wf(),
            old(self).expects(event),
        ensures
            final(self).wf(),
            final(self).target == old(self).target,
            // An inaccessible repository (status at or above 400) is
            // skipped; otherwise cleanup of a stale workspace begins.
            old(self).phase is CheckingAccess ==> (event matches Event::AccessChecked { status }
                ==> {
                &&& (status >= 400 ==> final(self).phase is Skipped)
                &&& (status < 400 ==> final(self).phase is CleaningBefore)
                &&& final(self).walk == old(self).walk
                &&& final(self).collected == old(self).collected
            }),
            // Pre-clone cleanup is best-effort: either way, clone next.
            old(self).phase is CleaningBefore ==> (event is WorkspaceCleaned ==> (final(self).phase is Cloning && final(self).walk == old(self).walk && final(self).collected
                == old(self).collected)),
            // A successful clone moves on to compilation.
            old(self).phase is Cloning ==> (event matches Event::CloneFinished { ok } ==> {
                &&& (ok ==> final(self).phase is Compiling)
                &&& (!ok ==> final(self).phase is CloneFailed)
                &&& final(self).walk == old(self).walk
                &&& final(self).collected == old(self).collected
            }),
            // Compilation failure is non-fatal: the walk starts either way.
            old(self).phase is Compiling ==> (event matches Event::CompileFinished { outcome }
                ==> {
                &&& final(self).phase is Walking
                &&& final(self).compile_outcome == Some(outcome)
                &&& final(self).walk == old(self).walk
                &&& final(self).collected == old(self).collected
            }),
            // A fetched listing replaces the pending directory it was
            // fetched for by the directories it holds, and adds its
            // eligible file names to the walk's result.
            old(self).phase is Walking ==> (event matches Event::ListingFetched {
                result: Ok(entries),
            } ==> {
                &&& views_of(final(self).walk.found@) == views_of(old(self).walk.found@)
                    + eligible_names_of(entries@)
                &&& views_of(final(self).walk.pending@) == views_of(
                    old(self).walk.pending@,
                ).drop_last() + dir_paths_of(entries@)
                &&& final(self).collected == old(self).collected
                &&& (final(self).walk.pending@.len() > 0 ==> final(self).phase is Walking)
                &&& (final(self).walk.pending@.len() == 0 && final(self).walk.found@.len() == 0
                    ==> final(self).phase is CleaningAfter)
                &&& (final(self).walk.pending@.len() == 0 && final(self).walk.found@.len() > 0
                    ==> final(self).phase is Extracting && final(self).next_file == 0)
            }),
            // A failed listing aborts this repository's walk; cleanup
            // still runs.
            old(self).phase is Walking ==> (event matches Event::ListingFetched {
                result: Err(e),
            } ==> (final(self).phase is CleaningAfter && final(self).walk_error == Some(e)
                && final(self).collected == old(self).collected)),
            // A successful extraction appends its file's name and the
            // raw bytecode; a failed one contributes nothing.  Either
            // way the walk's file list advances by one.
            old(self).phase is Extracting ==> (event matches Event::ExtractionFinished { result }
                ==> {
                &&& (result matches Ok(b) ==> pairs_of(final(self).collected@) == pairs_of(
                    old(self).collected@,
                ).push((old(self).walk.found@[old(self).next_file as int]@, b@)))
                &&& (result is Err ==> final(self).collected == old(self).collected)
                &&& final(self).walk == old(self).walk
                &&& final(self).next_file == old(self).next_file + 1
                &&& (old(self).next_file + 1 < old(self).walk.found@.len() ==> final(self).phase is Extracting)
                &&& (old(self).next_file + 1 == old(self).walk.found@.len() ==> final(self).phase is CleaningAfter)
            }),
            // Post-processing cleanup is best-effort; the session ends.
            old(self).phase is CleaningAfter ==> (event is WorkspaceCleaned ==> (final(self).phase is Done && final(self).collected == old(self).collected)),
    {
        match (self.phase, event) {
            (Phase::CheckingAccess, Event::AccessChecked { status }) => {
                if status >= 400 {
                    self.phase = Phase::Skipped;
                } else {
                    self.phase = Phase::CleaningBefore;
                }
            },
            (Phase::CleaningBefore, Event::WorkspaceCleaned { .. }) => {
                self.phase = Phase::Cloning;
            },
            (Phase::Cloning, Event::CloneFinished { ok }) => {
                if ok {
                    self.phase = Phase::Compiling;
                } else {
                    self.phase = Phase::CloneFailed;
                }
            },
            (Phase::Compiling, Event::CompileFinished { outcome }) => {
                self.compile_outcome = Some(outcome);
                self.phase = Phase::Walking;
            },
            (Phase::Walking, Event::ListingFetched { result }) => {
                match result {
                    Ok(entries) => {
                        let ghost pend0 = self.walk.pending@;
                        let _listed = self.walk.next_dir();
                        self.walk.absorb(&entries);
                        proof {
                            assert(views_of(self.walk.pending@) =~= views_of(
                                pend0,
                            ).drop_last() + dir_paths_of(entries@));
                        }
                        if !self.walk.has_pending() {
                            if self.walk.found.len() == 0 {
                                self.phase = Phase::CleaningAfter;
                            } else {
                                self.next_file = 0;
                                self.phase = Phase::Extracting;
                            }
                        }
                    },
                    Err(e) => {
                        self.walk_error = Some(e);
                        self.phase = Phase::CleaningAfter;
                    },
                }
            },
            (Phase::Extracting, Event::ExtractionFinished { result }) => {
                let total: usize = self.walk.found.len();
                match result {
                    Ok(bytecode) => {
                        let file_name = clone_bytes(&self.walk.found[self.next_file]);
                        let ghost fv = file_name@;
                        let ghost bv = bytecode@;
                        let ghost prev = self.collected@;
                        self.collected.push(EligibleSource { file_name, bytecode });
                        proof {
                            assert(pairs_of(self.collected@) =~= pairs_of(prev).push((fv, bv)));
                        }
                    },
                    Err(_) => {},
                }
                self.next_file = self.next_file + 1;
                if self.next_file == total {
                    self.phase = Phase::CleaningAfter;
                }
            },
            (Phase::CleaningAfter, Event::WorkspaceCleaned { .. }) => {
                self.phase = Phase::Done;
            },
            _ => {
                proof {
                    assert(false);
                }
            },
        }
    }

    /// The repository's contribution to the aggregate: its name and
    /// extracted sources if anything was extracted, nothing otherwise.
    pub fn take_result(self) -> (r: Option<RepositoryResult>)
        requires
            self.terminal(),
        ensures
            (self.phase is Done && self.collected@.len() > 0) ==> (r matches Some(rr)
                && rr.repository_name@ == self.target.name@ && rr.sources == self.collected),
            (self.phase is Done && self.collected@.len() == 0) ==> r is None,
            self.phase is Skipped ==> r is None,
            self.phase is CloneFailed ==> r is None,
    {
        match self.phase {
            Phase::Done => {
                if self.collected.len() > 0 {
                    Some(RepositoryResult {
                        repository_name: self.target.name,
                        sources: self.collected,
                    })
                } else {
                    None
                }
            },
            _ => None,
        }
    }
}

} // verus!
