//! Verified core of a contest-repository bytecode pipeline.
//!
//! The library models a repository's file listing as plain byte values,
//! decides which entries are eligible contract sources, walks the file
//! tree, and drives the per-repository lifecycle (access check, cleanup,
//! clone, compile, walk, extract, cleanup) as a state machine.  All I/O —
//! HTTP listing calls, cloning, external compiler processes, directory
//! deletion — is performed by the surrounding application, which feeds
//! the outcomes back in as events.

pub mod bytes;
pub mod entry;
pub mod filter;
pub mod tree;
pub mod outcome;
pub mod pragma;
pub mod session;
pub mod target;
pub mod walker;
