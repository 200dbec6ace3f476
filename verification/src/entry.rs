//! Entries of a repository file listing.
//!
//! One `ContentEntry` is one item of the listing a contents API returns
//! for a path: a name, a path, an entry kind (`file`, `dir`, or anything
//! else), and identifying metadata the core logic never reads.  Every
//! field is optional, as it is in the listing response.

use vstd::prelude::*;

verus! {

/// The nested link block of a listing entry.
#[derive(Clone)]
pub struct LinkSet {
    pub self_link: Option<Vec<u8>>,
    pub git: Option<Vec<u8>>,
    pub html: Option<Vec<u8>>,
}

/// One item of a repository's file listing.
#[derive(Clone)]
pub struct ContentEntry {
    pub name: Option<Vec<u8>>,
    pub path: Option<Vec<u8>>,
    pub sha: Option<Vec<u8>>,
    pub size: Option<u64>,
    pub url: Option<Vec<u8>>,
    pub kind: Option<Vec<u8>>,
    pub html_url: Option<Vec<u8>>,
    pub git_url: Option<Vec<u8>>,
    pub download_url: Option<Vec<u8>>,
    pub links: Option<LinkSet>,
}

/// The entry kind marking a plain file.
pub open spec fn file_kind() -> Seq<u8> {
    seq![102u8, 105u8, 108u8, 101u8]
}

/// The entry kind marking a directory.
pub open spec fn dir_kind() -> Seq<u8> {
    seq![100u8, 105u8, 114u8]
}

impl ContentEntry {
    /// The entry's kind is `file`.
    pub open spec fn is_file(self) -> bool {
        self.kind matches Some(k) && k@ == file_kind()
    }

    /// The entry's kind is `dir`.
    pub open spec fn is_dir(self) -> bool {
        self.kind matches Some(k) && k@ == dir_kind()
    }

    /// Whether the entry's kind is `dir`.
    pub fn kind_is_dir(&self) -> (r: bool)
        ensures
            r == self.is_dir(),
    {
        let dir_bytes: Vec<u8> = vec![100u8, 105u8, 114u8];
        proof {
            assert(dir_bytes@ =~= dir_kind());
        }
        match &self.kind {
            Some(k) => crate::bytes::bytes_eq(k, &dir_bytes),
            None => false,
        }
    }

    /// An entry with no metadata beyond a name and a kind of `file`,
    /// as a synthetic listing for tests would build it.
    pub fn file(name: Vec<u8>) -> (e: ContentEntry)
        ensures
            e.is_file(),
            !e.is_dir(),
            e.name matches Some(n) && n@ == name@,
            e.path is None,
    {
        let kind: Vec<u8> = vec![102u8, 105u8, 108u8, 101u8];
        proof {
            assert(kind@ =~= file_kind());
            assert(kind@ != dir_kind());
        }
        ContentEntry {
            name: Some(name),
            path: None,
            sha: None,
            size: None,
            url: None,
            kind: Some(kind),
            html_url: None,
            git_url: None,
            download_url: None,
            links: None,
        }
    }

    /// An entry with no metadata beyond a path and a kind of `dir`.
    pub fn dir(path: Vec<u8>) -> (e: ContentEntry)
        ensures
            e.is_dir(),
            !e.is_file(),
            e.path matches Some(p) && p@ == path@,
            e.name is None,
    {
        let kind: Vec<u8> = vec![100u8, 105u8, 114u8];
        proof {
            assert(kind@ =~= dir_kind());
            assert(kind@ != file_kind());
        }
        ContentEntry {
            name: None,
            path: Some(path),
            sha: None,
            size: None,
            url: None,
            kind: Some(kind),
            html_url: None,
            git_url: None,
            download_url: None,
            links: None,
        }
    }
}

} // verus!
