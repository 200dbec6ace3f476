//! The source filter: which listing entries are eligible contract sources.
//!
//! An entry is eligible iff it is a file, its name ends with `.sol`, the
//! name does not end with the test suffix `.t.sol` or the script suffix
//! `.s.sol`, and the name does not contain the substring `Test` anywhere
//! (case-sensitive).  The rule is a pure predicate on the name's bytes.

use vstd::prelude::*;
use crate::bytes::{contains_bytes, contains_seq, ends_with, ends_with_bytes};
use crate::entry::ContentEntry;

verus! {

/// The contract-source suffix `.sol`.
pub open spec fn sol_suffix() -> Seq<u8> {
    seq![46u8, 115u8, 111u8, 108u8]
}

/// The test-contract suffix `.t.sol`.
pub open spec fn test_sol_suffix() -> Seq<u8> {
    seq![46u8, 116u8, 46u8, 115u8, 111u8, 108u8]
}

/// The deployment-script suffix `.s.sol`.
pub open spec fn script_sol_suffix() -> Seq<u8> {
    seq![46u8, 115u8, 46u8, 115u8, 111u8, 108u8]
}

/// The test-name marker `Test`.
pub open spec fn test_marker() -> Seq<u8> {
    seq![84u8, 101u8, 115u8, 116u8]
}

/// A file name is an eligible contract source iff it ends with `.sol`,
/// does not end with `.t.sol` or `.s.sol`, and nowhere contains `Test`.
pub open spec fn eligible_name(name: Seq<u8>) -> bool {
    &&& ends_with(name, sol_suffix())
    &&& !ends_with(name, test_sol_suffix())
    &&& !ends_with(name, script_sol_suffix())
    &&& !contains_seq(name, test_marker())
}

/// A listing entry is eligible iff it is a file, has a name, and the
/// name is an eligible contract source.
pub open spec fn eligible_entry(e: ContentEntry) -> bool {
    &&& e.is_file()
    &&& e.name matches Some(n) && eligible_name(n@)
}

/// The suffix `.sol` as bytes.
pub fn sol_suffix_bytes() -> (r: Vec<u8>)
    ensures
        r@ == sol_suffix(),
{
    let r: Vec<u8> = vec![46u8, 115u8, 111u8, 108u8];
    proof {
        assert(r@ =~= sol_suffix());
    }
    r
}

/// Decides eligibility of a bare file name.
pub fn eligible_file_name(name: &Vec<u8>) -> (r: bool)
    ensures
        r == eligible_name(name@),
{
    let sol: Vec<u8> = sol_suffix_bytes();
    if !ends_with_bytes(name, &sol) {
        return false;
    }
    let test_sol: Vec<u8> = vec![46u8, 116u8, 46u8, 115u8, 111u8, 108u8];
    proof {
        assert(test_sol@ =~= test_sol_suffix());
    }
    if ends_with_bytes(name, &test_sol) {
        return false;
    }
    let script_sol: Vec<u8> = vec![46u8, 115u8, 46u8, 115u8, 111u8, 108u8];
    proof {
        assert(script_sol@ =~= script_sol_suffix());
    }
    if ends_with_bytes(name, &script_sol) {
        return false;
    }
    let marker: Vec<u8> = vec![84u8, 101u8, 115u8, 116u8];
    proof {
        assert(marker@ =~= test_marker());
    }
    !contains_bytes(name, &marker)
}

/// Decides eligibility of a listing entry.
pub fn is_eligible(entry: &ContentEntry) -> (r: bool)
    ensures
        r == eligible_entry(*entry),
{
    let file_kind_bytes: Vec<u8> = vec![102u8, 105u8, 108u8, 101u8];
    proof {
        assert(file_kind_bytes@ =~= crate::entry::file_kind());
    }
    match &entry.kind {
        Some(k) => {
            if !crate::bytes::bytes_eq(k, &file_kind_bytes) {
                return false;
            }
            match &entry.name {
                Some(n) => eligible_file_name(n),
                None => false,
            }
        },
        None => false,
    }
}

} // verus!
