//! Paths of the file system, which the library carries and never reads.

use std::path::PathBuf;
use vstd::prelude::*;

verus! {

/// `std::path::PathBuf`, of which nothing is looked into.
#[verifier::external_type_specification]
#[verifier::external_body]
pub struct ExPathBuf(PathBuf);

/// `Clone` for `PathBuf`: an equal path.
#[verifier::external_body]
pub(crate) fn copy_path(path: &PathBuf) -> (copy: PathBuf)
    ensures
        copy == *path,
{
    path.clone()
}

} // verus!
