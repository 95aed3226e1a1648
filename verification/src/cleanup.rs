//! The cleanup policy: how one intermediate path is removed, and how the
//! outcome of the removal is classified. A directory is removed with all
//! its contents, a single file alone; a removal that the host refuses, or
//! of a path that is not there, is a `CleanupFailed` — which callers
//! treat as a secondary error that never masks the primary failure that
//! triggered the cleanup.

use vstd::prelude::*;
use crate::errors::ErrorKind;

verus! {

/// How a path is removed.
#[derive(Clone, Copy, PartialEq, Eq, Structural, Debug)]
pub enum RemovalKind {
    /// The path denotes a directory: remove it and all contents.
    RecursiveDirectory,
    /// The path denotes a single file: remove only that file.
    SingleFile,
}

/// Selects the removal form from what the host reports the path to be.
pub fn removal_kind(is_directory: bool) -> (r: RemovalKind)
    ensures
        is_directory ==> r is RecursiveDirectory,
        !is_directory ==> r is SingleFile,
{
    if is_directory {
        RemovalKind::RecursiveDirectory
    } else {
        RemovalKind::SingleFile
    }
}

/// Classifies the host's report of one removal.
pub fn removal_result(removed: bool) -> (r: Result<(), ErrorKind>)
    ensures
        removed ==> r matches Ok(_),
        !removed ==> (r matches Err(e) && e == ErrorKind::CleanupFailed),
{
    if removed {
        Ok(())
    } else {
        Err(ErrorKind::CleanupFailed)
    }
}

} // verus!
