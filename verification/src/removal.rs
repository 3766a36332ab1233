//! What removing a path amounts to, given what the path names.

use vstd::prelude::*;

verus! {

/// What to do with a path that is to be removed.
#[derive(Clone, Copy, Debug, PartialEq, Eq, Structural)]
pub enum RemovalAction {
    /// Delete the regular file at the path.
    DeleteFile,
    /// Delete the directory at the path with everything below it.
    DeleteTree,
    /// The path names nothing: there is nothing to do.
    Nothing,
}

/// The action for a path, as a function of what it names.
pub open spec fn removal_for(is_file: bool, is_dir: bool) -> RemovalAction {
    if is_file {
        RemovalAction::DeleteFile
    } else if is_dir {
        RemovalAction::DeleteTree
    } else {
        RemovalAction::Nothing
    }
}

/// Decides how a path is removed: a regular file is deleted, a directory is
/// deleted with all its contents, and a path that names neither is left alone.
pub fn plan_removal(is_file: bool, is_dir: bool) -> (action: RemovalAction)
    ensures
        action == removal_for(is_file, is_dir),
{
    if is_file {
        RemovalAction::DeleteFile
    } else if is_dir {
        RemovalAction::DeleteTree
    } else {
        RemovalAction::Nothing
    }
}

} // verus!
