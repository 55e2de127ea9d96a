//! The Command Locator: resolves an executable name to a path by searching
//! the process's executable search path.

use vstd::prelude::*;

verus! {

/// Relies on `pathsearch::find_executable_in_path`: searches the directories
/// of the process's `PATH` for an executable file with the given name and
/// yields the first candidate's path, or `None` when no directory holds one.
/// The result depends on the environment and on what is on disk, so nothing
/// is promised of it; callers state what holds of every outcome.
#[verifier::external_body]
pub(crate) fn locate_executable(name: &str) -> (r: Option<String>) {
    pathsearch::find_executable_in_path(name).map(|p| p.to_string_lossy().to_string())
}

} // verus!
