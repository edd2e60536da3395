//! The resolved options of one run.

use vstd::prelude::*;

verus! {

/// Number of repositories that are probed at the same time.
pub const WORKERS: usize = 8;

/// What the user asked for.
#[derive(Clone, Debug, PartialEq, Eq)]
pub struct Opt {
    /// Render every repository that was found.
    pub all: bool,
    /// Refresh from the remote before looking at a repository.
    pub fetch: bool,
    /// Update from the remote before looking at a repository.
    pub pull: bool,
    /// Render the full status report below each path.
    pub status: bool,
    /// Also render repositories that are behind their upstream.
    pub behind: bool,
    /// Also render repositories that are ahead of their upstream.
    pub ahead: bool,
    /// Root directory of the scan, if one was given.
    pub input: Option<String>,
}

} // verus!
