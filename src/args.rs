//! The commands the program is driven by.
use vstd::prelude::*;

verus! {

/// What to do.
#[derive(Debug, Clone, PartialEq, Eq)]
pub enum Cmd {
    /// Register a directory; the current one when no path is given.
    Track { path: Option<String> },
    /// Snapshot and push every registered repository.
    Sync,
}

/// The command, and whether to ask for the remote URL again instead of
/// reusing the one remembered.
#[derive(Debug, Clone, PartialEq, Eq)]
pub struct Args {
    pub cmd: Cmd,
    pub init: bool,
}

/// Whether the remote URL must be asked for: when asked to start over, or
/// when none was remembered.
pub fn must_ask_remote(init: bool, remembered: bool) -> (r: bool)
    ensures
        r == (init || !remembered),
{
    init || !remembered
}

} // verus!
