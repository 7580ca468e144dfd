//! The options of one invocation.
use vstd::prelude::*;

verus! {

/// One invocation: the command phrase and how to handle it.
#[derive(Debug, Clone, PartialEq, Eq)]
pub struct Cli {
    /// The command phrase.
    pub command: String,
    /// Show the action and its command without running it.
    pub dry_run: bool,
    /// Report in JSON.
    pub json: bool,
}

} // verus!
