//! The hook configuration model: a mapping of hook name to an ordered list
//! of commands, each optionally guarded by a glob-style condition on the
//! caller's directory.

use vstd::prelude::*;

verus! {

/// One configured hook command, with an optional glob condition.
#[derive(Debug, PartialEq, Eq)]
pub struct HookEntry {
    /// The command printed when the entry matches.
    pub command: String,
    /// A glob pattern, relative to the caller's directory unless absolute;
    /// the entry matches unconditionally when absent.
    pub only_if: Option<String>,
}

/// The configured hooks.
#[derive(Debug, PartialEq, Eq)]
pub struct Hooks {
    /// Commands run after the worktree set changed.
    pub post_worktree_change: Vec<HookEntry>,
}

/// The whole configuration.
#[derive(Debug, PartialEq, Eq)]
pub struct Config {
    pub hooks: Hooks,
}

impl HookEntry {
    /// Whether the entry matches, given whether its condition's glob found
    /// anything: an unconditional entry always matches.
    pub fn matches(&self, glob_matched: bool) -> (r: bool)
        ensures
            r == (self.only_if is None || glob_matched),
    {
        match &self.only_if {
            None => true,
            Some(_) => glob_matched,
        }
    }
}

} // verus!
