//! The parsed command line: a single subcommand, run against the captured
//! environment.

use vstd::prelude::*;

use crate::action::Action;
use crate::subcommand::Env;
use crate::subcommand::Session;
use crate::subcommand::Subcommand;
use crate::subcommand::dispatched;

verus! {

/// One parsed invocation of the tool.
#[derive(Debug, PartialEq, Eq)]
pub struct Arguments {
    pub subcommand: Subcommand,
}

impl Arguments {
    /// Open the invocation: build the subcommand's machine and its first
    /// action.
    pub fn run(self, env: Env) -> (r: (Session, Action))
        ensures
            dispatched(self.subcommand, env, r.0, r.1),
    {
        self.subcommand.run(env)
    }
}

} // verus!
