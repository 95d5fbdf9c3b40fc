//! The subcommands: each invocation is dispatched to the state machine of
//! its subcommand, which the caller then drives action by action.

use vstd::prelude::*;

use crate::action::Action;
use crate::action::Event;
use crate::config::HookEntry;
use crate::style::Style;
use crate::text::strings_view;

verus! {

/// The shells for which integration can be generated.
#[derive(Debug, PartialEq, Eq, Clone, Copy)]
pub enum Shell {
    Zsh,
}

/// The hooks that can be queried.
#[derive(Debug, PartialEq, Eq, Clone, Copy)]
pub enum HookName {
    PostWorktreeChange,
}

/// The init subcommand's arguments.
#[derive(Debug, PartialEq, Eq)]
pub struct Init {
    /// Shell to generate integration for.
    pub shell: Shell,
}

/// One parsed invocation.
#[derive(Debug, PartialEq, Eq)]
pub enum Subcommand {
    /// Create a new worktree on a new branch.
    Create { name: String },
    /// Generate shell integration.
    Init(Init),
    /// List all worktrees.
    List,
    /// Remove worktrees.
    Remove,
    /// Switch to a different worktree.
    Switch,
    /// Print the matching commands of a configured hook.
    Hook { name: HookName },
}

/// The ambient values a subcommand may need, captured once by the caller.
pub struct Env {
    /// The caller's working directory.
    pub cwd: String,
    /// The process id.
    pub pid: usize,
    /// Styling for standard output reports.
    pub stdout_style: Style,
    /// Styling for error-stream reports.
    pub stderr_style: Style,
    /// The configured entries of the queried hook, in order.
    pub hooks: Vec<HookEntry>,
}

/// Where the init subcommand stands.
#[derive(Debug, PartialEq, Eq)]
pub enum InitPhase {
    /// The integration script was emitted.
    AwaitEmitAck,
    /// The subcommand is over.
    Done,
}

/// The init subcommand state machine: emit the built-in script, then stop.
pub struct InitRun {
    pub phase: InitPhase,
}

impl InitRun {
    /// Which event answers the current phase.
    pub open spec fn expects(self, event: Event) -> bool {
        match self.phase {
            InitPhase::AwaitEmitAck => event is Ack,
            InitPhase::Done => true,
        }
    }

    /// One step: the emission acknowledged, the subcommand is over.
    pub fn step(&mut self, event: Event) -> (r: Action)
        requires
            old(self).expects(event),
        ensures
            final(self).phase is Done,
            r matches Action::Finish { error, background } && error is None && background@.len()
                == 0,
    {
        self.phase = InitPhase::Done;
        Action::Finish { error: None, background: Vec::new() }
    }
}

/// A running subcommand: the machine the caller drives.
pub enum Session {
    Create(crate::create::Create),
    Init(InitRun),
    List(crate::list::List),
    Remove(crate::remove::Remove),
    Switch(crate::switch::Switch),
    Hook(crate::hook::Hook),
}

/// How an invocation opens: which machine stands in the session and what it
/// asks first.
pub open spec fn dispatched(sub: Subcommand, env: Env, s: Session, a: Action) -> bool {
    match sub {
        Subcommand::Create { name } => s matches Session::Create(m) && ({
            &&& m.phase is AwaitRoot
            &&& m.name@ == name@
            &&& m.style == env.stdout_style
            &&& !m.failed
            &&& a matches Action::RunGit { args, dir } && strings_view(args@) == seq![
                "rev-parse"@,
                "--show-toplevel"@,
            ] && dir is None
        }),
        Subcommand::Init(_) => s matches Session::Init(m) && ({
            &&& m.phase is AwaitEmitAck
            &&& a is EmitInit
        }),
        Subcommand::List => s matches Session::List(m) && ({
            &&& m.wf()
            &&& m.phase is AwaitListing
            &&& m.cwd@ == env.cwd@
            &&& m.style == env.stdout_style
            &&& a matches Action::RunGit { args, dir } && strings_view(args@) == seq![
                "worktree"@,
                "list"@,
                "--porcelain"@,
            ] && dir is None
        }),
        Subcommand::Remove => s matches Session::Remove(m) && ({
            &&& m.wf()
            &&& m.phase is AwaitListing
            &&& m.cwd@ == env.cwd@
            &&& m.pid == env.pid
            &&& m.style == env.stderr_style
            &&& a matches Action::RunGit { args, dir } && strings_view(args@) == seq![
                "worktree"@,
                "list"@,
                "--porcelain"@,
            ] && dir is None
        }),
        Subcommand::Switch => s matches Session::Switch(m) && ({
            &&& m.phase is AwaitListing
            &&& !m.failed
            &&& a matches Action::RunGit { args, dir } && strings_view(args@) == seq![
                "worktree"@,
                "list"@,
                "--porcelain"@,
            ] && dir is None
        }),
        Subcommand::Hook { name } => s matches Session::Hook(m) && ({
            &&& m.wf()
            &&& m.entries@ == env.hooks@
            &&& m.cwd@ == env.cwd@
            &&& crate::hook::at_entry(m, m, a, 0)
        }),
    }
}

impl Subcommand {
    /// Open the invocation: build the subcommand's machine and its first
    /// action.
    pub fn run(self, env: Env) -> (r: (Session, Action))
        ensures
            dispatched(self, env, r.0, r.1),
    {
        match self {
            Subcommand::Create { name } => {
                let (m, a) = crate::create::Create::run(name, env.stdout_style);
                (Session::Create(m), a)
            },
            Subcommand::Init(_) => {
                (Session::Init(InitRun { phase: InitPhase::AwaitEmitAck }), Action::EmitInit)
            },
            Subcommand::List => {
                let (m, a) = crate::list::run(env.cwd, env.stdout_style);
                (Session::List(m), a)
            },
            Subcommand::Remove => {
                let (m, a) = crate::remove::run(env.cwd, env.pid, env.stderr_style);
                (Session::Remove(m), a)
            },
            Subcommand::Switch => {
                let (m, a) = crate::switch::run();
                (Session::Switch(m), a)
            },
            Subcommand::Hook { name: _ } => {
                let (m, a) = crate::hook::run(env.hooks, env.cwd);
                (Session::Hook(m), a)
            },
        }
    }
}

} // verus!
