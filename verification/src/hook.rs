//! The hook subcommand: print the command of every configured entry whose
//! glob condition matches something under the caller's directory, in
//! configuration order.

use vstd::prelude::*;

use crate::action::Action;
use crate::action::Event;
use crate::config::HookEntry;
use crate::naming::spec_join;
use crate::naming::join_path;
use crate::text::str_string;

verus! {

/// The pattern handed to the glob evaluation: the entry's pattern under the
/// caller's directory, or the pattern itself when it is absolute.
pub open spec fn spec_pattern_under(cwd: Seq<char>, p: Seq<char>) -> Seq<char> {
    if p.len() > 0 && p[0] == '/' {
        p
    } else {
        spec_join(cwd, p)
    }
}

fn pattern_under(cwd: &str, p: &str) -> (r: String)
    ensures
        r@ == spec_pattern_under(cwd@, p@),
{
    let pc = crate::text::to_chars(p);
    if pc.len() > 0 && pc[0] == '/' {
        str_string(p)
    } else {
        join_path(cwd, p)
    }
}

/// Where the hook subcommand stands.
#[derive(Debug, PartialEq, Eq)]
pub enum HookPhase {
    /// The glob of the current entry's condition is being evaluated.
    AwaitGlob,
    /// The current entry's command was printed.
    AwaitOutAck,
    /// The subcommand is over.
    Done,
}

/// The hook subcommand state machine.
pub struct Hook {
    /// The caller's directory, against which conditions are evaluated.
    pub cwd: String,
    /// The configured entries for the requested hook, in order.
    pub entries: Vec<HookEntry>,
    /// The entry the current phase is about.
    pub i: usize,
    /// Whether the subcommand failed.
    pub failed: bool,
    pub phase: HookPhase,
}

/// The subcommand stops here, failed, with this message.
pub open spec fn hook_failed(post: Hook, r: Action, msg: Seq<char>) -> bool {
    &&& post.phase is Done
    &&& post.failed
    &&& r matches Action::Finish { error: Some(e), background } && e@ == msg && background@.len()
        == 0
}

/// What the machine asks next, standing before entry `k`: evaluate the
/// first guarded entry's glob, print the first unguarded entry's command,
/// or finish when no entry is left. Unguarded entries before the stop are
/// printed by earlier actions, so this describes only the decision at `k`.
pub open spec fn at_entry(pre: Hook, post: Hook, r: Action, k: int) -> bool {
    &&& post.entries == pre.entries
    &&& post.cwd == pre.cwd
    &&& if k < pre.entries@.len() {
        &&& post.i == k
        &&& !post.failed
        &&& match pre.entries@[k].only_if {
            Some(p) => {
                &&& post.phase is AwaitGlob
                &&& r matches Action::Glob { pattern } && pattern@ == spec_pattern_under(
                    pre.cwd@,
                    p@,
                )
            },
            None => {
                &&& post.phase is AwaitOutAck
                &&& r matches Action::Out { line } && line@ == pre.entries@[k].command@
            },
        }
    } else {
        &&& post.phase is Done
        &&& !post.failed
        &&& r matches Action::Finish { error, background } && error is None && background@.len()
            == 0
    }
}

impl Hook {
    /// The machine's invariant.
    pub open spec fn wf(self) -> bool {
        match self.phase {
            HookPhase::AwaitGlob => {
                &&& self.i < self.entries@.len()
                &&& self.entries@[self.i as int].only_if is Some
                &&& !self.failed
            },
            HookPhase::AwaitOutAck => {
                &&& self.i < self.entries@.len()
                &&& !self.failed
            },
            HookPhase::Done => true,
        }
    }

    /// Which event answers the current phase.
    pub open spec fn expects(self, event: Event) -> bool {
        match self.phase {
            HookPhase::AwaitGlob => event is Globbed,
            HookPhase::AwaitOutAck => event is Ack,
            HookPhase::Done => true,
        }
    }

    /// One step: feed the event answering the previous action and receive
    /// the next action.
    pub fn step(&mut self, event: Event) -> (r: Action)
        requires
            old(self).wf(),
            old(self).expects(event),
        ensures
            final(self).wf(),
            // the glob answered: a pattern error is fatal with its text; a
            // match prints the command, a miss moves on
            old(self).phase is AwaitGlob ==> (event matches Event::Globbed { result } ==> {
                match result {
                    Result::Err(e) => hook_failed(*final(self), r, e@),
                    Result::Ok(matched) => {
                        if matched {
                            &&& final(self).phase is AwaitOutAck
                            &&& final(self).i == old(self).i
                            &&& final(self).entries == old(self).entries
                            &&& !final(self).failed
                            &&& r matches Action::Out { line } && line@ == old(self).entries@[old(
                                self,
                            ).i as int].command@
                        } else {
                            at_entry(*old(self), *final(self), r, old(self).i + 1)
                        }
                    },
                }
            }),
            // the command was printed: move on
            old(self).phase is AwaitOutAck ==> (event is Ack ==> at_entry(
                *old(self),
                *final(self),
                r,
                old(self).i + 1,
            )),
            // a finished subcommand only repeats its outcome
            old(self).phase is Done ==> {
                &&& r matches Action::Finish { error, background } && (error is Some <==> old(
                    self,
                ).failed) && background@.len() == 0
            },
    {
        match self.phase {
            HookPhase::AwaitGlob => {
                match event {
                    Event::Globbed { result } => {
                        match result {
                            Result::Err(e) => self.fail(e),
                            Result::Ok(matched) => {
                                if matched {
                                    self.phase = HookPhase::AwaitOutAck;
                                    Action::Out {
                                        line: str_string(self.entries[self.i].command.as_str()),
                                    }
                                } else {
                                    self.advance()
                                }
                            },
                        }
                    },
                    _ => self.fail(String::new()),
                }
            },
            HookPhase::AwaitOutAck => {
                match event {
                    Event::Ack => self.advance(),
                    _ => self.fail(String::new()),
                }
            },
            HookPhase::Done => {
                if self.failed {
                    Action::Finish { error: Some(String::new()), background: Vec::new() }
                } else {
                    Action::Finish { error: None, background: Vec::new() }
                }
            },
        }
    }

    /// Move to the next entry.
    fn advance(&mut self) -> (r: Action)
        requires
            old(self).i < old(self).entries@.len(),
            !old(self).failed,
        ensures
            final(self).wf(),
            at_entry(*old(self), *final(self), r, old(self).i + 1),
    {
        let n = self.entries.len();
        proof {
            assert(self.i < n);
        }
        let ni = self.i + 1;
        if ni < n {
            self.i = ni;
            match &self.entries[ni].only_if {
                Some(p) => {
                    self.phase = HookPhase::AwaitGlob;
                    Action::Glob { pattern: pattern_under(self.cwd.as_str(), p.as_str()) }
                },
                None => {
                    self.phase = HookPhase::AwaitOutAck;
                    Action::Out { line: str_string(self.entries[ni].command.as_str()) }
                },
            }
        } else {
            self.phase = HookPhase::Done;
            self.failed = false;
            Action::Finish { error: None, background: Vec::new() }
        }
    }

    fn fail(&mut self, message: String) -> (r: Action)
        ensures
            hook_failed(*final(self), r, message@),
    {
        self.phase = HookPhase::Done;
        self.failed = true;
        Action::Finish { error: Some(message), background: Vec::new() }
    }
}

/// Start the hook subcommand on the configured entries: the first action
/// handles the first entry, or finishes if there is none.
pub fn run(entries: Vec<HookEntry>, cwd: String) -> (r: (Hook, Action))
    ensures
        r.0.wf(),
        r.0.entries@ == entries@,
        r.0.cwd@ == cwd@,
        at_entry(r.0, r.0, r.1, 0),
{
    let mut m = Hook { cwd, entries, i: 0, failed: false, phase: HookPhase::Done };
    let a = if m.entries.len() > 0 {
        match &m.entries[0].only_if {
            Some(p) => {
                m.phase = HookPhase::AwaitGlob;
                Action::Glob { pattern: pattern_under(m.cwd.as_str(), p.as_str()) }
            },
            None => {
                m.phase = HookPhase::AwaitOutAck;
                Action::Out { line: str_string(m.entries[0].command.as_str()) }
            },
        }
    } else {
        Action::Finish { error: None, background: Vec::new() }
    };
    (m, a)
}

} // verus!
