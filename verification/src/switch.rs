//! The switch subcommand: pick one live worktree interactively and print its
//! path for the shell integration to change into.

use vstd::prelude::*;

use crate::action::Action;
use crate::action::Event;
use crate::action::PickItem;
use crate::action::items_view;
use crate::text::str_string;
use crate::text::strings_view;
use crate::worktree::Worktree;
use crate::worktree::parse_possible;
use crate::worktree::worktree_views;

verus! {

/// Where the switch subcommand stands.
#[derive(Debug, PartialEq, Eq)]
pub enum SwitchPhase {
    /// The worktree listing was requested.
    AwaitListing,
    /// The picker was launched in single mode.
    AwaitPick,
    /// The chosen path was printed.
    AwaitOutAck,
    /// The subcommand is over.
    Done,
}

/// The switch subcommand state machine.
pub struct Switch {
    /// Whether the subcommand failed.
    pub failed: bool,
    pub phase: SwitchPhase,
}

/// The subcommand stops here, failed, with this message.
pub open spec fn switch_failed(post: Switch, r: Action, msg: Seq<char>) -> bool {
    &&& post.phase is Done
    &&& post.failed
    &&& r matches Action::Finish { error: Some(e), background } && e@ == msg && background@.len()
        == 0
}

/// The subcommand stops here, successful.
pub open spec fn switch_done(post: Switch, r: Action) -> bool {
    &&& post.phase is Done
    &&& !post.failed
    &&& r matches Action::Finish { error, background } && error is None && background@.len() == 0
}

impl Switch {
    /// The machine's invariant: only a finished machine can be failed.
    pub open spec fn wf(self) -> bool {
        !(self.phase is Done) ==> !self.failed
    }

    /// The live worktree records of a porcelain listing: one per block with a
    /// path and a branch indication, in order, kept only while the path is a
    /// directory.
    pub fn parse_worktrees(input: &str) -> (r: Vec<Worktree>)
        ensures
            parse_possible(input@, worktree_views(r@)),
    {
        crate::worktree::parse_worktrees(input)
    }

    /// Which event answers the current phase.
    pub open spec fn expects(self, event: Event) -> bool {
        match self.phase {
            SwitchPhase::AwaitListing => event is Cmd,
            SwitchPhase::AwaitPick => event is Picked,
            SwitchPhase::AwaitOutAck => event is Ack,
            SwitchPhase::Done => true,
        }
    }

    /// One step: feed the event answering the previous action and receive
    /// the next action.
    pub fn step(&mut self, event: Event) -> (r: Action)
        requires
            old(self).wf(),
            old(self).expects(event),
        ensures
            final(self).wf(),
            // the listing answered: a failed command or an empty set of live
            // records fails, otherwise the picker is launched in single mode
            old(self).phase is AwaitListing ==> (event matches Event::Cmd {
                success,
                stdout,
                stderr,
            } ==> {
                if !success {
                    switch_failed(*final(self), r, "failed to list worktrees"@)
                } else {
                    exists|ws: Seq<crate::worktree::WorktreeView>|
                        {
                            &&& parse_possible(stdout@, ws)
                            &&& if ws.len() == 0 {
                                switch_failed(*final(self), r, "no worktrees found"@)
                            } else {
                                &&& final(self).phase is AwaitPick
                                &&& !final(self).failed
                                &&& r matches Action::Pick { items, multi, prompt, preview }
                                    && multi == false && prompt is Some && preview is Some
                                    && items_view(items@) == Seq::new(
                                    ws.len(),
                                    |k: int| (ws[k].branch, ws[k].path),
                                ) && prompt->Some_0@ == "worktree> "@ && preview->Some_0@
                                    == "git -C {} diff --color=always"@
                            }
                        }
                }
            }),
            // the pick answered: an abort or empty pick ends quietly, else
            // the chosen payload is printed
            old(self).phase is AwaitPick ==> (event matches Event::Picked { aborted, items }
                ==> {
                if aborted || items@.len() == 0 {
                    switch_done(*final(self), r)
                } else {
                    &&& final(self).phase is AwaitOutAck
                    &&& !final(self).failed
                    &&& r matches Action::Out { line } && line@ == items@[0].payload@
                }
            }),
            // the path was printed: done
            old(self).phase is AwaitOutAck ==> (event is Ack ==> switch_done(*final(self), r)),
            // a finished subcommand only repeats its outcome
            old(self).phase is Done ==> {
                &&& *final(self) == *old(self)
                &&& r matches Action::Finish { error, background } && (error is Some <==> old(
                    self,
                ).failed) && background@.len() == 0
            },
    {
        match self.phase {
            SwitchPhase::AwaitListing => {
                match event {
                    Event::Cmd { success, stdout, stderr } => {
                        if !success {
                            self.fail(str_string("failed to list worktrees"))
                        } else {
                            let ws = Switch::parse_worktrees(stdout.as_str());
                            let ghost wsv = worktree_views(ws@);
                            if ws.len() == 0 {
                                let a = self.fail(str_string("no worktrees found"));
                                proof {
                                    assert(parse_possible(stdout@, wsv) && wsv.len() == 0);
                                }
                                a
                            } else {
                                self.phase = SwitchPhase::AwaitPick;
                                let mut items: Vec<PickItem> = Vec::new();
                                let n = ws.len();
                                let mut k: usize = 0;
                                proof {
                                    assert(items_view(items@) =~= Seq::new(
                                        0,
                                        |j: int| (wsv[j].branch, wsv[j].path),
                                    ));
                                }
                                while k < n
                                    invariant
                                        n == ws@.len(),
                                        wsv == worktree_views(ws@),
                                        k <= n,
                                        items_view(items@) == Seq::new(
                                            k as nat,
                                            |j: int| (wsv[j].branch, wsv[j].path),
                                        ),
                                    decreases n - k,
                                {
                                    let ghost previ = items_view(items@);
                                    items.push(
                                        PickItem {
                                            label: str_string(ws[k].branch.as_str()),
                                            payload: str_string(ws[k].path.as_str()),
                                        },
                                    );
                                    k = k + 1;
                                    proof {
                                        assert(ws@[k - 1]@ == wsv[k - 1]);
                                        assert(items_view(items@) =~= previ.push(
                                            (wsv[k - 1].branch, wsv[k - 1].path),
                                        ));
                                        assert(previ.push((wsv[k - 1].branch, wsv[k - 1].path))
                                            =~= Seq::new(
                                            k as nat,
                                            |j: int| (wsv[j].branch, wsv[j].path),
                                        ));
                                    }
                                }
                                proof {
                                    assert(parse_possible(stdout@, wsv));
                                    assert(items_view(items@) =~= Seq::new(
                                        wsv.len(),
                                        |j: int| (wsv[j].branch, wsv[j].path),
                                    ));
                                }
                                Action::Pick {
                                    items,
                                    multi: false,
                                    prompt: Some(str_string("worktree> ")),
                                    preview: Some(str_string("git -C {} diff --color=always")),
                                }
                            }
                        }
                    },
                    _ => self.fail(String::new()),
                }
            },
            SwitchPhase::AwaitPick => {
                match event {
                    Event::Picked { aborted, items } => {
                        if aborted || items.len() == 0 {
                            self.phase = SwitchPhase::Done;
                            Action::Finish { error: None, background: Vec::new() }
                        } else {
                            self.phase = SwitchPhase::AwaitOutAck;
                            Action::Out { line: str_string(items[0].payload.as_str()) }
                        }
                    },
                    _ => self.fail(String::new()),
                }
            },
            SwitchPhase::AwaitOutAck => {
                match event {
                    Event::Ack => {
                        self.phase = SwitchPhase::Done;
                        Action::Finish { error: None, background: Vec::new() }
                    },
                    _ => self.fail(String::new()),
                }
            },
            SwitchPhase::Done => {
                if self.failed {
                    Action::Finish { error: Some(String::new()), background: Vec::new() }
                } else {
                    Action::Finish { error: None, background: Vec::new() }
                }
            },
        }
    }

    fn fail(&mut self, message: String) -> (r: Action)
        ensures
            switch_failed(*final(self), r, message@),
    {
        self.phase = SwitchPhase::Done;
        self.failed = true;
        Action::Finish { error: Some(message), background: Vec::new() }
    }
}

/// Start the switch subcommand: the first action asks for the worktree
/// listing.
pub fn run() -> (r: (Switch, Action))
    ensures
        r.0.phase is AwaitListing,
        !r.0.failed,
        r.1 matches Action::RunGit { args, dir } && strings_view(args@) == seq![
            "worktree"@,
            "list"@,
            "--porcelain"@,
        ] && dir is None,
{
    let m = Switch { failed: false, phase: SwitchPhase::AwaitListing };
    let args = vec![str_string("worktree"), str_string("list"), str_string("--porcelain")];
    proof {
        assert(strings_view(args@) =~= seq!["worktree"@, "list"@, "--porcelain"@]);
    }
    (m, Action::RunGit { args, dir: None })
}

} // verus!
