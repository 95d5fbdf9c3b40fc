//! The removal protocol: tearing down a selected set of worktrees as a
//! two-phase batch. Each directory is first hidden by an atomic rename to a
//! process-scoped trash path (with a synchronous forced removal as fallback),
//! the registry is pruned exactly once per batch, the branches of the removed
//! worktrees are force-deleted, a navigation hint is printed when the
//! caller's directory vanished, and the trashed directories are left to
//! detached best-effort background deletion that can no longer affect the
//! outcome.

use vstd::prelude::*;

use crate::action::Action;
use crate::action::Event;
use crate::action::PickItem;
use crate::action::is_within;
use crate::action::items_view;
use crate::action::path_within;
use crate::naming::spec_join;
use crate::naming::spec_parent;
use crate::naming::join_path;
use crate::naming::parent_dir;
use crate::num::dec_of;
use crate::num::spec_dec;
use crate::style::Style;
use crate::style::spec_deleted_branch_line;
use crate::style::spec_quoted_failure;
use crate::style::spec_worktree_line;
use crate::style::deleted_branch_line;
use crate::style::quoted_failure;
use crate::style::worktree_line;
use crate::text::spec_trim;
use crate::text::str_eq;
use crate::text::str_string;
use crate::text::string_from_chars;
use crate::text::strings_view;
use crate::text::trim_str;
use crate::worktree::parse_possible;
use crate::worktree::parse_worktrees;
use crate::worktree::worktree_views;

verus! {

/// One worktree chosen for removal: its branch label and its path.
#[derive(Debug, PartialEq, Eq)]
pub struct Selected {
    pub branch: String,
    pub path: String,
}

/// The views of a selection, as branch/path pairs.
pub open spec fn sel_views(s: Seq<Selected>) -> Seq<(Seq<char>, Seq<char>)> {
    Seq::new(s.len(), |i: int| (s[i].branch@, s[i].path@))
}

/// The branches of the selection that are not the detached sentinel, in
/// selection order: the branches the protocol owes a deletion.
pub open spec fn spec_non_detached(sel: Seq<Selected>) -> Seq<Seq<char>>
    decreases sel.len(),
{
    if sel.len() == 0 {
        Seq::empty()
    } else {
        let rest = spec_non_detached(sel.drop_last());
        if sel.last().branch@ == "(detached)"@ {
            rest
        } else {
            rest.push(sel.last().branch@)
        }
    }
}

/// The trash name for the `i`-th worktree of this process's batch.
pub open spec fn spec_trash_name(pid: int, i: int) -> Seq<char> {
    ".wt-removing-"@ + spec_dec(pid) + "-"@ + spec_dec(i)
}

/// The trash path: the trash name beside the worktree, in its parent.
pub open spec fn spec_trash_path(path: Seq<char>, pid: int, i: int) -> Seq<char> {
    spec_join(spec_parent(path), spec_trash_name(pid, i))
}

fn trash_path(path: &str, pid: usize, i: usize) -> (r: String)
    ensures
        r@ == spec_trash_path(path@, pid as int, i as int),
{
    let mut name = str_string(".wt-removing-");
    let pid_chars = string_from_chars(&dec_of(pid));
    name.append(pid_chars.as_str());
    name.append("-");
    let i_chars = string_from_chars(&dec_of(i));
    name.append(i_chars.as_str());
    proof {
        assert(name@ =~= spec_trash_name(pid as int, i as int));
    }
    let parent = parent_dir(path);
    join_path(parent.as_str(), name.as_str())
}

/// Where the protocol stands: what was asked last, about which selection
/// index.
#[derive(Debug, PartialEq, Eq)]
pub enum RemovePhase {
    /// The worktree listing was requested.
    AwaitListing,
    /// The picker was launched on the non-primary candidates.
    AwaitPick,
    /// A rename of the worktree at the current index was attempted.
    AwaitRename,
    /// The forced removal fallback for the current index is running.
    AwaitForce,
    /// The single per-batch registry prune is running.
    AwaitPrune,
    /// The removal of the current index was announced.
    AwaitRemovedAck,
    /// The branch of the current index is being force-deleted.
    AwaitBranchDelete,
    /// The branch deletion of the current index was announced.
    AwaitDeletedAck,
    /// The navigation hint was printed.
    AwaitHintAck,
    /// The batch is over; only `Finish` is ever issued again.
    Done,
}

/// The removal protocol state machine.
pub struct Remove {
    /// The caller's original working directory.
    pub cwd: String,
    /// The process id scoping the trash names.
    pub pid: usize,
    /// Styling for status lines.
    pub style: Style,
    /// The primary worktree's path, once the listing is parsed.
    pub head_path: String,
    /// The worktrees chosen for removal, in selection order.
    pub selection: Vec<Selected>,
    /// The selection index the current phase is about.
    pub i: usize,
    /// Trash paths of successfully renamed directories, pending background
    /// deletion.
    pub pending: Vec<String>,
    /// Branches force-deleted so far, in order.
    pub deleted: Vec<String>,
    /// Whether the batch failed.
    pub failed: bool,
    pub phase: RemovePhase,
}

impl Remove {
    /// No selected worktree is the primary.
    pub open spec fn excludes_primary(self) -> bool {
        forall|k: int|
            0 <= k < self.selection@.len() ==> self.selection@[k].path@ != self.head_path@
    }

    /// The machine's invariant. Notably: the branches deleted so far are
    /// exactly the non-detached branches of the selection prefix the
    /// protocol has worked through, and the selection never holds the
    /// primary worktree.
    pub open spec fn wf(self) -> bool {
        &&& self.excludes_primary()
        &&& match self.phase {
            RemovePhase::AwaitListing | RemovePhase::AwaitPick => {
                &&& self.selection@.len() == 0
                &&& self.deleted@.len() == 0
                &&& self.pending@.len() == 0
                &&& self.i == 0
                &&& !self.failed
            },
            RemovePhase::AwaitRename | RemovePhase::AwaitForce => {
                &&& self.i < self.selection@.len()
                &&& self.deleted@.len() == 0
                &&& !self.failed
            },
            RemovePhase::AwaitPrune => {
                &&& self.selection@.len() >= 1
                &&& self.deleted@.len() == 0
                &&& !self.failed
            },
            RemovePhase::AwaitRemovedAck => {
                &&& self.i < self.selection@.len()
                &&& strings_view(self.deleted@) == spec_non_detached(
                    self.selection@.subrange(0, self.i as int),
                )
                &&& !self.failed
            },
            RemovePhase::AwaitBranchDelete => {
                &&& self.i < self.selection@.len()
                &&& strings_view(self.deleted@) == spec_non_detached(
                    self.selection@.subrange(0, self.i as int),
                )
                &&& self.selection@[self.i as int].branch@ != "(detached)"@
                &&& !self.failed
            },
            RemovePhase::AwaitDeletedAck => {
                &&& self.i < self.selection@.len()
                &&& strings_view(self.deleted@) == spec_non_detached(
                    self.selection@.subrange(0, self.i + 1),
                )
                &&& !self.failed
            },
            RemovePhase::AwaitHintAck => {
                &&& strings_view(self.deleted@) == spec_non_detached(self.selection@)
                &&& !self.failed
            },
            RemovePhase::Done => {
                !self.failed ==> strings_view(self.deleted@) == spec_non_detached(self.selection@)
            },
        }
    }

    /// Which event answers the current phase.
    pub open spec fn expects(self, event: Event) -> bool {
        match self.phase {
            RemovePhase::AwaitListing
            | RemovePhase::AwaitForce
            | RemovePhase::AwaitPrune
            | RemovePhase::AwaitBranchDelete => event is Cmd,
            RemovePhase::AwaitPick => event matches Event::Picked { aborted, items } && (forall|
                k: int,
            |
                0 <= k < items@.len() ==> items@[k].payload@ != self.head_path@),
            RemovePhase::AwaitRename => event is Renamed,
            RemovePhase::AwaitRemovedAck
            | RemovePhase::AwaitDeletedAck
            | RemovePhase::AwaitHintAck => event is Ack,
            RemovePhase::Done => true,
        }
    }
}

/// The batch stops here, failed, with this message; nothing is handed to
/// background deletion.
pub open spec fn failed_with(post: Remove, r: Action, msg: Seq<char>) -> bool {
    &&& post.phase is Done
    &&& post.failed
    &&& r matches Action::Finish { error: Some(e), background } && e@ == msg && background@.len()
        == 0
}

/// The batch stops here, successful: the trashed directories are handed to
/// background deletion.
pub open spec fn finished_ok(post: Remove, r: Action) -> bool {
    &&& post.phase is Done
    &&& !post.failed
    &&& r matches Action::Finish { error: None, background } && strings_view(background@)
        == strings_view(post.pending@)
}

/// The reporting pass stands at index `ni`: either the removal of worktree
/// `ni` was just announced, or the pass is over and the navigation hint or
/// the final success follows.
pub open spec fn report_at(pre: Remove, post: Remove, r: Action, ni: int) -> bool {
    &&& post.selection == pre.selection
    &&& post.head_path == pre.head_path
    &&& post.pending == pre.pending
    &&& if ni < pre.selection@.len() {
        &&& post.phase is AwaitRemovedAck
        &&& post.i == ni
        &&& !post.failed
        &&& r matches Action::Report { line } && line@ == spec_worktree_line(
            pre.style,
            "removed"@,
            pre.selection@[ni].branch@,
            pre.selection@[ni].path@,
        )
    } else {
        if exists|k: int| 0 <= k < pre.selection@.len() && path_within(
            pre.cwd@,
            pre.selection@[k].path@,
        ) {
            &&& post.phase is AwaitHintAck
            &&& !post.failed
            &&& r matches Action::Out { line } && line@ == pre.head_path@
        } else {
            finished_ok(post, r)
        }
    }
}

/// The rename pass stands past index `pre.i`: either the next worktree's
/// rename is issued, or the pass is over and the single prune (if anything
/// was renamed) or the reporting pass follows.
pub open spec fn renames_advanced(pre: Remove, post: Remove, r: Action) -> bool {
    let ni = pre.i + 1;
    &&& post.selection == pre.selection
    &&& post.head_path == pre.head_path
    &&& post.deleted == pre.deleted
    &&& if ni < pre.selection@.len() {
        &&& post.phase is AwaitRename
        &&& post.i == ni
        &&& !post.failed
        &&& r matches Action::Rename { from, to } && from@ == pre.selection@[ni as int].path@
            && to@ == spec_trash_path(pre.selection@[ni as int].path@, pre.pid as int, ni as int)
    } else if post.pending@.len() > 0 {
        &&& post.phase is AwaitPrune
        &&& !post.failed
        &&& r matches Action::RunGit { args, dir } && strings_view(args@) == seq![
            "worktree"@,
            "prune"@,
        ]
            && dir is Some && dir->Some_0@ == pre.head_path@
    } else {
        report_at(pre, post, r, 0)
    }
}

/// A removal step never renames or force-removes the primary worktree's
/// directory.
pub open spec fn spares_primary(m: Remove, r: Action) -> bool {
    match r {
        Action::Rename { from, to } => from@ != m.head_path@,
        Action::RunGit { args, dir } => (args@.len() == 5 && args@[1]@ == "remove"@)
            ==> args@[4]@ != m.head_path@,
        _ => true,
    }
}

/// Start the removal subcommand: the first action asks for the worktree
/// listing.
pub fn run(cwd: String, pid: usize, style: Style) -> (r: (Remove, Action))
    ensures
        r.0.wf(),
        r.0.phase is AwaitListing,
        r.0.cwd@ == cwd@,
        r.0.pid == pid,
        r.0.style == style,
        r.1 matches Action::RunGit { args, dir } && strings_view(args@) == seq![
            "worktree"@,
            "list"@,
            "--porcelain"@,
        ] && dir is None,
{
    let m = Remove {
        cwd,
        pid,
        style,
        head_path: String::new(),
        selection: Vec::new(),
        i: 0,
        pending: Vec::new(),
        deleted: Vec::new(),
        failed: false,
        phase: RemovePhase::AwaitListing,
    };
    let args = vec![str_string("worktree"), str_string("list"), str_string("--porcelain")];
    proof {
        assert(strings_view(args@) =~= seq!["worktree"@, "list"@, "--porcelain"@]);
    }
    (m, Action::RunGit { args, dir: None })
}

impl Remove {
    /// Move past the current rename or forced removal.
    fn advance_rename(&mut self) -> (r: Action)
        requires
            old(self).wf(),
            old(self).phase is AwaitRename || old(self).phase is AwaitForce,
        ensures
            final(self).wf(),
            renames_advanced(*old(self), *final(self), r),
            final(self).cwd == old(self).cwd && final(self).pid == old(self).pid && final(self).style == old(self).style,
            final(self).pending == old(self).pending,
            spares_primary(*old(self), r),
    {
        let n = self.selection.len();
        proof {
            assert(self.i < n);
        }
        let ni = self.i + 1;
        if ni < n {
            self.i = ni;
            self.phase = RemovePhase::AwaitRename;
            let from = str_string(self.selection[ni].path.as_str());
            let to = trash_path(self.selection[ni].path.as_str(), self.pid, ni);
            Action::Rename { from, to }
        } else if self.pending.len() > 0 {
            self.i = ni;
            self.phase = RemovePhase::AwaitPrune;
            let args = vec![str_string("worktree"), str_string("prune")];
            proof {
                assert(strings_view(args@) =~= seq!["worktree"@, "prune"@]);
            }
            Action::RunGit { args, dir: Some(str_string(self.head_path.as_str())) }
        } else {
            self.start_reporting()
        }
    }

    /// Open the reporting pass: announce the removal of the first worktree.
    fn start_reporting(&mut self) -> (r: Action)
        requires
            old(self).wf(),
            old(self).phase is AwaitRename || old(self).phase is AwaitForce || old(
                self,
            ).phase is AwaitPrune,
            old(self).selection@.len() >= 1,
        ensures
            final(self).wf(),
            report_at(*old(self), *final(self), r, 0),
            final(self).cwd == old(self).cwd && final(self).pid == old(self).pid && final(self).style == old(self).style,
            final(self).pending == old(self).pending,
            final(self).deleted == old(self).deleted,
            spares_primary(*old(self), r),
    {
        self.i = 0;
        self.phase = RemovePhase::AwaitRemovedAck;
        proof {
            assert(self.selection@.subrange(0, 0) =~= Seq::<Selected>::empty());
            assert(strings_view(self.deleted@) =~= spec_non_detached(
                self.selection@.subrange(0, 0),
            ));
        }
        let line = worktree_line(
            self.style,
            "removed",
            self.selection[0].branch.as_str(),
            self.selection[0].path.as_str(),
        );
        Action::Report { line }
    }

    /// Move past the current index in the reporting pass.
    fn advance_report(&mut self) -> (r: Action)
        requires
            old(self).wf(),
            old(self).phase is AwaitRemovedAck || old(self).phase is AwaitDeletedAck,
            old(self).phase is AwaitRemovedAck ==> strings_view(old(self).deleted@)
                == spec_non_detached(old(self).selection@.subrange(0, old(self).i + 1)),
        ensures
            final(self).wf(),
            report_at(*old(self), *final(self), r, old(self).i + 1),
            final(self).cwd == old(self).cwd && final(self).pid == old(self).pid && final(self).style == old(self).style,
            final(self).deleted == old(self).deleted,
            spares_primary(*old(self), r),
    {
        let n = self.selection.len();
        proof {
            assert(self.i < n);
        }
        let ni = self.i + 1;
        if ni < n {
            self.i = ni;
            self.phase = RemovePhase::AwaitRemovedAck;
            let line = worktree_line(
                self.style,
                "removed",
                self.selection[ni].branch.as_str(),
                self.selection[ni].path.as_str(),
            );
            Action::Report { line }
        } else {
            proof {
                assert(self.selection@.subrange(0, self.selection@.len() as int)
                    =~= self.selection@);
            }
            let within = any_within(&self.selection, self.cwd.as_str());
            if within {
                self.phase = RemovePhase::AwaitHintAck;
                Action::Out { line: str_string(self.head_path.as_str()) }
            } else {
                self.finish_ok()
            }
        }
    }

    /// Close the batch successfully, handing the trashed directories to
    /// background deletion.
    fn finish_ok(&mut self) -> (r: Action)
        requires
            old(self).wf(),
            !(old(self).phase is Done),
            !old(self).failed,
            strings_view(old(self).deleted@) == spec_non_detached(old(self).selection@),
        ensures
            final(self).wf(),
            finished_ok(*final(self), r),
            final(self).cwd == old(self).cwd && final(self).pid == old(self).pid && final(self).style == old(self).style,
            final(self).selection == old(self).selection,
            final(self).head_path == old(self).head_path,
            final(self).pending == old(self).pending,
            final(self).deleted == old(self).deleted,
            spares_primary(*old(self), r),
    {
        self.phase = RemovePhase::Done;
        let mut background: Vec<String> = Vec::new();
        let n = self.pending.len();
        let mut k: usize = 0;
        proof {
            assert(strings_view(background@) =~= strings_view(self.pending@).subrange(0, 0));
        }
        while k < n
            invariant
                n == self.pending@.len(),
                k <= n,
                strings_view(background@) == strings_view(self.pending@).subrange(0, k as int),
            decreases n - k,
        {
            let ghost prevb = strings_view(background@);
            background.push(str_string(self.pending[k].as_str()));
            k = k + 1;
            proof {
                assert(strings_view(background@) =~= prevb.push(self.pending@[k - 1]@));
                assert(prevb.push(self.pending@[k - 1]@) =~= strings_view(
                    self.pending@,
                ).subrange(0, k as int));
            }
        }
        proof {
            assert(strings_view(self.pending@).subrange(0, n as int) =~= strings_view(
                self.pending@,
            ));
        }
        Action::Finish { error: None, background }
    }

    /// Close the batch as failed with this message; nothing is handed to
    /// background deletion, so directories already trashed stay hidden.
    fn fail(&mut self, message: String) -> (r: Action)
        requires
            old(self).excludes_primary(),
        ensures
            final(self).wf(),
            failed_with(*final(self), r, message@),
            final(self).cwd == old(self).cwd && final(self).pid == old(self).pid && final(self).style == old(self).style,
            final(self).selection == old(self).selection,
            final(self).head_path == old(self).head_path,
            spares_primary(*old(self), r),
    {
        self.phase = RemovePhase::Done;
        self.failed = true;
        Action::Finish { error: Some(message), background: Vec::new() }
    }

    /// One protocol step: feed the event answering the previous action and
    /// receive the next action.
    pub fn step(&mut self, event: Event) -> (r: Action)
        requires
            old(self).wf(),
            old(self).expects(event),
        ensures
            final(self).wf(),
            final(self).cwd == old(self).cwd && final(self).pid == old(self).pid && final(self).style == old(self).style,
            spares_primary(*old(self), r),
            // the listing answered: parse, drop the primary, ask for a pick
            old(self).phase is AwaitListing ==> (event matches Event::Cmd {
                success,
                stdout,
                stderr,
            } ==> {
                if !success {
                    failed_with(*final(self), r, "failed to list worktrees"@)
                } else {
                    exists|ws: Seq<crate::worktree::WorktreeView>|
                        {
                            &&& parse_possible(stdout@, ws)
                            &&& if ws.len() < 2 {
                                failed_with(*final(self), r, "no worktrees to remove"@)
                            } else {
                                &&& final(self).head_path@ == ws[0].path
                                &&& final(self).phase is AwaitPick
                                &&& r matches Action::Pick { items, multi, prompt, preview }
                                    && multi == true && prompt is None && preview is Some
                                    && items_view(items@) == Seq::new(
                                    (ws.len() - 1) as nat,
                                    |k: int| (ws[k + 1].branch, ws[k + 1].path),
                                ) && preview->Some_0@ == "git -C {} diff --color=always"@
                            }
                        }
                }
            }),
            // the pick answered: an abort or empty pick ends cleanly, else
            // the first rename is issued
            old(self).phase is AwaitPick ==> (event matches Event::Picked { aborted, items } ==> {
                if aborted || items@.len() == 0 {
                    finished_ok(*final(self), r)
                } else {
                    &&& sel_views(final(self).selection@) == items_view(items@)
                    &&& final(self).head_path == old(self).head_path
                    &&& final(self).phase is AwaitRename
                    &&& final(self).i == 0
                    &&& r matches Action::Rename { from, to } && from@ == items@[0].payload@
                        && to@ == spec_trash_path(items@[0].payload@, final(self).pid as int, 0)
                }
            }),
            // a rename answered: on success the trash path is recorded, on
            // failure the forced removal fallback is issued
            old(self).phase is AwaitRename ==> (event matches Event::Renamed { ok } ==> {
                if ok {
                    &&& strings_view(final(self).pending@) == strings_view(old(self).pending@).push(
                        spec_trash_path(
                            old(self).selection@[old(self).i as int].path@,
                            old(self).pid as int,
                            old(self).i as int,
                        ),
                    )
                    &&& renames_advanced(*old(self), *final(self), r)
                } else {
                    &&& final(self).pending == old(self).pending
                    &&& final(self).phase is AwaitForce
                    &&& final(self).i == old(self).i
                    &&& final(self).selection == old(self).selection
                    &&& final(self).head_path == old(self).head_path
                    &&& r matches Action::RunGit { args, dir } && strings_view(args@) == seq![
                        "worktree"@,
                        "remove"@,
                        "--force"@,
                        "--force"@,
                        old(self).selection@[old(self).i as int].path@,
                    ] && dir is None
                }
            }),
            // the forced removal answered: failure is fatal for the batch
            old(self).phase is AwaitForce ==> (event matches Event::Cmd {
                success,
                stdout,
                stderr,
            } ==> {
                if success {
                    &&& final(self).pending == old(self).pending
                    &&& renames_advanced(*old(self), *final(self), r)
                } else {
                    failed_with(
                        *final(self),
                        r,
                        spec_quoted_failure(
                            "failed to remove worktree "@,
                            old(self).selection@[old(self).i as int].branch@,
                            spec_trim(stderr@),
                        ),
                    )
                }
            }),
            // the prune answered: failure is fatal, success opens reporting
            old(self).phase is AwaitPrune ==> (event matches Event::Cmd {
                success,
                stdout,
                stderr,
            } ==> {
                if success {
                    report_at(*old(self), *final(self), r, 0)
                } else {
                    failed_with(*final(self), r, "failed to prune worktrees: "@ + spec_trim(stderr@))
                }
            }),
            // a removal was announced: a named branch is deleted, a detached
            // head is not
            old(self).phase is AwaitRemovedAck ==> (event is Ack ==> {
                if old(self).selection@[old(self).i as int].branch@ == "(detached)"@ {
                    report_at(*old(self), *final(self), r, old(self).i + 1)
                } else {
                    &&& final(self).phase is AwaitBranchDelete
                    &&& final(self).i == old(self).i
                    &&& final(self).selection == old(self).selection
                    &&& final(self).deleted == old(self).deleted
                    &&& final(self).head_path == old(self).head_path
                    &&& final(self).pending == old(self).pending
                    &&& r matches Action::RunGit { args, dir } && strings_view(args@) == seq![
                        "branch"@,
                        "-D"@,
                        old(self).selection@[old(self).i as int].branch@,
                    ] && dir is Some && dir->Some_0@ == old(self).head_path@
                }
            }),
            // the branch deletion answered: failure is fatal, success is
            // recorded and announced
            old(self).phase is AwaitBranchDelete ==> (event matches Event::Cmd {
                success,
                stdout,
                stderr,
            } ==> {
                if success {
                    &&& strings_view(final(self).deleted@) == strings_view(old(self).deleted@).push(
                        old(self).selection@[old(self).i as int].branch@,
                    )
                    &&& final(self).phase is AwaitDeletedAck
                    &&& final(self).i == old(self).i
                    &&& final(self).selection == old(self).selection
                    &&& final(self).pending == old(self).pending
                    &&& final(self).head_path == old(self).head_path
                    &&& r matches Action::Report { line } && line@ == spec_deleted_branch_line(
                        old(self).style,
                        old(self).selection@[old(self).i as int].branch@,
                    )
                } else {
                    failed_with(
                        *final(self),
                        r,
                        spec_quoted_failure(
                            "failed to delete branch "@,
                            old(self).selection@[old(self).i as int].branch@,
                            spec_trim(stderr@),
                        ),
                    )
                }
            }),
            // a branch deletion was announced: move on
            old(self).phase is AwaitDeletedAck ==> (event is Ack ==> report_at(
                *old(self),
                *final(self),
                r,
                old(self).i + 1,
            )),
            // the hint was printed: close successfully
            old(self).phase is AwaitHintAck ==> (event is Ack ==> finished_ok(*final(self), r)),
            // a finished batch only repeats its outcome: no event after the
            // hand-off to background deletion can change it
            old(self).phase is Done ==> {
                &&& *final(self) == *old(self)
                &&& r matches Action::Finish { error, background } && (error is Some <==> old(self).failed) && (!old(self).failed ==> strings_view(background@) == strings_view(
                    old(self).pending@,
                ))
            },
    {
        match self.phase {
            RemovePhase::AwaitListing => {
                match event {
                    Event::Cmd { success, stdout, stderr } => {
                        if !success {
                            self.fail(str_string("failed to list worktrees"))
                        } else {
                            let ws = parse_worktrees(stdout.as_str());
                            if ws.len() < 2 {
                                let a = self.fail(str_string("no worktrees to remove"));
                                proof {
                                    let wsv = worktree_views(ws@);
                                    assert(parse_possible(stdout@, wsv) && wsv.len() < 2);
                                }
                                a
                            } else {
                                self.head_path = str_string(ws[0].path.as_str());
                                self.phase = RemovePhase::AwaitPick;
                                let ghost wsv = worktree_views(ws@);
                                let mut items: Vec<PickItem> = Vec::new();
                                let n = ws.len();
                                let mut k: usize = 1;
                                proof {
                                    assert(items_view(items@) =~= Seq::new(
                                        0,
                                        |j: int| (wsv[j + 1].branch, wsv[j + 1].path),
                                    ));
                                }
                                while k < n
                                    invariant
                                        n == ws@.len(),
                                        wsv == worktree_views(ws@),
                                        1 <= k <= n,
                                        items_view(items@) == Seq::new(
                                            (k - 1) as nat,
                                            |j: int| (wsv[j + 1].branch, wsv[j + 1].path),
                                        ),
                                    decreases n - k,
                                {
                                    let ghost previ = items_view(items@);
                                    items.push(
                                        PickItem {
                                            label: str_string(ws[k].branch.as_str()),
                                            payload: str_string(ws[k].path.as_str()),
                                        },
                                    );
                                    k = k + 1;
                                    proof {
                                        assert(ws@[k - 1]@ == wsv[k - 1]);
                                        assert(items_view(items@) =~= previ.push(
                                            (wsv[k - 1].branch, wsv[k - 1].path),
                                        ));
                                        assert(previ.push((wsv[k - 1].branch, wsv[k - 1].path))
                                            =~= Seq::new(
                                            (k - 1) as nat,
                                            |j: int| (wsv[j + 1].branch, wsv[j + 1].path),
                                        ));
                                    }
                                }
                                proof {
                                    assert(parse_possible(stdout@, wsv));
                                }
                                Action::Pick {
                                    items,
                                    multi: true,
                                    prompt: None,
                                    preview: Some(str_string("git -C {} diff --color=always")),
                                }
                            }
                        }
                    },
                    _ => self.fail(String::new()),
                }
            },
            RemovePhase::AwaitPick => {
                match event {
                    Event::Picked { aborted, items } => {
                        if aborted || items.len() == 0 {
                            proof {
                                assert(strings_view(self.deleted@) =~= spec_non_detached(
                                    self.selection@,
                                ));
                            }
                            self.finish_ok()
                        } else {
                            let ghost itemsv = items_view(items@);
                            let n = items.len();
                            let mut sel: Vec<Selected> = Vec::new();
                            let mut k: usize = 0;
                            proof {
                                assert(sel_views(sel@) =~= itemsv.subrange(0, 0));
                            }
                            while k < n
                                invariant
                                    n == items@.len(),
                                    itemsv == items_view(items@),
                                    k <= n,
                                    sel_views(sel@) == itemsv.subrange(0, k as int),
                                decreases n - k,
                            {
                                let ghost prevs = sel_views(sel@);
                                sel.push(
                                    Selected {
                                        branch: str_string(items[k].label.as_str()),
                                        path: str_string(items[k].payload.as_str()),
                                    },
                                );
                                k = k + 1;
                                proof {
                                    assert(items@[k - 1].label@ == itemsv[k - 1].0);
                                    assert(items@[k - 1].payload@ == itemsv[k - 1].1);
                                    assert(sel_views(sel@) =~= prevs.push(itemsv[k - 1]));
                                    assert(prevs.push(itemsv[k - 1]) =~= itemsv.subrange(
                                        0,
                                        k as int,
                                    ));
                                }
                            }
                            proof {
                                assert(itemsv.subrange(0, n as int) =~= itemsv);
                                assert forall|j: int|
                                    0 <= j < sel@.len() implies sel@[j].path@
                                    == items@[j].payload@ by {
                                    assert(sel_views(sel@)[j] == items_view(items@)[j]);
                                }
                            }
                            self.selection = sel;
                            self.i = 0;
                            self.phase = RemovePhase::AwaitRename;
                            let from = str_string(self.selection[0].path.as_str());
                            let to = trash_path(self.selection[0].path.as_str(), self.pid, 0);
                            Action::Rename { from, to }
                        }
                    },
                    _ => self.fail(String::new()),
                }
            },
            RemovePhase::AwaitRename => {
                match event {
                    Event::Renamed { ok } => {
                        if ok {
                            let t = trash_path(
                                self.selection[self.i].path.as_str(),
                                self.pid,
                                self.i,
                            );
                            let ghost prev = strings_view(self.pending@);
                            self.pending.push(t);
                            proof {
                                assert(strings_view(self.pending@) =~= prev.push(
                                    spec_trash_path(
                                        self.selection@[self.i as int].path@,
                                        self.pid as int,
                                        self.i as int,
                                    ),
                                ));
                            }
                            self.advance_rename()
                        } else {
                            self.phase = RemovePhase::AwaitForce;
                            let args = vec![
                                str_string("worktree"),
                                str_string("remove"),
                                str_string("--force"),
                                str_string("--force"),
                                str_string(self.selection[self.i].path.as_str()),
                            ];
                            proof {
                                assert(strings_view(args@) =~= seq![
                                    "worktree"@,
                                    "remove"@,
                                    "--force"@,
                                    "--force"@,
                                    self.selection@[self.i as int].path@,
                                ]);
                            }
                            Action::RunGit { args, dir: None }
                        }
                    },
                    _ => self.fail(String::new()),
                }
            },
            RemovePhase::AwaitForce => {
                match event {
                    Event::Cmd { success, stdout, stderr } => {
                        if success {
                            self.advance_rename()
                        } else {
                            let msg = quoted_failure(
                                "failed to remove worktree ",
                                self.selection[self.i].branch.as_str(),
                                trim_str(stderr.as_str()).as_str(),
                            );
                            self.fail(msg)
                        }
                    },
                    _ => self.fail(String::new()),
                }
            },
            RemovePhase::AwaitPrune => {
                match event {
                    Event::Cmd { success, stdout, stderr } => {
                        if success {
                            self.start_reporting()
                        } else {
                            let msg = crate::text::concat2(
                                "failed to prune worktrees: ",
                                trim_str(stderr.as_str()).as_str(),
                            );
                            self.fail(msg)
                        }
                    },
                    _ => self.fail(String::new()),
                }
            },
            RemovePhase::AwaitRemovedAck => {
                match event {
                    Event::Ack => {
                        let detached = str_eq(
                            self.selection[self.i].branch.as_str(),
                            "(detached)",
                        );
                        if detached {
                            proof {
                                let sel = self.selection@;
                                let i = self.i as int;
                                assert(sel.subrange(0, i + 1).drop_last() =~= sel.subrange(0, i));
                                assert(sel.subrange(0, i + 1).last() == sel[i]);
                            }
                            self.advance_report()
                        } else {
                            self.phase = RemovePhase::AwaitBranchDelete;
                            let args = vec![
                                str_string("branch"),
                                str_string("-D"),
                                str_string(self.selection[self.i].branch.as_str()),
                            ];
                            proof {
                                assert(strings_view(args@) =~= seq![
                                    "branch"@,
                                    "-D"@,
                                    self.selection@[self.i as int].branch@,
                                ]);
                            }
                            Action::RunGit {
                                args,
                                dir: Some(str_string(self.head_path.as_str())),
                            }
                        }
                    },
                    _ => self.fail(String::new()),
                }
            },
            RemovePhase::AwaitBranchDelete => {
                match event {
                    Event::Cmd { success, stdout, stderr } => {
                        if success {
                            let b = str_string(self.selection[self.i].branch.as_str());
                            let ghost prev = strings_view(self.deleted@);
                            self.deleted.push(b);
                            self.phase = RemovePhase::AwaitDeletedAck;
                            proof {
                                let sel = self.selection@;
                                let i = self.i as int;
                                assert(strings_view(self.deleted@) =~= prev.push(sel[i].branch@));
                                assert(sel.subrange(0, i + 1).drop_last() =~= sel.subrange(0, i));
                                assert(sel.subrange(0, i + 1).last() == sel[i]);
                            }
                            let line = deleted_branch_line(
                                self.style,
                                self.selection[self.i].branch.as_str(),
                            );
                            Action::Report { line }
                        } else {
                            let msg = quoted_failure(
                                "failed to delete branch ",
                                self.selection[self.i].branch.as_str(),
                                trim_str(stderr.as_str()).as_str(),
                            );
                            self.fail(msg)
                        }
                    },
                    _ => self.fail(String::new()),
                }
            },
            RemovePhase::AwaitDeletedAck => {
                match event {
                    Event::Ack => {
                        proof {
                            let sel = self.selection@;
                            let i = self.i as int;
                            assert(strings_view(self.deleted@) == spec_non_detached(
                                sel.subrange(0, i + 1),
                            ));
                        }
                        self.advance_report()
                    },
                    _ => self.fail(String::new()),
                }
            },
            RemovePhase::AwaitHintAck => {
                match event {
                    Event::Ack => self.finish_ok(),
                    _ => self.fail(String::new()),
                }
            },
            RemovePhase::Done => {
                let mut background: Vec<String> = Vec::new();
                if self.failed {
                    Action::Finish { error: Some(String::new()), background }
                } else {
                    let n = self.pending.len();
                    let mut k: usize = 0;
                    proof {
                        assert(strings_view(background@) =~= strings_view(
                            self.pending@,
                        ).subrange(0, 0));
                    }
                    while k < n
                        invariant
                            n == self.pending@.len(),
                            k <= n,
                            strings_view(background@) == strings_view(self.pending@).subrange(
                                0,
                                k as int,
                            ),
                        decreases n - k,
                    {
                        let ghost prevb = strings_view(background@);
                        background.push(str_string(self.pending[k].as_str()));
                        k = k + 1;
                        proof {
                            assert(strings_view(background@) =~= prevb.push(
                                self.pending@[k - 1]@,
                            ));
                            assert(prevb.push(self.pending@[k - 1]@) =~= strings_view(
                                self.pending@,
                            ).subrange(0, k as int));
                        }
                    }
                    proof {
                        assert(strings_view(self.pending@).subrange(0, n as int) =~= strings_view(
                            self.pending@,
                        ));
                    }
                    Action::Finish { error: None, background }
                }
            },
        }
    }
}

/// Whether any selected worktree contains the caller's directory.
fn any_within(sel: &Vec<Selected>, cwd: &str) -> (r: bool)
    ensures
        r == exists|k: int| 0 <= k < sel@.len() && path_within(cwd@, sel@[k].path@),
{
    let n = sel.len();
    let mut k: usize = 0;
    while k < n
        invariant
            n == sel@.len(),
            k <= n,
            forall|j: int| 0 <= j < k ==> !path_within(cwd@, sel@[j].path@),
        decreases n - k,
    {
        if is_within(cwd, sel[k].path.as_str()) {
            return true;
        }
        k = k + 1;
    }
    false
}

// ---------------------------------------------------------------------------
// Laws of the protocol
// ---------------------------------------------------------------------------

/// After a batch completes successfully, exactly the non-detached branches of
/// the selection have been deleted, in selection order; detached worktrees
/// lose no branch.
pub proof fn lemma_batch_accounting(m: Remove)
    requires
        m.wf(),
        m.phase is Done,
        !m.failed,
    ensures
        strings_view(m.deleted@) == spec_non_detached(m.selection@),
{
}

/// The primary worktree is never selected: every selected path differs from
/// the primary's, so no step of a well-formed machine renames or
/// force-removes it.
pub proof fn lemma_primary_never_selected(m: Remove)
    requires
        m.wf(),
    ensures
        forall|k: int| 0 <= k < m.selection@.len() ==> m.selection@[k].path@ != m.head_path@,
{
}

} // verus!
