//! The convert subcommand: offer the branches that have no worktree yet, and
//! create a worktree beside the primary for each branch the user picks.

use vstd::prelude::*;

use crate::action::Action;
use crate::action::Event;
use crate::action::PickItem;
use crate::naming::spec_dir_name;
use crate::naming::spec_final_component;
use crate::naming::spec_join;
use crate::naming::spec_parent;
use crate::naming::dir_name;
use crate::naming::final_component;
use crate::naming::join_path;
use crate::naming::parent_dir;
use crate::style::Style;
use crate::style::spec_quoted_failure;
use crate::style::spec_worktree_line;
use crate::style::quoted_failure;
use crate::style::worktree_line;
use crate::text::spec_trim;
use crate::text::chars_view;
use crate::text::lines_of;
use crate::text::spec_lines;
use crate::text::str_string;
use crate::text::string_from_chars;
use crate::text::strings_view;
use crate::text::to_chars;
use crate::text::trim_str;
use crate::worktree::WorktreeView;
use crate::worktree::parse_records;
use crate::worktree::spec_parse_listing;
use crate::worktree::worktree_views;
use vstd::string::StringExecFns;

verus! {

/// The branch labels already carried by some worktree record.
pub open spec fn taken_branches(ws: Seq<WorktreeView>) -> Set<Seq<char>> {
    Set::new(|b: Seq<char>| exists|k: int| 0 <= k < ws.len() && ws[k].branch == b)
}

/// The branches of `all`, in order, that are not taken.
pub open spec fn spec_available(all: Seq<Seq<char>>, taken: Set<Seq<char>>) -> Seq<Seq<char>>
    decreases all.len(),
{
    if all.len() == 0 {
        Seq::empty()
    } else {
        let rest = spec_available(all.drop_last(), taken);
        if taken.contains(all.last()) {
            rest
        } else {
            rest.push(all.last())
        }
    }
}

/// Where the convert subcommand stands.
#[derive(Debug, PartialEq, Eq)]
pub enum ConvertPhase {
    /// The repository root was requested.
    AwaitRoot,
    /// The branch listing was requested.
    AwaitBranches,
    /// The worktree listing was requested.
    AwaitListing,
    /// The picker was launched on the available branches.
    AwaitPick,
    /// The worktree-add command for the current branch is running.
    AwaitAdd,
    /// The creation of the current branch's worktree was announced.
    AwaitCreatedAck,
    /// The single created path was printed.
    AwaitOutAck,
    /// The subcommand is over.
    Done,
}

/// The convert subcommand state machine.
pub struct Convert {
    /// Styling for the report lines.
    pub style: Style,
    /// The repository root.
    pub root: String,
    /// The root's final component.
    pub project: String,
    /// All local branch labels, in listing order.
    pub branches: Vec<String>,
    /// The picked branches, in selection order.
    pub selection: Vec<String>,
    /// The created worktree paths, in order.
    pub created: Vec<String>,
    /// The selection index the current phase is about.
    pub i: usize,
    /// Whether the subcommand failed.
    pub failed: bool,
    pub phase: ConvertPhase,
}

/// The subcommand stops here, failed, with this message.
pub open spec fn convert_failed(post: Convert, r: Action, msg: Seq<char>) -> bool {
    &&& post.phase is Done
    &&& post.failed
    &&& r matches Action::Finish { error: Some(e), background } && e@ == msg && background@.len()
        == 0
}

/// The subcommand stops here, successful.
pub open spec fn convert_done(post: Convert, r: Action) -> bool {
    &&& post.phase is Done
    &&& !post.failed
    &&& r matches Action::Finish { error, background } && error is None && background@.len() == 0
}

impl Convert {
    /// The worktree path derived for the `k`-th picked branch.
    pub open spec fn target_of(self, k: int) -> Seq<char> {
        spec_join(
            spec_parent(self.root@),
            spec_dir_name(self.project@, self.selection@[k]@),
        )
    }

    /// The machine's invariant.
    pub open spec fn wf(self) -> bool {
        match self.phase {
            ConvertPhase::AwaitRoot
            | ConvertPhase::AwaitBranches
            | ConvertPhase::AwaitListing
            | ConvertPhase::AwaitPick => {
                &&& self.selection@.len() == 0
                &&& self.created@.len() == 0
                &&& self.i == 0
                &&& !self.failed
            },
            ConvertPhase::AwaitAdd => {
                &&& self.i < self.selection@.len()
                &&& self.created@.len() == self.i
                &&& !self.failed
            },
            ConvertPhase::AwaitCreatedAck => {
                &&& self.i < self.selection@.len()
                &&& self.created@.len() == self.i + 1
                &&& !self.failed
            },
            ConvertPhase::AwaitOutAck => {
                &&& self.created@.len() == self.selection@.len()
                &&& self.created@.len() >= 1
                &&& !self.failed
            },
            ConvertPhase::Done => true,
        }
    }

    /// Which event answers the current phase.
    pub open spec fn expects(self, event: Event) -> bool {
        match self.phase {
            ConvertPhase::AwaitRoot
            | ConvertPhase::AwaitBranches
            | ConvertPhase::AwaitListing
            | ConvertPhase::AwaitAdd => event is Cmd,
            ConvertPhase::AwaitPick => event is Picked,
            ConvertPhase::AwaitCreatedAck | ConvertPhase::AwaitOutAck => event is Ack,
            ConvertPhase::Done => true,
        }
    }

    /// One step: feed the event answering the previous action and receive
    /// the next action.
    pub fn step(&mut self, event: Event) -> (r: Action)
        requires
            old(self).wf(),
            old(self).expects(event),
        ensures
            final(self).wf(),
            final(self).style == old(self).style,
            // the root answered: outside a repository the subcommand fails;
            // a root without a final component cannot name a project
            old(self).phase is AwaitRoot ==> (event matches Event::Cmd {
                success,
                stdout,
                stderr,
            } ==> {
                if !success {
                    convert_failed(*final(self), r, "not a git repository"@)
                } else if spec_final_component(spec_trim(stdout@)).len() == 0 {
                    convert_failed(
                        *final(self),
                        r,
                        "failed to get project name from `"@ + spec_trim(stdout@) + "`"@,
                    )
                } else {
                    &&& final(self).root@ == spec_trim(stdout@)
                    &&& final(self).project@ == spec_final_component(spec_trim(stdout@))
                    &&& final(self).phase is AwaitBranches
                    &&& r matches Action::RunGit { args, dir } && strings_view(args@) == seq![
                        "branch"@,
                        "--format=%(refname:short)"@,
                    ] && dir is None
                }
            }),
            // the branch listing answered: its lines are the local branches
            old(self).phase is AwaitBranches ==> (event matches Event::Cmd {
                success,
                stdout,
                stderr,
            } ==> {
                if !success {
                    convert_failed(*final(self), r, "failed to list branches"@)
                } else {
                    &&& strings_view(final(self).branches@) == spec_lines(stdout@)
                    &&& final(self).root == old(self).root
                    &&& final(self).project == old(self).project
                    &&& final(self).phase is AwaitListing
                    &&& r matches Action::RunGit { args, dir } && strings_view(args@) == seq![
                        "worktree"@,
                        "list"@,
                        "--porcelain"@,
                    ] && dir is None
                }
            }),
            // the worktree listing answered: the branches already carried by
            // a worktree are dropped; none left fails, else the picker opens
            old(self).phase is AwaitListing ==> (event matches Event::Cmd {
                success,
                stdout,
                stderr,
            } ==> {
                let avail = spec_available(
                    strings_view(old(self).branches@),
                    taken_branches(spec_parse_listing(stdout@)),
                );
                if !success {
                    convert_failed(*final(self), r, "failed to list worktrees"@)
                } else if avail.len() == 0 {
                    convert_failed(*final(self), r, "no branches without worktrees"@)
                } else {
                    &&& final(self).root == old(self).root
                    &&& final(self).project == old(self).project
                    &&& final(self).phase is AwaitPick
                    &&& r matches Action::Pick { items, multi, prompt, preview } && multi == true
                        && prompt is None && preview is None && crate::action::items_view(items@)
                        == Seq::new(avail.len(), |k: int| (avail[k], avail[k]))
                }
            }),
            // the pick answered: an abort or empty pick ends quietly, else
            // the first worktree-add is issued
            old(self).phase is AwaitPick ==> (event matches Event::Picked { aborted, items }
                ==> {
                if aborted || items@.len() == 0 {
                    convert_done(*final(self), r)
                } else {
                    &&& strings_view(final(self).selection@) == Seq::new(
                        items@.len(),
                        |k: int| items@[k].label@,
                    )
                    &&& final(self).root == old(self).root
                    &&& final(self).project == old(self).project
                    &&& final(self).phase is AwaitAdd
                    &&& final(self).i == 0
                    &&& r matches Action::RunGit { args, dir } && strings_view(args@) == seq![
                        "worktree"@,
                        "add"@,
                        final(self).target_of(0),
                        items@[0].label@,
                    ] && dir is None
                }
            }),
            // the add answered: failure is fatal with the command's
            // diagnostic, success is recorded and announced
            old(self).phase is AwaitAdd ==> (event matches Event::Cmd {
                success,
                stdout,
                stderr,
            } ==> {
                if !success {
                    convert_failed(
                        *final(self),
                        r,
                        spec_quoted_failure(
                            "failed to create worktree for "@,
                            old(self).selection@[old(self).i as int]@,
                            spec_trim(stderr@),
                        ),
                    )
                } else {
                    &&& strings_view(final(self).created@) == strings_view(
                        old(self).created@,
                    ).push(old(self).target_of(old(self).i as int))
                    &&& final(self).phase is AwaitCreatedAck
                    &&& final(self).i == old(self).i
                    &&& final(self).selection == old(self).selection
                    &&& r matches Action::Report { line } && line@ == spec_worktree_line(
                        old(self).style,
                        "created"@,
                        old(self).selection@[old(self).i as int]@,
                        spec_dir_name(
                            old(self).project@,
                            old(self).selection@[old(self).i as int]@,
                        ),
                    )
                }
            }),
            // a creation was announced: the next add, the single-path print,
            // or the end
            old(self).phase is AwaitCreatedAck ==> (event is Ack ==> {
                if old(self).i + 1 < old(self).selection@.len() {
                    &&& final(self).phase is AwaitAdd
                    &&& final(self).i == old(self).i + 1
                    &&& final(self).selection == old(self).selection
                    &&& r matches Action::RunGit { args, dir } && strings_view(args@) == seq![
                        "worktree"@,
                        "add"@,
                        old(self).target_of(old(self).i + 1),
                        old(self).selection@[old(self).i + 1]@,
                    ] && dir is None
                } else if old(self).selection@.len() == 1 {
                    &&& final(self).phase is AwaitOutAck
                    &&& r matches Action::Out { line } && line@ == strings_view(
                        old(self).created@,
                    )[0]
                } else {
                    convert_done(*final(self), r)
                }
            }),
            // the single path was printed: done
            old(self).phase is AwaitOutAck ==> (event is Ack ==> convert_done(*final(self), r)),
            // a finished subcommand only repeats its outcome
            old(self).phase is Done ==> {
                &&& r matches Action::Finish { error, background } && (error is Some <==> old(
                    self,
                ).failed) && background@.len() == 0
            },
    {
        match self.phase {
            ConvertPhase::AwaitRoot => {
                match event {
                    Event::Cmd { success, stdout, stderr } => {
                        if !success {
                            self.fail(str_string("not a git repository"))
                        } else {
                            let root = trim_str(stdout.as_str());
                            match final_component(root.as_str()) {
                                None => {
                                    let mut msg = str_string(
                                        "failed to get project name from `",
                                    );
                                    msg.append(root.as_str());
                                    msg.append("`");
                                    proof {
                                        assert(msg@ =~= "failed to get project name from `"@
                                            + spec_trim(stdout@) + "`"@);
                                    }
                                    self.fail(msg)
                                },
                                Some(project) => {
                                    self.root = root;
                                    self.project = project;
                                    self.phase = ConvertPhase::AwaitBranches;
                                    let args = vec![
                                        str_string("branch"),
                                        str_string("--format=%(refname:short)"),
                                    ];
                                    proof {
                                        assert(strings_view(args@) =~= seq![
                                            "branch"@,
                                            "--format=%(refname:short)"@,
                                        ]);
                                    }
                                    Action::RunGit { args, dir: None }
                                },
                            }
                        }
                    },
                    _ => self.fail(String::new()),
                }
            },
            ConvertPhase::AwaitBranches => {
                match event {
                    Event::Cmd { success, stdout, stderr } => {
                        if !success {
                            self.fail(str_string("failed to list branches"))
                        } else {
                            let chars = to_chars(stdout.as_str());
                            let ls = lines_of(&chars);
                            let n = ls.len();
                            let mut branches: Vec<String> = Vec::new();
                            let mut k: usize = 0;
                            proof {
                                assert(strings_view(branches@) =~= chars_view(ls@).subrange(
                                    0,
                                    0,
                                ));
                            }
                            while k < n
                                invariant
                                    n == ls@.len(),
                                    k <= n,
                                    strings_view(branches@) == chars_view(ls@).subrange(
                                        0,
                                        k as int,
                                    ),
                                decreases n - k,
                            {
                                let ghost prevb = strings_view(branches@);
                                branches.push(string_from_chars(&ls[k]));
                                k = k + 1;
                                proof {
                                    assert(ls@[k - 1]@ == chars_view(ls@)[k - 1]);
                                    assert(strings_view(branches@) =~= prevb.push(
                                        chars_view(ls@)[k - 1],
                                    ));
                                    assert(prevb.push(chars_view(ls@)[k - 1]) =~= chars_view(
                                        ls@,
                                    ).subrange(0, k as int));
                                }
                            }
                            proof {
                                assert(chars_view(ls@).subrange(0, n as int) =~= chars_view(
                                    ls@,
                                ));
                            }
                            self.branches = branches;
                            self.phase = ConvertPhase::AwaitListing;
                            let args = vec![
                                str_string("worktree"),
                                str_string("list"),
                                str_string("--porcelain"),
                            ];
                            proof {
                                assert(strings_view(args@) =~= seq![
                                    "worktree"@,
                                    "list"@,
                                    "--porcelain"@,
                                ]);
                            }
                            Action::RunGit { args, dir: None }
                        }
                    },
                    _ => self.fail(String::new()),
                }
            },
            ConvertPhase::AwaitListing => {
                match event {
                    Event::Cmd { success, stdout, stderr } => {
                        if !success {
                            self.fail(str_string("failed to list worktrees"))
                        } else {
                            let taken = parse_records(stdout.as_str());
                            let avail = available_branches(&self.branches, &taken);
                            if avail.len() == 0 {
                                self.fail(str_string("no branches without worktrees"))
                            } else {
                                self.phase = ConvertPhase::AwaitPick;
                                let ghost availv = strings_view(avail@);
                                let n = avail.len();
                                let mut items: Vec<PickItem> = Vec::new();
                                let mut k: usize = 0;
                                proof {
                                    assert(crate::action::items_view(items@) =~= Seq::new(
                                        0,
                                        |j: int| (availv[j], availv[j]),
                                    ));
                                }
                                while k < n
                                    invariant
                                        n == avail@.len(),
                                        availv == strings_view(avail@),
                                        k <= n,
                                        crate::action::items_view(items@) == Seq::new(
                                            k as nat,
                                            |j: int| (availv[j], availv[j]),
                                        ),
                                    decreases n - k,
                                {
                                    let ghost previ = crate::action::items_view(items@);
                                    items.push(
                                        PickItem {
                                            label: str_string(avail[k].as_str()),
                                            payload: str_string(avail[k].as_str()),
                                        },
                                    );
                                    k = k + 1;
                                    proof {
                                        assert(avail@[k - 1]@ == availv[k - 1]);
                                        assert(crate::action::items_view(items@) =~= previ.push(
                                            (availv[k - 1], availv[k - 1]),
                                        ));
                                        assert(previ.push((availv[k - 1], availv[k - 1]))
                                            =~= Seq::new(
                                            k as nat,
                                            |j: int| (availv[j], availv[j]),
                                        ));
                                    }
                                }
                                Action::Pick { items, multi: true, prompt: None, preview: None }
                            }
                        }
                    },
                    _ => self.fail(String::new()),
                }
            },
            ConvertPhase::AwaitPick => {
                match event {
                    Event::Picked { aborted, items } => {
                        if aborted || items.len() == 0 {
                            self.phase = ConvertPhase::Done;
                            Action::Finish { error: None, background: Vec::new() }
                        } else {
                            let n = items.len();
                            let mut sel: Vec<String> = Vec::new();
                            let mut k: usize = 0;
                            proof {
                                assert(strings_view(sel@) =~= Seq::new(
                                    0,
                                    |j: int| items@[j].label@,
                                ));
                            }
                            while k < n
                                invariant
                                    n == items@.len(),
                                    k <= n,
                                    strings_view(sel@) == Seq::new(
                                        k as nat,
                                        |j: int| items@[j].label@,
                                    ),
                                decreases n - k,
                            {
                                let ghost prevs = strings_view(sel@);
                                sel.push(str_string(items[k].label.as_str()));
                                k = k + 1;
                                proof {
                                    assert(strings_view(sel@) =~= prevs.push(
                                        items@[k - 1].label@,
                                    ));
                                    assert(prevs.push(items@[k - 1].label@) =~= Seq::new(
                                        k as nat,
                                        |j: int| items@[j].label@,
                                    ));
                                }
                            }
                            proof {
                                assert(strings_view(sel@) =~= Seq::new(
                                    items@.len(),
                                    |j: int| items@[j].label@,
                                ));
                            }
                            self.selection = sel;
                            self.i = 0;
                            self.phase = ConvertPhase::AwaitAdd;
                            proof {
                                assert(self.selection@[0]@ == strings_view(self.selection@)[0]);
                                assert(self.selection@[0]@ == items@[0].label@);
                            }
                            self.add_action(0)
                        }
                    },
                    _ => self.fail(String::new()),
                }
            },
            ConvertPhase::AwaitAdd => {
                match event {
                    Event::Cmd { success, stdout, stderr } => {
                        if !success {
                            let msg = quoted_failure(
                                "failed to create worktree for ",
                                self.selection[self.i].as_str(),
                                trim_str(stderr.as_str()).as_str(),
                            );
                            self.fail(msg)
                        } else {
                            let target = self.target(self.i);
                            let ghost prevc = strings_view(self.created@);
                            self.created.push(target);
                            self.phase = ConvertPhase::AwaitCreatedAck;
                            proof {
                                assert(strings_view(self.created@) =~= prevc.push(
                                    self.target_of(self.i as int),
                                ));
                            }
                            let name = dir_name(
                                self.project.as_str(),
                                self.selection[self.i].as_str(),
                            );
                            let line = worktree_line(
                                self.style,
                                "created",
                                self.selection[self.i].as_str(),
                                name.as_str(),
                            );
                            Action::Report { line }
                        }
                    },
                    _ => self.fail(String::new()),
                }
            },
            ConvertPhase::AwaitCreatedAck => {
                match event {
                    Event::Ack => {
                        let n = self.selection.len();
                        if self.i + 1 < n {
                            self.i = self.i + 1;
                            self.phase = ConvertPhase::AwaitAdd;
                            self.add_action(self.i)
                        } else if n == 1 {
                            self.phase = ConvertPhase::AwaitOutAck;
                            Action::Out { line: str_string(self.created[0].as_str()) }
                        } else {
                            self.phase = ConvertPhase::Done;
                            Action::Finish { error: None, background: Vec::new() }
                        }
                    },
                    _ => self.fail(String::new()),
                }
            },
            ConvertPhase::AwaitOutAck => {
                match event {
                    Event::Ack => {
                        self.phase = ConvertPhase::Done;
                        Action::Finish { error: None, background: Vec::new() }
                    },
                    _ => self.fail(String::new()),
                }
            },
            ConvertPhase::Done => {
                if self.failed {
                    Action::Finish { error: Some(String::new()), background: Vec::new() }
                } else {
                    Action::Finish { error: None, background: Vec::new() }
                }
            },
        }
    }

    /// The worktree path derived for the `k`-th picked branch.
    fn target(&self, k: usize) -> (r: String)
        requires
            k < self.selection@.len(),
        ensures
            r@ == self.target_of(k as int),
    {
        let name = dir_name(self.project.as_str(), self.selection[k].as_str());
        let parent = parent_dir(self.root.as_str());
        join_path(parent.as_str(), name.as_str())
    }

    /// The worktree-add action for the `k`-th picked branch.
    fn add_action(&self, k: usize) -> (r: Action)
        requires
            k < self.selection@.len(),
        ensures
            r matches Action::RunGit { args, dir } && strings_view(args@) == seq![
                "worktree"@,
                "add"@,
                self.target_of(k as int),
                self.selection@[k as int]@,
            ] && dir is None,
    {
        let target = self.target(k);
        let args = vec![
            str_string("worktree"),
            str_string("add"),
            target,
            str_string(self.selection[k].as_str()),
        ];
        proof {
            assert(strings_view(args@) =~= seq![
                "worktree"@,
                "add"@,
                self.target_of(k as int),
                self.selection@[k as int]@,
            ]);
        }
        Action::RunGit { args, dir: None }
    }

    fn fail(&mut self, message: String) -> (r: Action)
        ensures
            convert_failed(*final(self), r, message@),
            final(self).style == old(self).style,
    {
        self.phase = ConvertPhase::Done;
        self.failed = true;
        Action::Finish { error: Some(message), background: Vec::new() }
    }
}

/// The branches of `all`, in order, that no worktree record carries.
fn available_branches(all: &Vec<String>, taken: &Vec<crate::worktree::Worktree>) -> (r: Vec<
    String,
>)
    ensures
        strings_view(r@) == spec_available(
            strings_view(all@),
            taken_branches(worktree_views(taken@)),
        ),
{
    let ghost allv = strings_view(all@);
    let ghost takenv = taken_branches(worktree_views(taken@));
    let n = all.len();
    let mut r: Vec<String> = Vec::new();
    let mut k: usize = 0;
    proof {
        assert(allv.subrange(0, 0) =~= Seq::<Seq<char>>::empty());
        assert(strings_view(r@) =~= spec_available(allv.subrange(0, 0), takenv));
    }
    while k < n
        invariant
            n == all@.len(),
            allv == strings_view(all@),
            takenv == taken_branches(worktree_views(taken@)),
            k <= n,
            strings_view(r@) == spec_available(allv.subrange(0, k as int), takenv),
        decreases n - k,
    {
        proof {
            assert(all@[k as int]@ == allv[k as int]);
            assert(allv.subrange(0, k + 1).drop_last() =~= allv.subrange(0, k as int));
            assert(allv.subrange(0, k + 1).last() == allv[k as int]);
        }
        let is_taken = branch_taken(taken, &all[k]);
        if !is_taken {
            let ghost prevr = strings_view(r@);
            r.push(str_string(all[k].as_str()));
            proof {
                assert(strings_view(r@) =~= prevr.push(allv[k as int]));
            }
        }
        k = k + 1;
    }
    proof {
        assert(allv.subrange(0, n as int) =~= allv);
    }
    r
}

/// Whether some worktree record carries this branch label.
fn branch_taken(taken: &Vec<crate::worktree::Worktree>, branch: &String) -> (r: bool)
    ensures
        r == taken_branches(worktree_views(taken@)).contains(branch@),
{
    let n = taken.len();
    let mut k: usize = 0;
    while k < n
        invariant
            n == taken@.len(),
            forall|j: int| 0 <= j < k ==> taken@[j]@.branch != branch@,
        decreases n - k,
    {
        if crate::text::str_eq(taken[k].branch.as_str(), branch.as_str()) {
            proof {
                assert(worktree_views(taken@)[k as int].branch == branch@);
            }
            return true;
        }
        k = k + 1;
    }
    proof {
        assert forall|j: int| 0 <= j < worktree_views(taken@).len() implies worktree_views(
            taken@,
        )[j].branch != branch@ by {
            assert(taken@[j]@.branch != branch@);
        }
    }
    false
}

/// Start the convert subcommand: the first action asks for the repository
/// root.
pub fn run(style: Style) -> (r: (Convert, Action))
    ensures
        r.0.wf(),
        r.0.phase is AwaitRoot,
        r.0.style == style,
        r.1 matches Action::RunGit { args, dir } && strings_view(args@) == seq![
            "rev-parse"@,
            "--show-toplevel"@,
        ] && dir is None,
{
    let m = Convert {
        style,
        root: String::new(),
        project: String::new(),
        branches: Vec::new(),
        selection: Vec::new(),
        created: Vec::new(),
        i: 0,
        failed: false,
        phase: ConvertPhase::AwaitRoot,
    };
    let args = vec![str_string("rev-parse"), str_string("--show-toplevel")];
    proof {
        assert(strings_view(args@) =~= seq!["rev-parse"@, "--show-toplevel"@]);
    }
    (m, Action::RunGit { args, dir: None })
}

} // verus!
