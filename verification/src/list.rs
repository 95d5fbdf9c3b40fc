//! The list subcommand: render one line per live worktree with its branch,
//! short head id, working-diff counts and path, marking the worktree that
//! contains the caller's directory.

use vstd::prelude::*;

use crate::action::Action;
use crate::action::Event;
use crate::action::path_within;
use crate::diff::diff_stat;
use crate::diff::spec_totals;
use crate::num::dec_of;
use crate::num::spec_dec;
use crate::style::Style;
use crate::style::spec_apply;
use crate::text::spec_lines;
use crate::text::str_string;
use crate::text::string_from_chars;
use crate::text::strings_view;
use crate::text::to_chars;
use crate::worktree::Worktree;
use crate::worktree::WorktreeView;
use crate::worktree::parse_possible;
use crate::worktree::parse_worktrees;
use crate::worktree::worktree_views;
use vstd::string::StringExecFns;

verus! {

/// `n` spaces (none for a nonpositive count).
pub open spec fn spaces(n: int) -> Seq<char> {
    Seq::new(if n > 0 { n as nat } else { 0 }, |j: int| ' ')
}

/// `s` padded on the right to `width`.
pub open spec fn spec_padded(s: Seq<char>, width: int) -> Seq<char> {
    s + spaces(width - s.len())
}

/// The widest branch label of the records.
pub open spec fn spec_width(ws: Seq<WorktreeView>) -> int
    decreases ws.len(),
{
    if ws.len() == 0 {
        0
    } else {
        let rest = spec_width(ws.drop_last());
        if ws.last().branch.len() > rest {
            ws.last().branch.len() as int
        } else {
            rest
        }
    }
}

/// One rendered listing line: the current-directory marker, the padded bold
/// branch, the cyan head id, the green/red diff counts and the path.
pub open spec fn spec_list_line(
    st: Style,
    current: bool,
    branch: Seq<char>,
    width: int,
    head: Seq<char>,
    ins: int,
    dels: int,
    path: Seq<char>,
) -> Seq<char> {
    spec_apply(st, "32"@, if current { "*"@ } else { " "@ }) + " "@ + spec_padded(
        spec_apply(st, "1"@, branch),
        width,
    ) + "  "@ + spec_apply(st, "36"@, head) + "  "@ + spec_apply(st, "32"@, "+"@ + spec_dec(ins))
        + "/"@ + spec_apply(st, "31"@, "-"@ + spec_dec(dels)) + "  "@ + path
}

/// Pad `s` on the right to `width`.
fn padded(s: String, width: usize) -> (r: String)
    ensures
        r@ == spec_padded(s@, width as int),
{
    let mut out = to_chars(s.as_str());
    let len = out.len();
    let mut k: usize = len;
    proof {
        assert(out@ + spaces(k - s@.len()) =~= out@);
    }
    while k < width
        invariant
            len == s@.len(),
            len <= k,
            k <= width || k == len,
            out@ == s@ + spaces(k - s@.len()),
        decreases width - k,
    {
        out.push(' ');
        k = k + 1;
        proof {
            assert(out@ =~= s@ + spaces(k - s@.len()));
        }
    }
    proof {
        if width <= len {
            assert(spaces(k - s@.len()) =~= spaces(width - s@.len()));
            assert(out@ =~= spec_padded(s@, width as int));
        }
    }
    string_from_chars(&out)
}

/// Render one listing line.
fn list_line(
    st: Style,
    current: bool,
    branch: &str,
    width: usize,
    head: &str,
    ins: usize,
    dels: usize,
    path: &str,
) -> (r: String)
    ensures
        r@ == spec_list_line(
            st,
            current,
            branch@,
            width as int,
            head@,
            ins as int,
            dels as int,
            path@,
        ),
{
    let marker = if current {
        st.apply("32", "*")
    } else {
        st.apply("32", " ")
    };
    let mut out = marker;
    out.append(" ");
    let pb = padded(st.apply("1", branch), width);
    out.append(pb.as_str());
    out.append("  ");
    let h = st.apply("36", head);
    out.append(h.as_str());
    out.append("  ");
    let mut plus = str_string("+");
    let ic = string_from_chars(&dec_of(ins));
    plus.append(ic.as_str());
    proof {
        assert(plus@ =~= "+"@ + spec_dec(ins as int));
    }
    let g = st.apply("32", plus.as_str());
    out.append(g.as_str());
    out.append("/");
    let mut minus = str_string("-");
    let dc = string_from_chars(&dec_of(dels));
    minus.append(dc.as_str());
    proof {
        assert(minus@ =~= "-"@ + spec_dec(dels as int));
    }
    let rr = st.apply("31", minus.as_str());
    out.append(rr.as_str());
    out.append("  ");
    out.append(path);
    proof {
        assert(out@ =~= spec_list_line(
            st,
            current,
            branch@,
            width as int,
            head@,
            ins as int,
            dels as int,
            path@,
        ));
    }
    out
}

/// Where the list subcommand stands.
#[derive(Debug, PartialEq, Eq)]
pub enum ListPhase {
    /// The worktree listing was requested.
    AwaitListing,
    /// The diff statistics of the current record were requested.
    AwaitStat,
    /// The canonical path of the current record was requested.
    AwaitCanon,
    /// The line of the current record was printed.
    AwaitLineAck,
    /// The subcommand is over.
    Done,
}

/// The list subcommand state machine.
pub struct List {
    /// The caller's (canonicalized) working directory.
    pub cwd: String,
    /// Styling for the table.
    pub style: Style,
    /// The live records, in listing order.
    pub worktrees: Vec<Worktree>,
    /// Insertion/deletion totals gathered so far, one per record.
    pub stats: Vec<(usize, usize)>,
    /// Whether each record contains the caller's directory.
    pub currents: Vec<bool>,
    /// The record the current phase is about.
    pub i: usize,
    /// Whether the subcommand failed.
    pub failed: bool,
    pub phase: ListPhase,
}

/// The subcommand stops here, failed, with this message.
pub open spec fn list_failed(post: List, r: Action, msg: Seq<char>) -> bool {
    &&& post.phase is Done
    &&& post.failed
    &&& r matches Action::Finish { error: Some(e), background } && e@ == msg && background@.len()
        == 0
}

impl List {
    /// The machine's invariant: the gathered columns track the index.
    pub open spec fn wf(self) -> bool {
        match self.phase {
            ListPhase::AwaitListing => {
                &&& self.stats@.len() == 0
                &&& self.currents@.len() == 0
                &&& self.i == 0
                &&& !self.failed
            },
            ListPhase::AwaitStat => {
                &&& self.i < self.worktrees@.len()
                &&& self.stats@.len() == self.i
                &&& self.currents@.len() == self.i
                &&& !self.failed
            },
            ListPhase::AwaitCanon => {
                &&& self.i < self.worktrees@.len()
                &&& self.stats@.len() == self.i + 1
                &&& self.currents@.len() == self.i
                &&& !self.failed
            },
            ListPhase::AwaitLineAck => {
                &&& self.i < self.worktrees@.len()
                &&& self.stats@.len() == self.worktrees@.len()
                &&& self.currents@.len() == self.worktrees@.len()
                &&& !self.failed
            },
            ListPhase::Done => true,
        }
    }

    /// Which event answers the current phase.
    pub open spec fn expects(self, event: Event) -> bool {
        match self.phase {
            ListPhase::AwaitListing | ListPhase::AwaitStat => event is Cmd,
            ListPhase::AwaitCanon => event is Canon,
            ListPhase::AwaitLineAck => event is Ack,
            ListPhase::Done => true,
        }
    }

    /// The line for record `k`, from the gathered columns.
    pub open spec fn line_at(self, k: int) -> Seq<char> {
        spec_list_line(
            self.style,
            self.currents@[k],
            self.worktrees@[k]@.branch,
            spec_width(worktree_views(self.worktrees@)),
            self.worktrees@[k]@.head,
            self.stats@[k].0 as int,
            self.stats@[k].1 as int,
            self.worktrees@[k]@.path,
        )
    }

    /// One step: feed the event answering the previous action and receive
    /// the next action.
    pub fn step(&mut self, event: Event) -> (r: Action)
        requires
            old(self).wf(),
            old(self).expects(event),
        ensures
            final(self).wf(),
            final(self).cwd == old(self).cwd && final(self).style == old(self).style,
            // the listing answered: a failed command or no live record
            // fails, otherwise the first record's diff is requested
            old(self).phase is AwaitListing ==> (event matches Event::Cmd {
                success,
                stdout,
                stderr,
            } ==> {
                if !success {
                    list_failed(*final(self), r, "failed to list worktrees"@)
                } else {
                    exists|ws: Seq<WorktreeView>|
                        {
                            &&& parse_possible(stdout@, ws)
                            &&& if ws.len() == 0 {
                                list_failed(*final(self), r, "no worktrees found"@)
                            } else {
                                &&& worktree_views(final(self).worktrees@) == ws
                                &&& final(self).phase is AwaitStat
                                &&& final(self).i == 0
                                &&& r matches Action::RunGit { args, dir } && strings_view(args@)
                                    == seq!["diff"@, "--numstat"@] && dir is Some
                                    && dir->Some_0@ == ws[0].path
                            }
                        }
                }
            }),
            // the diff answered: its totals are recorded (zero on failure)
            // and the canonical path is requested
            old(self).phase is AwaitStat ==> (event matches Event::Cmd {
                success,
                stdout,
                stderr,
            } ==> {
                &&& final(self).worktrees == old(self).worktrees
                &&& final(self).i == old(self).i
                &&& final(self).stats@ == old(self).stats@.push(
                    if success {
                        (
                            spec_totals(spec_lines(stdout@)).0 as usize,
                            spec_totals(spec_lines(stdout@)).1 as usize,
                        )
                    } else {
                        (0usize, 0usize)
                    },
                )
                &&& final(self).phase is AwaitCanon
                &&& r matches Action::Canonicalize { path } && path@ == old(
                    self,
                ).worktrees@[old(self).i as int]@.path
            }),
            // the canonical path answered: the record is current when the
            // caller's directory lies under it; then the next record's diff
            // is requested, or the first line printed
            old(self).phase is AwaitCanon ==> (event matches Event::Canon { path } ==> {
                &&& final(self).worktrees == old(self).worktrees
                &&& final(self).stats == old(self).stats
                &&& final(self).currents@ == old(self).currents@.push(
                    path is Some && path_within(old(self).cwd@, path->Some_0@),
                )
                &&& if old(self).i + 1 < old(self).worktrees@.len() {
                    &&& final(self).phase is AwaitStat
                    &&& final(self).i == old(self).i + 1
                    &&& r matches Action::RunGit { args, dir } && strings_view(args@) == seq![
                        "diff"@,
                        "--numstat"@,
                    ] && dir is Some && dir->Some_0@ == old(self).worktrees@[old(self).i
                        + 1]@.path
                } else {
                    &&& final(self).phase is AwaitLineAck
                    &&& final(self).i == 0
                    &&& r matches Action::Out { line } && line@ == final(self).line_at(0)
                }
            }),
            // a line was printed: the next line, or the end
            old(self).phase is AwaitLineAck ==> (event is Ack ==> {
                &&& final(self).worktrees == old(self).worktrees
                &&& final(self).stats == old(self).stats
                &&& final(self).currents == old(self).currents
                &&& if old(self).i + 1 < old(self).worktrees@.len() {
                    &&& final(self).phase is AwaitLineAck
                    &&& final(self).i == old(self).i + 1
                    &&& r matches Action::Out { line } && line@ == final(self).line_at(
                        old(self).i + 1,
                    )
                } else {
                    &&& final(self).phase is Done
                    &&& !final(self).failed
                    &&& r matches Action::Finish { error, background } && error is None
                        && background@.len() == 0
                }
            }),
            // a finished subcommand only repeats its outcome
            old(self).phase is Done ==> {
                &&& r matches Action::Finish { error, background } && (error is Some <==> old(
                    self,
                ).failed) && background@.len() == 0
            },
    {
        match self.phase {
            ListPhase::AwaitListing => {
                match event {
                    Event::Cmd { success, stdout, stderr } => {
                        if !success {
                            self.fail(str_string("failed to list worktrees"))
                        } else {
                            let ws = parse_worktrees(stdout.as_str());
                            let ghost wsv = worktree_views(ws@);
                            if ws.len() == 0 {
                                let a = self.fail(str_string("no worktrees found"));
                                proof {
                                    assert(parse_possible(stdout@, wsv) && wsv.len() == 0);
                                }
                                a
                            } else {
                                self.worktrees = ws;
                                self.i = 0;
                                self.phase = ListPhase::AwaitStat;
                                let args = vec![str_string("diff"), str_string("--numstat")];
                                proof {
                                    assert(strings_view(args@) =~= seq!["diff"@, "--numstat"@]);
                                    assert(parse_possible(stdout@, wsv));
                                    assert(worktree_views(self.worktrees@) == wsv);
                                    assert(self.worktrees@[0]@ == wsv[0]);
                                }
                                Action::RunGit {
                                    args,
                                    dir: Some(str_string(self.worktrees[0].path.as_str())),
                                }
                            }
                        }
                    },
                    _ => self.fail(String::new()),
                }
            },
            ListPhase::AwaitStat => {
                match event {
                    Event::Cmd { success, stdout, stderr } => {
                        let stat = if success {
                            diff_stat(stdout.as_str())
                        } else {
                            (0usize, 0usize)
                        };
                        self.stats.push(stat);
                        self.phase = ListPhase::AwaitCanon;
                        Action::Canonicalize {
                            path: str_string(self.worktrees[self.i].path.as_str()),
                        }
                    },
                    _ => self.fail(String::new()),
                }
            },
            ListPhase::AwaitCanon => {
                match event {
                    Event::Canon { path } => {
                        let current = match &path {
                            Some(p) => crate::action::is_within(self.cwd.as_str(), p.as_str()),
                            None => false,
                        };
                        self.currents.push(current);
                        let n = self.worktrees.len();
                        if self.i + 1 < n {
                            self.i = self.i + 1;
                            self.phase = ListPhase::AwaitStat;
                            let args = vec![str_string("diff"), str_string("--numstat")];
                            proof {
                                assert(strings_view(args@) =~= seq!["diff"@, "--numstat"@]);
                            }
                            Action::RunGit {
                                args,
                                dir: Some(str_string(self.worktrees[self.i].path.as_str())),
                            }
                        } else {
                            self.i = 0;
                            self.phase = ListPhase::AwaitLineAck;
                            Action::Out { line: self.render(0) }
                        }
                    },
                    _ => self.fail(String::new()),
                }
            },
            ListPhase::AwaitLineAck => {
                match event {
                    Event::Ack => {
                        let n = self.worktrees.len();
                        if self.i + 1 < n {
                            self.i = self.i + 1;
                            Action::Out { line: self.render(self.i) }
                        } else {
                            self.phase = ListPhase::Done;
                            Action::Finish { error: None, background: Vec::new() }
                        }
                    },
                    _ => self.fail(String::new()),
                }
            },
            ListPhase::Done => {
                if self.failed {
                    Action::Finish { error: Some(String::new()), background: Vec::new() }
                } else {
                    Action::Finish { error: None, background: Vec::new() }
                }
            },
        }
    }

    /// Render the line for record `k` from the gathered columns.
    fn render(&self, k: usize) -> (r: String)
        requires
            k < self.worktrees@.len(),
            self.stats@.len() == self.worktrees@.len(),
            self.currents@.len() == self.worktrees@.len(),
        ensures
            r@ == self.line_at(k as int),
    {
        let width = branch_width(&self.worktrees);
        list_line(
            self.style,
            self.currents[k],
            self.worktrees[k].branch.as_str(),
            width,
            self.worktrees[k].head.as_str(),
            self.stats[k].0,
            self.stats[k].1,
            self.worktrees[k].path.as_str(),
        )
    }

    fn fail(&mut self, message: String) -> (r: Action)
        ensures
            list_failed(*final(self), r, message@),
            final(self).cwd == old(self).cwd && final(self).style == old(self).style,
    {
        self.phase = ListPhase::Done;
        self.failed = true;
        Action::Finish { error: Some(message), background: Vec::new() }
    }
}

/// The widest branch label of the records.
fn branch_width(ws: &Vec<Worktree>) -> (r: usize)
    ensures
        r as int == spec_width(worktree_views(ws@)),
{
    let ghost wsv = worktree_views(ws@);
    let n = ws.len();
    let mut best: usize = 0;
    let mut k: usize = 0;
    proof {
        assert(wsv.subrange(0, 0) =~= Seq::<WorktreeView>::empty());
    }
    while k < n
        invariant
            n == ws@.len(),
            wsv == worktree_views(ws@),
            k <= n,
            best as int == spec_width(wsv.subrange(0, k as int)),
        decreases n - k,
    {
        let len = ws[k].branch.as_str().unicode_len();
        proof {
            assert(ws@[k as int]@ == wsv[k as int]);
            assert(wsv.subrange(0, k + 1).drop_last() =~= wsv.subrange(0, k as int));
            assert(wsv.subrange(0, k + 1).last() == wsv[k as int]);
        }
        if len > best {
            best = len;
        }
        k = k + 1;
    }
    proof {
        assert(wsv.subrange(0, n as int) =~= wsv);
    }
    best
}

/// Start the list subcommand: the first action asks for the worktree
/// listing.
pub fn run(cwd: String, style: Style) -> (r: (List, Action))
    ensures
        r.0.wf(),
        r.0.phase is AwaitListing,
        r.0.cwd@ == cwd@,
        r.0.style == style,
        r.1 matches Action::RunGit { args, dir } && strings_view(args@) == seq![
            "worktree"@,
            "list"@,
            "--porcelain"@,
        ] && dir is None,
{
    let m = List {
        cwd,
        style,
        worktrees: Vec::new(),
        stats: Vec::new(),
        currents: Vec::new(),
        i: 0,
        failed: false,
        phase: ListPhase::AwaitListing,
    };
    let args = vec![str_string("worktree"), str_string("list"), str_string("--porcelain")];
    proof {
        assert(strings_view(args@) =~= seq!["worktree"@, "list"@, "--porcelain"@]);
    }
    (m, Action::RunGit { args, dir: None })
}

} // verus!
