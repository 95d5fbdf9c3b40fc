//! The create subcommand: derive the new worktree's directory beside the
//! primary worktree, add it on a new branch, report, and print the new path.

use vstd::prelude::*;

use crate::action::Action;
use crate::action::Event;
use crate::naming::spec_dir_name;
use crate::naming::spec_final_component;
use crate::naming::spec_join;
use crate::naming::spec_parent;
use crate::style::Style;
use crate::style::spec_quoted_failure;
use crate::style::spec_worktree_line;
use crate::style::quoted_failure;
use crate::style::worktree_line;
use crate::text::spec_trim;
use crate::text::split_blocks;
use crate::text::str_string;
use crate::text::string_from_chars;
use crate::text::strings_view;
use crate::text::to_chars;
use crate::text::trim_str;
use crate::worktree::Worktree;
use crate::worktree::spec_parse_block;
use vstd::string::StringExecFns;

verus! {

/// Where the create subcommand stands.
#[derive(Debug, PartialEq, Eq)]
pub enum CreatePhase {
    /// The repository root was requested.
    AwaitRoot,
    /// The worktree listing was requested, to find the primary worktree.
    AwaitListing,
    /// The worktree-add command is running.
    AwaitAdd,
    /// The creation was announced on the error stream.
    AwaitCreatedAck,
    /// The new path was printed to standard output.
    AwaitPathAck,
    /// The subcommand is over.
    Done,
}

/// The create subcommand state machine.
pub struct Create {
    /// The branch to create.
    pub name: String,
    /// Styling for the report line.
    pub style: Style,
    /// The repository root, once reported.
    pub root: String,
    /// The derived directory name.
    pub dir_name: String,
    /// The new worktree's path.
    pub target: String,
    /// Whether the subcommand failed.
    pub failed: bool,
    pub phase: CreatePhase,
}

/// The primary worktree's path: the first listing block's record if the
/// listing succeeded and parses, the repository root otherwise.
pub open spec fn spec_primary_path(success: bool, stdout: Seq<char>, root: Seq<char>) -> Seq<
    char,
> {
    if success && spec_parse_block(crate::text::spec_blocks(stdout)[0]) is Some {
        spec_parse_block(crate::text::spec_blocks(stdout)[0])->Some_0.path
    } else {
        root
    }
}

/// The subcommand stops here, failed, with this message.
pub open spec fn create_failed(post: Create, r: Action, msg: Seq<char>) -> bool {
    &&& post.phase is Done
    &&& post.failed
    &&& r matches Action::Finish { error: Some(e), background } && e@ == msg && background@.len()
        == 0
}

impl Create {
    /// Which event answers the current phase.
    pub open spec fn expects(self, event: Event) -> bool {
        match self.phase {
            CreatePhase::AwaitRoot | CreatePhase::AwaitListing | CreatePhase::AwaitAdd => event
                is Cmd,
            CreatePhase::AwaitCreatedAck | CreatePhase::AwaitPathAck => event is Ack,
            CreatePhase::Done => true,
        }
    }

    /// Start the create subcommand: the first action asks for the repository
    /// root.
    pub fn run(name: String, style: Style) -> (r: (Create, Action))
        ensures
            r.0.phase is AwaitRoot,
            r.0.name@ == name@,
            r.0.style == style,
            !r.0.failed,
            r.1 matches Action::RunGit { args, dir } && strings_view(args@) == seq![
                "rev-parse"@,
                "--show-toplevel"@,
            ] && dir is None,
    {
        let m = Create {
            name,
            style,
            root: String::new(),
            dir_name: String::new(),
            target: String::new(),
            failed: false,
            phase: CreatePhase::AwaitRoot,
        };
        let args = vec![str_string("rev-parse"), str_string("--show-toplevel")];
        proof {
            assert(strings_view(args@) =~= seq!["rev-parse"@, "--show-toplevel"@]);
        }
        (m, Action::RunGit { args, dir: None })
    }

    /// One step: feed the event answering the previous action and receive
    /// the next action.
    pub fn step(&mut self, event: Event) -> (r: Action)
        requires
            old(self).expects(event),
        ensures
            final(self).name == old(self).name,
            final(self).style == old(self).style,
            // the root answered: its trimmed output is kept, whatever the
            // exit status, and the listing is requested
            old(self).phase is AwaitRoot ==> (event matches Event::Cmd {
                success,
                stdout,
                stderr,
            } ==> {
                &&& final(self).root@ == spec_trim(stdout@)
                &&& final(self).phase is AwaitListing
                &&& !final(self).failed == !old(self).failed
                &&& r matches Action::RunGit { args, dir } && strings_view(args@) == seq![
                    "worktree"@,
                    "list"@,
                    "--porcelain"@,
                ] && dir is None
            }),
            // the listing answered: the primary path is its first block's
            // record, or the root as fallback; the name is derived from it
            // and the worktree-add command issued, unless the primary path
            // has no final component
            old(self).phase is AwaitListing ==> (event matches Event::Cmd {
                success,
                stdout,
                stderr,
            } ==> {
                let head = spec_primary_path(success, stdout@, old(self).root@);
                if spec_final_component(head).len() == 0 {
                    create_failed(
                        *final(self),
                        r,
                        "failed to get project name from `"@ + head + "`"@,
                    )
                } else {
                    &&& final(self).dir_name@ == spec_dir_name(
                        spec_final_component(head),
                        old(self).name@,
                    )
                    &&& final(self).target@ == spec_join(
                        spec_parent(head),
                        final(self).dir_name@,
                    )
                    &&& final(self).phase is AwaitAdd
                    &&& final(self).failed == old(self).failed
                    &&& r matches Action::RunGit { args, dir } && strings_view(args@) == seq![
                        "worktree"@,
                        "add"@,
                        "-b"@,
                        old(self).name@,
                        final(self).target@,
                    ] && dir is None
                }
            }),
            // the add answered: failure is fatal with the command's
            // diagnostic, success is announced
            old(self).phase is AwaitAdd ==> (event matches Event::Cmd {
                success,
                stdout,
                stderr,
            } ==> {
                if !success {
                    create_failed(
                        *final(self),
                        r,
                        spec_quoted_failure(
                            "failed to create worktree "@,
                            old(self).name@,
                            spec_trim(stderr@),
                        ),
                    )
                } else {
                    &&& final(self).phase is AwaitCreatedAck
                    &&& final(self).failed == old(self).failed
                    &&& final(self).target == old(self).target
                    &&& r matches Action::Report { line } && line@ == spec_worktree_line(
                        old(self).style,
                        "created"@,
                        old(self).name@,
                        old(self).dir_name@,
                    )
                }
            }),
            // the announcement was made: print the new path
            old(self).phase is AwaitCreatedAck ==> (event is Ack ==> {
                &&& final(self).phase is AwaitPathAck
                &&& !final(self).failed == !old(self).failed
                &&& final(self).target == old(self).target
                &&& r matches Action::Out { line } && line@ == old(self).target@
            }),
            // the path was printed: done
            old(self).phase is AwaitPathAck ==> (event is Ack ==> {
                &&& final(self).phase is Done
                &&& final(self).failed == old(self).failed
                &&& r matches Action::Finish { error, background } && error is None
                    && background@.len() == 0
            }),
            // a finished subcommand only repeats its outcome
            old(self).phase is Done ==> {
                &&& *final(self) == *old(self)
                &&& r matches Action::Finish { error, background } && (error is Some <==> old(
                    self,
                ).failed) && background@.len() == 0
            },
    {
        match self.phase {
            CreatePhase::AwaitRoot => {
                match event {
                    Event::Cmd { success, stdout, stderr } => {
                        self.root = trim_str(stdout.as_str());
                        self.phase = CreatePhase::AwaitListing;
                        let args = vec![
                            str_string("worktree"),
                            str_string("list"),
                            str_string("--porcelain"),
                        ];
                        proof {
                            assert(strings_view(args@) =~= seq![
                                "worktree"@,
                                "list"@,
                                "--porcelain"@,
                            ]);
                        }
                        Action::RunGit { args, dir: None }
                    },
                    _ => self.fail(String::new()),
                }
            },
            CreatePhase::AwaitListing => {
                match event {
                    Event::Cmd { success, stdout, stderr } => {
                        let head = primary_path(success, stdout.as_str(), self.root.as_str());
                        match crate::naming::derive(head.as_str(), self.name.as_str()) {
                            Err(_) => {
                                let mut msg = str_string("failed to get project name from `");
                                msg.append(head.as_str());
                                msg.append("`");
                                proof {
                                    assert(msg@ =~= "failed to get project name from `"@ + head@
                                        + "`"@);
                                }
                                self.fail(msg)
                            },
                            Ok(naming) => {
                                self.dir_name = naming.directory_name;
                                self.target = naming.target_path;
                                self.phase = CreatePhase::AwaitAdd;
                                let args = vec![
                                    str_string("worktree"),
                                    str_string("add"),
                                    str_string("-b"),
                                    str_string(self.name.as_str()),
                                    str_string(self.target.as_str()),
                                ];
                                proof {
                                    assert(strings_view(args@) =~= seq![
                                        "worktree"@,
                                        "add"@,
                                        "-b"@,
                                        self.name@,
                                        self.target@,
                                    ]);
                                }
                                Action::RunGit { args, dir: None }
                            },
                        }
                    },
                    _ => self.fail(String::new()),
                }
            },
            CreatePhase::AwaitAdd => {
                match event {
                    Event::Cmd { success, stdout, stderr } => {
                        if !success {
                            let msg = quoted_failure(
                                "failed to create worktree ",
                                self.name.as_str(),
                                trim_str(stderr.as_str()).as_str(),
                            );
                            self.fail(msg)
                        } else {
                            self.phase = CreatePhase::AwaitCreatedAck;
                            let line = worktree_line(
                                self.style,
                                "created",
                                self.name.as_str(),
                                self.dir_name.as_str(),
                            );
                            Action::Report { line }
                        }
                    },
                    _ => self.fail(String::new()),
                }
            },
            CreatePhase::AwaitCreatedAck => {
                match event {
                    Event::Ack => {
                        self.phase = CreatePhase::AwaitPathAck;
                        Action::Out { line: str_string(self.target.as_str()) }
                    },
                    _ => self.fail(String::new()),
                }
            },
            CreatePhase::AwaitPathAck => {
                match event {
                    Event::Ack => {
                        self.phase = CreatePhase::Done;
                        Action::Finish { error: None, background: Vec::new() }
                    },
                    _ => self.fail(String::new()),
                }
            },
            CreatePhase::Done => {
                if self.failed {
                    Action::Finish { error: Some(String::new()), background: Vec::new() }
                } else {
                    Action::Finish { error: None, background: Vec::new() }
                }
            },
        }
    }

    /// Close the subcommand as failed with this message.
    fn fail(&mut self, message: String) -> (r: Action)
        ensures
            create_failed(*final(self), r, message@),
            final(self).name == old(self).name,
            final(self).style == old(self).style,
    {
        self.phase = CreatePhase::Done;
        self.failed = true;
        Action::Finish { error: Some(message), background: Vec::new() }
    }
}

/// The primary worktree's path, from the listing's first block.
fn primary_path(success: bool, stdout: &str, root: &str) -> (r: String)
    ensures
        r@ == spec_primary_path(success, stdout@, root@),
{
    if !success {
        return str_string(root);
    }
    let chars = to_chars(stdout);
    let blocks = split_blocks(&chars);
    proof {
        assert(crate::text::chars_view(blocks@).len() >= 1);
        assert(blocks@[0]@ == crate::text::chars_view(blocks@)[0]);
    }
    let first = string_from_chars(&blocks[0]);
    match Worktree::try_from(first.as_str()) {
        Ok(w) => w.path,
        _ => str_string(root),
    }
}

} // verus!
