use wt_cli::action::Action;
use wt_cli::action::Event;
use wt_cli::action::PickItem;
use wt_cli::config::HookEntry;
use wt_cli::style::Style;
use wt_cli::subcommand::Env;
use wt_cli::subcommand::Init;
use wt_cli::subcommand::HookName;
use wt_cli::subcommand::Session;
use wt_cli::subcommand::Shell;
use wt_cli::subcommand::Subcommand;

fn plain() -> Style {
    Style { enabled: false }
}

fn ok(stdout: &str) -> Event {
    Event::Cmd { success: true, stdout: stdout.to_string(), stderr: String::new() }
}

fn failed(stderr: &str) -> Event {
    Event::Cmd { success: false, stdout: String::new(), stderr: stderr.to_string() }
}

fn git_args(a: &Action) -> (Vec<String>, Option<String>) {
    match a {
        Action::RunGit { args, dir } => (args.clone(), dir.clone()),
        other => panic!("expected a git command, got {:?}", other),
    }
}

fn picked(items: Vec<(&str, &str)>) -> Event {
    Event::Picked {
        aborted: false,
        items: items
            .into_iter()
            .map(|(label, payload)| PickItem {
                label: label.to_string(),
                payload: payload.to_string(),
            })
            .collect(),
    }
}

#[test]
fn removal_deletes_exactly_the_non_detached_branches() {
    let root = tempfile::tempdir().unwrap();
    let primary = tempfile::tempdir_in(root.path()).unwrap();
    let wt1 = tempfile::tempdir_in(root.path()).unwrap();
    let wt2 = tempfile::tempdir_in(root.path()).unwrap();
    let (p, w1, w2) = (
        primary.path().display().to_string(),
        wt1.path().display().to_string(),
        wt2.path().display().to_string(),
    );
    let listing = format!(
        "worktree {p}\nHEAD 1111111\nbranch refs/heads/main\n\n\
         worktree {w1}\nHEAD 2222222\nbranch refs/heads/alpha\n\n\
         worktree {w2}\nHEAD 3333333\ndetached\n"
    );

    let (mut m, a) = wt_cli::remove::run("/elsewhere".to_string(), 4242, plain());
    let (args, _) = git_args(&a);
    assert_eq!(args, vec!["worktree", "list", "--porcelain"]);

    // listing answered: the primary is never offered
    let a = m.step(ok(&listing));
    let offered = match &a {
        Action::Pick { items, multi, .. } => {
            assert!(*multi);
            items.iter().map(|i| i.payload.clone()).collect::<Vec<_>>()
        }
        other => panic!("expected a pick, got {:?}", other),
    };
    assert_eq!(offered, vec![w1.clone(), w2.clone()]);

    // both candidates picked: first rename
    let a = m.step(picked(vec![("alpha", &w1), ("(detached)", &w2)]));
    let trash0 = match &a {
        Action::Rename { from, to } => {
            assert_eq!(from, &w1);
            assert_eq!(
                to,
                &format!("{}/.wt-removing-4242-0", root.path().display())
            );
            to.clone()
        }
        other => panic!("expected a rename, got {:?}", other),
    };

    // first rename succeeds: second rename
    let a = m.step(Event::Renamed { ok: true });
    match &a {
        Action::Rename { from, to } => {
            assert_eq!(from, &w2);
            assert_eq!(
                to,
                &format!("{}/.wt-removing-4242-1", root.path().display())
            );
        }
        other => panic!("expected a rename, got {:?}", other),
    }

    // second rename fails: the forced removal fallback runs instead
    let a = m.step(Event::Renamed { ok: false });
    let (args, dir) = git_args(&a);
    assert_eq!(args, vec!["worktree", "remove", "--force", "--force", &w2]);
    assert!(dir.is_none());

    // fallback succeeded: exactly one prune, scoped to the primary
    let a = m.step(ok(""));
    let (args, dir) = git_args(&a);
    assert_eq!(args, vec!["worktree", "prune"]);
    assert_eq!(dir.as_deref(), Some(p.as_str()));

    // reporting: removal announced, then one branch deletion for the one
    // non-detached branch
    let a = m.step(ok(""));
    match &a {
        Action::Report { line } => {
            assert_eq!(line, &format!("removed worktree alpha at {w1}"))
        }
        other => panic!("expected a report, got {:?}", other),
    }
    let a = m.step(Event::Ack);
    let (args, dir) = git_args(&a);
    assert_eq!(args, vec!["branch", "-D", "alpha"]);
    assert_eq!(dir.as_deref(), Some(p.as_str()));
    let a = m.step(ok(""));
    match &a {
        Action::Report { line } => assert_eq!(line, "deleted branch alpha"),
        other => panic!("expected a report, got {:?}", other),
    }
    let a = m.step(Event::Ack);
    match &a {
        Action::Report { line } => {
            assert_eq!(line, &format!("removed worktree (detached) at {w2}"))
        }
        other => panic!("expected a report, got {:?}", other),
    }

    // the detached worktree loses no branch: the batch closes, handing only
    // the renamed directory to background deletion
    let a = m.step(Event::Ack);
    match &a {
        Action::Finish { error, background } => {
            assert!(error.is_none());
            assert_eq!(background, &vec![trash0]);
        }
        other => panic!("expected the finish, got {:?}", other),
    }

    // no later event changes the recorded outcome: background deletion has
    // no way to fail the batch
    let a = m.step(Event::Ack);
    match &a {
        Action::Finish { error, .. } => assert!(error.is_none()),
        other => panic!("expected the finish, got {:?}", other),
    }
}

#[test]
fn removal_prints_the_primary_when_the_caller_stood_inside() {
    let root = tempfile::tempdir().unwrap();
    let primary = tempfile::tempdir_in(root.path()).unwrap();
    let wt1 = tempfile::tempdir_in(root.path()).unwrap();
    let (p, w1) = (
        primary.path().display().to_string(),
        wt1.path().display().to_string(),
    );
    let listing = format!(
        "worktree {p}\nHEAD 1111111\nbranch refs/heads/main\n\n\
         worktree {w1}\nHEAD 2222222\nbranch refs/heads/beta\n"
    );
    let cwd = format!("{w1}/deep/inside");

    let (mut m, _) = wt_cli::remove::run(cwd, 7, plain());
    m.step(ok(&listing));
    m.step(picked(vec![("beta", &w1)]));
    m.step(Event::Renamed { ok: true });
    // prune, removal report, branch deletion, deletion report
    m.step(ok(""));
    m.step(Event::Ack);
    m.step(ok(""));
    let a = m.step(Event::Ack);
    match &a {
        Action::Out { line } => assert_eq!(line, &p),
        other => panic!("expected the navigation hint, got {:?}", other),
    }
    let a = m.step(Event::Ack);
    assert!(matches!(a, Action::Finish { error: None, .. }));
}

#[test]
fn removal_abort_runs_nothing() {
    let root = tempfile::tempdir().unwrap();
    let primary = tempfile::tempdir_in(root.path()).unwrap();
    let wt1 = tempfile::tempdir_in(root.path()).unwrap();
    let listing = format!(
        "worktree {}\nHEAD 1111111\nbranch refs/heads/main\n\n\
         worktree {}\nHEAD 2222222\nbranch refs/heads/x\n",
        primary.path().display(),
        wt1.path().display()
    );
    let (mut m, _) = wt_cli::remove::run("/elsewhere".to_string(), 7, plain());
    m.step(ok(&listing));
    let a = m.step(Event::Picked { aborted: true, items: Vec::new() });
    match &a {
        Action::Finish { error, background } => {
            assert!(error.is_none());
            assert!(background.is_empty());
        }
        other => panic!("expected the finish, got {:?}", other),
    }
}

#[test]
fn removal_with_a_single_worktree_fails_fast() {
    let root = tempfile::tempdir().unwrap();
    let primary = tempfile::tempdir_in(root.path()).unwrap();
    let listing = format!(
        "worktree {}\nHEAD 1111111\nbranch refs/heads/main\n",
        primary.path().display()
    );
    let (mut m, _) = wt_cli::remove::run("/elsewhere".to_string(), 7, plain());
    let a = m.step(ok(&listing));
    match &a {
        Action::Finish { error, .. } => {
            assert_eq!(error.as_deref(), Some("no worktrees to remove"))
        }
        other => panic!("expected the failure, got {:?}", other),
    }
}

#[test]
fn removal_fallback_failure_is_fatal() {
    let root = tempfile::tempdir().unwrap();
    let primary = tempfile::tempdir_in(root.path()).unwrap();
    let wt1 = tempfile::tempdir_in(root.path()).unwrap();
    let w1 = wt1.path().display().to_string();
    let listing = format!(
        "worktree {}\nHEAD 1111111\nbranch refs/heads/main\n\n\
         worktree {w1}\nHEAD 2222222\nbranch refs/heads/x\n",
        primary.path().display()
    );
    let (mut m, _) = wt_cli::remove::run("/elsewhere".to_string(), 7, plain());
    m.step(ok(&listing));
    m.step(picked(vec![("x", &w1)]));
    m.step(Event::Renamed { ok: false });
    let a = m.step(failed("fatal: locked\n"));
    match &a {
        Action::Finish { error, background } => {
            assert_eq!(
                error.as_deref(),
                Some("failed to remove worktree `x`: fatal: locked")
            );
            assert!(background.is_empty());
        }
        other => panic!("expected the failure, got {:?}", other),
    }
}

#[test]
fn switching_with_zero_live_worktrees_fails() {
    let (mut m, a) = wt_cli::switch::run();
    let (args, _) = git_args(&a);
    assert_eq!(args, vec!["worktree", "list", "--porcelain"]);
    let a = m.step(ok("worktree /no/such/path\nHEAD abc1234\nbranch refs/heads/x\n"));
    match &a {
        Action::Finish { error, .. } => {
            assert_eq!(error.as_deref(), Some("no worktrees found"))
        }
        other => panic!("expected the failure, got {:?}", other),
    }
}

#[test]
fn switching_prints_the_chosen_path() {
    let dir = tempfile::tempdir().unwrap();
    let path = dir.path().display().to_string();
    let listing = format!("worktree {path}\nHEAD abc1234\nbranch refs/heads/main\n");
    let (mut m, _) = wt_cli::switch::run();
    let a = m.step(ok(&listing));
    match &a {
        Action::Pick { items, multi, prompt, .. } => {
            assert!(!*multi);
            assert_eq!(prompt.as_deref(), Some("worktree> "));
            assert_eq!(items.len(), 1);
        }
        other => panic!("expected a pick, got {:?}", other),
    }
    let a = m.step(picked(vec![("main", &path)]));
    match &a {
        Action::Out { line } => assert_eq!(line, &path),
        other => panic!("expected the path, got {:?}", other),
    }
}

#[test]
fn create_builds_the_sibling_and_prints_its_path() {
    let (mut m, a) = wt_cli::create::Create::run("feature".to_string(), plain());
    let (args, _) = git_args(&a);
    assert_eq!(args, vec!["rev-parse", "--show-toplevel"]);
    let a = m.step(ok("/tmp/root/project\n"));
    let (args, _) = git_args(&a);
    assert_eq!(args, vec!["worktree", "list", "--porcelain"]);
    let a = m.step(ok("worktree /tmp/root/project\nHEAD abc1234\nbranch refs/heads/main\n"));
    let (args, _) = git_args(&a);
    assert_eq!(
        args,
        vec!["worktree", "add", "-b", "feature", "/tmp/root/project.feature"]
    );
    let a = m.step(ok(""));
    match &a {
        Action::Report { line } => {
            assert_eq!(line, "created worktree feature at project.feature")
        }
        other => panic!("expected the report, got {:?}", other),
    }
    let a = m.step(Event::Ack);
    match &a {
        Action::Out { line } => assert_eq!(line, "/tmp/root/project.feature"),
        other => panic!("expected the path, got {:?}", other),
    }
    let a = m.step(Event::Ack);
    assert!(matches!(a, Action::Finish { error: None, .. }));
}

#[test]
fn create_duplicate_branch_fails_naming_the_conflict() {
    let (mut m, _) = wt_cli::create::Create::run("feature".to_string(), plain());
    m.step(ok("/tmp/root/project\n"));
    m.step(ok("worktree /tmp/root/project\nHEAD abc1234\nbranch refs/heads/main\n"));
    let a = m.step(failed("fatal: a branch named 'feature' already exists\n"));
    match &a {
        Action::Finish { error, .. } => {
            assert_eq!(
                error.as_deref(),
                Some(
                    "failed to create worktree `feature`: \
                     fatal: a branch named 'feature' already exists"
                )
            );
        }
        other => panic!("expected the failure, got {:?}", other),
    }
}

#[test]
fn create_outside_a_repository_fails() {
    let (mut m, _) = wt_cli::create::Create::run("feature".to_string(), plain());
    m.step(failed(""));
    let a = m.step(failed(""));
    match &a {
        Action::Finish { error, .. } => {
            assert_eq!(error.as_deref(), Some("failed to get project name from ``"))
        }
        other => panic!("expected the failure, got {:?}", other),
    }
}

#[test]
fn create_with_a_slash_in_the_branch_name() {
    let (mut m, _) = wt_cli::create::Create::run("feat/my-branch".to_string(), plain());
    m.step(ok("/tmp/root/project\n"));
    let a = m.step(ok("worktree /tmp/root/project\nHEAD abc1234\nbranch refs/heads/main\n"));
    let (args, _) = git_args(&a);
    assert_eq!(
        args,
        vec![
            "worktree",
            "add",
            "-b",
            "feat/my-branch",
            "/tmp/root/project.feat-my-branch"
        ]
    );
    let a = m.step(ok(""));
    match &a {
        Action::Report { line } => {
            assert_eq!(line, "created worktree feat/my-branch at project.feat-my-branch")
        }
        other => panic!("expected the report, got {:?}", other),
    }
}

#[test]
fn convert_offers_only_branches_without_worktrees() {
    let (mut m, a) = wt_cli::convert::run(plain());
    let (args, _) = git_args(&a);
    assert_eq!(args, vec!["rev-parse", "--show-toplevel"]);
    let a = m.step(ok("/r/proj\n"));
    let (args, _) = git_args(&a);
    assert_eq!(args, vec!["branch", "--format=%(refname:short)"]);
    let a = m.step(ok("main\nfeature\nwip\n"));
    let (args, _) = git_args(&a);
    assert_eq!(args, vec!["worktree", "list", "--porcelain"]);
    let a = m.step(ok("worktree /r/proj\nHEAD abc1234\nbranch refs/heads/main\n"));
    match &a {
        Action::Pick { items, multi, .. } => {
            assert!(*multi);
            let labels: Vec<String> = items.iter().map(|i| i.label.clone()).collect();
            assert_eq!(labels, vec!["feature", "wip"]);
        }
        other => panic!("expected a pick, got {:?}", other),
    }
    let a = m.step(picked(vec![("feature", "feature")]));
    let (args, _) = git_args(&a);
    assert_eq!(args, vec!["worktree", "add", "/r/proj.feature", "feature"]);
    let a = m.step(ok(""));
    match &a {
        Action::Report { line } => {
            assert_eq!(line, "created worktree feature at proj.feature")
        }
        other => panic!("expected the report, got {:?}", other),
    }
    let a = m.step(Event::Ack);
    match &a {
        Action::Out { line } => assert_eq!(line, "/r/proj.feature"),
        other => panic!("expected the path, got {:?}", other),
    }
    let a = m.step(Event::Ack);
    assert!(matches!(a, Action::Finish { error: None, .. }));
}

#[test]
fn convert_outside_a_repository_fails() {
    let (mut m, _) = wt_cli::convert::run(plain());
    let a = m.step(failed(""));
    match &a {
        Action::Finish { error, .. } => {
            assert_eq!(error.as_deref(), Some("not a git repository"))
        }
        other => panic!("expected the failure, got {:?}", other),
    }
}

#[test]
fn hook_prints_matching_commands_in_order() {
    let entries = vec![
        HookEntry { command: "echo unconditional".to_string(), only_if: None },
        HookEntry { command: "echo guarded".to_string(), only_if: Some("*.rs".to_string()) },
        HookEntry { command: "echo skipped".to_string(), only_if: Some("*.toml".to_string()) },
    ];
    let (mut m, a) = wt_cli::hook::run(entries, "/work/dir".to_string());
    match &a {
        Action::Out { line } => assert_eq!(line, "echo unconditional"),
        other => panic!("expected the command, got {:?}", other),
    }
    let a = m.step(Event::Ack);
    match &a {
        Action::Glob { pattern } => assert_eq!(pattern, "/work/dir/*.rs"),
        other => panic!("expected a glob, got {:?}", other),
    }
    let a = m.step(Event::Globbed { result: Ok(true) });
    match &a {
        Action::Out { line } => assert_eq!(line, "echo guarded"),
        other => panic!("expected the command, got {:?}", other),
    }
    let a = m.step(Event::Ack);
    match &a {
        Action::Glob { pattern } => assert_eq!(pattern, "/work/dir/*.toml"),
        other => panic!("expected a glob, got {:?}", other),
    }
    let a = m.step(Event::Globbed { result: Ok(false) });
    assert!(matches!(a, Action::Finish { error: None, .. }));
}

#[test]
fn hook_glob_error_is_fatal() {
    let entries = vec![HookEntry {
        command: "echo x".to_string(),
        only_if: Some("[".to_string()),
    }];
    let (mut m, _) = wt_cli::hook::run(entries, "/work".to_string());
    let a = m.step(Event::Globbed { result: Err("invalid pattern".to_string()) });
    match &a {
        Action::Finish { error, .. } => assert_eq!(error.as_deref(), Some("invalid pattern")),
        other => panic!("expected the failure, got {:?}", other),
    }
}

#[test]
fn hook_entry_matching_rule() {
    let unconditional = HookEntry { command: "a".to_string(), only_if: None };
    let guarded = HookEntry { command: "b".to_string(), only_if: Some("*".to_string()) };
    assert!(unconditional.matches(false));
    assert!(unconditional.matches(true));
    assert!(!guarded.matches(false));
    assert!(guarded.matches(true));
}

#[test]
fn dispatch_opens_the_right_machine() {
    let env = Env {
        cwd: "/w".to_string(),
        pid: 1,
        stdout_style: plain(),
        stderr_style: plain(),
        hooks: Vec::new(),
    };
    let args = wt_cli::arguments::Arguments {
        subcommand: Subcommand::Init(Init { shell: Shell::Zsh }),
    };
    let (mut s, a) = args.run(env);
    assert!(matches!(a, Action::EmitInit));
    match &mut s {
        Session::Init(m) => {
            let a = m.step(Event::Ack);
            assert!(matches!(a, Action::Finish { error: None, .. }));
        }
        _ => panic!("expected the init session"),
    }

    let env = Env {
        cwd: "/w".to_string(),
        pid: 1,
        stdout_style: plain(),
        stderr_style: plain(),
        hooks: Vec::new(),
    };
    let (s, a) = Subcommand::List.run(env);
    assert!(matches!(s, Session::List(_)));
    let (args, _) = git_args(&a);
    assert_eq!(args, vec!["worktree", "list", "--porcelain"]);

    let env = Env {
        cwd: "/w".to_string(),
        pid: 1,
        stdout_style: plain(),
        stderr_style: plain(),
        hooks: Vec::new(),
    };
    let (s, _) = (Subcommand::Hook { name: HookName::PostWorktreeChange }).run(env);
    assert!(matches!(s, Session::Hook(_)));
}

#[test]
fn listing_renders_marker_stats_and_path() {
    let dir = tempfile::tempdir().unwrap();
    let path = dir.path().display().to_string();
    let listing = format!("worktree {path}\nHEAD abc1234\nbranch refs/heads/main\n");
    let (mut m, _) = wt_cli::list::run(path.clone(), plain());
    let a = m.step(ok(&listing));
    let (args, d) = git_args(&a);
    assert_eq!(args, vec!["diff", "--numstat"]);
    assert_eq!(d.as_deref(), Some(path.as_str()));
    let a = m.step(ok("3\t1\tfile.rs\n"));
    match &a {
        Action::Canonicalize { path: p } => assert_eq!(p, &path),
        other => panic!("expected a canonicalization, got {:?}", other),
    }
    let a = m.step(Event::Canon { path: Some(path.clone()) });
    match &a {
        Action::Out { line } => {
            assert_eq!(line, &format!("* main  abc1234  +3/-1  {path}"))
        }
        other => panic!("expected the line, got {:?}", other),
    }
    let a = m.step(Event::Ack);
    assert!(matches!(a, Action::Finish { error: None, .. }));
}

#[test]
fn listing_without_worktrees_fails() {
    let (mut m, _) = wt_cli::list::run("/w".to_string(), plain());
    let a = m.step(ok(""));
    match &a {
        Action::Finish { error, .. } => {
            assert_eq!(error.as_deref(), Some("no worktrees found"))
        }
        other => panic!("expected the failure, got {:?}", other),
    }
}
