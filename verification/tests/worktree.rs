use wt_cli::worktree::ParseError;
use wt_cli::worktree::Worktree;
use wt_cli::worktree::parse_records;
use wt_cli::switch::Switch;

#[test]
fn from_block_with_branch() {
    assert_eq!(
        Worktree::try_from("worktree /tmp/repo\nHEAD abc123\nbranch refs/heads/main\n").unwrap(),
        Worktree {
            branch: "main".to_string(),
            head: "abc123".to_string(),
            path: "/tmp/repo".to_string(),
        },
    );
}

#[test]
fn from_block_with_detached() {
    assert_eq!(
        Worktree::try_from("worktree /tmp/repo\nHEAD abc123\ndetached\n").unwrap(),
        Worktree {
            branch: "(detached)".to_string(),
            head: "abc123".to_string(),
            path: "/tmp/repo".to_string(),
        },
    );
}

#[test]
fn from_block_without_branch() {
    assert!(Worktree::try_from("worktree /tmp/repo\nHEAD abc123\n").is_err());
}

#[test]
fn from_empty_block() {
    assert!(Worktree::try_from("").is_err());
}

#[test]
fn from_block_errors_name_the_missing_field() {
    assert_eq!(
        Worktree::try_from("HEAD abc123\nbranch refs/heads/main\n").unwrap_err(),
        ParseError::MissingPath,
    );
    assert_eq!(
        Worktree::try_from("worktree /tmp/repo\nHEAD abc123\n").unwrap_err(),
        ParseError::MissingBranch,
    );
    assert_eq!(ParseError::MissingPath.message(), "missing worktree path");
    assert_eq!(ParseError::MissingBranch.message(), "missing branch");
}

#[test]
fn branch_is_text_after_reference_prefix() {
    let w = Worktree::try_from(
        "worktree /tmp/repo\nHEAD 0123456789abcdef\nbranch refs/heads/feat/deep/name\n",
    )
    .unwrap();
    assert_eq!(w.branch, "feat/deep/name");
    assert_eq!(w.head, "0123456");
}

#[test]
fn head_defaults_to_unknown() {
    let w = Worktree::try_from("worktree /tmp/repo\nbranch refs/heads/main\n").unwrap();
    assert_eq!(w.head, "unknown");
}

#[test]
fn filters_nonexistent_paths() {
    let input = "worktree /no/such/path\nHEAD abc123\nbranch refs/heads/gone\n";

    assert_eq!(Switch::parse_worktrees(input), Vec::new());
}

#[test]
fn parse_detached_head() {
    let directory = tempfile::tempdir().unwrap();

    let path = directory.path().display();

    assert_eq!(
        Switch::parse_worktrees(&format!("worktree {path}\nHEAD abc123\ndetached\n")),
        vec![Worktree {
            branch: "(detached)".to_string(),
            head: "abc123".to_string(),
            path: path.to_string(),
        }],
    );
}

#[test]
fn parse_empty_input() {
    assert_eq!(Switch::parse_worktrees(""), Vec::new());
}

#[test]
fn parse_multiple_worktrees() {
    let (directory_a, directory_b) = (tempfile::tempdir().unwrap(), tempfile::tempdir().unwrap());

    let (path_a, path_b) = (directory_a.path().display(), directory_b.path().display());

    let input = format!(
        "worktree {path_a}\nHEAD abc123\nbranch refs/heads/main\n\n\
         worktree {path_b}\nHEAD def456\nbranch refs/heads/feature\n"
    );

    assert_eq!(
        Switch::parse_worktrees(&input),
        vec![
            Worktree {
                branch: "main".to_string(),
                head: "abc123".to_string(),
                path: path_a.to_string(),
            },
            Worktree {
                branch: "feature".to_string(),
                head: "def456".to_string(),
                path: path_b.to_string(),
            },
        ],
    );
}

#[test]
fn parse_single_branch() {
    let directory = tempfile::tempdir().unwrap();

    let path = directory.path().display();

    assert_eq!(
        Switch::parse_worktrees(&format!("worktree {path}\nHEAD abc123\nbranch refs/heads/main\n")),
        vec![Worktree {
            branch: "main".to_string(),
            head: "abc123".to_string(),
            path: path.to_string(),
        }],
    );
}

#[test]
fn skips_block_without_branch() {
    let directory = tempfile::tempdir().unwrap();

    let path = directory.path().display();

    assert_eq!(
        Switch::parse_worktrees(&format!("worktree {path}\nHEAD abc123\n")),
        Vec::new()
    );
}

#[test]
fn parsing_is_pure_and_order_preserving() {
    let input = "worktree /a\nHEAD 1111111\nbranch refs/heads/one\n\n\
                 bogus block\n\n\
                 worktree /b\nHEAD 2222222\nbranch refs/heads/two\n\n\
                 worktree /c\nHEAD 3333333\ndetached\n";
    let first = parse_records(input);
    let second = parse_records(input);
    assert_eq!(first, second);
    let branches: Vec<&str> = first.iter().map(|w| w.branch.as_str()).collect();
    assert_eq!(branches, vec!["one", "two", "(detached)"]);
}
