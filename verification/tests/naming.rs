use wt_cli::naming::NamingError;
use wt_cli::naming::dir_name;
use wt_cli::naming::final_component;
use wt_cli::naming::join_path;
use wt_cli::naming::parent_dir;

#[test]
fn derive_dashes_the_branch() {
    let n = wt_cli::naming::derive("project", "feat/x").unwrap();
    assert_eq!(n.directory_name, "project.feat-x");
    assert_eq!(n.target_path, "project.feat-x");
}

#[test]
fn derive_places_the_worktree_beside_the_primary() {
    let n = wt_cli::naming::derive("/home/user/project", "feature").unwrap();
    assert_eq!(n.directory_name, "project.feature");
    assert_eq!(n.target_path, "/home/user/project.feature");
}

#[test]
fn derived_names_hold_no_slash() {
    let n = wt_cli::naming::derive("/srv/repos/tool", "a/b/c/d").unwrap();
    assert!(!n.directory_name.contains('/'));
    assert_eq!(n.directory_name, "tool.a-b-c-d");
}

#[test]
fn derive_rejects_an_empty_final_component() {
    assert_eq!(wt_cli::naming::derive("", "feature").unwrap_err(), NamingError::NoFinalComponent);
    assert_eq!(wt_cli::naming::derive("/srv/repo/", "feature").unwrap_err(), NamingError::NoFinalComponent);
}

#[test]
fn path_pieces() {
    assert_eq!(final_component("/a/b/c"), Some("c".to_string()));
    assert_eq!(final_component("plain"), Some("plain".to_string()));
    assert_eq!(final_component("/"), None);
    assert_eq!(parent_dir("/a/b/c"), "/a/b");
    assert_eq!(parent_dir("/a"), "/");
    assert_eq!(parent_dir("plain"), "");
    assert_eq!(join_path("", "x"), "x");
    assert_eq!(join_path("/", "x"), "/x");
    assert_eq!(join_path("/a/b", "x"), "/a/b/x");
    assert_eq!(dir_name("project", "feat/x"), "project.feat-x");
}
