//! A git-worktree lifecycle manager: the porcelain worktree listing is
//! parsed into structured records, new worktrees get a deterministic sibling
//! directory name, and removal runs as a crash-tolerant two-phase protocol.
//! Each subcommand is a state machine that decides; the caller performs the
//! external commands and interactive selection it asks for, and feeds back
//! what it observed.

pub mod action;
pub mod arguments;
pub mod config;
pub mod convert;
pub mod create;
pub mod diff;
pub mod hook;
pub mod list;
pub mod naming;
pub mod num;
pub mod remove;
pub mod style;
pub mod subcommand;
pub mod switch;
pub mod text;
pub mod worktree;
