//! The interface between the decision logic and the outside world: each
//! subcommand is a state machine that issues one `Action` at a time and is
//! fed the `Event` that the caller observed for it. The machines decide;
//! the caller only performs.

use vstd::prelude::*;

use crate::text::has_prefix;
use crate::text::starts_with_chars;
use crate::text::to_chars;

verus! {

/// One candidate offered to the interactive picker: a display label and the
/// opaque payload handed back on selection.
#[derive(Debug, PartialEq, Eq)]
pub struct PickItem {
    pub label: String,
    pub payload: String,
}

/// What a machine asks the caller to do next.
#[derive(Debug)]
pub enum Action {
    /// Run the external version-control command with these arguments, in
    /// `dir` if given; answer with `Event::Cmd`.
    RunGit { args: Vec<String>, dir: Option<String> },
    /// Attempt an atomic rename of a directory; answer with `Event::Renamed`.
    Rename { from: String, to: String },
    /// Resolve a path to its canonical form; answer with `Event::Canon`.
    Canonicalize { path: String },
    /// Collect an interactive selection; answer with `Event::Picked`.
    Pick { items: Vec<PickItem>, multi: bool, prompt: Option<String>, preview: Option<String> },
    /// Print a line to standard output; answer with `Event::Ack`.
    Out { line: String },
    /// Print a line to the error stream; answer with `Event::Ack`.
    Report { line: String },
    /// Emit the built-in shell integration script; answer with `Event::Ack`.
    EmitInit,
    /// Evaluate a glob pattern against the filesystem; answer with
    /// `Event::Globbed`.
    Glob { pattern: String },
    /// Stop. Spawn one detached best-effort deletion per trash path in
    /// `background`, report `error` if set, and exit accordingly. No event
    /// answers this action; fed anything, a finished machine repeats it.
    Finish { error: Option<String>, background: Vec<String> },
}

/// What the caller observed for the previous action.
#[derive(Debug)]
pub enum Event {
    /// A command completed: its exit status and captured streams.
    Cmd { success: bool, stdout: String, stderr: String },
    /// The rename succeeded or failed.
    Renamed { ok: bool },
    /// The canonical path, if resolution succeeded.
    Canon { path: Option<String> },
    /// The selection: whether the user aborted, and the chosen items in
    /// selection order.
    Picked { aborted: bool, items: Vec<PickItem> },
    /// Whether the glob pattern matched anything, or its error text.
    Globbed { result: Result<bool, String> },
    /// An output action was performed.
    Ack,
}

/// The views of a sequence of pick items, as label/payload pairs.
pub open spec fn items_view(s: Seq<PickItem>) -> Seq<(Seq<char>, Seq<char>)> {
    Seq::new(s.len(), |i: int| (s[i].label@, s[i].payload@))
}

/// Whether `cwd` lies inside the directory `base`: `base` leads `cwd` and
/// ends on a component boundary.
pub open spec fn path_within(cwd: Seq<char>, base: Seq<char>) -> bool {
    has_prefix(cwd, base) && (cwd.len() == base.len() || cwd[base.len() as int] == '/' || (
    base.len() > 0 && base.last() == '/'))
}

/// Test whether `cwd` lies inside `base`.
pub fn is_within(cwd: &str, base: &str) -> (r: bool)
    ensures
        r == path_within(cwd@, base@),
{
    let cc = to_chars(cwd);
    let bc = to_chars(base);
    if !starts_with_chars(&cc, &bc) {
        return false;
    }
    if cc.len() == bc.len() {
        return true;
    }
    if cc[bc.len()] == '/' {
        return true;
    }
    bc.len() > 0 && bc[bc.len() - 1] == '/'
}

} // verus!
