//! Terminal styling: whether escape codes are emitted is decided once, from
//! the ambient environment, and carried as an explicit value; `apply` wraps a
//! value in one style code. The error renderer draws the cause tree printed
//! on failure.

use vstd::prelude::*;

use vstd::string::StringExecFns;

verus! {

/// Bold style code.
pub const BOLD: &'static str = "1";

/// Cyan foreground style code.
pub const CYAN: &'static str = "36";

/// Green foreground style code.
pub const GREEN: &'static str = "32";

/// Red foreground style code.
pub const RED: &'static str = "31";

/// Whether styling is enabled for one output stream.
#[derive(Clone, Copy, Debug, PartialEq, Eq, Structural)]
pub struct Style {
    pub enabled: bool,
}

/// `value` wrapped in the escape sequence for `code`.
pub open spec fn spec_styled(code: Seq<char>, value: Seq<char>) -> Seq<char> {
    "\u{1b}["@ + code + "m"@ + value + "\u{1b}[0m"@
}

/// What `apply` yields: the styled text when enabled, the text itself when
/// not.
pub open spec fn spec_apply(s: Style, code: Seq<char>, value: Seq<char>) -> Seq<char> {
    if s.enabled {
        spec_styled(code, value)
    } else {
        value
    }
}

/// The styling decision: a base guess from terminal detection, overridden in
/// turn by the no-color veto, the force flag, a zero color setting, and a
/// dumb terminal.
pub open spec fn spec_resolve(
    base: bool,
    no_color: bool,
    force: bool,
    clicolor: Option<Seq<char>>,
    term: Option<Seq<char>>,
) -> bool {
    let e1 = if no_color {
        false
    } else {
        base
    };
    let e2 = if force {
        true
    } else {
        e1
    };
    let e3 = if clicolor == Some("0"@) {
        false
    } else {
        e2
    };
    if term == Some("dumb"@) {
        false
    } else {
        e3
    }
}

impl Style {
    /// Decide styling from the ambient environment, captured as plain values.
    pub fn resolve(
        base: bool,
        no_color: bool,
        force: bool,
        clicolor: Option<String>,
        term: Option<String>,
    ) -> (r: Style)
        ensures
            r.enabled == spec_resolve(
                base,
                no_color,
                force,
                match clicolor {
                    Some(c) => Some(c@),
                    None => None,
                },
                match term {
                    Some(t) => Some(t@),
                    None => None,
                },
            ),
    {
        let mut enabled = base;
        if no_color {
            enabled = false;
        }
        if force {
            enabled = true;
        }
        match &clicolor {
            Some(c) => {
                if crate::text::str_eq(c.as_str(), "0") {
                    enabled = false;
                }
            },
            None => {},
        }
        match &term {
            Some(t) => {
                if crate::text::str_eq(t.as_str(), "dumb") {
                    enabled = false;
                }
            },
            None => {},
        }
        Style { enabled }
    }

    /// Wrap `value` in the escape sequence for `code` when styling is on.
    pub fn apply(self, code: &str, value: &str) -> (r: String)
        ensures
            r@ == spec_apply(self, code@, value@),
    {
        if self.enabled {
            let mut out = String::new();
            out.append("\u{1b}[");
            out.append(code);
            out.append("m");
            out.append(value);
            out.append("\u{1b}[0m");
            out
        } else {
            let mut out = String::new();
            out.append(value);
            out
        }
    }
}

/// A status line about one worktree: a green verb, the bold branch, the
/// cyan place.
pub open spec fn spec_worktree_line(
    st: Style,
    verb: Seq<char>,
    branch: Seq<char>,
    place: Seq<char>,
) -> Seq<char> {
    spec_apply(st, "32"@, verb) + " worktree "@ + spec_apply(st, "1"@, branch) + " at "@
        + spec_apply(st, "36"@, place)
}

/// Build a status line about one worktree.
pub fn worktree_line(st: Style, verb: &str, branch: &str, place: &str) -> (r: String)
    ensures
        r@ == spec_worktree_line(st, verb@, branch@, place@),
{
    let mut out = st.apply(GREEN, verb);
    out.append(" worktree ");
    let b = st.apply(BOLD, branch);
    out.append(b.as_str());
    out.append(" at ");
    let p = st.apply(CYAN, place);
    out.append(p.as_str());
    proof {
        assert(out@ =~= spec_worktree_line(st, verb@, branch@, place@));
    }
    out
}

/// The status line for a deleted branch.
pub open spec fn spec_deleted_branch_line(st: Style, branch: Seq<char>) -> Seq<char> {
    spec_apply(st, "32"@, "deleted"@) + " branch "@ + spec_apply(st, "1"@, branch)
}

/// Build the status line for a deleted branch.
pub fn deleted_branch_line(st: Style, branch: &str) -> (r: String)
    ensures
        r@ == spec_deleted_branch_line(st, branch@),
{
    let mut out = st.apply(GREEN, "deleted");
    out.append(" branch ");
    let b = st.apply(BOLD, branch);
    out.append(b.as_str());
    proof {
        assert(out@ =~= spec_deleted_branch_line(st, branch@));
    }
    out
}

/// A failure message naming its subject in backquotes, with a diagnostic.
pub open spec fn spec_quoted_failure(
    intro: Seq<char>,
    name: Seq<char>,
    detail: Seq<char>,
) -> Seq<char> {
    intro + "`"@ + name + "`: "@ + detail
}

/// Build a failure message naming its subject in backquotes.
pub fn quoted_failure(intro: &str, name: &str, detail: &str) -> (r: String)
    ensures
        r@ == spec_quoted_failure(intro@, name@, detail@),
{
    let mut out = String::new();
    out.append(intro);
    out.append("`");
    out.append(name);
    out.append("`: ");
    out.append(detail);
    proof {
        assert(out@ =~= spec_quoted_failure(intro@, name@, detail@));
    }
    out
}

/// The lines printed for a failed invocation: the message opens the report,
/// and each cause follows on a line of its own, intermediate causes with a
/// tee connector and the final cause with an ell.
pub open spec fn spec_error_lines(message: Seq<char>, causes: Seq<Seq<char>>) -> Seq<Seq<char>> {
    Seq::new(
        causes.len() + 1,
        |i: int|
            if i == 0 {
                "error: "@ + message
            } else if i < causes.len() {
                "       \u{251c}\u{2500} "@ + causes[i - 1]
            } else {
                "       \u{2514}\u{2500} "@ + causes[i - 1]
            },
    )
}

/// Render an error and its causal chain as the lines to print.
pub fn render_error(message: &str, causes: &Vec<String>) -> (r: Vec<String>)
    ensures
        crate::text::strings_view(r@) == spec_error_lines(message@, crate::text::strings_view(causes@)),
{
    let mut r: Vec<String> = Vec::new();
    let mut first = String::new();
    first.append("error: ");
    first.append(message);
    r.push(first);
    let n = causes.len();
    let mut i: usize = 0;
    while i < n
        invariant
            n == causes@.len(),
            i <= n,
            r@.len() == i + 1,
            forall|j: int|
                0 <= j <= i ==> crate::text::strings_view(r@)[j] == spec_error_lines(
                    message@,
                    crate::text::strings_view(causes@),
                )[j],
        decreases n - i,
    {
        let mut line = String::new();
        if i + 1 < n {
            line.append("       \u{251c}\u{2500} ");
        } else {
            line.append("       \u{2514}\u{2500} ");
        }
        line.append(causes[i].as_str());
        let ghost linev = line@;
        let ghost prev = r@;
        r.push(line);
        proof {
            let spec_ls = spec_error_lines(message@, crate::text::strings_view(causes@));
            assert(causes@[i as int]@ == crate::text::strings_view(causes@)[i as int]);
            assert(linev == spec_ls[i + 1]);
            assert forall|j: int| 0 <= j <= i + 1 implies crate::text::strings_view(r@)[j] == spec_ls[j] by {
                if j <= i {
                    assert(r@[j] == prev[j]);
                    assert(crate::text::strings_view(prev)[j] == spec_ls[j]);
                } else {
                    assert(r@[j]@ == linev);
                }
            }
        }
        i = i + 1;
    }
    proof {
        assert(crate::text::strings_view(r@) =~= spec_error_lines(message@, crate::text::strings_view(causes@)));
    }
    r
}

} // verus!
