//! The worktree record parser: porcelain-style listing text is split into
//! blocks, each block yields a record with a branch label, a short head id and
//! a path, and records whose path is no longer a directory are filtered out.

use vstd::prelude::*;

use crate::text::chars_view;
use crate::text::has_prefix;
use crate::text::lines_of;
use crate::text::spec_blocks;
use crate::text::spec_lines;
use crate::text::split_blocks;
use crate::text::string_from_chars;
use crate::text::strip_prefix_chars;
use crate::text::subvec;
use crate::text::to_chars;

verus! {

/// One live worktree, as reported by the listing command.
#[derive(Debug, PartialEq, Eq)]
pub struct Worktree {
    /// Branch label, or the detached sentinel.
    pub branch: String,
    /// Short commit id of the checked-out head.
    pub head: String,
    /// Absolute path of the worktree directory.
    pub path: String,
}

/// The mathematical content of a record.
pub struct WorktreeView {
    pub branch: Seq<char>,
    pub head: Seq<char>,
    pub path: Seq<char>,
}

impl View for Worktree {
    type V = WorktreeView;

    open spec fn view(&self) -> WorktreeView {
        WorktreeView { branch: self.branch@, head: self.head@, path: self.path@ }
    }
}

/// The views of a sequence of records.
pub open spec fn worktree_views(s: Seq<Worktree>) -> Seq<WorktreeView> {
    Seq::new(s.len(), |i: int| s[i]@)
}

/// Why a block yields no record.
#[derive(Debug, PartialEq, Eq)]
pub enum ParseError {
    /// No line introduces the worktree path.
    MissingPath,
    /// Neither a branch reference nor a detached marker is present.
    MissingBranch,
}

impl ParseError {
    pub fn message(&self) -> (r: String)
        ensures
            self is MissingPath ==> r@ == "missing worktree path"@,
            self is MissingBranch ==> r@ == "missing branch"@,
    {
        match self {
            ParseError::MissingPath => string_from_chars(&to_chars("missing worktree path")),
            ParseError::MissingBranch => string_from_chars(&to_chars("missing branch")),
        }
    }
}

// ---------------------------------------------------------------------------
// The parse, as a function of the listing text
// ---------------------------------------------------------------------------

/// The first line of `ls` opening with `p`, stripped of that prefix.
pub open spec fn first_stripped(ls: Seq<Seq<char>>, p: Seq<char>) -> Option<Seq<char>>
    decreases ls.len(),
{
    if ls.len() == 0 {
        None
    } else if has_prefix(ls[0], p) {
        Some(ls[0].subrange(p.len() as int, ls[0].len() as int))
    } else {
        first_stripped(ls.drop_first(), p)
    }
}

/// What a single line says about the branch: the text after the branch
/// reference prefix, the detached sentinel for a detached marker, or nothing.
pub open spec fn line_branch(l: Seq<char>) -> Option<Seq<char>> {
    if has_prefix(l, "branch refs/heads/"@) {
        Some(l.subrange("branch refs/heads/"@.len() as int, l.len() as int))
    } else if l == "detached"@ {
        Some("(detached)"@)
    } else {
        None
    }
}

/// The first branch indication among the lines.
pub open spec fn first_branch(ls: Seq<Seq<char>>) -> Option<Seq<char>>
    decreases ls.len(),
{
    if ls.len() == 0 {
        None
    } else if line_branch(ls[0]) is Some {
        line_branch(ls[0])
    } else {
        first_branch(ls.drop_first())
    }
}

/// The path a block introduces, if any.
pub open spec fn block_path(b: Seq<char>) -> Option<Seq<char>> {
    first_stripped(spec_lines(b), "worktree "@)
}

/// The branch a block resolves to, if any.
pub open spec fn block_branch(b: Seq<char>) -> Option<Seq<char>> {
    first_branch(spec_lines(b))
}

/// The short head id of a block: the first seven characters of the reported
/// commit id, or the literal `unknown` when no head line is present.
pub open spec fn block_head(b: Seq<char>) -> Seq<char> {
    match first_stripped(spec_lines(b), "HEAD "@) {
        Some(h) => if h.len() <= 7 {
            h
        } else {
            h.subrange(0, 7)
        },
        None => "unknown"@,
    }
}

/// The record a block yields: a path line and a branch indication are
/// mandatory; a block lacking either yields nothing.
pub open spec fn spec_parse_block(b: Seq<char>) -> Option<WorktreeView> {
    match block_path(b) {
        None => None,
        Some(p) => match block_branch(b) {
            None => None,
            Some(br) => Some(WorktreeView { branch: br, head: block_head(b), path: p }),
        },
    }
}

/// The records of a sequence of blocks, in block order; blocks that yield no
/// record are dropped.
pub open spec fn parse_blocks(bs: Seq<Seq<char>>) -> Seq<WorktreeView>
    decreases bs.len(),
{
    if bs.len() == 0 {
        Seq::empty()
    } else {
        match spec_parse_block(bs[0]) {
            Some(w) => seq![w] + parse_blocks(bs.drop_first()),
            None => parse_blocks(bs.drop_first()),
        }
    }
}

/// All records of a listing, before the directory filter.
pub open spec fn spec_parse_listing(s: Seq<char>) -> Seq<WorktreeView> {
    parse_blocks(spec_blocks(s))
}

// ---------------------------------------------------------------------------
// Lemmas about the parse
// ---------------------------------------------------------------------------

proof fn lemma_first_stripped_at(ls: Seq<Seq<char>>, p: Seq<char>, i: int)
    requires
        0 <= i <= ls.len(),
        forall|j: int| 0 <= j < i ==> !has_prefix(ls[j], p),
        i == ls.len() || has_prefix(ls[i], p),
    ensures
        i < ls.len() ==> first_stripped(ls, p) == Some(
            ls[i].subrange(p.len() as int, ls[i].len() as int),
        ),
        i == ls.len() ==> first_stripped(ls, p) is None,
    decreases ls.len(),
{
    if ls.len() > 0 && !has_prefix(ls[0], p) {
        assert(forall|j: int| 0 <= j < ls.len() - 1 ==> ls.drop_first()[j] == ls[j + 1]);
        lemma_first_stripped_at(ls.drop_first(), p, i - 1);
    }
}

proof fn lemma_first_branch_at(ls: Seq<Seq<char>>, i: int)
    requires
        0 <= i <= ls.len(),
        forall|j: int| 0 <= j < i ==> line_branch(ls[j]) is None,
        i == ls.len() || line_branch(ls[i]) is Some,
    ensures
        i < ls.len() ==> first_branch(ls) == line_branch(ls[i]),
        i == ls.len() ==> first_branch(ls) is None,
    decreases ls.len(),
{
    if ls.len() > 0 && line_branch(ls[0]) is None {
        assert(forall|j: int| 0 <= j < ls.len() - 1 ==> ls.drop_first()[j] == ls[j + 1]);
        lemma_first_branch_at(ls.drop_first(), i - 1);
    }
}

/// In a block whose first branch indication is a named branch reference, the
/// parsed branch is exactly the text after that prefix.
pub proof fn lemma_branch_from_named_line(b: Seq<char>, i: int)
    requires
        0 <= i < spec_lines(b).len(),
        forall|j: int| 0 <= j < i ==> line_branch(spec_lines(b)[j]) is None,
        has_prefix(spec_lines(b)[i], "branch refs/heads/"@),
    ensures
        block_branch(b) == Some(
            spec_lines(b)[i].subrange("branch refs/heads/"@.len() as int, spec_lines(b)[i].len() as int),
        ),
{
    lemma_first_branch_at(spec_lines(b), i);
}

/// In a block whose first branch indication is the detached marker, the parsed
/// branch is the detached sentinel.
pub proof fn lemma_branch_from_detached_line(b: Seq<char>, i: int)
    requires
        0 <= i < spec_lines(b).len(),
        forall|j: int| 0 <= j < i ==> line_branch(spec_lines(b)[j]) is None,
        spec_lines(b)[i] == "detached"@,
        !has_prefix(spec_lines(b)[i], "branch refs/heads/"@),
    ensures
        block_branch(b) == Some("(detached)"@),
{
    lemma_first_branch_at(spec_lines(b), i);
}

/// A block with neither a path line nor a branch indication yields no record,
/// and a listing is parsed without it: dropping such a block is not an error.
pub proof fn lemma_bad_block_dropped(bs: Seq<Seq<char>>, i: int)
    requires
        0 <= i < bs.len(),
        spec_parse_block(bs[i]) is None,
    ensures
        parse_blocks(bs) == parse_blocks(bs.remove(i)),
    decreases bs.len(),
{
    if i == 0 {
        assert(bs.remove(0) =~= bs.drop_first());
    } else {
        lemma_bad_block_dropped(bs.drop_first(), i - 1);
        assert(bs.remove(i).drop_first() =~= bs.drop_first().remove(i - 1));
        assert(bs.remove(i)[0] == bs[0]);
    }
}

/// Parsing is compositional: the records of one listing followed by another
/// are the records of the first followed by those of the second. In
/// particular the parse preserves block order.
pub proof fn lemma_parse_append(bs1: Seq<Seq<char>>, bs2: Seq<Seq<char>>)
    ensures
        parse_blocks(bs1 + bs2) == parse_blocks(bs1) + parse_blocks(bs2),
    decreases bs1.len(),
{
    if bs1.len() == 0 {
        assert(bs1 + bs2 =~= bs2);
        assert(parse_blocks(bs1) + parse_blocks(bs2) =~= parse_blocks(bs2));
    } else {
        lemma_parse_append(bs1.drop_first(), bs2);
        assert((bs1 + bs2).drop_first() =~= bs1.drop_first() + bs2);
        assert((bs1 + bs2)[0] == bs1[0]);
        match spec_parse_block(bs1[0]) {
            Some(w) => {
                assert(seq![w] + (parse_blocks(bs1.drop_first()) + parse_blocks(bs2)) =~= (
                seq![w] + parse_blocks(bs1.drop_first())) + parse_blocks(bs2));
            },
            None => {},
        }
    }
}

/// The parse is a pure function of the listing text: equal inputs yield equal
/// record sequences, so parsing twice is parsing once.
pub proof fn lemma_parse_deterministic(a: Seq<char>, b: Seq<char>)
    requires
        a == b,
    ensures
        spec_parse_listing(a) == spec_parse_listing(b),
{
}

// ---------------------------------------------------------------------------
// Executable parsing
// ---------------------------------------------------------------------------

/// The `Some` options among line results, as option views.
pub open spec fn opt_chars(o: Option<Vec<char>>) -> Option<Seq<char>> {
    match o {
        Some(v) => Some(v@),
        None => None,
    }
}

/// The first line of `ls` opening with `p`, stripped of that prefix.
fn find_stripped(ls: &Vec<Vec<char>>, p: &Vec<char>) -> (r: Option<Vec<char>>)
    ensures
        opt_chars(r) == first_stripped(chars_view(ls@), p@),
{
    let ghost lsv = chars_view(ls@);
    let n = ls.len();
    let mut i: usize = 0;
    while i < n
        invariant
            n == ls@.len(),
            lsv == chars_view(ls@),
            i <= n,
            forall|j: int| 0 <= j < i ==> !has_prefix(lsv[j], p@),
        decreases n - i,
    {
        proof {
            assert(ls@[i as int]@ == lsv[i as int]);
        }
        match strip_prefix_chars(&ls[i], p) {
            Some(rest) => {
                proof {
                    lemma_first_stripped_at(lsv, p@, i as int);
                }
                return Some(rest);
            },
            None => {},
        }
        i = i + 1;
    }
    proof {
        lemma_first_stripped_at(lsv, p@, lsv.len() as int);
    }
    None
}

/// The first branch indication among the lines.
fn find_branch(ls: &Vec<Vec<char>>) -> (r: Option<Vec<char>>)
    ensures
        opt_chars(r) == first_branch(chars_view(ls@)),
{
    let ghost lsv = chars_view(ls@);
    let br_prefix = to_chars("branch refs/heads/");
    let detached_line = to_chars("detached");
    let sentinel = to_chars("(detached)");
    let n = ls.len();
    let mut i: usize = 0;
    while i < n
        invariant
            n == ls@.len(),
            lsv == chars_view(ls@),
            i <= n,
            forall|j: int| 0 <= j < i ==> line_branch(lsv[j]) is None,
            br_prefix@ == "branch refs/heads/"@,
            detached_line@ == "detached"@,
            sentinel@ == "(detached)"@,
        decreases n - i,
    {
        proof {
            assert(ls@[i as int]@ == lsv[i as int]);
        }
        match strip_prefix_chars(&ls[i], &br_prefix) {
            Some(rest) => {
                proof {
                    lemma_first_branch_at(lsv, i as int);
                }
                return Some(rest);
            },
            None => {
                if crate::text::chars_eq(&ls[i], &detached_line) {
                    proof {
                        assert(line_branch(lsv[i as int]) == Some("(detached)"@));
                        lemma_first_branch_at(lsv, i as int);
                        assert(sentinel@.subrange(0, sentinel@.len() as int) =~= sentinel@);
                    }
                    return Some(subvec(&sentinel, 0, sentinel.len()));
                }
            },
        }
        i = i + 1;
    }
    proof {
        lemma_first_branch_at(lsv, lsv.len() as int);
    }
    None
}

/// The path, branch and head fields a block yields.
fn block_fields(b: &Vec<char>) -> (r: (Option<Vec<char>>, Option<Vec<char>>, Vec<char>))
    ensures
        opt_chars(r.0) == block_path(b@),
        opt_chars(r.1) == block_branch(b@),
        r.2@ == block_head(b@),
{
    let ls = lines_of(b);
    let wt_prefix = to_chars("worktree ");
    let path = find_stripped(&ls, &wt_prefix);
    let branch = find_branch(&ls);
    let head_prefix = to_chars("HEAD ");
    let head_chars = match find_stripped(&ls, &head_prefix) {
        Some(h) => {
            if h.len() <= 7 {
                h
            } else {
                subvec(&h, 0, 7)
            }
        },
        None => to_chars("unknown"),
    };
    (path, branch, head_chars)
}

impl Worktree {
    /// Parse one listing block into a record.
    pub fn try_from(value: &str) -> (r: Result<Worktree, ParseError>)
        ensures
            match r {
                Ok(w) => spec_parse_block(value@) == Some(w@),
                Err(e) => {
                    &&& spec_parse_block(value@) is None
                    &&& (e is MissingPath <==> block_path(value@) is None)
                    &&& (e is MissingBranch <==> block_path(value@) is Some && block_branch(
                        value@,
                    ) is None)
                },
            },
    {
        let chars = to_chars(value);
        let (path, branch, head) = block_fields(&chars);
        match path {
            None => Err(ParseError::MissingPath),
            Some(p) => match branch {
                None => Err(ParseError::MissingBranch),
                Some(b) => Ok(
                    Worktree {
                        branch: string_from_chars(&b),
                        head: string_from_chars(&head),
                        path: string_from_chars(&p),
                    },
                ),
            },
        }
    }
}

/// Relies on `std::path::Path::is_dir`: asks the filesystem whether `path`
/// currently names a directory. The answer depends on the state of the disk,
/// so nothing is promised of it.
#[verifier::external_body]
fn path_is_dir(path: &String) -> bool {
    std::path::Path::new(path.as_str()).is_dir()
}

/// `ws` restricted to the positions whose flag is set, in order.
pub open spec fn spec_filter_live(ws: Seq<WorktreeView>, live: Seq<bool>) -> Seq<WorktreeView>
    decreases ws.len(),
{
    if ws.len() == 0 {
        Seq::empty()
    } else {
        let rest = spec_filter_live(ws.drop_first(), live.drop_first());
        if live.len() > 0 && live[0] {
            seq![ws[0]] + rest
        } else {
            rest
        }
    }
}

proof fn lemma_filter_live_snoc(ws: Seq<WorktreeView>, live: Seq<bool>, w: WorktreeView, b: bool)
    requires
        ws.len() == live.len(),
    ensures
        spec_filter_live(ws.push(w), live.push(b)) == if b {
            spec_filter_live(ws, live).push(w)
        } else {
            spec_filter_live(ws, live)
        },
    decreases ws.len(),
{
    if ws.len() == 0 {
        reveal_with_fuel(spec_filter_live, 3);
        assert(ws.push(w).drop_first() =~= Seq::<WorktreeView>::empty());
        assert(live.push(b).drop_first() =~= Seq::<bool>::empty());
        if b {
            assert(spec_filter_live(ws.push(w), live.push(b)) =~= spec_filter_live(
                ws,
                live,
            ).push(w));
        }
    } else {
        assert(ws.push(w).drop_first() =~= ws.drop_first().push(w));
        assert(live.push(b).drop_first() =~= live.drop_first().push(b));
        lemma_filter_live_snoc(ws.drop_first(), live.drop_first(), w, b);
        assert(ws.push(w)[0] == ws[0]);
        assert(live.push(b)[0] == live[0]);
        if live[0] {
            if b {
                assert(seq![ws[0]] + spec_filter_live(ws.drop_first(), live.drop_first()).push(w)
                    =~= (seq![ws[0]] + spec_filter_live(ws.drop_first(), live.drop_first())).push(
                    w,
                ));
            }
        }
    }
}

/// All records of the listing, in order, before any directory check.
pub fn parse_records(input: &str) -> (r: Vec<Worktree>)
    ensures
        worktree_views(r@) == spec_parse_listing(input@),
{
    let chars = to_chars(input);
    let blocks = split_blocks(&chars);
    let ghost bsv = spec_blocks(input@);
    let n = blocks.len();
    let mut r: Vec<Worktree> = Vec::new();
    let mut i: usize = 0;
    proof {
        assert(bsv.subrange(0, 0) =~= Seq::<Seq<char>>::empty());
        assert(worktree_views(r@) =~= parse_blocks(bsv.subrange(0, 0)));
    }
    while i < n
        invariant
            n == blocks@.len(),
            chars_view(blocks@) == bsv,
            i <= n,
            worktree_views(r@) == parse_blocks(bsv.subrange(0, i as int)),
        decreases n - i,
    {
        let ghost prev = worktree_views(r@);
        proof {
            assert(blocks@[i as int]@ == bsv[i as int]);
        }
        let (path, branch, head) = block_fields(&blocks[i]);
        match (path, branch) {
            (Some(p), Some(b)) => {
                let w = Worktree {
                    branch: string_from_chars(&b),
                    head: string_from_chars(&head),
                    path: string_from_chars(&p),
                };
                proof {
                    assert(spec_parse_block(bsv[i as int]) == Some(w@));
                }
                r.push(w);
                proof {
                    assert(worktree_views(r@) =~= prev.push(
                        spec_parse_block(bsv[i as int])->Some_0,
                    ));
                }
            },
            _ => {
                proof {
                    assert(spec_parse_block(bsv[i as int]) is None);
                }
            },
        }
        proof {
            reveal_with_fuel(parse_blocks, 3);
            lemma_parse_append(bsv.subrange(0, i as int), seq![bsv[i as int]]);
            assert(bsv.subrange(0, i as int) + seq![bsv[i as int]] =~= bsv.subrange(
                0,
                i as int + 1,
            ));
            assert(seq![bsv[i as int]].drop_first() =~= Seq::<Seq<char>>::empty());
            match spec_parse_block(bsv[i as int]) {
                Some(w) => {
                    assert(parse_blocks(seq![bsv[i as int]]) =~= seq![w]);
                    assert(prev.push(w) =~= prev + seq![w]);
                },
                None => {
                    assert(parse_blocks(seq![bsv[i as int]]) =~= Seq::<WorktreeView>::empty());
                    assert(prev + Seq::<WorktreeView>::empty() =~= prev);
                },
            }
        }
        i = i + 1;
    }
    proof {
        assert(bsv.subrange(0, n as int) =~= bsv);
    }
    r
}

/// Whether `ws` is a possible outcome of parsing `s` and filtering the
/// records by directory liveness: the parse restricted by some set of flags.
pub open spec fn parse_possible(s: Seq<char>, ws: Seq<WorktreeView>) -> bool {
    exists|live: Seq<bool>|
        live.len() == spec_parse_listing(s).len() && ws == spec_filter_live(
            spec_parse_listing(s),
            live,
        )
}

/// The records of the listing whose path is currently a directory, in listing
/// order. Which records stay depends on the state of the disk; what is
/// promised is that the result is the parse restricted by some set of flags.
pub fn parse_worktrees(input: &str) -> (r: Vec<Worktree>)
    ensures
        parse_possible(input@, worktree_views(r@)),
{
    let all = parse_records(input);
    let ghost wsv = spec_parse_listing(input@);
    let n = all.len();
    let mut r: Vec<Worktree> = Vec::new();
    let ghost mut live: Seq<bool> = Seq::empty();
    let mut i: usize = 0;
    proof {
        assert(worktree_views(all@).subrange(0, 0) =~= Seq::<WorktreeView>::empty());
        assert(worktree_views(r@) =~= spec_filter_live(wsv.subrange(0, 0), live));
    }
    while i < n
        invariant
            n == all@.len(),
            worktree_views(all@) == wsv,
            i <= n,
            live.len() == i,
            worktree_views(r@) == spec_filter_live(wsv.subrange(0, i as int), live),
        decreases n - i,
    {
        let ghost prev = worktree_views(r@);
        let keep = path_is_dir(&all[i].path);
        if keep {
            let w = Worktree {
                branch: all[i].branch.clone(),
                head: all[i].head.clone(),
                path: all[i].path.clone(),
            };
            proof {
                assert(w@ == wsv[i as int]);
            }
            r.push(w);
            proof {
                assert(worktree_views(r@) =~= prev.push(wsv[i as int]));
            }
        }
        proof {
            lemma_filter_live_snoc(wsv.subrange(0, i as int), live, wsv[i as int], keep);
            assert(wsv.subrange(0, i as int).push(wsv[i as int]) =~= wsv.subrange(
                0,
                i as int + 1,
            ));
            live = live.push(keep);
        }
        i = i + 1;
    }
    proof {
        assert(wsv.subrange(0, n as int) =~= wsv);
    }
    r
}

} // verus!
