//! The naming policy: a new worktree lives beside the primary worktree, in a
//! directory named after the primary's final path component and the branch,
//! with every slash in the branch replaced by a dash.

use vstd::prelude::*;

use crate::text::lemma_rfind_char;
use crate::text::push_all;
use crate::text::replace_slash;
use crate::text::rfind;
use crate::text::rfind_char;
use crate::text::spec_dashed;
use crate::text::string_from_chars;
use crate::text::subvec;
use crate::text::to_chars;

verus! {

/// The derived name and placement of a new worktree directory.
#[derive(Debug, PartialEq, Eq)]
pub struct NamingResult {
    /// `<project>.<branch with slashes dashed>`.
    pub directory_name: String,
    /// The directory name joined onto the primary worktree's parent.
    pub target_path: String,
}

/// Why no name can be derived.
#[derive(Debug, PartialEq, Eq)]
pub enum NamingError {
    /// The primary root ends in a separator or is empty: no final component.
    NoFinalComponent,
}

/// The text after the last slash: the path's final component.
pub open spec fn spec_final_component(p: Seq<char>) -> Seq<char> {
    p.subrange(rfind_char(p, '/') + 1, p.len() as int)
}

/// The text before the last slash: everything for a slashless path, the
/// root for a path whose only slash leads, the prefix otherwise.
pub open spec fn spec_parent(p: Seq<char>) -> Seq<char> {
    let i = rfind_char(p, '/');
    if i < 0 {
        Seq::empty()
    } else if i == 0 {
        seq!['/']
    } else {
        p.subrange(0, i)
    }
}

/// `parent` extended by one component.
pub open spec fn spec_join(parent: Seq<char>, name: Seq<char>) -> Seq<char> {
    if parent.len() == 0 {
        name
    } else if parent.last() == '/' {
        parent + name
    } else {
        parent + seq!['/'] + name
    }
}

/// The derived directory name: project, a dot, and the dashed branch.
pub open spec fn spec_dir_name(project: Seq<char>, branch: Seq<char>) -> Seq<char> {
    project + seq!['.'] + spec_dashed(branch)
}

/// The final component of `p`, or nothing if it is empty.
pub fn final_component(p: &str) -> (r: Option<String>)
    ensures
        spec_final_component(p@).len() == 0 <==> r is None,
        r is Some ==> r->Some_0@ == spec_final_component(p@),
{
    let chars = to_chars(p);
    proof {
        lemma_rfind_char(p@, '/');
    }
    let start = match rfind(&chars, '/') {
        Some(i) => i + 1,
        None => 0,
    };
    if start == chars.len() {
        None
    } else {
        Some(string_from_chars(&subvec(&chars, start, chars.len())))
    }
}

/// The parent directory of `p`.
pub fn parent_dir(p: &str) -> (r: String)
    ensures
        r@ == spec_parent(p@),
{
    let chars = to_chars(p);
    proof {
        lemma_rfind_char(p@, '/');
    }
    match rfind(&chars, '/') {
        Some(i) => {
            if i == 0 {
                let mut root: Vec<char> = Vec::new();
                root.push('/');
                proof {
                    assert(root@ =~= seq!['/']);
                }
                string_from_chars(&root)
            } else {
                string_from_chars(&subvec(&chars, 0, i))
            }
        },
        None => string_from_chars(&Vec::new()),
    }
}

/// Join a directory name onto a parent path.
pub fn join_path(parent: &str, name: &str) -> (r: String)
    ensures
        r@ == spec_join(parent@, name@),
{
    let pc = to_chars(parent);
    let nc = to_chars(name);
    if pc.len() == 0 {
        string_from_chars(&nc)
    } else if pc[pc.len() - 1] == '/' {
        let mut out = pc;
        push_all(&mut out, &nc);
        string_from_chars(&out)
    } else {
        let mut out = pc;
        out.push('/');
        push_all(&mut out, &nc);
        proof {
            assert(out@ =~= parent@ + seq!['/'] + name@);
        }
        string_from_chars(&out)
    }
}

/// The directory name for a worktree of `branch` under `project`.
pub fn dir_name(project: &str, branch: &str) -> (r: String)
    ensures
        r@ == spec_dir_name(project@, branch@),
        forall|i: int| 0 <= i < r@.len() ==> r@[i] != '/' || project@.contains('/'),
{
    let mut out = to_chars(project);
    out.push('.');
    let dashed = replace_slash(&to_chars(branch));
    push_all(&mut out, &dashed);
    proof {
        assert(out@ =~= spec_dir_name(project@, branch@));
        assert(forall|i: int|
            0 <= i < out@.len() && out@[i] == '/' ==> 0 <= i < project@.len() && project@[i]
                == '/');
    }
    string_from_chars(&out)
}

/// Derive the directory name and target path for a new worktree of `branch`,
/// placed beside the primary worktree rooted at `primary_root`.
///
/// No slash ever appears in the derived directory name: the project part is
/// the text after the primary root's last slash, and every slash of the
/// branch is replaced by a dash.
pub fn derive(primary_root: &str, branch: &str) -> (r: Result<NamingResult, NamingError>)
    ensures
        match r {
            Ok(n) => {
                &&& spec_final_component(primary_root@).len() > 0
                &&& n.directory_name@ == spec_dir_name(
                    spec_final_component(primary_root@),
                    branch@,
                )
                &&& n.target_path@ == spec_join(spec_parent(primary_root@), n.directory_name@)
                &&& forall|i: int| 0 <= i < n.directory_name@.len() ==> n.directory_name@[i] != '/'
            },
            Err(e) => {
                &&& spec_final_component(primary_root@).len() == 0
                &&& e is NoFinalComponent
            },
        },
{
    match final_component(primary_root) {
        None => Err(NamingError::NoFinalComponent),
        Some(project) => {
            let name = dir_name(project.as_str(), branch);
            let parent = parent_dir(primary_root);
            let target = join_path(parent.as_str(), name.as_str());
            proof {
                lemma_rfind_char(primary_root@, '/');
                assert(forall|i: int|
                    0 <= i < project@.len() ==> project@[i] == primary_root@[rfind_char(
                        primary_root@,
                        '/',
                    ) + 1 + i]);
                assert(!project@.contains('/')) by {
                    if project@.contains('/') {
                        let k = choose|k: int| 0 <= k < project@.len() && project@[k] == '/';
                        assert(primary_root@[rfind_char(primary_root@, '/') + 1 + k] == '/');
                    }
                }
                assert(forall|i: int| 0 <= i < name@.len() ==> name@[i] != '/');
            }
            Ok(NamingResult { directory_name: name, target_path: target })
        },
    }
}

} // verus!
