//! What the answers of `git` say about a repository.

use vstd::prelude::*;
use crate::process::CommandOutput;
use crate::text::{lines_of, replace_all, replaced, split_lines, trim, trimmed, views};

verus! {

/// The branch checked out, and the branch that changes are compared against.
#[derive(Debug)]
pub struct RepositoryMetadata {
    pub current_branch: String,
    pub default_branch: String,
}

/// The prefix of the remote's symbolic reference to its default branch.
pub open spec fn remote_head_prefix() -> Seq<char> {
    "refs/remotes/origin/"@
}

/// The current branch, from what `git rev-parse --abbrev-ref HEAD` printed.
pub open spec fn current_branch_of(head_stdout: Seq<char>) -> Seq<char> {
    trimmed(head_stdout)
}

/// The default branch: the branch that the remote's `HEAD` names where
/// `git symbolic-ref refs/remotes/origin/HEAD` succeeded, else the current
/// branch.
pub open spec fn default_branch_of(
    current: Seq<char>,
    symbolic_ref_code: i32,
    symbolic_ref_stdout: Seq<char>,
) -> Seq<char> {
    if symbolic_ref_code == 0 {
        replaced(trimmed(symbolic_ref_stdout), remote_head_prefix(), seq![])
    } else {
        current
    }
}

/// The metadata of a repository, from the output of the current-branch
/// query and of the remote default-branch query.
pub fn metadata_from_outputs(head: &CommandOutput, symbolic_ref: &CommandOutput) -> (r:
    RepositoryMetadata)
    ensures
        r.current_branch@ == current_branch_of(head.stdout@),
        r.default_branch@ == default_branch_of(
            current_branch_of(head.stdout@),
            symbolic_ref.exit_code,
            symbolic_ref.stdout@,
        ),
{
    let current_branch = trim(head.stdout.as_str());
    let default_branch = if symbolic_ref.succeeded() {
        let name = trim(symbolic_ref.stdout.as_str());
        proof {
            reveal_strlit("refs/remotes/origin/");
            reveal_strlit("");
        }
        assert(""@ =~= Seq::<char>::empty());
        replace_all(name.as_str(), "refs/remotes/origin/", "")
    } else {
        current_branch.clone()
    };
    RepositoryMetadata { current_branch, default_branch }
}

/// Where the remote names no default branch, resolution takes the current
/// branch as the default one.
pub proof fn default_falls_back_to_current(head_stdout: Seq<char>, code: i32, stdout: Seq<char>)
    requires
        code != 0,
    ensures
        default_branch_of(current_branch_of(head_stdout), code, stdout) == current_branch_of(
            head_stdout,
        ),
{
}

/// The files that `git diff --name-only` listed, in its order.
pub fn get_diff_file_names(diff_stdout: &str) -> (r: Vec<String>)
    ensures
        views(r@) == lines_of(diff_stdout@),
{
    split_lines(diff_stdout)
}

/// Whether `git ls-remote --heads` found the branch on the remote: it
/// printed something besides white space.
pub fn branch_on_remote(ls_remote_stdout: &str) -> (r: bool)
    ensures
        r == (trimmed(ls_remote_stdout@).len() > 0),
{
    let t = trim(ls_remote_stdout);
    t.as_str().unicode_len() > 0
}

/// An argument of a `git` command with `@default` and `@current` replaced by
/// the default and the current branch, in that order.
pub open spec fn expanded_arg(arg: Seq<char>, default: Seq<char>, current: Seq<char>) -> Seq<char> {
    replaced(replaced(arg, "@default"@, default), "@current"@, current)
}

/// The arguments of a `git` command with the branch macros expanded.
pub fn expand_branch_macros(args: &Vec<String>, metadata: &RepositoryMetadata) -> (r: Vec<String>)
    ensures
        r@.len() == args@.len(),
        forall|i: int|
            0 <= i < args@.len() ==> #[trigger] r@[i]@ == expanded_arg(
                args@[i]@,
                metadata.default_branch@,
                metadata.current_branch@,
            ),
{
    let mut out: Vec<String> = Vec::new();
    let mut i: usize = 0;
    while i < args.len()
        invariant
            i <= args@.len(),
            out@.len() == i,
            forall|k: int|
                0 <= k < i ==> #[trigger] out@[k]@ == expanded_arg(
                    args@[k]@,
                    metadata.default_branch@,
                    metadata.current_branch@,
                ),
        decreases args@.len() - i,
    {
        proof {
            reveal_strlit("@default");
            reveal_strlit("@current");
        }
        let a = replace_all(args[i].as_str(), "@default", metadata.default_branch.as_str());
        let b = replace_all(a.as_str(), "@current", metadata.current_branch.as_str());
        out.push(b);
        i = i + 1;
    }
    out
}

} // verus!
