//! The operations that a batch runs in each repository, as the argument
//! vectors of the processes to start.

use vstd::prelude::*;
use crate::git::{RepositoryMetadata, expand_branch_macros, expanded_arg};

verus! {

/// The words joined by single spaces.
pub open spec fn spaced(words: Seq<Seq<char>>) -> Seq<char>
    decreases words.len(),
{
    if words.len() == 0 {
        seq![]
    } else if words.len() == 1 {
        words[0]
    } else {
        spaced(words.drop_last()) + seq![' '] + words.last()
    }
}

/// The words of a command joined by single spaces into one command line.
pub fn command_line(words: &Vec<String>) -> (r: String)
    ensures
        r@ == spaced(crate::text::views(words@)),
{
    let mut out = String::new();
    let mut i: usize = 0;
    while i < words.len()
        invariant
            i <= words.len(),
            out@ == spaced(crate::text::views(words@.subrange(0, i as int))),
        decreases words.len() - i,
    {
        let ghost next = crate::text::views(words@.subrange(0, i + 1));
        assert(next.drop_last() =~= crate::text::views(words@.subrange(0, i as int)));
        assert(next.last() == words@[i as int]@);
        let ghost old_out = out@;
        proof {
            reveal_strlit(" ");
        }
        assert(" "@ =~= seq![' ']);
        if i > 0 {
            out.append(" ");
        }
        out.append(words[i].as_str());
        if i > 0 {
            assert(out@ =~= old_out + seq![' '] + next.last());
        } else {
            assert(out@ =~= next.last());
            assert(next[0] == next.last());
        }
        i = i + 1;
    }
    assert(words@.subrange(0, words.len() as int) =~= words@);
    out
}

/// The process that runs a shell command line: `sh -c <line>`.
pub fn shell_argv(words: &Vec<String>) -> (r: Vec<String>)
    ensures
        r@.len() == 3,
        r@[0]@ == "sh"@,
        r@[1]@ == "-c"@,
        r@[2]@ == spaced(crate::text::views(words@)),
{
    let mut argv: Vec<String> = Vec::new();
    argv.push(String::from_str("sh"));
    argv.push(String::from_str("-c"));
    argv.push(command_line(words));
    argv
}

/// The process that runs a `git` command in a repository, with `@default`
/// and `@current` in its arguments replaced by the repository's branches.
pub fn git_argv(args: &Vec<String>, metadata: &RepositoryMetadata) -> (r: Vec<String>)
    ensures
        r@.len() == args@.len() + 1,
        r@[0]@ == "git"@,
        forall|i: int|
            0 <= i < args@.len() ==> #[trigger] r@[i + 1]@ == expanded_arg(
                args@[i]@,
                metadata.default_branch@,
                metadata.current_branch@,
            ),
{
    let expanded = expand_branch_macros(args, metadata);
    let mut argv: Vec<String> = Vec::new();
    argv.push(String::from_str("git"));
    let mut i: usize = 0;
    while i < expanded.len()
        invariant
            i <= expanded@.len(),
            expanded@.len() == args@.len(),
            argv@.len() == i + 1,
            argv@[0]@ == "git"@,
            forall|k: int| 0 <= k < i ==> #[trigger] argv@[k + 1]@ == expanded@[k]@,
        decreases expanded@.len() - i,
    {
        argv.push(expanded[i].clone());
        i = i + 1;
    }
    assert forall|k: int| 0 <= k < args@.len() implies #[trigger] argv@[k + 1]@ == expanded_arg(
        args@[k]@,
        metadata.default_branch@,
        metadata.current_branch@,
    ) by {
        assert(argv@[k + 1]@ == expanded@[k]@);
    }
    argv
}

} // verus!
