//! The parts of working with GitHub that are decisions rather than
//! requests: which repositories to take, when to ask for another page, and
//! where a repository is cloned from.

use vstd::prelude::*;
use crate::error::GmuxError;
use crate::fanout::{compile_filter, pattern_matches, pattern_view};

verus! {

/// A repository of an organisation or a user, as GitHub lists it.
#[derive(Debug)]
pub struct Repository {
    pub name: String,
    pub private: bool,
}

/// The names of the repositories whose name the filter matches, in order.
pub open spec fn names_kept(repos: Seq<Repository>, filter: Option<Seq<char>>) -> Seq<Seq<char>>
    decreases repos.len(),
{
    if repos.len() == 0 {
        seq![]
    } else {
        let rest = names_kept(repos.drop_last(), filter);
        let keep = match filter {
            Some(p) => pattern_matches(p, repos.last().name@),
            None => true,
        };
        if keep {
            rest.push(repos.last().name@)
        } else {
            rest
        }
    }
}

/// The repositories whose name the filter, where there is one, matches,
/// each with its privacy, in their order; a pattern that does not compile is
/// a validation error.
pub fn filter_repositories(repos: &Vec<Repository>, filter: Option<&str>) -> (r: Result<
    Vec<Repository>,
    GmuxError,
>)
    ensures
        r is Ok <==> (filter matches Some(p) ==> crate::fanout::pattern_compiles(p@)),
        r matches Ok(kept) ==> kept@.map_values(|x: Repository| x.name@) == names_kept(
            repos@,
            pattern_view(filter),
        ),
        r matches Ok(kept) ==> forall|i: int|
            0 <= i < kept@.len() ==> exists|j: int|
                0 <= j < repos@.len() && #[trigger] kept@[i].name@ == repos@[j].name@
                    && kept@[i].private == repos@[j].private,
        r is Err ==> r matches Err(GmuxError::Validation(_)),
{
    let compiled = match filter {
        Some(p) => match compile_filter(p) {
            Ok(f) => Some(f),
            Err(e) => return Err(e),
        },
        None => None,
    };
    let mut out: Vec<Repository> = Vec::new();
    let mut i: usize = 0;
    assert(out@.map_values(|x: Repository| x.name@) =~= Seq::<Seq<char>>::empty());
    while i < repos.len()
        invariant
            i <= repos@.len(),
            filter is None ==> compiled is None,
            filter matches Some(p) ==> (compiled matches Some(f) && f.pattern() == p@),
            out@.map_values(|x: Repository| x.name@) == names_kept(
                repos@.subrange(0, i as int),
                pattern_view(filter),
            ),
            forall|k: int|
                0 <= k < out@.len() ==> exists|j: int|
                    0 <= j < repos@.len() && #[trigger] out@[k].name@ == repos@[j].name@
                        && out@[k].private == repos@[j].private,
        decreases repos@.len() - i,
    {
        let repo = &repos[i];
        let keep = match &compiled {
            Some(f) => f.is_match(repo.name.as_str()),
            None => true,
        };
        let ghost before = out@.map_values(|x: Repository| x.name@);
        assert(repos@.subrange(0, i + 1).drop_last() =~= repos@.subrange(0, i as int));
        assert(repos@.subrange(0, i + 1).last() == repos@[i as int]);
        if keep {
            let copy = Repository { name: repo.name.clone(), private: repo.private };
            out.push(copy);
            assert(out@.map_values(|x: Repository| x.name@) =~= before.push(repos@[i as int].name@));
            assert(out@[out@.len() - 1].name@ == repos@[i as int].name@);
        }
        i = i + 1;
    }
    assert(repos@.subrange(0, repos@.len() as int) =~= repos@);
    Ok(out)
}

/// Whether another page of repositories is asked for after a page of
/// `page_len` of them: only after a full page.
pub fn has_more_pages(page_len: usize, per_page: u8) -> (r: bool)
    ensures
        r == (page_len > 0 && page_len >= per_page),
{
    page_len > 0 && page_len >= per_page as usize
}

/// The address that a repository of GitHub is cloned from.
pub fn clone_url(org: &str, repository: &str) -> (r: String)
    ensures
        r@ == "https://github.com/"@ + org@ + "/"@ + repository@ + ".git"@,
{
    let mut r = String::from_str("https://github.com/");
    r.append(org);
    r.append("/");
    r.append(repository);
    r.append(".git");
    r
}

/// The organisation to work on: the one given by option, else the one
/// given by position; with neither it is a configuration error.
pub fn resolve_org(org: Option<String>, org_pos: Option<String>) -> (r: Result<String, GmuxError>)
    ensures
        org matches Some(o) ==> r == Ok::<String, GmuxError>(o),
        org is None ==> (org_pos matches Some(o) ==> r == Ok::<String, GmuxError>(o)),
        org is None && org_pos is None ==> (r matches Err(GmuxError::Config(m)) && m@
            == "Organization or user must be specified via --org or as a positional argument"@),
{
    match org {
        Some(o) => Ok(o),
        None => match org_pos {
            Some(o) => Ok(o),
            None => Err(
                GmuxError::Config(
                    String::from_str(
                        "Organization or user must be specified via --org or as a positional argument",
                    ),
                ),
            ),
        },
    }
}

} // verus!
