//! Which directories a batch works on, and how the outcomes of a batch fold
//! into one.

use vstd::prelude::*;
use crate::error::GmuxError;

verus! {

/// A compiled regular expression of the `regex` crate, carried opaquely.
#[verifier::external_type_specification]
#[verifier::external_body]
pub struct ExRegex(regex::Regex);

/// Why `regex::Regex::new` refused a pattern, carried opaquely.
#[verifier::external_type_specification]
#[verifier::external_body]
pub struct ExRegexError(regex::Error);

/// Whether `regex::Regex::new` accepts the pattern.
pub uninterp spec fn pattern_compiles(pattern: Seq<char>) -> bool;

/// Whether the compiled pattern matches somewhere in `haystack`, as
/// `regex::Regex::is_match` answers.
pub uninterp spec fn pattern_matches(pattern: Seq<char>, haystack: Seq<char>) -> bool;

/// A compiled name filter, with the pattern it was compiled from.  Only
/// `compile` makes one, so `compiled` is always the regex of `pattern`.
pub struct RepoFilter {
    pattern: String,
    compiled: regex::Regex,
}

impl RepoFilter {
    /// The pattern that the filter was compiled from.
    pub closed spec fn pattern(&self) -> Seq<char> {
        self.pattern@
    }

    /// Relies on `regex::Regex::new`: it compiles `pattern` or reports why
    /// not, depending on the pattern alone.
    #[verifier::external_body]
    fn compile(pattern: &str) -> (r: Result<RepoFilter, regex::Error>)
        ensures
            r is Ok <==> pattern_compiles(pattern@),
            r matches Ok(f) ==> f.pattern() == pattern@,
    {
        match regex::Regex::new(pattern) {
            Ok(compiled) => Ok(RepoFilter { pattern: pattern.to_string(), compiled }),
            Err(e) => Err(e),
        }
    }

    /// Relies on `regex::Regex::is_match` on the regex compiled from
    /// `self.pattern()`: an unanchored search of `name`.
    #[verifier::external_body]
    pub(crate) fn is_match(&self, name: &str) -> (r: bool)
        ensures
            r == pattern_matches(self.pattern(), name@),
    {
        self.compiled.is_match(name)
    }
}

/// Compiles a name filter; a pattern that does not compile is a
/// validation error.
pub fn compile_filter(pattern: &str) -> (r: Result<RepoFilter, GmuxError>)
    ensures
        r is Ok <==> pattern_compiles(pattern@),
        r matches Ok(f) ==> f.pattern() == pattern@,
        r is Err ==> r matches Err(GmuxError::Validation(_)),
{
    match RepoFilter::compile(pattern) {
        Ok(f) => Ok(f),
        Err(e) => {
            let mut m = String::from_str("Invalid regex pattern: ");
            let detail = e.to_string();
            m.append(detail.as_str());
            Err(GmuxError::Validation(m))
        },
    }
}

/// An entry of the working directory.
#[derive(Debug)]
pub struct Candidate {
    /// The base name of the entry.
    pub name: String,
    /// The path of the entry.
    pub path: String,
    /// Whether the entry is a directory, or a link to one.
    pub is_dir: bool,
}

/// Whether the batch works on the entry: a directory whose name the
/// filter, where there is one, matches.
pub open spec fn kept(c: Candidate, filter: Option<Seq<char>>) -> bool {
    c.is_dir && match filter {
        Some(p) => pattern_matches(p, c.name@),
        None => true,
    }
}

/// The paths of the entries that the batch works on, in their order.
pub open spec fn selected(entries: Seq<Candidate>, filter: Option<Seq<char>>) -> Seq<Seq<char>>
    decreases entries.len(),
{
    if entries.len() == 0 {
        seq![]
    } else {
        let rest = selected(entries.drop_last(), filter);
        if kept(entries.last(), filter) {
            rest.push(entries.last().path@)
        } else {
            rest
        }
    }
}

/// The view of an optional pattern.
pub open spec fn pattern_view(filter: Option<&str>) -> Option<Seq<char>> {
    match filter {
        Some(p) => Some(p@),
        None => None,
    }
}

/// The paths of the directories that a batch works on: the filter is
/// compiled once, before any entry is looked at, and is matched against the
/// entry's base name.
pub fn select_repositories(entries: &Vec<Candidate>, filter: Option<&str>) -> (r: Result<
    Vec<String>,
    GmuxError,
>)
    ensures
        r is Ok <==> (filter matches Some(p) ==> pattern_compiles(p@)),
        r matches Ok(paths) ==> crate::text::views(paths@) == selected(
            entries@,
            pattern_view(filter),
        ),
        r is Err ==> r matches Err(GmuxError::Validation(_)),
{
    let compiled = match filter {
        Some(p) => match compile_filter(p) {
            Ok(f) => Some(f),
            Err(e) => return Err(e),
        },
        None => None,
    };
    let mut out: Vec<String> = Vec::new();
    let mut i: usize = 0;
    assert(crate::text::views(out@) =~= Seq::<Seq<char>>::empty());
    while i < entries.len()
        invariant
            i <= entries@.len(),
            filter is None ==> compiled is None,
            filter matches Some(p) ==> (compiled matches Some(f) && f.pattern() == p@),
            crate::text::views(out@) == selected(
                entries@.subrange(0, i as int),
                pattern_view(filter),
            ),
        decreases entries@.len() - i,
    {
        let e = &entries[i];
        let keep = e.is_dir && match &compiled {
            Some(f) => f.is_match(e.name.as_str()),
            None => true,
        };
        let ghost before = crate::text::views(out@);
        assert(entries@.subrange(0, i + 1).drop_last() =~= entries@.subrange(0, i as int));
        assert(entries@.subrange(0, i + 1).last() == entries@[i as int]);
        if keep {
            out.push(e.path.clone());
            assert(crate::text::views(out@) =~= before.push(entries@[i as int].path@));
        }
        i = i + 1;
    }
    assert(entries@.subrange(0, entries@.len() as int) =~= entries@);
    Ok(out)
}


/// Over a batch, each entry is worked on exactly when it is a directory whose
/// name the pattern matches; without a pattern, exactly when it is a
/// directory.
pub proof fn selection_is_exact(entries: Seq<Candidate>, filter: Option<Seq<char>>)
    ensures
        forall|k: int|
            0 <= k < entries.len() && kept(entries[k], filter) ==> selected(
                entries,
                filter,
            ).contains(#[trigger] entries[k].path@),
        forall|x: Seq<char>|
            #[trigger] selected(entries, filter).contains(x) ==> exists|k: int|
                0 <= k < entries.len() && kept(entries[k], filter) && entries[k].path@ == x,
    decreases entries.len(),
{
    if entries.len() > 0 {
        let init = entries.drop_last();
        selection_is_exact(init, filter);
        let rest = selected(init, filter);
        let all = selected(entries, filter);
        assert forall|k: int|
            0 <= k < entries.len() && kept(entries[k], filter) implies all.contains(
            #[trigger] entries[k].path@,
        ) by {
            if k < entries.len() - 1 {
                assert(init[k] == entries[k]);
                let j = choose|j: int| 0 <= j < rest.len() && rest[j] == init[k].path@;
                if kept(entries.last(), filter) {
                    assert(all[j] == rest[j]);
                }
            } else {
                assert(all[all.len() - 1] == entries.last().path@);
            }
        }
        assert forall|x: Seq<char>| #[trigger] all.contains(x) implies exists|k: int|
            0 <= k < entries.len() && kept(entries[k], filter) && entries[k].path@ == x by {
            let j = choose|j: int| 0 <= j < all.len() && all[j] == x;
            if kept(entries.last(), filter) && j == all.len() - 1 {
                assert(kept(entries[entries.len() - 1], filter));
            } else {
                assert(rest[j] == x);
                assert(rest.contains(x));
                let k = choose|k: int|
                    0 <= k < init.len() && kept(init[k], filter) && init[k].path@ == x;
                assert(entries[k] == init[k]);
            }
        }
    }
}

/// A batch in which no entry is kept, an empty one in particular, works on
/// nothing, and a batch of no tasks succeeds.
pub proof fn nothing_kept_selects_nothing(entries: Seq<Candidate>, filter: Option<Seq<char>>)
    requires
        forall|k: int| 0 <= k < entries.len() ==> !kept(#[trigger] entries[k], filter),
    ensures
        selected(entries, filter).len() == 0,
        first_error(Seq::<Result<(), GmuxError>>::empty()) is Ok,
    decreases entries.len(),
{
    if entries.len() > 0 {
        let init = entries.drop_last();
        assert forall|k: int| 0 <= k < init.len() implies !kept(#[trigger] init[k], filter) by {
            assert(init[k] == entries[k]);
        }
        nothing_kept_selects_nothing(init, filter);
        assert(!kept(entries[entries.len() - 1], filter));
    }
}

/// The outcome of a batch: the first failure among the outcomes of its
/// tasks, taken in the order in which they were launched, or success.
pub open spec fn first_error(results: Seq<Result<(), GmuxError>>) -> Result<(), GmuxError>
    decreases results.len(),
{
    if results.len() == 0 {
        Ok(())
    } else if results[0] is Err {
        results[0]
    } else {
        first_error(results.drop_first())
    }
}

/// Folds the outcomes of every task of a batch, all of them finished, into
/// the outcome of the batch.
pub fn first_failure(results: Vec<Result<(), GmuxError>>) -> (r: Result<(), GmuxError>)
    ensures
        r == first_error(results@),
{
    let ghost all = results@;
    let n = results.len();
    let mut rest = results;
    let mut found: Result<(), GmuxError> = Ok(());
    assert(all.subrange(n as int, n as int) =~= Seq::<Result<(), GmuxError>>::empty());
    while rest.len() > 0
        invariant
            n == all.len(),
            rest.len() <= n,
            rest@ == all.subrange(0, rest.len() as int),
            found == first_error(all.subrange(rest.len() as int, n as int)),
        decreases rest.len(),
    {
        let item = rest.pop().unwrap();
        let m = rest.len();
        assert(all.subrange(m as int, n as int).drop_first() =~= all.subrange(m + 1, n as int));
        assert(all.subrange(m as int, n as int)[0] == item);
        assert(rest@ =~= all.subrange(0, m as int));
        match item {
            Err(e) => {
                found = Err(e);
            },
            Ok(()) => {},
        }
    }
    assert(all.subrange(0, n as int) =~= all);
    found
}

/// A batch fails exactly when one of its tasks failed, and then with the
/// failure of one of them; the other tasks' outcomes do not hide it.
pub proof fn failure_is_surfaced(results: Seq<Result<(), GmuxError>>)
    ensures
        first_error(results) is Ok <==> forall|k: int|
            0 <= k < results.len() ==> #[trigger] results[k] is Ok,
        first_error(results) is Err ==> exists|k: int|
            0 <= k < results.len() && #[trigger] results[k] == first_error(results),
    decreases results.len(),
{
    if results.len() > 0 {
        let tail = results.drop_first();
        failure_is_surfaced(tail);
        if results[0] is Ok {
            assert forall|k: int| 0 <= k < tail.len() implies #[trigger] tail[k] == results[k
                + 1] by {}
            if first_error(tail) is Err {
                let k = choose|k: int| 0 <= k < tail.len() && #[trigger] tail[k] == first_error(tail);
                assert(results[k + 1] == first_error(results));
            }
            if forall|k: int| 0 <= k < tail.len() ==> #[trigger] tail[k] is Ok {
                assert forall|k: int| 0 <= k < results.len() implies #[trigger] results[k] is Ok by {
                    if k > 0 {
                        assert(tail[k - 1] is Ok);
                    }
                }
            }
        } else {
            assert(results[0] == first_error(results));
        }
    }
}

} // verus!
