//! The pull-request draft of one repository: its document, the decisions
//! taken on the way, and the address that opens it.

use vstd::prelude::*;
use crate::git::RepositoryMetadata;
use crate::text::{
    bullet_list, bulleted, last_index, last_index_of, replace_all, replaced, trim, trimmed,
    views,
};

verus! {

/// The marker that the title replaces.
pub open spec fn title_marker() -> Seq<char> {
    "{{ title }}"@
}

/// The marker that the repository's name replaces.
pub open spec fn repository_marker() -> Seq<char> {
    "{{ repository_name }}"@
}

/// The loop over the changed files that the bulleted list replaces.
pub open spec fn files_loop_marker() -> Seq<char> {
    "{% for file in diff_files %}\n- {{ file }}\n{% endfor %}"@
}

/// What a pull-request document is made from.
#[derive(Debug)]
pub struct PrDraftContext {
    pub title: String,
    pub template: String,
    pub repository_name: String,
    /// The changed files, in the order in which `git` listed them.
    pub diff_files: Vec<String>,
}

/// The template with the title, then the repository's name, then the list
/// of changed files put in place of their markers; other text, unknown
/// markers included, is kept.
pub open spec fn rendered(
    template: Seq<char>,
    title: Seq<char>,
    repository_name: Seq<char>,
    files: Seq<Seq<char>>,
) -> Seq<char> {
    replaced(
        replaced(replaced(template, title_marker(), title), repository_marker(), repository_name),
        files_loop_marker(),
        bullet_list(files),
    )
}

/// The document of a draft.
pub open spec fn document_of(ctx: PrDraftContext) -> Seq<char> {
    rendered(ctx.template@, ctx.title@, ctx.repository_name@, views(ctx.diff_files@))
}

/// The document of a draft, or nothing where no file changed and the
/// repository is skipped.
pub open spec fn draft_of(ctx: PrDraftContext) -> Option<Seq<char>> {
    if ctx.diff_files@.len() == 0 {
        None
    } else {
        Some(document_of(ctx))
    }
}

/// Renders the pull-request document of a draft.
pub fn render_pr_document(ctx: &PrDraftContext) -> (r: String)
    ensures
        r@ == document_of(*ctx),
{
    proof {
        reveal_strlit("{{ title }}");
        reveal_strlit("{{ repository_name }}");
        reveal_strlit("{% for file in diff_files %}\n- {{ file }}\n{% endfor %}");
    }
    let a = replace_all(ctx.template.as_str(), "{{ title }}", ctx.title.as_str());
    let b = replace_all(a.as_str(), "{{ repository_name }}", ctx.repository_name.as_str());
    let list = bulleted(&ctx.diff_files);
    replace_all(
        b.as_str(),
        "{% for file in diff_files %}\n- {{ file }}\n{% endfor %}",
        list.as_str(),
    )
}

/// The document of a draft, or `None` where no file changed: the
/// repository is then skipped, with nothing done to it.
pub fn draft_document(ctx: &PrDraftContext) -> (r: Option<String>)
    ensures
        match (r, draft_of(*ctx)) {
            (Some(d), Some(e)) => d@ == e,
            (None, None) => true,
            _ => false,
        },
{
    if ctx.diff_files.len() == 0 {
        None
    } else {
        Some(render_pr_document(ctx))
    }
}

/// Drafts made from the same title, template, name and changed files agree;
/// where no file changed, each of them is the skip, however often it is
/// made.
pub proof fn empty_diff_skips_every_time(first: PrDraftContext, second: PrDraftContext)
    requires
        first.diff_files@.len() == 0,
        views(second.diff_files@) == views(first.diff_files@),
    ensures
        draft_of(first) is None,
        draft_of(second) is None,
{
    assert(views(second.diff_files@).len() == second.diff_files@.len());
}

/// Whether the operator's answer to the push question is yes: `y` or `Y`,
/// white space around it aside.
pub open spec fn is_yes(answer: Seq<char>) -> bool {
    trimmed(answer) == seq!['y'] || trimmed(answer) == seq!['Y']
}

/// Whether the operator agreed to push the branch.
pub fn confirms_push(answer: &str) -> (r: bool)
    ensures
        r == is_yes(answer@),
{
    let t = trim(answer);
    if t.as_str().unicode_len() != 1 {
        return false;
    }
    let c = t.as_str().get_char(0);
    assert(t@ =~= seq![c]);
    c == 'y' || c == 'Y'
}

/// `s` without a trailing `.git`.
pub open spec fn without_git_suffix(s: Seq<char>) -> Seq<char> {
    if s.len() >= 4 && s.subrange(s.len() - 4, s.len() as int) == ".git"@ {
        s.subrange(0, s.len() - 4)
    } else {
        s
    }
}

/// The repository named by a remote URL: its last `/`-separated segment
/// without `.git`.
pub open spec fn url_repository(url: Seq<char>) -> Seq<char> {
    without_git_suffix(url.subrange(last_index_of(url, '/') + 1, url.len() as int))
}

/// The owner named by a remote URL: its second to last `/`-separated
/// segment.
pub open spec fn url_owner(url: Seq<char>) -> Seq<char> {
    let k = last_index_of(url, '/');
    let head = url.subrange(0, k);
    head.subrange(last_index_of(head, '/') + 1, k)
}

/// The owner and the repository named by the remote URL that `git remote
/// get-url` printed, or `None` where the URL has a single segment.
pub fn remote_owner_and_repo(remote_stdout: &str) -> (r: Option<(String, String)>)
    ensures
        match r {
            Some((owner, repo)) => last_index_of(trimmed(remote_stdout@), '/') >= 0 && owner@
                == url_owner(trimmed(remote_stdout@)) && repo@ == url_repository(
                trimmed(remote_stdout@),
            ),
            None => last_index_of(trimmed(remote_stdout@), '/') < 0,
        },
{
    let url = trim(remote_stdout);
    let u = url.as_str();
    let n = u.unicode_len();
    assert(u@.subrange(0, n as int) =~= u@);
    let k = match last_index(u, '/', n) {
        Some(k) => k,
        None => return None,
    };
    let j = match last_index(u, '/', k) {
        Some(j) => j + 1,
        None => 0,
    };
    let ghost head = u@.subrange(0, k as int);
    assert(u@.subrange(0, k as int) =~= head);
    let owner = String::from_str(u.substring_char(j, k));
    assert(owner@ =~= head.subrange(last_index_of(head, '/') + 1, k as int));
    let last = u.substring_char(k + 1, n);
    let m = last.unicode_len();
    proof {
        reveal_strlit(".git");
    }
    let repo = if m >= 4 && last.get_char(m - 4) == '.' && last.get_char(m - 3) == 'g'
        && last.get_char(m - 2) == 'i' && last.get_char(m - 1) == 't' {
        assert(last@.subrange(m - 4, m as int) =~= ".git"@);
        String::from_str(last.substring_char(0, m - 4))
    } else {
        if m >= 4 {
            assert(last@.subrange(m - 4, m as int)[0] == last@[m - 4]);
            assert(last@.subrange(m - 4, m as int)[1] == last@[m - 3]);
            assert(last@.subrange(m - 4, m as int)[2] == last@[m - 2]);
            assert(last@.subrange(m - 4, m as int)[3] == last@[m - 1]);
        }
        String::from_str(last)
    };
    Some((owner, repo))
}

/// What `urlencoding::encode` makes of `s`.
pub uninterp spec fn url_encoded(s: Seq<char>) -> Seq<char>;

/// The sixteen hexadecimal digits, upper case.
pub open spec fn hex_digits() -> Seq<char> {
    seq!['0', '1', '2', '3', '4', '5', '6', '7', '8', '9', 'A', 'B', 'C', 'D', 'E', 'F']
}

/// The characters that percent-encoding keeps: ASCII letters and digits,
/// `-`, `.`, `_` and `~`.
pub open spec fn is_unreserved(c: char) -> bool {
    let u = c as u32;
    (0x30 <= u && u <= 0x39) || (0x41 <= u && u <= 0x5A) || (0x61 <= u && u <= 0x7A) || u == 0x2D
        || u == 0x2E || u == 0x5F || u == 0x7E
}

/// An ASCII character, percent-encoded.
pub open spec fn percent_char(c: char) -> Seq<char> {
    if is_unreserved(c) {
        seq![c]
    } else {
        seq!['%', hex_digits()[(c as u32 / 16) as int], hex_digits()[(c as u32 % 16) as int]]
    }
}

/// An ASCII text, percent-encoded character by character.
pub open spec fn percent_ascii(s: Seq<char>) -> Seq<char>
    decreases s.len(),
{
    if s.len() == 0 {
        seq![]
    } else {
        percent_char(s[0]) + percent_ascii(s.drop_first())
    }
}

/// Relies on `urlencoding::encode`: every byte of the UTF-8 text but ASCII
/// letters, digits and `-`, `.`, `_`, `~` becomes `%` and two upper-case
/// hexadecimal digits; the result depends on the text alone.
#[verifier::external_body]
fn encode_component(s: &str) -> (r: String)
    ensures
        r@ == url_encoded(s@),
        (forall|i: int| 0 <= i < s@.len() ==> (s@[i] as u32) < 128) ==> r@ == percent_ascii(s@),
{
    urlencoding::encode(s).into_owned()
}

/// The address of the page that opens a pull request from `head` into
/// `base`, with its title and body filled in.
pub open spec fn compare_url(
    owner: Seq<char>,
    repo: Seq<char>,
    base: Seq<char>,
    head: Seq<char>,
    title: Seq<char>,
    body: Seq<char>,
) -> Seq<char> {
    "https://github.com/"@ + owner + "/"@ + repo + "/compare/"@ + base + "..."@ + head
        + "?expand=1&title="@ + url_encoded(title) + "&body="@ + url_encoded(body)
}

/// The address of the page that opens a pull request from `head` into
/// `base`, with its title and body filled in.
pub fn pr_compare_url(
    owner: &str,
    repo: &str,
    base: &str,
    head: &str,
    title: &str,
    body: &str,
) -> (r: String)
    ensures
        r@ == compare_url(owner@, repo@, base@, head@, title@, body@),
{
    let mut r = String::from_str("https://github.com/");
    r.append(owner);
    r.append("/");
    r.append(repo);
    r.append("/compare/");
    r.append(base);
    r.append("...");
    r.append(head);
    r.append("?expand=1&title=");
    let t = encode_component(title);
    r.append(t.as_str());
    r.append("&body=");
    let b = encode_component(body);
    r.append(b.as_str());
    r
}

/// The address that opens the draft of a repository, from what `git remote
/// get-url origin` printed, or `None` where that names no owner.
pub fn pr_link(remote_stdout: &str, metadata: &RepositoryMetadata, title: &str, document: &str) -> (r:
    Option<String>)
    ensures
        match r {
            Some(url) => last_index_of(trimmed(remote_stdout@), '/') >= 0 && url@ == compare_url(
                url_owner(trimmed(remote_stdout@)),
                url_repository(trimmed(remote_stdout@)),
                metadata.default_branch@,
                metadata.current_branch@,
                title@,
                document@,
            ),
            None => last_index_of(trimmed(remote_stdout@), '/') < 0,
        },
{
    match remote_owner_and_repo(remote_stdout) {
        Some((owner, repo)) => Some(
            pr_compare_url(
                owner.as_str(),
                repo.as_str(),
                metadata.default_branch.as_str(),
                metadata.current_branch.as_str(),
                title,
                document,
            ),
        ),
        None => None,
    }
}

} // verus!
