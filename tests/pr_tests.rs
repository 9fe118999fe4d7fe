use gmux::config::DEFAULT_PR_TEMPLATE;
use gmux::git::RepositoryMetadata;
use gmux::pr::{
    confirms_push, draft_document, pr_compare_url, pr_link, remote_owner_and_repo,
    render_pr_document, PrDraftContext,
};
use gmux::process::CommandOutput;
use gmux::workflow::{pr_step, PrAction, PrEvent, PrRequest, PrState, SkipReason};

fn ctx(template: &str, files: &[&str]) -> PrDraftContext {
    PrDraftContext {
        title: "Fix bug".to_string(),
        template: template.to_string(),
        repository_name: "widgets".to_string(),
        diff_files: files.iter().map(|f| f.to_string()).collect(),
    }
}

#[test]
fn template_round_trip() {
    let doc = render_pr_document(&ctx(DEFAULT_PR_TEMPLATE, &["a.txt", "b.txt"]));
    assert_eq!(
        doc,
        "# Fix bug\n\n## Changes\n- a.txt\n- b.txt\n\n## Repository\nwidgets\n"
    );
    let lines: Vec<&str> = doc.lines().filter(|l| l.starts_with("- ")).collect();
    assert_eq!(lines, vec!["- a.txt", "- b.txt"]);
}

#[test]
fn unknown_markers_are_kept() {
    let doc = render_pr_document(&ctx("{{ title }} {{ author }} {{ repository_name }}", &["x"]));
    assert_eq!(doc, "Fix bug {{ author }} widgets");
}

#[test]
fn empty_diff_is_skipped_each_time() {
    let c = ctx(DEFAULT_PR_TEMPLATE, &[]);
    assert!(draft_document(&c).is_none());
    assert!(draft_document(&c).is_none());
    assert!(draft_document(&ctx(DEFAULT_PR_TEMPLATE, &["f"])).is_some());
}

#[test]
fn url_construction() {
    let meta = RepositoryMetadata {
        current_branch: "feature-x".to_string(),
        default_branch: "main".to_string(),
    };
    let url = pr_link("https://github.com/acme/widgets.git\n", &meta, "Fix bug", "body text").unwrap();
    let (path, query) = url.split_once('?').unwrap();
    assert!(path.ends_with("/acme/widgets/compare/main...feature-x"));
    assert!(query.contains("title=Fix%20bug"));
    assert_eq!(
        url,
        "https://github.com/acme/widgets/compare/main...feature-x?expand=1&title=Fix%20bug&body=body%20text"
    );
}

#[test]
fn url_encoding_of_non_ascii_and_newlines() {
    let url = pr_compare_url("o", "r", "b", "h", "é & ü", "- a\n- b");
    assert_eq!(
        url,
        "https://github.com/o/r/compare/b...h?expand=1&title=%C3%A9%20%26%20%C3%BC&body=-%20a%0A-%20b"
    );
}

#[test]
fn remote_url_parts() {
    let (o, r) = remote_owner_and_repo("git@github.com:acme/widgets.git").unwrap();
    assert_eq!((o.as_str(), r.as_str()), ("git@github.com:acme", "widgets"));
    let (o, r) = remote_owner_and_repo("https://github.com/acme/my.github.io").unwrap();
    assert_eq!((o.as_str(), r.as_str()), ("acme", "my.github.io"));
    let (o, r) = remote_owner_and_repo("https://github.com/acme/x.git.git").unwrap();
    assert_eq!((o.as_str(), r.as_str()), ("acme", "x.git"));
    assert!(remote_owner_and_repo("widgets").is_none());
}

#[test]
fn push_answers() {
    assert!(confirms_push("y\n"));
    assert!(confirms_push(" Y "));
    assert!(!confirms_push("yes"));
    assert!(!confirms_push("n"));
    assert!(!confirms_push(""));
}

fn ok(stdout: &str) -> CommandOutput {
    CommandOutput::from_status(Some(0), stdout.as_bytes(), b"")
}

#[test]
fn workflow_runs_to_the_link() {
    let req = PrRequest {
        title: "Fix bug".to_string(),
        template: "{{ title }}\n{% for file in diff_files %}\n- {{ file }}\n{% endfor %}".to_string(),
        repository_name: "widgets".to_string(),
    };
    let (s, a) = pr_step(&req, PrState::CheckRepository, PrEvent::RepositoryChecked(true));
    assert!(matches!(a, PrAction::ResolveMetadata));
    let ev = PrEvent::MetadataQueried {
        head: ok("feature-x\n"),
        symbolic_ref: ok("refs/remotes/origin/main\n"),
    };
    let (s, a) = pr_step(&req, s, ev);
    match &a {
        PrAction::ListDiff { base } => assert_eq!(base, "main"),
        other => panic!("unexpected {:?}", other),
    }
    let (s, a) = pr_step(&req, s, PrEvent::DiffListed("a.txt\nb.txt\n".to_string()));
    match &a {
        PrAction::QueryRemote { branch } => assert_eq!(branch, "feature-x"),
        other => panic!("unexpected {:?}", other),
    }
    let (s, a) = pr_step(&req, s, PrEvent::RemoteQueried(String::new()));
    assert!(matches!(a, PrAction::AskToPush { .. }));
    let (s, a) = pr_step(&req, s, PrEvent::Answered("y\n".to_string()));
    assert!(matches!(a, PrAction::PushBranch { .. }));
    let (s, a) = pr_step(&req, s, PrEvent::Pushed(ok("")));
    assert!(matches!(a, PrAction::QueryRemoteUrl));
    let (s, a) = pr_step(&req, s, PrEvent::RemoteUrl("https://github.com/acme/widgets.git\n".to_string()));
    assert!(matches!(s, PrState::Finished));
    match a {
        PrAction::Open { url } => assert_eq!(
            url,
            "https://github.com/acme/widgets/compare/main...feature-x?expand=1&title=Fix%20bug&body=Fix%20bug%0A-%20a.txt%0A-%20b.txt"
        ),
        other => panic!("unexpected {:?}", other),
    }
}

#[test]
fn workflow_skips() {
    let req = PrRequest {
        title: "t".to_string(),
        template: "x".to_string(),
        repository_name: "r".to_string(),
    };
    let (s, a) = pr_step(&req, PrState::CheckRepository, PrEvent::RepositoryChecked(false));
    assert!(matches!(s, PrState::Finished));
    assert!(matches!(a, PrAction::Skip(SkipReason::NotARepository)));

    let meta = || RepositoryMetadata { current_branch: "main".to_string(), default_branch: "main".to_string() };
    let (_, a) = pr_step(&req, PrState::ComputeDiff { metadata: meta() }, PrEvent::DiffListed(String::new()));
    assert!(matches!(a, PrAction::Skip(SkipReason::NoChanges)));
    let (_, a) = pr_step(&req, PrState::ComputeDiff { metadata: meta() }, PrEvent::DiffListed(String::new()));
    assert!(matches!(a, PrAction::Skip(SkipReason::NoChanges)));

    let st = PrState::Confirm { metadata: meta(), document: "d".to_string() };
    let (_, a) = pr_step(&req, st, PrEvent::Answered("n".to_string()));
    assert!(matches!(a, PrAction::Skip(SkipReason::Declined)));

    let st = PrState::Push { metadata: meta(), document: "d".to_string() };
    let failed = CommandOutput::from_status(Some(1), b"", b"rejected");
    let (_, a) = pr_step(&req, st, PrEvent::Pushed(failed));
    assert!(matches!(a, PrAction::Skip(SkipReason::PushFailed)));

    let st = PrState::CheckRemote { metadata: meta(), document: "d".to_string() };
    let (s, a) = pr_step(&req, st, PrEvent::RemoteQueried("abc\trefs/heads/main\n".to_string()));
    assert!(matches!(s, PrState::ComposeUrl { .. }));
    assert!(matches!(a, PrAction::QueryRemoteUrl));

    let (_, a) = pr_step(&req, PrState::Finished, PrEvent::RepositoryChecked(true));
    assert!(matches!(a, PrAction::Skip(SkipReason::OutOfTurn)));
}
