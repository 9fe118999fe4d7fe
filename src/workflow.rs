//! The pull-request workflow of one repository as a machine: each step
//! takes what the last request answered and says what to do next.  The
//! program that drives it runs the requests, one at a time, and hands the
//! answers back.

use vstd::prelude::*;
use crate::git::{
    RepositoryMetadata, branch_on_remote, current_branch_of, default_branch_of,
    get_diff_file_names, metadata_from_outputs,
};
use crate::pr::{
    PrDraftContext, compare_url, confirms_push, is_yes, pr_link, render_pr_document, url_owner,
    url_repository,
};
use crate::process::CommandOutput;
use crate::text::{last_index_of, lines_of, trimmed};

verus! {

/// What stays the same over the workflow of one repository.
#[derive(Debug)]
pub struct PrRequest {
    pub title: String,
    pub template: String,
    pub repository_name: String,
}

/// Where the workflow of one repository stands.
#[derive(Debug)]
pub enum PrState {
    /// Waiting to hear whether the directory is a repository.
    CheckRepository,
    /// Waiting for the branch queries.
    ResolveMetadata,
    /// Waiting for the changed files.
    ComputeDiff { metadata: RepositoryMetadata },
    /// Waiting to hear whether the branch is on the remote.
    CheckRemote { metadata: RepositoryMetadata, document: String },
    /// Waiting for the operator's answer to the push question.
    Confirm { metadata: RepositoryMetadata, document: String },
    /// Waiting for the push to end.
    Push { metadata: RepositoryMetadata, document: String },
    /// Waiting for the remote's URL.
    ComposeUrl { metadata: RepositoryMetadata, document: String },
    /// Nothing more is done.
    Finished,
}

/// An answer to the last request.
#[derive(Debug)]
pub enum PrEvent {
    /// Whether the directory holds a repository.
    RepositoryChecked(bool),
    /// The outputs of the current-branch and the default-branch queries.
    MetadataQueried { head: CommandOutput, symbolic_ref: CommandOutput },
    /// What the diff query printed.
    DiffListed(String),
    /// What the query for the branch on the remote printed.
    RemoteQueried(String),
    /// The operator's answer.
    Answered(String),
    /// The outcome of the push.
    Pushed(CommandOutput),
    /// What the remote-URL query printed.
    RemoteUrl(String),
}

/// Why a repository gets no draft.
#[derive(Debug, PartialEq, Eq)]
pub enum SkipReason {
    NotARepository,
    NoChanges,
    Declined,
    PushFailed,
    NoOwnerInRemote,
    /// The answer did not fit the request.
    OutOfTurn,
}

/// What to do next.
#[derive(Debug)]
pub enum PrAction {
    /// Query the current and the default branch.
    ResolveMetadata,
    /// List the files that differ from `base`.
    ListDiff { base: String },
    /// Ask the remote whether it has `branch`.
    QueryRemote { branch: String },
    /// Ask the operator whether to push `branch`.
    AskToPush { branch: String },
    /// Push `branch`, setting its upstream.
    PushBranch { branch: String },
    /// Query the URL of the remote.
    QueryRemoteUrl,
    /// Open the draft at `url`; the workflow is done.
    Open { url: String },
    /// Leave the repository; the workflow is done.
    Skip(SkipReason),
}

/// Whether the state carries the metadata and the document on.
pub open spec fn holds(state: PrState, metadata: RepositoryMetadata, document: Seq<char>) -> bool {
    match state {
        PrState::CheckRemote { metadata: m, document: d } => m == metadata && d@ == document,
        PrState::Confirm { metadata: m, document: d } => m == metadata && d@ == document,
        PrState::Push { metadata: m, document: d } => m == metadata && d@ == document,
        PrState::ComposeUrl { metadata: m, document: d } => m == metadata && d@ == document,
        _ => false,
    }
}

/// The draft context of a request and the changed files.
pub open spec fn context_of(req: PrRequest, files: Seq<Seq<char>>) -> Seq<char> {
    crate::pr::rendered(req.template@, req.title@, req.repository_name@, files)
}

/// The branch that an action names, the base of a diff included.
pub open spec fn branch_of(a: PrAction) -> Seq<char> {
    match a {
        PrAction::ListDiff { base } => base@,
        PrAction::QueryRemote { branch } => branch@,
        PrAction::AskToPush { branch } => branch@,
        PrAction::PushBranch { branch } => branch@,
        _ => seq![],
    }
}

/// The address that an action opens.
pub open spec fn url_of(a: PrAction) -> Seq<char> {
    match a {
        PrAction::Open { url } => url@,
        _ => seq![],
    }
}

/// The metadata that the state waiting for the diff holds.
pub open spec fn diff_metadata(state: PrState) -> Option<RepositoryMetadata> {
    match state {
        PrState::ComputeDiff { metadata } => Some(metadata),
        _ => None,
    }
}

/// Whether the event answers the request that the state waits on.
pub open spec fn fits(state: PrState, event: PrEvent) -> bool {
    match (state, event) {
        (PrState::CheckRepository, PrEvent::RepositoryChecked(_)) => true,
        (PrState::ResolveMetadata, PrEvent::MetadataQueried { .. }) => true,
        (PrState::ComputeDiff { .. }, PrEvent::DiffListed(_)) => true,
        (PrState::CheckRemote { .. }, PrEvent::RemoteQueried(_)) => true,
        (PrState::Confirm { .. }, PrEvent::Answered(_)) => true,
        (PrState::Push { .. }, PrEvent::Pushed(_)) => true,
        (PrState::ComposeUrl { .. }, PrEvent::RemoteUrl(_)) => true,
        _ => false,
    }
}

/// A skip, which ends the workflow.
pub open spec fn skips(r: (PrState, PrAction), why: SkipReason) -> bool {
    r.0 is Finished && r.1 == PrAction::Skip(why)
}

/// One step of the workflow: the next state and what to do.
pub fn pr_step(req: &PrRequest, state: PrState, event: PrEvent) -> (r: (PrState, PrAction))
    ensures
        (state is CheckRepository && event == PrEvent::RepositoryChecked(false)) ==> skips(
            r,
            SkipReason::NotARepository,
        ),
        (state is CheckRepository && event == PrEvent::RepositoryChecked(true)) ==> (
        r.0 is ResolveMetadata && r.1 is ResolveMetadata),
        state is ResolveMetadata ==> (event matches PrEvent::MetadataQueried {
            head,
            symbolic_ref,
        } ==> (r.0 is ComputeDiff && r.1 is ListDiff && diff_metadata(r.0)->Some_0.current_branch@
            == current_branch_of(head.stdout@) && diff_metadata(r.0)->Some_0.default_branch@
            == default_branch_of(
            current_branch_of(head.stdout@),
            symbolic_ref.exit_code,
            symbolic_ref.stdout@,
        ) && branch_of(r.1) == diff_metadata(r.0)->Some_0.default_branch@)),
        state matches PrState::ComputeDiff { metadata } ==> (event matches PrEvent::DiffListed(
            out,
        ) ==> (if lines_of(out@).len() == 0 {
            skips(r, SkipReason::NoChanges)
        } else {
            holds(r.0, metadata, context_of(*req, lines_of(out@))) && r.0 is CheckRemote
                && r.1 is QueryRemote
                && branch_of(r.1) == metadata.current_branch@
        })),
        state matches PrState::CheckRemote { metadata, document } ==> (
        event matches PrEvent::RemoteQueried(out) ==> (if trimmed(out@).len() > 0 {
            holds(r.0, metadata, document@) && r.0 is ComposeUrl && r.1 is QueryRemoteUrl
        } else {
            holds(r.0, metadata, document@) && r.0 is Confirm && r.1 is AskToPush && branch_of(
                r.1,
            ) == metadata.current_branch@
        })),
        state matches PrState::Confirm { metadata, document } ==> (
        event matches PrEvent::Answered(a) ==> (if is_yes(a@) {
            holds(r.0, metadata, document@) && r.0 is Push && r.1 is PushBranch && branch_of(r.1)
                == metadata.current_branch@
        } else {
            skips(r, SkipReason::Declined)
        })),
        state matches PrState::Push { metadata, document } ==> (event matches PrEvent::Pushed(
            out,
        ) ==> (if out.exit_code == 0 {
            holds(r.0, metadata, document@) && r.0 is ComposeUrl && r.1 is QueryRemoteUrl
        } else {
            skips(r, SkipReason::PushFailed)
        })),
        state matches PrState::ComposeUrl { metadata, document } ==> (
        event matches PrEvent::RemoteUrl(out) ==> (if last_index_of(trimmed(out@), '/') >= 0 {
            r.0 is Finished && r.1 is Open && url_of(r.1) == compare_url(
                url_owner(trimmed(out@)),
                url_repository(trimmed(out@)),
                metadata.default_branch@,
                metadata.current_branch@,
                req.title@,
                document@,
            )
        } else {
            skips(r, SkipReason::NoOwnerInRemote)
        })),
        !fits(state, event) ==> skips(r, SkipReason::OutOfTurn),
{
    match (state, event) {
        (PrState::CheckRepository, PrEvent::RepositoryChecked(is_repo)) => {
            if is_repo {
                (PrState::ResolveMetadata, PrAction::ResolveMetadata)
            } else {
                (PrState::Finished, PrAction::Skip(SkipReason::NotARepository))
            }
        },
        (PrState::ResolveMetadata, PrEvent::MetadataQueried { head, symbolic_ref }) => {
            let metadata = metadata_from_outputs(&head, &symbolic_ref);
            let base = metadata.default_branch.clone();
            (PrState::ComputeDiff { metadata }, PrAction::ListDiff { base })
        },
        (PrState::ComputeDiff { metadata }, PrEvent::DiffListed(out)) => {
            let files = get_diff_file_names(out.as_str());
            if files.len() == 0 {
                (PrState::Finished, PrAction::Skip(SkipReason::NoChanges))
            } else {
                let ctx = PrDraftContext {
                    title: req.title.clone(),
                    template: req.template.clone(),
                    repository_name: req.repository_name.clone(),
                    diff_files: files,
                };
                let document = render_pr_document(&ctx);
                let branch = metadata.current_branch.clone();
                (PrState::CheckRemote { metadata, document }, PrAction::QueryRemote { branch })
            }
        },
        (PrState::CheckRemote { metadata, document }, PrEvent::RemoteQueried(out)) => {
            if branch_on_remote(out.as_str()) {
                (PrState::ComposeUrl { metadata, document }, PrAction::QueryRemoteUrl)
            } else {
                let branch = metadata.current_branch.clone();
                (PrState::Confirm { metadata, document }, PrAction::AskToPush { branch })
            }
        },
        (PrState::Confirm { metadata, document }, PrEvent::Answered(answer)) => {
            if confirms_push(answer.as_str()) {
                let branch = metadata.current_branch.clone();
                (PrState::Push { metadata, document }, PrAction::PushBranch { branch })
            } else {
                (PrState::Finished, PrAction::Skip(SkipReason::Declined))
            }
        },
        (PrState::Push { metadata, document }, PrEvent::Pushed(out)) => {
            if out.succeeded() {
                (PrState::ComposeUrl { metadata, document }, PrAction::QueryRemoteUrl)
            } else {
                (PrState::Finished, PrAction::Skip(SkipReason::PushFailed))
            }
        },
        (PrState::ComposeUrl { metadata, document }, PrEvent::RemoteUrl(out)) => {
            match pr_link(out.as_str(), &metadata, req.title.as_str(), document.as_str()) {
                Some(url) => (PrState::Finished, PrAction::Open { url }),
                None => (PrState::Finished, PrAction::Skip(SkipReason::NoOwnerInRemote)),
            }
        },
        _ => (PrState::Finished, PrAction::Skip(SkipReason::OutOfTurn)),
    }
}

} // verus!
