//! The errors of the tool and the text shown for each.

use vstd::prelude::*;

verus! {

/// What went wrong, with the text that explains it.
#[derive(Debug)]
pub enum GmuxError {
    /// GitHub refused or failed a request; `documentation_url` is the page
    /// that GitHub pointed to, where it pointed to one.
    GitHubApi { message: String, documentation_url: Option<String> },
    Io(String),
    Config(String),
    Git(String),
    Validation(String),
    Json(String),
    Anyhow(String),
}

/// The text of an error, prefix and payload.
pub open spec fn error_text(e: GmuxError) -> Seq<char> {
    match e {
        GmuxError::GitHubApi { message, .. } => "GitHub API error: "@ + message@,
        GmuxError::Io(m) => "IO error: "@ + m@,
        GmuxError::Config(m) => "Configuration error: "@ + m@,
        GmuxError::Git(m) => "Git error: "@ + m@,
        GmuxError::Validation(m) => "Validation error: "@ + m@,
        GmuxError::Json(m) => "JSON error: "@ + m@,
        GmuxError::Anyhow(m) => "Anyhow error: "@ + m@,
    }
}

/// The report shown to the operator: GitHub errors get their own heading
/// and, where GitHub named a documentation page, the next steps.
pub open spec fn report_text(e: GmuxError) -> Seq<char> {
    match e {
        GmuxError::GitHubApi { message, documentation_url } => match documentation_url {
            Some(url) => "GitHub API Error: "@ + message@ + "\n\nNext steps:\n1. Visit "@ + url@
                + " to resolve the issue\n2. Ensure your token has the required permissions"@,
            None => "GitHub API Error: "@ + message@,
        },
        _ => error_text(e),
    }
}

fn prefixed(prefix: &str, payload: &String) -> (r: String)
    ensures
        r@ == prefix@ + payload@,
{
    let mut r = String::from_str(prefix);
    r.append(payload.as_str());
    r
}

impl GmuxError {
    /// The text of the error, prefix and payload.
    pub fn message(&self) -> (r: String)
        ensures
            r@ == error_text(*self),
    {
        match self {
            GmuxError::GitHubApi { message, .. } => prefixed("GitHub API error: ", message),
            GmuxError::Io(m) => prefixed("IO error: ", m),
            GmuxError::Config(m) => prefixed("Configuration error: ", m),
            GmuxError::Git(m) => prefixed("Git error: ", m),
            GmuxError::Validation(m) => prefixed("Validation error: ", m),
            GmuxError::Json(m) => prefixed("JSON error: ", m),
            GmuxError::Anyhow(m) => prefixed("Anyhow error: ", m),
        }
    }

    /// The report shown to the operator when a command fails.
    pub fn format_error(&self) -> (r: String)
        ensures
            r@ == report_text(*self),
    {
        match self {
            GmuxError::GitHubApi { message, documentation_url } => {
                let mut r = prefixed("GitHub API Error: ", message);
                match documentation_url {
                    Some(url) => {
                        r.append("\n\nNext steps:\n1. Visit ");
                        r.append(url.as_str());
                        r.append(
                            " to resolve the issue\n2. Ensure your token has the required permissions",
                        );
                    },
                    None => {},
                }
                r
            },
            _ => self.message(),
        }
    }
}

} // verus!
