//! What a finished child process left behind, as data.

use vstd::prelude::*;

verus! {

/// The text that `String::from_utf8_lossy` makes of `bytes`.
pub uninterp spec fn utf8_lossy(bytes: Seq<u8>) -> Seq<char>;

/// Relies on `String::from_utf8_lossy`: decodes UTF-8, putting U+FFFD for
/// each invalid sequence; the text depends on the bytes alone, and no bytes
/// give no text.
#[verifier::external_body]
fn decode_lossy(bytes: &[u8]) -> (r: String)
    ensures
        r@ == utf8_lossy(bytes@),
        bytes@.len() == 0 ==> r@.len() == 0,
{
    String::from_utf8_lossy(bytes).into_owned()
}

/// The captured output and exit status of one command.
#[derive(Debug)]
pub struct CommandOutput {
    pub stdout: String,
    pub stderr: String,
    /// The exit code, or -1 where the process ended without one.
    pub exit_code: i32,
}

impl CommandOutput {
    /// The outcome of a process from its exit code, where it had one, and
    /// the bytes it wrote; output that is not UTF-8 is decoded lossily.
    pub fn from_status(code: Option<i32>, stdout: &[u8], stderr: &[u8]) -> (r: CommandOutput)
        ensures
            r.exit_code == (match code {
                Some(c) => c,
                None => -1i32,
            }),
            r.stdout@ == utf8_lossy(stdout@),
            r.stderr@ == utf8_lossy(stderr@),
    {
        let exit_code = match code {
            Some(c) => c,
            None => -1,
        };
        CommandOutput { stdout: decode_lossy(stdout), stderr: decode_lossy(stderr), exit_code }
    }

    /// Whether the command succeeded, that is exited with code 0.
    pub fn succeeded(&self) -> (r: bool)
        ensures
            r == (self.exit_code == 0),
    {
        self.exit_code == 0
    }
}

} // verus!
