//! What a command-line invocation prints and returns.

use vstd::prelude::*;

verus! {

/// One line of output and the exit code of the process.
#[derive(Debug)]
pub struct CliOutcome {
    /// The process exit code: `0` for success.
    pub code: i32,
    /// Whether the line goes to standard error.
    pub to_stderr: bool,
    /// The line, without its line feed.
    pub message: String,
}

/// The view of a [`CliOutcome`].
pub struct CliOutcomeView {
    /// The process exit code.
    pub code: int,
    /// Whether the line goes to standard error.
    pub to_stderr: bool,
    /// The line.
    pub message: Seq<char>,
}

impl View for CliOutcome {
    type V = CliOutcomeView;

    open spec fn view(&self) -> CliOutcomeView {
        CliOutcomeView { code: self.code as int, to_stderr: self.to_stderr, message: self.message@ }
    }
}

/// Success, reported on standard output.
pub open spec fn success(message: Seq<char>) -> CliOutcomeView {
    CliOutcomeView { code: 0, to_stderr: false, message }
}

/// Failure with `code`, reported on standard error.
pub open spec fn failure(code: int, message: Seq<char>) -> CliOutcomeView {
    CliOutcomeView { code, to_stderr: true, message }
}

/// Builds a success.
pub fn succeed(message: String) -> (r: CliOutcome)
    ensures
        r@ == success(message@),
{
    CliOutcome { code: 0, to_stderr: false, message }
}

/// Builds a failure.
pub fn fail(code: i32, message: String) -> (r: CliOutcome)
    ensures
        r@ == failure(code as int, message@),
{
    CliOutcome { code, to_stderr: true, message }
}

/// An outcome is seen as it is, and success and failure differ as they must:
/// success has code 0 on standard output, failure its code on standard error.
pub proof fn law_outcomes_are_seen_as_they_are(outcome: CliOutcome, code: int, message: Seq<char>)
    ensures
        outcome@.code == outcome.code,
        outcome@.to_stderr == outcome.to_stderr,
        outcome@.message == outcome.message@,
        success(message).code == 0 && !success(message).to_stderr,
        success(message).message == message,
        failure(code, message).code == code && failure(code, message).to_stderr,
        failure(code, message).message == message,
{
}

} // verus!
