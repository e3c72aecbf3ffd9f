//! What a finished run of the engine means for the user: the exit code of
//! the front end and what it says on the way out.

use crate::error::{guidance_text, message_text, ErrorView, MtrError, EXIT_FALLBACK};
use crate::text::{contains, contains_text};
use vstd::prelude::*;

verus! {

/// What is left of a run of the engine.
#[derive(Debug, PartialEq, Eq)]
pub struct InvocationResult {
    /// The engine's exit code; absent where it ended without one.
    pub exit_code: Option<i32>,
    /// Everything the engine wrote to its standard error.
    pub captured_stderr: String,
}

/// What the front end says before it exits.
#[derive(Debug, PartialEq, Eq)]
pub enum Report {
    /// Nothing.
    Silent,
    /// The engine's own words, unchanged.
    Relay(String),
    /// An error of the front end in place of the engine's words.
    Failure(MtrError),
}

/// How the front end ends: its exit code and its last words.
#[derive(Debug, PartialEq, Eq)]
pub struct Verdict {
    pub exit_code: i32,
    pub report: Report,
}

/// A report with its texts as sequences of characters.
pub enum ReportView {
    Silent,
    Relay(Seq<char>),
    Failure(ErrorView),
}

/// A verdict with its texts as sequences of characters.
pub struct VerdictView {
    pub exit_code: i32,
    pub report: ReportView,
}

impl View for Report {
    type V = ReportView;

    open spec fn view(&self) -> ReportView {
        match *self {
            Report::Silent => ReportView::Silent,
            Report::Relay(text) => ReportView::Relay(text@),
            Report::Failure(error) => ReportView::Failure(error@),
        }
    }
}

impl View for Verdict {
    type V = VerdictView;

    open spec fn view(&self) -> VerdictView {
        VerdictView { exit_code: self.exit_code, report: self.report@ }
    }
}

/// What is written to the standard error for an error of the front end:
/// the error's message after `Error: `, and after an empty line the advice
/// that goes with the error, where there is any.
pub open spec fn error_text(error: ErrorView) -> Seq<char> {
    if guidance_text(error).len() == 0 {
        "Error: "@ + message_text(error)
    } else {
        "Error: "@ + message_text(error) + "\n\n"@ + guidance_text(error)
    }
}

/// What a report writes to the standard error, if it writes anything.
pub open spec fn last_words(report: ReportView) -> Option<Seq<char>> {
    match report {
        ReportView::Silent => None,
        ReportView::Relay(words) => Some(words),
        ReportView::Failure(error) => Some(error_text(error)),
    }
}

impl Report {
    /// What this report writes to the standard error, if it writes
    /// anything.
    pub fn last_words(&self) -> (words: Option<String>)
        ensures
            match words {
                Some(text) => last_words(self@) == Some(text@),
                None => last_words(self@) is None,
            },
    {
        match self {
            Report::Silent => None,
            Report::Relay(words) => Some(words.clone()),
            Report::Failure(error) => {
                let mut text = String::from_str("Error: ");
                text.append(error.message().as_str());
                let guidance = error.guidance();
                if !guidance.as_str().is_empty() {
                    text.append("\n\n");
                    text.append(guidance.as_str());
                }
                Some(text)
            },
        }
    }
}

/// Whether the engine ended well: it left the exit code 0.
pub open spec fn succeeded(exit_code: Option<i32>) -> bool {
    exit_code == Some(0i32)
}

/// The exit code that the front end passes on: the engine's own, or the
/// fallback where the engine left none.
pub open spec fn propagated(exit_code: Option<i32>) -> i32 {
    match exit_code {
        Some(code) => code,
        None => EXIT_FALLBACK,
    }
}

/// Whether the engine's words show that it lacked the rights it needs.
pub open spec fn shows_missing_privileges(stderr: Seq<char>) -> bool {
    contains(stderr, "privileges are required"@) || contains(stderr, "permission denied"@)
}

/// The verdict on a run. A run that ended well passes in silence, and its
/// words are not looked at. After any other run the exit code is passed on;
/// words that show missing rights are replaced by `InsufficientPrivileges`,
/// all others are relayed as they are, and no words give no report.
pub open spec fn classified(exit_code: Option<i32>, stderr: Seq<char>) -> VerdictView {
    if succeeded(exit_code) {
        VerdictView { exit_code: 0, report: ReportView::Silent }
    } else if shows_missing_privileges(stderr) {
        VerdictView {
            exit_code: propagated(exit_code),
            report: ReportView::Failure(ErrorView::InsufficientPrivileges),
        }
    } else if stderr.len() == 0 {
        VerdictView { exit_code: propagated(exit_code), report: ReportView::Silent }
    } else {
        VerdictView { exit_code: propagated(exit_code), report: ReportView::Relay(stderr) }
    }
}

/// Decides how the front end ends after a run of the engine.
pub fn classify(result: InvocationResult) -> (verdict: Verdict)
    ensures
        verdict@ == classified(result.exit_code, result.captured_stderr@),
{
    let exit_code = match result.exit_code {
        Some(code) => code,
        None => EXIT_FALLBACK,
    };
    if exit_code == 0 && result.exit_code.is_some() {
        return Verdict { exit_code: 0, report: Report::Silent };
    }
    let stderr = result.captured_stderr;
    if contains_text(stderr.as_str(), "privileges are required") || contains_text(
        stderr.as_str(),
        "permission denied",
    ) {
        Verdict { exit_code, report: Report::Failure(MtrError::InsufficientPrivileges) }
    } else if stderr.as_str().is_empty() {
        Verdict { exit_code, report: Report::Silent }
    } else {
        Verdict { exit_code, report: Report::Relay(stderr) }
    }
}

/// After a run that did not end well, words that hold "permission denied"
/// give `InsufficientPrivileges`, whatever the exit code was, and also where
/// there was none.
pub proof fn permission_denied_gives_insufficient_privileges(
    exit_code: Option<i32>,
    stderr: Seq<char>,
)
    requires
        !succeeded(exit_code),
        contains(stderr, "permission denied"@),
    ensures
        classified(exit_code, stderr).report == ReportView::Failure(
            ErrorView::InsufficientPrivileges,
        ),
        classified(exit_code, stderr).exit_code == propagated(exit_code),
{
}

/// The engine's exit code is passed on as it is, and the fallback stands in
/// where the engine left none; so the front end exits with 0 exactly when
/// the engine ended well.
pub proof fn exit_code_is_passed_on(exit_code: Option<i32>, stderr: Seq<char>)
    ensures
        classified(exit_code, stderr).exit_code == propagated(exit_code),
        classified(exit_code, stderr).exit_code == 0 <==> succeeded(exit_code),
{
}

} // verus!
