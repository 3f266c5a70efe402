//! The two tiers of failure: fatal errors, after which the process must not go on, and
//! errors that are reported to the front-end.

use vstd::prelude::*;
use vstd::string::StringExecFns;

verus! {

/// Diagnostic for a missing main window.
pub const MAIN_WINDOW_MISSING: &'static str = "no window labeled 'main' found";

/// Start of the diagnostic for a window that could not be shown.
pub const SHOW_FAILED: &'static str = "failed to show window '";

/// Start of the diagnostic for a window that could not be closed.
pub const CLOSE_FAILED: &'static str = "failed to close window '";

/// What stands between the window's label and the toolkit's words in a diagnostic.
pub const BECAUSE: &'static str = "': ";

/// Start of the diagnostic for an event loop that did not start.
pub const STARTUP_FAILED: &'static str = "error while running Biometrics Studio: ";

/// A failure that leaves the application in a state the shell cannot recover from. The
/// caller terminates the process with [`FatalWindowError::message`].
#[derive(Clone, Debug, PartialEq, Eq)]
pub enum FatalWindowError {
    /// No window carries the label of the main window.
    MainWindowMissing,
    /// The toolkit could not show the window labeled `label`; `reason` is its diagnostic.
    ShowFailed { label: String, reason: String },
    /// The toolkit could not close the window labeled `label`; `reason` is its diagnostic.
    CloseFailed { label: String, reason: String },
    /// The event loop did not start; `reason` is the toolkit's diagnostic.
    StartupFailed { reason: String },
}

/// Mathematical value of a [`FatalWindowError`].
pub enum FatalWindowErrorView {
    MainWindowMissing,
    ShowFailed { label: Seq<char>, reason: Seq<char> },
    CloseFailed { label: Seq<char>, reason: Seq<char> },
    StartupFailed { reason: Seq<char> },
}

impl FatalWindowErrorView {
    /// The diagnostic with which the process terminates.
    pub open spec fn message(self) -> Seq<char> {
        match self {
            FatalWindowErrorView::MainWindowMissing => MAIN_WINDOW_MISSING@,
            FatalWindowErrorView::ShowFailed { label, reason } => SHOW_FAILED@ + label + BECAUSE@
                + reason,
            FatalWindowErrorView::CloseFailed { label, reason } => CLOSE_FAILED@ + label
                + BECAUSE@ + reason,
            FatalWindowErrorView::StartupFailed { reason } => STARTUP_FAILED@ + reason,
        }
    }
}

impl View for FatalWindowError {
    type V = FatalWindowErrorView;

    open spec fn view(&self) -> FatalWindowErrorView {
        match self {
            FatalWindowError::MainWindowMissing => FatalWindowErrorView::MainWindowMissing,
            FatalWindowError::ShowFailed { label, reason } => FatalWindowErrorView::ShowFailed {
                label: label@,
                reason: reason@,
            },
            FatalWindowError::CloseFailed { label, reason } => FatalWindowErrorView::CloseFailed {
                label: label@,
                reason: reason@,
            },
            FatalWindowError::StartupFailed { reason } => FatalWindowErrorView::StartupFailed {
                reason: reason@,
            },
        }
    }
}

/// `start`, then `label`, then [`BECAUSE`], then `reason`.
fn describe(start: &str, label: &str, reason: &str) -> (text: String)
    ensures
        text@ == start@ + label@ + BECAUSE@ + reason@,
{
    start.to_owned().concat(label).concat(BECAUSE).concat(reason)
}

impl FatalWindowError {
    /// The diagnostic with which the process terminates.
    pub fn message(&self) -> (text: String)
        ensures
            text@ == self@.message(),
    {
        match self {
            FatalWindowError::MainWindowMissing => MAIN_WINDOW_MISSING.to_owned(),
            FatalWindowError::ShowFailed { label, reason } => describe(
                SHOW_FAILED,
                label.as_str(),
                reason.as_str(),
            ),
            FatalWindowError::CloseFailed { label, reason } => describe(
                CLOSE_FAILED,
                label.as_str(),
                reason.as_str(),
            ),
            FatalWindowError::StartupFailed { reason } => STARTUP_FAILED.to_owned().concat(
                reason.as_str(),
            ),
        }
    }
}

/// How a command can fail.
#[derive(Clone, Debug, PartialEq, Eq)]
pub enum CommandError {
    /// The process must terminate.
    Fatal(FatalWindowError),
    /// The front-end is handed the toolkit's diagnostic and presents it.
    Reported(String),
}

/// Mathematical value of a [`CommandError`].
pub enum CommandErrorView {
    Fatal(FatalWindowErrorView),
    Reported(Seq<char>),
}

impl View for CommandError {
    type V = CommandErrorView;

    open spec fn view(&self) -> CommandErrorView {
        match self {
            CommandError::Fatal(error) => CommandErrorView::Fatal(error@),
            CommandError::Reported(message) => CommandErrorView::Reported(message@),
        }
    }
}

} // verus!
