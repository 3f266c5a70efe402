//! The command layer: what each operation of the shell asks of the windowing toolkit, and
//! what becomes of the toolkit's answer.
//!
//! A command runs in two halves around one toolkit call. The first half reads the registry
//! and decides: it fails, or it is done, or it names the one request that the toolkit has
//! to carry out. The caller performs the request and hands the toolkit's answer to
//! [`conclude`], which gives the command's result. What a request that was carried out does
//! to the registry is said by [`RegistryView::after`].

use crate::error::{CommandError, CommandErrorView, FatalWindowError, FatalWindowErrorView};
use crate::registry::{RegistryView, WindowRegistry};
use crate::request::{Request, RequestView};
use crate::window::{
    settings_window,
    settings_window_config,
    Visibility,
    MAIN_LABEL,
    SETTINGS_LABEL,
    SPLASHSCREEN_LABEL,
};
use vstd::prelude::*;

verus! {

/// The operations of the shell.
#[derive(Clone, Copy, Debug, PartialEq, Eq, Structural)]
pub enum Command {
    /// Invoked by the front-end: make the main window visible if it is hidden.
    ShowMainWindowIfHidden,
    /// Invoked by the front-end: close the splash screen if there is one.
    CloseSplashscreenIfExists,
    /// Invoked by the front-end: bring up the settings window.
    OpenSettingsWindow,
    /// Raised when a second process of the application was launched: bring the main window
    /// of this process to the front.
    FocusMainWindow,
}

/// Mathematical value of a request that may not have been made.
pub open spec fn request_view(request: Option<Request>) -> Option<RequestView> {
    match request {
        Some(request) => Some(request@),
        None => None,
    }
}

/// Mathematical value of what the first half of a command returns.
pub open spec fn decision_view(decided: Result<Option<Request>, FatalWindowError>) -> Result<
    Option<RequestView>,
    FatalWindowErrorView,
> {
    match decided {
        Ok(request) => Ok(request_view(request)),
        Err(error) => Err(error@),
    }
}

/// Mathematical value of the toolkit's answer to a request.
pub open spec fn answer_view(answer: Result<(), String>) -> Result<(), Seq<char>> {
    match answer {
        Ok(()) => Ok(()),
        Err(reason) => Err(reason@),
    }
}

/// Mathematical value of a command's result.
pub open spec fn result_view(result: Result<(), CommandError>) -> Result<(), CommandErrorView> {
    match result {
        Ok(()) => Ok(()),
        Err(error) => Err(error@),
    }
}

/// Showing the main window: without a main window the command fails; a hidden main window
/// is shown; a visible one, or one whose visibility the toolkit could not tell, is left
/// alone.
pub open spec fn show_main_window_decision(registry: RegistryView) -> Result<
    Option<RequestView>,
    FatalWindowErrorView,
> {
    match registry.visibility(MAIN_LABEL@) {
        None => Err(FatalWindowErrorView::MainWindowMissing),
        Some(Visibility::Hidden) => Ok(Some(RequestView::Show(MAIN_LABEL@))),
        Some(_) => Ok(None),
    }
}

/// Closing the splash screen: it is closed if it exists, and its absence is no error.
pub open spec fn close_splashscreen_decision(registry: RegistryView) -> Option<RequestView> {
    if registry.contains(SPLASHSCREEN_LABEL@) {
        Some(RequestView::Close(SPLASHSCREEN_LABEL@))
    } else {
        None
    }
}

/// Opening the settings window: an existing one is brought to the front, else one is
/// created.
pub open spec fn open_settings_window_decision(registry: RegistryView) -> RequestView {
    if registry.contains(SETTINGS_LABEL@) {
        RequestView::Focus(SETTINGS_LABEL@)
    } else {
        RequestView::Create(settings_window())
    }
}

/// Focusing the main window: without a main window the command fails, else the main window
/// is brought to the front.
pub open spec fn focus_main_window_decision(registry: RegistryView) -> Result<
    RequestView,
    FatalWindowErrorView,
> {
    if registry.contains(MAIN_LABEL@) {
        Ok(RequestView::Focus(MAIN_LABEL@))
    } else {
        Err(FatalWindowErrorView::MainWindowMissing)
    }
}

/// What the first half of `command` decides on `registry`.
pub open spec fn decision(command: Command, registry: RegistryView) -> Result<
    Option<RequestView>,
    FatalWindowErrorView,
> {
    match command {
        Command::ShowMainWindowIfHidden => show_main_window_decision(registry),
        Command::CloseSplashscreenIfExists => Ok(close_splashscreen_decision(registry)),
        Command::OpenSettingsWindow => Ok(Some(open_settings_window_decision(registry))),
        Command::FocusMainWindow => match focus_main_window_decision(registry) {
            Ok(request) => Ok(Some(request)),
            Err(error) => Err(error),
        },
    }
}

/// What a command returns once the toolkit has answered its request. An answer without
/// error is success. A window that could not be shown or closed is fatal. A window that
/// could not be created is reported with the toolkit's diagnostic. A window that could not
/// be focused is passed over: the command succeeds.
pub open spec fn conclusion(request: RequestView, answer: Result<(), Seq<char>>) -> Result<
    (),
    CommandErrorView,
> {
    match answer {
        Ok(()) => Ok(()),
        Err(reason) => match request {
            RequestView::Show(label) => Err(
                CommandErrorView::Fatal(FatalWindowErrorView::ShowFailed { label, reason }),
            ),
            RequestView::Close(label) => Err(
                CommandErrorView::Fatal(FatalWindowErrorView::CloseFailed { label, reason }),
            ),
            RequestView::Focus(_) => Ok(()),
            RequestView::Create(_) => Err(CommandErrorView::Reported(reason)),
        },
    }
}

/// First half of the command that makes the main window visible if it is hidden.
///
/// Fails with [`FatalWindowError::MainWindowMissing`] if no window is labeled `main`.
/// Else asks for the main window to be shown if, and only if, it is hidden.
pub fn show_main_window_if_hidden(registry: &WindowRegistry) -> (decided: Result<
    Option<Request>,
    FatalWindowError,
>)
    ensures
        decision_view(decided) == show_main_window_decision(registry@),
{
    match registry.visibility(MAIN_LABEL) {
        None => Err(FatalWindowError::MainWindowMissing),
        Some(Visibility::Hidden) => Ok(Some(Request::Show(MAIN_LABEL.to_owned()))),
        Some(_) => Ok(None),
    }
}

/// First half of the command that closes the splash screen if there is one.
///
/// Asks for the window labeled `splashscreen` to be closed if, and only if, it exists.
pub fn close_splashscreen_if_exists(registry: &WindowRegistry) -> (decided: Option<Request>)
    ensures
        request_view(decided) == close_splashscreen_decision(registry@),
{
    if registry.contains(SPLASHSCREEN_LABEL) {
        Some(Request::Close(SPLASHSCREEN_LABEL.to_owned()))
    } else {
        None
    }
}

/// First half of the command that brings up the settings window.
///
/// Asks for the window labeled `settings` to be focused if it exists, and for the settings
/// window to be created if it does not.
pub fn open_settings_window(registry: &WindowRegistry) -> (request: Request)
    ensures
        request@ == open_settings_window_decision(registry@),
{
    if registry.contains(SETTINGS_LABEL) {
        Request::Focus(SETTINGS_LABEL.to_owned())
    } else {
        Request::Create(settings_window_config())
    }
}

/// First half of the answer to the launch of a second process.
///
/// Fails with [`FatalWindowError::MainWindowMissing`] if no window is labeled `main`.
/// Else asks for the main window to be focused; no window is created.
pub fn focus_main_window(registry: &WindowRegistry) -> (decided: Result<
    Request,
    FatalWindowError,
>)
    ensures
        match focus_main_window_decision(registry@) {
            Ok(request) => decided matches Ok(asked) && asked@ == request,
            Err(error) => decided matches Err(failed) && failed@ == error,
        },
{
    if registry.contains(MAIN_LABEL) {
        Ok(Request::Focus(MAIN_LABEL.to_owned()))
    } else {
        Err(FatalWindowError::MainWindowMissing)
    }
}

/// First half of `command`: the command fails, or is done (`Ok(None)`), or names the
/// request that the toolkit has to carry out.
pub fn decide(command: Command, registry: &WindowRegistry) -> (decided: Result<
    Option<Request>,
    FatalWindowError,
>)
    ensures
        decision_view(decided) == decision(command, registry@),
{
    match command {
        Command::ShowMainWindowIfHidden => show_main_window_if_hidden(registry),
        Command::CloseSplashscreenIfExists => Ok(close_splashscreen_if_exists(registry)),
        Command::OpenSettingsWindow => Ok(Some(open_settings_window(registry))),
        Command::FocusMainWindow => match focus_main_window(registry) {
            Ok(request) => Ok(Some(request)),
            Err(error) => Err(error),
        },
    }
}

/// Second half of a command: its result, given the toolkit's answer to the request that
/// the first half made.
pub fn conclude(request: &Request, answer: Result<(), String>) -> (result: Result<
    (),
    CommandError,
>)
    ensures
        result_view(result) == conclusion(request@, answer_view(answer)),
{
    match answer {
        Ok(()) => Ok(()),
        Err(reason) => match request {
            Request::Show(label) => Err(
                CommandError::Fatal(FatalWindowError::ShowFailed { label: label.clone(), reason }),
            ),
            Request::Close(label) => Err(
                CommandError::Fatal(
                    FatalWindowError::CloseFailed { label: label.clone(), reason },
                ),
            ),
            Request::Focus(_) => Ok(()),
            Request::Create(_) => Err(CommandError::Reported(reason)),
        },
    }
}

} // verus!
