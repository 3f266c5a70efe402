//! What holds of the commands on every registry.

use crate::commands::{
    close_splashscreen_decision,
    conclusion,
    decision,
    focus_main_window_decision,
    open_settings_window_decision,
    show_main_window_decision,
    Command,
};
use crate::error::CommandErrorView;
use crate::registry::RegistryView;
use crate::request::RequestView;
use crate::window::{
    lemma_labels_differ,
    Visibility,
    WindowView,
    MAIN_LABEL,
    SETTINGS_LABEL,
    SETTINGS_TITLE,
    SETTINGS_URL,
    SPLASHSCREEN_LABEL,
};
use vstd::prelude::*;

verus! {

/// Label of the window that `command` is about.
pub open spec fn subject(command: Command) -> Seq<char> {
    match command {
        Command::ShowMainWindowIfHidden => MAIN_LABEL@,
        Command::CloseSplashscreenIfExists => SPLASHSCREEN_LABEL@,
        Command::OpenSettingsWindow => SETTINGS_LABEL@,
        Command::FocusMainWindow => MAIN_LABEL@,
    }
}

/// A command only asks for what the registry can take, and the registry is well formed
/// again once the toolkit has done it: no label is ever carried by two windows.
pub proof fn law_requests_fit_the_registry(command: Command, registry: RegistryView)
    requires
        registry.wf(),
    ensures
        decision(command, registry) matches Ok(Some(request)) ==> registry.admits(request)
            && registry.after(request).wf(),
{
    if let Ok(Some(request)) = decision(command, registry) {
        registry.lemma_after(request);
    }
}

/// A command touches one window only: its request is about the window that the command
/// is about, and every other window is there, and visible, as it was.
pub proof fn law_commands_touch_one_window(
    command: Command,
    registry: RegistryView,
    other: Seq<char>,
)
    requires
        registry.wf(),
        other != subject(command),
    ensures
        decision(command, registry) matches Ok(Some(request)) ==> request.label() == subject(
            command,
        ) && registry.after(request).visibility(other) == registry.visibility(other),
{
    if let Ok(Some(request)) = decision(command, registry) {
        registry.lemma_after(request);
    }
}

/// Opening the settings window twice in a row, with no close in between, leaves exactly one
/// settings window: the first call focuses or creates it, the second call only focuses the
/// window that is there and creates nothing.
pub proof fn law_settings_window_opens_once(registry: RegistryView)
    requires
        registry.wf(),
    ensures
        ({
            let first = open_settings_window_decision(registry);
            let opened = registry.after(first);
            let second = open_settings_window_decision(opened);
            &&& registry.admits(first)
            &&& opened.wf()
            &&& opened.count(SETTINGS_LABEL@) == 1
            &&& opened.focus == Some(SETTINGS_LABEL@)
            &&& second == RequestView::Focus(SETTINGS_LABEL@)
            &&& opened.after(second) == opened
        }),
{
    let first = open_settings_window_decision(registry);
    let opened = registry.after(first);
    opened.lemma_count(SETTINGS_LABEL@);
}

/// Where there is no settings window, opening it creates one window, 600 by 450 and never
/// smaller than 400 by 300, resizable, without native decorations, transparent and
/// centered; once created it is visible and holds the focus.
pub proof fn law_settings_window_is_created_as_described(registry: RegistryView)
    requires
        registry.wf(),
        !registry.contains(SETTINGS_LABEL@),
    ensures
        open_settings_window_decision(registry) matches RequestView::Create(config) && ({
            let opened = registry.after(RequestView::Create(config));
            &&& config.label == SETTINGS_LABEL@
            &&& config.url == SETTINGS_URL@
            &&& config.title == SETTINGS_TITLE@
            &&& config.width == 600 && config.height == 450
            &&& config.min_width == 400 && config.min_height == 300
            &&& config.resizable && !config.decorations && config.transparent && config.centered
            &&& opened.windows.len() == registry.windows.len() + 1
            &&& opened.visibility(SETTINGS_LABEL@) == Some(Visibility::Visible)
            &&& opened.focus == Some(SETTINGS_LABEL@)
        }),
{
    registry.lemma_after_insert(
        WindowView { label: SETTINGS_LABEL@, visibility: Visibility::Visible },
    );
}

/// Closing the splash screen when there is none asks nothing of the toolkit and is no
/// error: the registry stays as it is.
pub proof fn law_close_without_splashscreen(registry: RegistryView)
    requires
        !registry.contains(SPLASHSCREEN_LABEL@),
    ensures
        decision(Command::CloseSplashscreenIfExists, registry) matches Ok(None),
        registry.after_decision(close_splashscreen_decision(registry)) == registry,
{
}

/// Once the splash screen has been closed it is gone, and closing it again does nothing.
pub proof fn law_close_splashscreen_twice(registry: RegistryView)
    requires
        registry.wf(),
    ensures
        ({
            let closed = registry.after_decision(close_splashscreen_decision(registry));
            &&& !closed.contains(SPLASHSCREEN_LABEL@)
            &&& close_splashscreen_decision(closed) is None
        }),
{
    registry.lemma_after_close(SPLASHSCREEN_LABEL@);
}

/// Showing the main window when it is already visible asks nothing of the toolkit: the
/// registry, and with it the window's visibility, stays as it is.
pub proof fn law_show_visible_main_window(registry: RegistryView)
    requires
        registry.visibility(MAIN_LABEL@) == Some(Visibility::Visible),
    ensures
        show_main_window_decision(registry) matches Ok(decided) && decided is None
            && registry.after_decision(decided) == registry,
{
}

/// Showing the main window is idempotent: after one call a hidden main window is visible,
/// and a second call asks nothing of the toolkit.
pub proof fn law_show_main_window_twice(registry: RegistryView)
    requires
        registry.wf(),
        registry.contains(MAIN_LABEL@),
    ensures
        show_main_window_decision(registry) matches Ok(first) && ({
            let shown = registry.after_decision(first);
            &&& registry.visibility(MAIN_LABEL@) == Some(Visibility::Hidden)
                ==> shown.visibility(MAIN_LABEL@) == Some(Visibility::Visible)
            &&& registry.visibility(MAIN_LABEL@) != Some(Visibility::Hidden) ==> shown == registry
            &&& show_main_window_decision(shown) matches Ok(None)
        }),
{
    registry.lemma_after_show(MAIN_LABEL@);
}

/// The start of the application: with the main window hidden and the splash screen up,
/// showing the main window and then closing the splash screen leaves the main window
/// visible and no splash screen.
pub proof fn law_launch(registry: RegistryView)
    requires
        registry.wf(),
        registry.visibility(MAIN_LABEL@) == Some(Visibility::Hidden),
        registry.contains(SPLASHSCREEN_LABEL@),
    ensures
        show_main_window_decision(registry) matches Ok(first) && ({
            let shown = registry.after_decision(first);
            let second = close_splashscreen_decision(shown);
            let closed = shown.after_decision(second);
            &&& first == Some(RequestView::Show(MAIN_LABEL@))
            &&& shown.visibility(MAIN_LABEL@) == Some(Visibility::Visible)
            &&& second == Some(RequestView::Close(SPLASHSCREEN_LABEL@))
            &&& closed.visibility(MAIN_LABEL@) == Some(Visibility::Visible)
            &&& !closed.contains(SPLASHSCREEN_LABEL@)
        }),
{
    lemma_labels_differ();
    let shown = registry.after_show(MAIN_LABEL@);
    registry.lemma_after_show(MAIN_LABEL@);
    shown.lemma_after_close(SPLASHSCREEN_LABEL@);
}

/// The launch of a second process creates no window and closes none: the windows stay as
/// they are, and the main window holds the focus.
pub proof fn law_second_instance_focuses_main_window(registry: RegistryView)
    requires
        registry.contains(MAIN_LABEL@),
    ensures
        focus_main_window_decision(registry) matches Ok(request) && ({
            let focused = registry.after(request);
            &&& request == RequestView::Focus(MAIN_LABEL@)
            &&& focused.windows == registry.windows
            &&& focused.focus == Some(MAIN_LABEL@)
        }),
{
}

/// The two tiers of failure are kept apart, whatever the toolkit says when it fails. For
/// the commands that show the main window and close the splash screen a failed request is
/// fatal. The command that opens the settings window reports a failed creation with the
/// toolkit's own words, and succeeds when the window exists already. Focusing the main
/// window for a second process succeeds even if the toolkit could not focus it.
pub proof fn law_failure_tiers(command: Command, registry: RegistryView, reason: Seq<char>)
    ensures
        decision(command, registry) matches Ok(Some(request)) ==> {
            &&& conclusion(request, Ok(())) is Ok
            &&& match command {
                Command::ShowMainWindowIfHidden => conclusion(request, Err(reason)) matches Err(
                    CommandErrorView::Fatal(_),
                ),
                Command::CloseSplashscreenIfExists => conclusion(
                    request,
                    Err(reason),
                ) matches Err(CommandErrorView::Fatal(_)),
                Command::OpenSettingsWindow => if registry.contains(SETTINGS_LABEL@) {
                    conclusion(request, Err(reason)) is Ok
                } else {
                    conclusion(request, Err(reason)) matches Err(
                        CommandErrorView::Reported(message),
                    ) && message == reason
                },
                Command::FocusMainWindow => conclusion(request, Err(reason)) is Ok,
            }
        },
{
}

} // verus!
