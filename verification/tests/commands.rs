use biometrics_studio::commands::{
    close_splashscreen_if_exists, conclude, decide, focus_main_window, open_settings_window,
    show_main_window_if_hidden, Command,
};
use biometrics_studio::error::{CommandError, FatalWindowError};
use biometrics_studio::registry::WindowRegistry;
use biometrics_studio::request::Request;
use biometrics_studio::window::{settings_window_config, Visibility, Window, WindowConfig};

fn registry_of(windows: &[(&str, Visibility)]) -> WindowRegistry {
    let mut registry = WindowRegistry::new();
    for (label, visibility) in windows {
        assert!(registry.insert(Window::new(label, *visibility)));
    }
    registry
}

#[test]
fn fresh_launch_shows_main_window_and_closes_splashscreen() {
    let mut registry = registry_of(&[
        ("main", Visibility::Hidden),
        ("splashscreen", Visibility::Visible),
    ]);

    let shown = show_main_window_if_hidden(&registry);
    assert_eq!(shown, Ok(Some(Request::Show("main".to_string()))));
    let request = shown.unwrap().unwrap();
    assert!(registry.apply(&request));
    assert_eq!(conclude(&request, Ok(())), Ok(()));
    assert_eq!(registry.visibility("main"), Some(Visibility::Visible));
    assert_eq!(registry.visibility("splashscreen"), Some(Visibility::Visible));

    let closed = close_splashscreen_if_exists(&registry);
    assert_eq!(closed, Some(Request::Close("splashscreen".to_string())));
    let request = closed.unwrap();
    assert!(registry.apply(&request));
    assert_eq!(conclude(&request, Ok(())), Ok(()));
    assert!(!registry.contains("splashscreen"));
    assert_eq!(registry.visibility("splashscreen"), None);
    assert_eq!(registry.visibility("main"), Some(Visibility::Visible));
    assert_eq!(registry.len(), 1);
}

#[test]
fn open_settings_window_creates_the_described_window() {
    let mut registry = registry_of(&[("main", Visibility::Visible)]);

    let request = open_settings_window(&registry);
    let expected = WindowConfig {
        label: "settings".to_string(),
        url: "index.html?window=settings".to_string(),
        title: "Settings".to_string(),
        width: 600,
        height: 450,
        min_width: 400,
        min_height: 300,
        resizable: true,
        decorations: false,
        transparent: true,
        centered: true,
    };
    assert_eq!(request, Request::Create(expected.clone()));
    assert_eq!(settings_window_config(), expected);

    assert!(registry.apply(&request));
    assert_eq!(conclude(&request, Ok(())), Ok(()));
    assert!(registry.contains("settings"));
    assert_eq!(registry.visibility("settings"), Some(Visibility::Visible));
    assert!(registry.has_focus("settings"));
    assert!(!registry.has_focus("main"));
    assert_eq!(registry.len(), 2);
}

#[test]
fn open_settings_window_twice_keeps_one_window() {
    let mut registry = registry_of(&[("main", Visibility::Visible)]);

    let first = open_settings_window(&registry);
    assert!(matches!(first, Request::Create(_)));
    assert!(registry.apply(&first));
    assert_eq!(registry.count("settings"), 1);

    assert!(registry.focus("main"));
    assert!(!registry.has_focus("settings"));

    let second = open_settings_window(&registry);
    assert_eq!(second, Request::Focus("settings".to_string()));
    assert!(registry.apply(&second));
    assert_eq!(registry.count("settings"), 1);
    assert_eq!(registry.len(), 2);
    assert!(registry.has_focus("settings"));
}

#[test]
fn close_splashscreen_without_splashscreen_does_nothing() {
    let registry = registry_of(&[("main", Visibility::Visible)]);
    assert_eq!(close_splashscreen_if_exists(&registry), None);
    assert_eq!(decide(Command::CloseSplashscreenIfExists, &registry), Ok(None));

    let empty = WindowRegistry::new();
    assert_eq!(close_splashscreen_if_exists(&empty), None);
}

#[test]
fn close_splashscreen_closes_a_hidden_splashscreen_too() {
    let registry = registry_of(&[("splashscreen", Visibility::Hidden)]);
    assert_eq!(
        close_splashscreen_if_exists(&registry),
        Some(Request::Close("splashscreen".to_string()))
    );
}

#[test]
fn show_main_window_leaves_a_visible_window_alone() {
    let registry = registry_of(&[
        ("splashscreen", Visibility::Hidden),
        ("main", Visibility::Visible),
    ]);
    assert_eq!(show_main_window_if_hidden(&registry), Ok(None));
    assert_eq!(registry.visibility("main"), Some(Visibility::Visible));
}

#[test]
fn show_main_window_leaves_a_window_of_unknown_visibility_alone() {
    let registry = registry_of(&[("main", Visibility::Unknown)]);
    assert_eq!(show_main_window_if_hidden(&registry), Ok(None));
}

#[test]
fn show_main_window_twice_asks_once() {
    let mut registry = registry_of(&[("main", Visibility::Hidden)]);
    let first = show_main_window_if_hidden(&registry).unwrap().unwrap();
    assert!(registry.apply(&first));
    assert_eq!(show_main_window_if_hidden(&registry), Ok(None));
}

#[test]
fn show_main_window_without_main_window_is_fatal() {
    let registry = registry_of(&[("splashscreen", Visibility::Visible)]);
    assert_eq!(
        show_main_window_if_hidden(&registry),
        Err(FatalWindowError::MainWindowMissing)
    );
    assert_eq!(
        decide(Command::ShowMainWindowIfHidden, &registry),
        Err(FatalWindowError::MainWindowMissing)
    );
}

#[test]
fn second_launch_focuses_the_main_window() {
    let mut registry = registry_of(&[
        ("main", Visibility::Visible),
        ("settings", Visibility::Visible),
    ]);
    assert!(registry.focus("settings"));

    let request = focus_main_window(&registry);
    assert_eq!(request, Ok(Request::Focus("main".to_string())));
    let request = request.unwrap();
    assert!(registry.apply(&request));
    assert!(registry.has_focus("main"));
    assert_eq!(registry.len(), 2);
    assert_eq!(registry.count("main"), 1);
    assert_eq!(registry.count("settings"), 1);
    assert_eq!(conclude(&request, Ok(())), Ok(()));
}

#[test]
fn second_launch_passes_over_a_failed_focus() {
    let registry = registry_of(&[("main", Visibility::Hidden)]);
    let request = focus_main_window(&registry).unwrap();
    assert_eq!(conclude(&request, Err("not focusable".to_string())), Ok(()));
}

#[test]
fn second_launch_without_main_window_is_fatal() {
    let registry = WindowRegistry::new();
    assert_eq!(
        focus_main_window(&registry),
        Err(FatalWindowError::MainWindowMissing)
    );
    assert_eq!(
        decide(Command::FocusMainWindow, &registry),
        Err(FatalWindowError::MainWindowMissing)
    );
}

#[test]
fn decide_gives_what_each_command_decides() {
    let registry = registry_of(&[
        ("main", Visibility::Hidden),
        ("splashscreen", Visibility::Visible),
        ("settings", Visibility::Visible),
    ]);
    assert_eq!(
        decide(Command::ShowMainWindowIfHidden, &registry),
        Ok(Some(Request::Show("main".to_string())))
    );
    assert_eq!(
        decide(Command::CloseSplashscreenIfExists, &registry),
        Ok(Some(Request::Close("splashscreen".to_string())))
    );
    assert_eq!(
        decide(Command::OpenSettingsWindow, &registry),
        Ok(Some(Request::Focus("settings".to_string())))
    );
    assert_eq!(
        decide(Command::FocusMainWindow, &registry),
        Ok(Some(Request::Focus("main".to_string())))
    );
}

#[test]
fn failed_show_is_fatal() {
    let registry = registry_of(&[("main", Visibility::Hidden)]);
    let request = show_main_window_if_hidden(&registry).unwrap().unwrap();
    assert_eq!(
        conclude(&request, Err("no display".to_string())),
        Err(CommandError::Fatal(FatalWindowError::ShowFailed {
            label: "main".to_string(),
            reason: "no display".to_string(),
        }))
    );
}

#[test]
fn failed_close_is_fatal() {
    let registry = registry_of(&[("splashscreen", Visibility::Visible)]);
    let request = close_splashscreen_if_exists(&registry).unwrap();
    assert_eq!(
        conclude(&request, Err("event loop gone".to_string())),
        Err(CommandError::Fatal(FatalWindowError::CloseFailed {
            label: "splashscreen".to_string(),
            reason: "event loop gone".to_string(),
        }))
    );
}

#[test]
fn failed_creation_is_reported_with_the_toolkit_message() {
    let registry = registry_of(&[("main", Visibility::Visible)]);
    let request = open_settings_window(&registry);
    assert_eq!(
        conclude(&request, Err("failed to create webview".to_string())),
        Err(CommandError::Reported(
            "failed to create webview".to_string()
        ))
    );
    assert_eq!(
        conclude(&request, Err(String::new())),
        Err(CommandError::Reported(String::new()))
    );
}

#[test]
fn existing_settings_window_is_success_even_if_focus_fails() {
    let registry = registry_of(&[("settings", Visibility::Visible)]);
    let request = open_settings_window(&registry);
    assert_eq!(request, Request::Focus("settings".to_string()));
    assert_eq!(conclude(&request, Ok(())), Ok(()));
    assert_eq!(conclude(&request, Err("not focusable".to_string())), Ok(()));
}

#[test]
fn answer_without_error_concludes_every_request() {
    for request in [
        Request::Show("main".to_string()),
        Request::Close("splashscreen".to_string()),
        Request::Focus("settings".to_string()),
        Request::Create(settings_window_config()),
    ] {
        assert_eq!(conclude(&request, Ok(())), Ok(()));
    }
}

/// Runs `command` on `registry` with a toolkit that carries out every request, or fails
/// every request with `failure`.
fn run(
    command: Command,
    registry: &mut WindowRegistry,
    failure: Option<&str>,
) -> Result<(), CommandError> {
    let request = match decide(command, registry) {
        Ok(Some(request)) => request,
        Ok(None) => return Ok(()),
        Err(fatal) => return Err(CommandError::Fatal(fatal)),
    };
    let answer = match failure {
        Some(reason) => Err(reason.to_string()),
        None => {
            assert!(registry.apply(&request));
            Ok(())
        }
    };
    conclude(&request, answer)
}

#[test]
fn session_from_launch_to_settings() {
    let mut registry = registry_of(&[
        ("main", Visibility::Hidden),
        ("splashscreen", Visibility::Visible),
    ]);

    assert_eq!(run(Command::ShowMainWindowIfHidden, &mut registry, None), Ok(()));
    assert_eq!(run(Command::CloseSplashscreenIfExists, &mut registry, None), Ok(()));
    assert_eq!(run(Command::CloseSplashscreenIfExists, &mut registry, None), Ok(()));
    assert_eq!(run(Command::ShowMainWindowIfHidden, &mut registry, None), Ok(()));
    assert_eq!(registry.len(), 1);
    assert_eq!(registry.visibility("main"), Some(Visibility::Visible));

    assert_eq!(run(Command::OpenSettingsWindow, &mut registry, None), Ok(()));
    assert!(registry.has_focus("settings"));
    assert_eq!(run(Command::FocusMainWindow, &mut registry, None), Ok(()));
    assert!(registry.has_focus("main"));
    assert_eq!(run(Command::OpenSettingsWindow, &mut registry, None), Ok(()));
    assert!(registry.has_focus("settings"));
    assert_eq!(registry.len(), 2);
    assert_eq!(registry.count("settings"), 1);
    assert_eq!(registry.count("main"), 1);
    assert_eq!(registry.count("splashscreen"), 0);
}

#[test]
fn session_with_a_failing_toolkit() {
    let mut registry = registry_of(&[
        ("main", Visibility::Hidden),
        ("splashscreen", Visibility::Visible),
    ]);

    assert_eq!(
        run(Command::ShowMainWindowIfHidden, &mut registry, Some("busy")),
        Err(CommandError::Fatal(FatalWindowError::ShowFailed {
            label: "main".to_string(),
            reason: "busy".to_string(),
        }))
    );
    assert_eq!(
        run(Command::CloseSplashscreenIfExists, &mut registry, Some("busy")),
        Err(CommandError::Fatal(FatalWindowError::CloseFailed {
            label: "splashscreen".to_string(),
            reason: "busy".to_string(),
        }))
    );
    assert_eq!(
        run(Command::OpenSettingsWindow, &mut registry, Some("busy")),
        Err(CommandError::Reported("busy".to_string()))
    );
    assert_eq!(run(Command::FocusMainWindow, &mut registry, Some("busy")), Ok(()));

    assert_eq!(registry.len(), 2);
    assert_eq!(registry.visibility("main"), Some(Visibility::Hidden));
    assert!(!registry.contains("settings"));
}

#[test]
fn commands_that_have_nothing_to_do_never_reach_the_toolkit() {
    let mut registry = registry_of(&[("main", Visibility::Visible)]);
    assert_eq!(
        run(Command::ShowMainWindowIfHidden, &mut registry, Some("busy")),
        Ok(())
    );
    assert_eq!(
        run(Command::CloseSplashscreenIfExists, &mut registry, Some("busy")),
        Ok(())
    );
    assert_eq!(registry.len(), 1);
    assert_eq!(registry.visibility("main"), Some(Visibility::Visible));
}

#[test]
fn without_main_window_nothing_is_asked_of_the_toolkit() {
    let mut registry = registry_of(&[("settings", Visibility::Visible)]);
    assert_eq!(
        run(Command::ShowMainWindowIfHidden, &mut registry, None),
        Err(CommandError::Fatal(FatalWindowError::MainWindowMissing))
    );
    assert_eq!(
        run(Command::FocusMainWindow, &mut registry, None),
        Err(CommandError::Fatal(FatalWindowError::MainWindowMissing))
    );
    assert_eq!(registry.len(), 1);
    assert!(!registry.has_focus("settings"));
}
