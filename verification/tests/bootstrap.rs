use biometrics_studio::bootstrap::{
    persisted_state_flags, persists_window_state, plugin_chain, Plugin,
};
use biometrics_studio::error::{CommandError, FatalWindowError};

const SIZE: u32 = 1 << 0;
const POSITION: u32 = 1 << 1;
const MAXIMIZED: u32 = 1 << 2;
const VISIBLE: u32 = 1 << 3;
const DECORATIONS: u32 = 1 << 4;
const FULLSCREEN: u32 = 1 << 5;
const ALL: u32 = SIZE | POSITION | MAXIMIZED | VISIBLE | DECORATIONS | FULLSCREEN;

#[test]
fn plugin_chain_without_window_state() {
    assert_eq!(
        plugin_chain(false),
        vec![
            Plugin::OsInfo,
            Plugin::Store,
            Plugin::Filesystem,
            Plugin::Dialog,
            Plugin::SingleInstance,
        ]
    );
}

#[test]
fn plugin_chain_with_window_state_last() {
    assert_eq!(
        plugin_chain(true),
        vec![
            Plugin::OsInfo,
            Plugin::Store,
            Plugin::Filesystem,
            Plugin::Dialog,
            Plugin::SingleInstance,
            Plugin::WindowState,
        ]
    );
}

#[test]
fn window_state_is_persisted_on_windows_only() {
    assert!(persists_window_state("windows"));
    assert!(!persists_window_state("linux"));
    assert!(!persists_window_state("macos"));
    assert!(!persists_window_state("Windows"));
    assert!(!persists_window_state("windows "));
    assert!(!persists_window_state(""));
}

#[test]
fn plugin_chain_follows_the_operating_system() {
    assert_eq!(plugin_chain(persists_window_state("windows")).len(), 6);
    assert_eq!(plugin_chain(persists_window_state("linux")).len(), 5);
}

#[test]
fn persisted_flags_leave_out_visibility_and_decorations() {
    let flags = persisted_state_flags(ALL, VISIBLE, DECORATIONS);
    assert_eq!(flags, 39);
    assert_eq!(flags, SIZE | POSITION | MAXIMIZED | FULLSCREEN);
    assert_eq!(flags & VISIBLE, 0);
    assert_eq!(flags & DECORATIONS, 0);
}

#[test]
fn persisted_flags_keep_only_flags_of_all() {
    assert_eq!(persisted_state_flags(0, VISIBLE, DECORATIONS), 0);
    assert_eq!(persisted_state_flags(SIZE | VISIBLE, VISIBLE, DECORATIONS), SIZE);
    assert_eq!(persisted_state_flags(ALL, 0, 0), ALL);
    assert_eq!(persisted_state_flags(u32::MAX, VISIBLE, DECORATIONS), u32::MAX - 24);
    assert_eq!(persisted_state_flags(ALL, ALL, 0), 0);
}

#[test]
fn fatal_messages_name_what_failed() {
    assert_eq!(
        FatalWindowError::MainWindowMissing.message(),
        "no window labeled 'main' found"
    );
    assert_eq!(
        FatalWindowError::ShowFailed {
            label: "main".to_string(),
            reason: "no display".to_string(),
        }
        .message(),
        "failed to show window 'main': no display"
    );
    assert_eq!(
        FatalWindowError::CloseFailed {
            label: "splashscreen".to_string(),
            reason: "event loop gone".to_string(),
        }
        .message(),
        "failed to close window 'splashscreen': event loop gone"
    );
    assert_eq!(
        FatalWindowError::StartupFailed {
            reason: "Setup(..)".to_string(),
        }
        .message(),
        "error while running Biometrics Studio: Setup(..)"
    );
    assert_eq!(
        FatalWindowError::ShowFailed {
            label: String::new(),
            reason: String::new(),
        }
        .message(),
        "failed to show window '': "
    );
}

#[test]
fn errors_compare_by_tier_and_message() {
    assert_ne!(
        CommandError::Reported("x".to_string()),
        CommandError::Fatal(FatalWindowError::StartupFailed {
            reason: "x".to_string(),
        })
    );
    assert_ne!(
        FatalWindowError::ShowFailed {
            label: "main".to_string(),
            reason: "x".to_string(),
        },
        FatalWindowError::CloseFailed {
            label: "main".to_string(),
            reason: "x".to_string(),
        }
    );
    assert_eq!(
        CommandError::Reported("x".to_string()),
        CommandError::Reported("x".to_string())
    );
}
