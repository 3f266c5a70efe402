//! Windows as the shell sees them: a label, whether the window is on screen, and the
//! description from which a new window is built.

use vstd::prelude::*;

verus! {

/// Label of the application's primary window.
pub const MAIN_LABEL: &'static str = "main";

/// Label of the transient window shown while the application starts.
pub const SPLASHSCREEN_LABEL: &'static str = "splashscreen";

/// Label of the settings window.
pub const SETTINGS_LABEL: &'static str = "settings";

/// What the settings window loads: the root document, told to render the settings.
pub const SETTINGS_URL: &'static str = "index.html?window=settings";

/// Title of the settings window.
pub const SETTINGS_TITLE: &'static str = "Settings";

/// Initial width of the settings window, in density-independent units.
pub const SETTINGS_WIDTH: u32 = 600;

/// Initial height of the settings window, in density-independent units.
pub const SETTINGS_HEIGHT: u32 = 450;

/// Smallest width the settings window can be resized to.
pub const SETTINGS_MIN_WIDTH: u32 = 400;

/// Smallest height the settings window can be resized to.
pub const SETTINGS_MIN_HEIGHT: u32 = 300;

/// Whether a window is on screen, as far as the toolkit could tell.
#[derive(Clone, Copy, Debug, PartialEq, Eq, Structural)]
pub enum Visibility {
    /// The window is shown.
    Visible,
    /// The window exists but is not shown.
    Hidden,
    /// The toolkit failed to report the window's visibility.
    Unknown,
}

/// A window of the registry.
#[derive(Clone, Debug, PartialEq, Eq)]
pub struct Window {
    /// Label by which the window is found; no other window of a registry carries it.
    pub label: String,
    /// Whether the window is on screen.
    pub visibility: Visibility,
}

/// Mathematical value of a [`Window`].
pub struct WindowView {
    pub label: Seq<char>,
    pub visibility: Visibility,
}

impl View for Window {
    type V = WindowView;

    open spec fn view(&self) -> WindowView {
        WindowView { label: self.label@, visibility: self.visibility }
    }
}

impl Window {
    /// A window with the given label and visibility.
    pub fn new(label: &str, visibility: Visibility) -> (window: Window)
        ensures
            window@ == (WindowView { label: label@, visibility }),
    {
        Window { label: label.to_owned(), visibility }
    }
}

/// Everything the toolkit is told when a window is created.
#[derive(Clone, Debug, PartialEq, Eq)]
pub struct WindowConfig {
    /// Label under which the window is registered.
    pub label: String,
    /// Front-end route that the window loads.
    pub url: String,
    /// Text of the title bar.
    pub title: String,
    /// Initial inner width, in density-independent units.
    pub width: u32,
    /// Initial inner height, in density-independent units.
    pub height: u32,
    /// Smallest inner width.
    pub min_width: u32,
    /// Smallest inner height.
    pub min_height: u32,
    /// Whether the user can resize the window.
    pub resizable: bool,
    /// Whether the window has the native frame and title bar.
    pub decorations: bool,
    /// Whether the window's background is transparent.
    pub transparent: bool,
    /// Whether the window is placed in the middle of the screen when it is created.
    pub centered: bool,
}

/// Mathematical value of a [`WindowConfig`].
pub struct WindowConfigView {
    pub label: Seq<char>,
    pub url: Seq<char>,
    pub title: Seq<char>,
    pub width: u32,
    pub height: u32,
    pub min_width: u32,
    pub min_height: u32,
    pub resizable: bool,
    pub decorations: bool,
    pub transparent: bool,
    pub centered: bool,
}

impl View for WindowConfig {
    type V = WindowConfigView;

    open spec fn view(&self) -> WindowConfigView {
        WindowConfigView {
            label: self.label@,
            url: self.url@,
            title: self.title@,
            width: self.width,
            height: self.height,
            min_width: self.min_width,
            min_height: self.min_height,
            resizable: self.resizable,
            decorations: self.decorations,
            transparent: self.transparent,
            centered: self.centered,
        }
    }
}

/// The settings window: 600 by 450, never smaller than 400 by 300, resizable, without
/// native decorations, transparent, centered on the screen.
pub open spec fn settings_window() -> WindowConfigView {
    WindowConfigView {
        label: SETTINGS_LABEL@,
        url: SETTINGS_URL@,
        title: SETTINGS_TITLE@,
        width: 600,
        height: 450,
        min_width: 400,
        min_height: 300,
        resizable: true,
        decorations: false,
        transparent: true,
        centered: true,
    }
}

/// Description of the settings window.
pub fn settings_window_config() -> (config: WindowConfig)
    ensures
        config@ == settings_window(),
{
    WindowConfig {
        label: SETTINGS_LABEL.to_owned(),
        url: SETTINGS_URL.to_owned(),
        title: SETTINGS_TITLE.to_owned(),
        width: SETTINGS_WIDTH,
        height: SETTINGS_HEIGHT,
        min_width: SETTINGS_MIN_WIDTH,
        min_height: SETTINGS_MIN_HEIGHT,
        resizable: true,
        decorations: false,
        transparent: true,
        centered: true,
    }
}

/// The three labels that the shell knows are pairwise different.
pub proof fn lemma_labels_differ()
    ensures
        MAIN_LABEL@ != SPLASHSCREEN_LABEL@,
        MAIN_LABEL@ != SETTINGS_LABEL@,
        SPLASHSCREEN_LABEL@ != SETTINGS_LABEL@,
{
    reveal_strlit("main");
    reveal_strlit("splashscreen");
    reveal_strlit("settings");
    assert(MAIN_LABEL@.len() == 4);
    assert(SPLASHSCREEN_LABEL@.len() == 12);
    assert(SETTINGS_LABEL@.len() == 8);
}

} // verus!
