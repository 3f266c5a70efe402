//! Assembling the application: which capability plugins are attached before the event loop
//! runs, in which order, and what the window-state plugin is told to persist.

use vstd::prelude::*;

verus! {

/// Name of the one operating system on which window geometry is persisted, in the
/// spelling of the standard library's constant for the running system.
pub const WINDOW_STATE_OS: &'static str = "windows";

/// A capability module that is attached to the application builder.
#[derive(Clone, Copy, Debug, PartialEq, Eq, Structural)]
pub enum Plugin {
    /// Queries about the operating system.
    OsInfo,
    /// Persistent key-value store.
    Store,
    /// Access to the file system.
    Filesystem,
    /// Native file and message dialogs.
    Dialog,
    /// Single-instance enforcement: a second launch notifies the running process.
    SingleInstance,
    /// Persistence of window position and size across launches.
    WindowState,
}

/// The plugins in the order of their attachment. The window-state plugin comes last, and
/// only if `persist_window_state` is set.
pub open spec fn plugins(persist_window_state: bool) -> Seq<Plugin> {
    let always = seq![
        Plugin::OsInfo,
        Plugin::Store,
        Plugin::Filesystem,
        Plugin::Dialog,
        Plugin::SingleInstance,
    ];
    if persist_window_state {
        always.push(Plugin::WindowState)
    } else {
        always
    }
}

/// The window state that is persisted: every flag of `all` but those of `visible` and of
/// `decorations`.
pub open spec fn persisted_flags(all: u32, visible: u32, decorations: u32) -> u32 {
    all & !visible & !decorations
}

/// Whether window geometry is persisted on the operating system named `os`.
pub fn persists_window_state(os: &str) -> (persisted: bool)
    ensures
        persisted == (os@ == WINDOW_STATE_OS@),
{
    os.to_owned() == WINDOW_STATE_OS.to_owned()
}

/// The plugins to attach, in order.
pub fn plugin_chain(persist_window_state: bool) -> (chain: Vec<Plugin>)
    ensures
        chain@ == plugins(persist_window_state),
{
    let mut chain = Vec::new();
    chain.push(Plugin::OsInfo);
    chain.push(Plugin::Store);
    chain.push(Plugin::Filesystem);
    chain.push(Plugin::Dialog);
    chain.push(Plugin::SingleInstance);
    if persist_window_state {
        chain.push(Plugin::WindowState);
    }
    chain
}

/// The flags handed to the window-state plugin, computed from the plugin's own flag
/// values: all of them, without visibility and without the decoration state.
pub fn persisted_state_flags(all: u32, visible: u32, decorations: u32) -> (flags: u32)
    ensures
        flags == persisted_flags(all, visible, decorations),
{
    all & !visible & !decorations
}

/// Neither visibility nor the decoration state is ever persisted, and nothing else is
/// left out: putting the two back gives all flags again.
pub proof fn law_persisted_flags(all: u32, visible: u32, decorations: u32)
    ensures
        persisted_flags(all, visible, decorations) & visible == 0,
        persisted_flags(all, visible, decorations) & decorations == 0,
        persisted_flags(all, visible, decorations) | (all & (visible | decorations)) == all,
{
    assert((all & !visible & !decorations) & visible == 0) by (bit_vector);
    assert((all & !visible & !decorations) & decorations == 0) by (bit_vector);
    assert((all & !visible & !decorations) | (all & (visible | decorations)) == all)
        by (bit_vector);
}

} // verus!
