//! The shell's two windows, and the one window command that decides
//! anything.
use vstd::prelude::*;

verus! {

/// The toolkit's name for the primary window.
pub open spec fn main_window_text() -> Seq<char> {
    "main"@
}

/// The toolkit's name for the settings window.
pub open spec fn settings_window_text() -> Seq<char> {
    "settings"@
}

/// The toolkit's name for the primary window.
pub fn main_window_label() -> (r: &'static str)
    ensures
        r@ == main_window_text(),
{
    "main"
}

/// The title of the settings menu in the menu bar.
pub fn menu_title() -> (r: &'static str)
    ensures
        r@ == "设置"@,
{
    "设置"
}

/// How the settings window is made: small, of fixed size, on a page that is
/// bundled with the shell.
#[derive(Clone, Copy, Debug, PartialEq, Eq)]
pub struct SettingsWindow {
    pub label: &'static str,
    pub page: &'static str,
    pub title: &'static str,
    pub width: u32,
    pub height: u32,
    pub resizable: bool,
}

/// The one way a settings window is made.
pub fn settings_window() -> (r: SettingsWindow)
    ensures
        r.label@ == settings_window_text(),
        r.page@ == "/settings.html"@,
        r.title@ == "设置加载 URL"@,
        r.width == 520,
        r.height == 160,
        !r.resizable,
{
    SettingsWindow {
        label: "settings",
        page: "/settings.html",
        title: "设置加载 URL",
        width: 520,
        height: 160,
        resizable: false,
    }
}

/// A change of a window between maximized and restored.
#[derive(Clone, Copy, Debug, PartialEq, Eq, Structural)]
pub enum MaximizeCommand {
    Maximize,
    Unmaximize,
}

/// Flips the maximized state: a maximized window is restored, any other
/// maximized.
pub fn toggle_maximize(maximized: bool) -> (r: MaximizeCommand)
    ensures
        r == if maximized {
            MaximizeCommand::Unmaximize
        } else {
            MaximizeCommand::Maximize
        },
{
    if maximized {
        MaximizeCommand::Unmaximize
    } else {
        MaximizeCommand::Maximize
    }
}

} // verus!
