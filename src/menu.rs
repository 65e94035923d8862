use vstd::prelude::*;
use vstd::string::StrSliceExecFns;

verus! {

/// What a menu event asks the host to do with the main window.
#[derive(Clone, Copy, Debug, PartialEq, Eq, Structural)]
pub enum MenuCommand {
    /// Focus the settings window, creating it if it is not open.
    OpenSettings,
    /// Reload the page shown in the main window.
    Reload,
    /// Toggle full screen.
    ToggleFullscreen,
    /// Maximize the window, or restore it when it is maximized.
    ToggleZoom,
    /// An item the application does not handle itself.
    Ignore,
}

/// The command for the menu item with identifier `id`. The help item opens
/// the settings window as well.
pub open spec fn menu_command_of(id: Seq<char>) -> MenuCommand {
    if id == "settings"@ || id == "help"@ {
        MenuCommand::OpenSettings
    } else if id == "reload"@ {
        MenuCommand::Reload
    } else if id == "fullscreen"@ {
        MenuCommand::ToggleFullscreen
    } else if id == "zoom"@ {
        MenuCommand::ToggleZoom
    } else {
        MenuCommand::Ignore
    }
}

/// Whether `a` and `b` hold the same characters.
pub fn same_chars(a: &str, b: &str) -> (r: bool)
    ensures
        r == (a@ == b@),
{
    let n = a.unicode_len();
    if n != b.unicode_len() {
        return false;
    }
    let mut i: usize = 0;
    while i < n
        invariant
            i <= n,
            n == a@.len(),
            n == b@.len(),
            forall|k: int| 0 <= k < i ==> a@[k] == b@[k],
        decreases n - i,
    {
        if a.get_char(i) != b.get_char(i) {
            return false;
        }
        i = i + 1;
    }
    assert(a@ =~= b@);
    true
}

/// Dispatches a menu event by its item identifier.
pub fn menu_command(id: &str) -> (c: MenuCommand)
    ensures
        c == menu_command_of(id@),
{
    if same_chars(id, "settings") || same_chars(id, "help") {
        MenuCommand::OpenSettings
    } else if same_chars(id, "reload") {
        MenuCommand::Reload
    } else if same_chars(id, "fullscreen") {
        MenuCommand::ToggleFullscreen
    } else if same_chars(id, "zoom") {
        MenuCommand::ToggleZoom
    } else {
        MenuCommand::Ignore
    }
}

} // verus!
