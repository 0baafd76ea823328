use vstd::prelude::*;

verus! {

/// The global shortcut that toggles the main window unless the user chose another.
pub const DEFAULT_SHORTCUT: &'static str = "Cmd+Alt+Shift+C";

/// The shortcut that opens the settings while the main window has the focus.
pub const SETTINGS_SHORTCUT: &'static str = "Cmd+,";

/// The shortcut that hides the main window while it has the focus.
pub const ESCAPE_SHORTCUT: &'static str = "Escape";

} // verus!
