//! The menu-bar icon: its menu entries and what a click on it does.
use vstd::prelude::*;

use crate::text::same_text;

verus! {

/// The entries of the tray menu.
#[derive(Debug, Clone, Copy, PartialEq, Eq, Structural)]
pub enum TrayMenu {
    Quit,
    Settings,
    DevTools,
}

/// The id under which an entry is registered in the tray menu.
pub open spec fn menu_id(menu: TrayMenu) -> Seq<char> {
    match menu {
        TrayMenu::Quit => "quit"@,
        TrayMenu::Settings => "settings"@,
        TrayMenu::DevTools => "devtools"@,
    }
}

/// The entry registered under `id`, if any.
pub open spec fn menu_for_id(id: Seq<char>) -> Option<TrayMenu> {
    if id == "quit"@ {
        Some(TrayMenu::Quit)
    } else if id == "settings"@ {
        Some(TrayMenu::Settings)
    } else if id == "devtools"@ {
        Some(TrayMenu::DevTools)
    } else {
        None
    }
}

impl TrayMenu {
    /// The entry registered under `id`; `None` for an id that names no entry.
    pub fn from_id(id: &str) -> (menu: Option<TrayMenu>)
        ensures
            menu == menu_for_id(id@),
    {
        if same_text(id, "quit") {
            Some(TrayMenu::Quit)
        } else if same_text(id, "settings") {
            Some(TrayMenu::Settings)
        } else if same_text(id, "devtools") {
            Some(TrayMenu::DevTools)
        } else {
            None
        }
    }

    /// The entry whose id the tray reports; the id must name an entry.
    pub fn from(value: String) -> (menu: TrayMenu)
        requires
            menu_for_id(value@) is Some,
        ensures
            menu_for_id(value@) == Some(menu),
    {
        TrayMenu::from_id(value.as_str()).unwrap()
    }
}

impl From<TrayMenu> for String {
    /// The id under which `value` is registered in the tray menu.
    fn from(value: TrayMenu) -> (id: String)
        ensures
            id@ == menu_id(value),
    {
        match value {
            TrayMenu::Quit => String::from_str("quit"),
            TrayMenu::Settings => String::from_str("settings"),
            TrayMenu::DevTools => String::from_str("devtools"),
        }
    }
}

impl vstd::std_specs::convert::FromSpecImpl<TrayMenu> for String {
    /// A `String` is known by its characters alone, so the conversion is stated by
    /// `String::from`'s own postcondition over the view.
    open spec fn obeys_from_spec() -> bool {
        false
    }

    open spec fn from_spec(v: TrayMenu) -> String {
        vstd::pervasive::arbitrary()
    }
}

/// Every entry is found again under its own id.
pub proof fn lemma_menu_id_round_trip(menu: TrayMenu)
    ensures
        menu_for_id(menu_id(menu)) == Some(menu),
{
    reveal_strlit("quit");
    reveal_strlit("settings");
    reveal_strlit("devtools");
    assert("quit"@.len() != "settings"@.len());
    assert("quit"@.len() != "devtools"@.len());
    assert("settings"@[0] != "devtools"@[0]);
}

/// An id that names an entry is that entry's own id.
pub proof fn lemma_id_of_found_menu(id: Seq<char>)
    ensures
        menu_for_id(id) matches Some(menu) ==> menu_id(menu) == id,
{
}

/// What happens on the tray icon.
#[derive(Debug, Clone, Copy, PartialEq, Eq, Structural)]
pub enum TrayEvent {
    /// A left click on the icon, while the main window is or is not visible.
    LeftClick { main_visible: bool },
    /// A click on an entry of the menu.
    MenuItemClick(TrayMenu),
    /// Anything else.
    Other,
}

/// What the app does in answer.
#[derive(Debug, Clone, Copy, PartialEq, Eq, Structural)]
pub enum TrayAction {
    HideMain,
    ShowMain,
    Quit,
    ShowSettings,
    OpenDevTools,
    Nothing,
}

/// The answer to each tray event.
pub open spec fn spec_handle(event: TrayEvent) -> TrayAction {
    match event {
        TrayEvent::LeftClick { main_visible } => if main_visible {
            TrayAction::HideMain
        } else {
            TrayAction::ShowMain
        },
        TrayEvent::MenuItemClick(TrayMenu::Quit) => TrayAction::Quit,
        TrayEvent::MenuItemClick(TrayMenu::Settings) => TrayAction::ShowSettings,
        TrayEvent::MenuItemClick(TrayMenu::DevTools) => TrayAction::OpenDevTools,
        TrayEvent::Other => TrayAction::Nothing,
    }
}

/// A left click toggles the main window; a menu entry quits, opens the settings or
/// opens the developer tools; anything else is ignored.
pub fn handle(event: TrayEvent) -> (action: TrayAction)
    ensures
        action == spec_handle(event),
{
    match event {
        TrayEvent::LeftClick { main_visible } => if main_visible {
            TrayAction::HideMain
        } else {
            TrayAction::ShowMain
        },
        TrayEvent::MenuItemClick(menu) => match menu {
            TrayMenu::Quit => TrayAction::Quit,
            TrayMenu::Settings => TrayAction::ShowSettings,
            TrayMenu::DevTools => TrayAction::OpenDevTools,
        },
        TrayEvent::Other => TrayAction::Nothing,
    }
}

} // verus!
