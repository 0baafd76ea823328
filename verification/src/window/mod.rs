//! The app's two windows and what their events do.
use vstd::prelude::*;

use crate::text::same_text;

pub mod main_window;

verus! {

/// The label of the main (commit) window.
pub const MAIN: &'static str = "main";

/// The label of the settings window.
pub const SETTINGS: &'static str = "settings";

/// What happens to a window.
#[derive(Debug, Clone, Copy, PartialEq, Eq, Structural)]
pub enum WindowEvent {
    /// The window gained (`true`) or lost (`false`) the focus.
    Focused(bool),
    /// The user asked to close the window.
    CloseRequested,
    /// Anything else.
    Other,
}

/// What the app does in answer.
#[derive(Debug, Clone, Copy, PartialEq, Eq, Structural)]
pub enum WindowAction {
    /// Prepare the main window: shortcuts, and the state of the latest repository.
    OpenMain,
    /// Reset the main window and release its shortcuts.
    CloseMain,
    /// Keep the main window from closing and hide it instead.
    HideMain,
    /// Keep the settings window from closing and hide it instead.
    HideSettings,
    /// Nothing.
    Nothing,
}

/// The answer to an event on the window labelled `label`.
pub open spec fn spec_handler(label: Seq<char>, event: WindowEvent) -> WindowAction {
    match event {
        WindowEvent::Focused(focused) => if label == MAIN@ {
            if focused {
                WindowAction::OpenMain
            } else {
                WindowAction::CloseMain
            }
        } else {
            WindowAction::Nothing
        },
        WindowEvent::CloseRequested => if label == MAIN@ {
            WindowAction::HideMain
        } else if label == SETTINGS@ {
            WindowAction::HideSettings
        } else {
            WindowAction::Nothing
        },
        WindowEvent::Other => WindowAction::Nothing,
    }
}

/// The main window opens its session when it gains the focus and closes it when it
/// loses it; the app's windows hide rather than close; other events change nothing.
pub fn handler(label: &str, event: WindowEvent) -> (action: WindowAction)
    ensures
        action == spec_handler(label@, event),
{
    let is_main = same_text(label, MAIN);
    match event {
        WindowEvent::Focused(focused) => if is_main {
            if focused {
                WindowAction::OpenMain
            } else {
                WindowAction::CloseMain
            }
        } else {
            WindowAction::Nothing
        },
        WindowEvent::CloseRequested => if is_main {
            WindowAction::HideMain
        } else if same_text(label, SETTINGS) {
            WindowAction::HideSettings
        } else {
            WindowAction::Nothing
        },
        WindowEvent::Other => WindowAction::Nothing,
    }
}

/// Focus events act only on the main window: on any other window they do nothing, and
/// only a focus event on the main window opens or closes its session.
pub proof fn lemma_focus_only_on_main(label: Seq<char>, event: WindowEvent)
    ensures
        label != MAIN@ ==> spec_handler(label, WindowEvent::Focused(true)) == WindowAction::Nothing,
        label != MAIN@ ==> spec_handler(label, WindowEvent::Focused(false)) == WindowAction::Nothing,
        spec_handler(MAIN@, WindowEvent::Focused(true)) == WindowAction::OpenMain,
        spec_handler(MAIN@, WindowEvent::Focused(false)) == WindowAction::CloseMain,
        (spec_handler(label, event) == WindowAction::OpenMain || spec_handler(label, event)
            == WindowAction::CloseMain) ==> label == MAIN@ && event is Focused,
        spec_handler(label, event) == WindowAction::HideMain ==> label == MAIN@ && event
            is CloseRequested,
        spec_handler(label, event) == WindowAction::HideSettings ==> label == SETTINGS@ && event
            is CloseRequested,
{
}

} // verus!
