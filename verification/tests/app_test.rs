use commit::commands::{
    commit_message, push_notice, update_config_next, update_config_start, Notice, UpdateError,
    UpdateStep,
};
use commit::config::Config;
use commit::setup::{setup_steps, SetupStep};
use commit::shortcuts::DEFAULT_SHORTCUT;
use commit::tray::{handle, TrayAction, TrayEvent, TrayMenu};
use commit::window::{handler, WindowAction, WindowEvent, MAIN, SETTINGS};

fn settings(shortcut: &str, autostart: bool) -> Config {
    Config {
        autostart,
        first_run: false,
        shortcut: shortcut.to_string(),
        should_push: false,
        repo_paths: vec!["/code".to_string()],
    }
}

#[test]
fn default_config_is_a_fresh_install() {
    let c = Config::default();
    assert!(c.first_run);
    assert!(!c.autostart);
    assert!(c.should_push);
    assert!(c.repo_paths.is_empty());
    assert_eq!(c.shortcut, "Cmd+Alt+Shift+C");
    assert_eq!(DEFAULT_SHORTCUT, "Cmd+Alt+Shift+C");
}

#[test]
fn update_keeps_first_run() {
    let mut c = Config::default();
    let new = settings("Cmd+K", true);
    c.update(new);
    assert!(c.first_run);
    assert!(c.autostart);
    assert!(!c.should_push);
    assert_eq!(c.shortcut, "Cmd+K");
    assert_eq!(c.repo_paths, vec!["/code".to_string()]);
}

#[test]
fn update_twice_is_update_once() {
    let mut once = Config::default();
    once.update(settings("Cmd+K", true));
    let mut twice = once.clone();
    twice.update(settings("Cmd+K", true));
    assert_eq!(format!("{:?}", once), format!("{:?}", twice));
}

#[test]
fn manage_guards_the_config() {
    let lock = settings("Cmd+J", false).manage();
    let guard = lock.read().unwrap();
    assert_eq!(guard.shortcut, "Cmd+J");
    assert_eq!(guard.repo_paths, vec!["/code".to_string()]);
}

#[test]
fn tray_ids_round_trip() {
    for m in [TrayMenu::Quit, TrayMenu::Settings, TrayMenu::DevTools] {
        let id: String = m.into();
        assert_eq!(TrayMenu::from(id.clone()), m);
        assert_eq!(TrayMenu::from_id(&id), Some(m));
    }
    assert_eq!(String::from(TrayMenu::Quit), "quit");
    assert_eq!(String::from(TrayMenu::Settings), "settings");
    assert_eq!(String::from(TrayMenu::DevTools), "devtools");
    assert_eq!(TrayMenu::from_id("Quit"), None);
    assert_eq!(TrayMenu::from_id(""), None);
}

#[test]
fn tray_events() {
    assert_eq!(handle(TrayEvent::LeftClick { main_visible: true }), TrayAction::HideMain);
    assert_eq!(handle(TrayEvent::LeftClick { main_visible: false }), TrayAction::ShowMain);
    assert_eq!(handle(TrayEvent::MenuItemClick(TrayMenu::Quit)), TrayAction::Quit);
    assert_eq!(handle(TrayEvent::MenuItemClick(TrayMenu::Settings)), TrayAction::ShowSettings);
    assert_eq!(handle(TrayEvent::MenuItemClick(TrayMenu::DevTools)), TrayAction::OpenDevTools);
    assert_eq!(handle(TrayEvent::Other), TrayAction::Nothing);
}

#[test]
fn window_events() {
    assert_eq!(handler(MAIN, WindowEvent::Focused(true)), WindowAction::OpenMain);
    assert_eq!(handler(MAIN, WindowEvent::Focused(false)), WindowAction::CloseMain);
    assert_eq!(handler(SETTINGS, WindowEvent::Focused(true)), WindowAction::Nothing);
    assert_eq!(handler(MAIN, WindowEvent::CloseRequested), WindowAction::HideMain);
    assert_eq!(handler(SETTINGS, WindowEvent::CloseRequested), WindowAction::HideSettings);
    assert_eq!(handler("other", WindowEvent::CloseRequested), WindowAction::Nothing);
    assert_eq!(handler(MAIN, WindowEvent::Other), WindowAction::Nothing);
}

#[test]
fn commit_messages() {
    assert_eq!(commit_message("Fix bug", None), "Fix bug");
    assert_eq!(commit_message("Fix bug", Some("Details here")), "Fix bug\n\nDetails here");
    assert_eq!(commit_message("", Some("")), "\n\n");
}

#[test]
fn notices() {
    assert_eq!(push_notice(true), Notice::Pushed);
    assert_eq!(push_notice(false), Notice::PushFailed);
    assert_eq!(Notice::Committed.title(), "Commit");
    assert_eq!(Notice::Committed.body(), "Commit successful!");
    assert_eq!(Notice::Pushed.body(), "Push successful!");
    assert_eq!(Notice::PushFailed.title(), "Failed to push");
    assert_eq!(Notice::PushFailed.body(), "Failed to push to remote repository");
    assert_eq!(Notice::SettingsUpdated.title(), "Settings");
    assert_eq!(Notice::SettingsUpdated.body(), "Settings updated!");
    assert_eq!(Notice::NoFolders.title(), "No folders found");
    assert_eq!(Notice::NoFolders.body(), "Please add at least one folder to the config.");
}

#[test]
fn update_error_messages() {
    assert_eq!(UpdateError::InvalidShortcut.message(), "Invalid shortcut provided.");
    assert_eq!(UpdateError::SaveFailed.message(), "Failed to update config.");
    assert_eq!(UpdateError::EnableAutostartFailed.message(), "Failed to enable autostart.");
    assert_eq!(UpdateError::DisableAutostartFailed.message(), "Failed to disable autostart.");
}

#[test]
fn update_flow_with_new_shortcut() {
    let new = settings("Cmd+K", true);
    let mut step = update_config_start("Cmd+Alt+Shift+C", &new);
    assert_eq!(step, UpdateStep::ReplaceShortcut);
    step = update_config_next(step, true, &new);
    assert_eq!(step, UpdateStep::SaveSettings);
    step = update_config_next(step, true, &new);
    assert_eq!(step, UpdateStep::EnableAutostart);
    step = update_config_next(step, true, &new);
    assert_eq!(step, UpdateStep::Announce);
    step = update_config_next(step, true, &new);
    assert_eq!(step, UpdateStep::Done);
    assert_eq!(update_config_next(step, false, &new), UpdateStep::Done);
}

#[test]
fn update_flow_with_same_shortcut() {
    let new = settings("Cmd+K", false);
    let step = update_config_start("Cmd+K", &new);
    assert_eq!(step, UpdateStep::SaveSettings);
    assert_eq!(update_config_next(step, true, &new), UpdateStep::DisableAutostart);
}

#[test]
fn update_flow_failures() {
    let on = settings("Cmd+K", true);
    let off = settings("Cmd+K", false);
    let refused = update_config_next(UpdateStep::ReplaceShortcut, false, &on);
    assert_eq!(refused, UpdateStep::Failed(UpdateError::InvalidShortcut));
    assert_eq!(update_config_next(refused, true, &on), refused);
    assert_eq!(
        update_config_next(UpdateStep::SaveSettings, false, &on),
        UpdateStep::Failed(UpdateError::SaveFailed)
    );
    assert_eq!(
        update_config_next(UpdateStep::EnableAutostart, false, &on),
        UpdateStep::Failed(UpdateError::EnableAutostartFailed)
    );
    assert_eq!(
        update_config_next(UpdateStep::DisableAutostart, false, &off),
        UpdateStep::Failed(UpdateError::DisableAutostartFailed)
    );
}

#[test]
fn setup_of_fresh_install() {
    assert_eq!(
        setup_steps(&Config::default()),
        vec![SetupStep::ShowSettings, SetupStep::CompleteFirstRun]
    );
}

#[test]
fn setup_of_configured_app() {
    assert_eq!(setup_steps(&settings("Cmd+Alt+Shift+C", false)), vec![]);
    assert_eq!(
        setup_steps(&settings("Cmd+K", true)),
        vec![SetupStep::ReplaceDefaultShortcut, SetupStep::EnableAutostart]
    );
    let mut all = settings("Cmd+K", true);
    all.first_run = true;
    assert_eq!(
        setup_steps(&all),
        vec![
            SetupStep::ReplaceDefaultShortcut,
            SetupStep::EnableAutostart,
            SetupStep::ShowSettings,
            SetupStep::CompleteFirstRun
        ]
    );
}

#[test]
fn complete_first_run_keeps_other_settings() {
    let mut c = Config::default();
    c.repo_paths = vec!["/code".to_string()];
    c.complete_first_run();
    assert!(!c.first_run);
    assert!(!c.autostart);
    assert!(c.should_push);
    assert_eq!(c.shortcut, "Cmd+Alt+Shift+C");
    assert_eq!(c.repo_paths, vec!["/code".to_string()]);
}
