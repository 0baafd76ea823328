//! The commands that the app's web view invokes: committing, and updating the settings.
use vstd::prelude::*;

use crate::config::Config;
use crate::text::same_text;

verus! {

/// The message of a commit: the title, then, when there is a description, a blank
/// line and the description.
pub open spec fn spec_commit_message(title: Seq<char>, description: Option<Seq<char>>) -> Seq<char> {
    match description {
        Some(body) => title + "\n\n"@ + body,
        None => title,
    }
}

/// The message for a commit titled `title`, with an optional longer description.
pub fn commit_message(title: &str, description: Option<&str>) -> (message: String)
    ensures
        message@ == spec_commit_message(
            title@,
            match description {
                Some(d) => Some(d@),
                None => None,
            },
        ),
{
    let mut message = String::from_str(title);
    match description {
        Some(body) => {
            message.append("\n\n");
            message.append(body);
        },
        None => {},
    }
    message
}

/// The notifications that the app shows.
#[derive(Debug, Clone, Copy, PartialEq, Eq, Structural)]
pub enum Notice {
    /// A commit was made.
    Committed,
    /// The commit was pushed.
    Pushed,
    /// The push failed.
    PushFailed,
    /// The settings were saved.
    SettingsUpdated,
    /// The main window opened with no folder to look in.
    NoFolders,
}

/// The title of each notification.
pub open spec fn spec_notice_title(notice: Notice) -> Seq<char> {
    match notice {
        Notice::Committed => "Commit"@,
        Notice::Pushed => "Push"@,
        Notice::PushFailed => "Failed to push"@,
        Notice::SettingsUpdated => "Settings"@,
        Notice::NoFolders => "No folders found"@,
    }
}

/// The body of each notification.
pub open spec fn spec_notice_body(notice: Notice) -> Seq<char> {
    match notice {
        Notice::Committed => "Commit successful!"@,
        Notice::Pushed => "Push successful!"@,
        Notice::PushFailed => "Failed to push to remote repository"@,
        Notice::SettingsUpdated => "Settings updated!"@,
        Notice::NoFolders => "Please add at least one folder to the config."@,
    }
}

impl Notice {
    /// The notification's title.
    pub fn title(&self) -> (title: String)
        ensures
            title@ == spec_notice_title(*self),
    {
        match self {
            Notice::Committed => String::from_str("Commit"),
            Notice::Pushed => String::from_str("Push"),
            Notice::PushFailed => String::from_str("Failed to push"),
            Notice::SettingsUpdated => String::from_str("Settings"),
            Notice::NoFolders => String::from_str("No folders found"),
        }
    }

    /// The notification's text.
    pub fn body(&self) -> (body: String)
        ensures
            body@ == spec_notice_body(*self),
    {
        match self {
            Notice::Committed => String::from_str("Commit successful!"),
            Notice::Pushed => String::from_str("Push successful!"),
            Notice::PushFailed => String::from_str("Failed to push to remote repository"),
            Notice::SettingsUpdated => String::from_str("Settings updated!"),
            Notice::NoFolders => String::from_str("Please add at least one folder to the config."),
        }
    }
}

/// The notification that reports how a `git push` ended.
pub fn push_notice(succeeded: bool) -> (notice: Notice)
    ensures
        notice == (if succeeded {
            Notice::Pushed
        } else {
            Notice::PushFailed
        }),
{
    if succeeded {
        Notice::Pushed
    } else {
        Notice::PushFailed
    }
}

/// Why an update of the settings was refused.
#[derive(Debug, Clone, Copy, PartialEq, Eq, Structural)]
pub enum UpdateError {
    /// The new shortcut could not be registered.
    InvalidShortcut,
    /// The settings could not be written.
    SaveFailed,
    /// Autostart could not be turned on.
    EnableAutostartFailed,
    /// Autostart could not be turned off.
    DisableAutostartFailed,
}

/// The message that the web view shows for each refusal.
pub open spec fn spec_update_error_message(error: UpdateError) -> Seq<char> {
    match error {
        UpdateError::InvalidShortcut => "Invalid shortcut provided."@,
        UpdateError::SaveFailed => "Failed to update config."@,
        UpdateError::EnableAutostartFailed => "Failed to enable autostart."@,
        UpdateError::DisableAutostartFailed => "Failed to disable autostart."@,
    }
}

impl UpdateError {
    /// The message that the web view shows.
    pub fn message(&self) -> (message: String)
        ensures
            message@ == spec_update_error_message(*self),
    {
        match self {
            UpdateError::InvalidShortcut => String::from_str("Invalid shortcut provided."),
            UpdateError::SaveFailed => String::from_str("Failed to update config."),
            UpdateError::EnableAutostartFailed => String::from_str("Failed to enable autostart."),
            UpdateError::DisableAutostartFailed => String::from_str("Failed to disable autostart."),
        }
    }
}

/// The steps of updating the settings, each done by the app, which reports whether it
/// succeeded.
#[derive(Debug, Clone, Copy, PartialEq, Eq, Structural)]
pub enum UpdateStep {
    /// Unregister the old global shortcut and register the new one.
    ReplaceShortcut,
    /// Take the new settings and write them to disk.
    SaveSettings,
    /// Turn autostart on.
    EnableAutostart,
    /// Turn autostart off.
    DisableAutostart,
    /// Send the new settings to the settings window and notify the user.
    Announce,
    /// The update was refused.
    Failed(UpdateError),
    /// The update is complete.
    Done,
}

/// The first step of an update from the shortcut `old_shortcut` to `new_config`: the
/// shortcut is replaced only when it changes.
pub open spec fn spec_update_start(old_shortcut: Seq<char>, new_config: Config) -> UpdateStep {
    if new_config.shortcut@ != old_shortcut {
        UpdateStep::ReplaceShortcut
    } else {
        UpdateStep::SaveSettings
    }
}

/// The step after `step`, which succeeded or not, in an update to settings that do or
/// do not ask for autostart. A failed step ends the update with its error; a finished
/// update stays finished.
pub open spec fn spec_update_next(step: UpdateStep, succeeded: bool, autostart: bool) -> UpdateStep {
    match step {
        UpdateStep::ReplaceShortcut => if succeeded {
            UpdateStep::SaveSettings
        } else {
            UpdateStep::Failed(UpdateError::InvalidShortcut)
        },
        UpdateStep::SaveSettings => if !succeeded {
            UpdateStep::Failed(UpdateError::SaveFailed)
        } else if autostart {
            UpdateStep::EnableAutostart
        } else {
            UpdateStep::DisableAutostart
        },
        UpdateStep::EnableAutostart => if succeeded {
            UpdateStep::Announce
        } else {
            UpdateStep::Failed(UpdateError::EnableAutostartFailed)
        },
        UpdateStep::DisableAutostart => if succeeded {
            UpdateStep::Announce
        } else {
            UpdateStep::Failed(UpdateError::DisableAutostartFailed)
        },
        UpdateStep::Announce => UpdateStep::Done,
        UpdateStep::Failed(error) => UpdateStep::Failed(error),
        UpdateStep::Done => UpdateStep::Done,
    }
}

/// Where an update ends when its steps report `outcomes`, one after another, starting
/// at `step`.
pub open spec fn spec_update_run(step: UpdateStep, outcomes: Seq<bool>, autostart: bool) -> UpdateStep
    decreases outcomes.len(),
{
    if outcomes.len() == 0 {
        step
    } else {
        spec_update_run(spec_update_next(step, outcomes[0], autostart), outcomes.drop_first(), autostart)
    }
}

/// The first step of updating the settings from a shortcut `old_shortcut` to `new_config`.
pub fn update_config_start(old_shortcut: &str, new_config: &Config) -> (step: UpdateStep)
    ensures
        step == spec_update_start(old_shortcut@, *new_config),
{
    if !same_text(new_config.shortcut.as_str(), old_shortcut) {
        UpdateStep::ReplaceShortcut
    } else {
        UpdateStep::SaveSettings
    }
}

/// The step after `step`, given whether it succeeded, in an update to `new_config`.
pub fn update_config_next(step: UpdateStep, succeeded: bool, new_config: &Config) -> (next: UpdateStep)
    ensures
        next == spec_update_next(step, succeeded, new_config.autostart),
{
    match step {
        UpdateStep::ReplaceShortcut => if succeeded {
            UpdateStep::SaveSettings
        } else {
            UpdateStep::Failed(UpdateError::InvalidShortcut)
        },
        UpdateStep::SaveSettings => if !succeeded {
            UpdateStep::Failed(UpdateError::SaveFailed)
        } else if new_config.autostart {
            UpdateStep::EnableAutostart
        } else {
            UpdateStep::DisableAutostart
        },
        UpdateStep::EnableAutostart => if succeeded {
            UpdateStep::Announce
        } else {
            UpdateStep::Failed(UpdateError::EnableAutostartFailed)
        },
        UpdateStep::DisableAutostart => if succeeded {
            UpdateStep::Announce
        } else {
            UpdateStep::Failed(UpdateError::DisableAutostartFailed)
        },
        UpdateStep::Announce => UpdateStep::Done,
        UpdateStep::Failed(error) => UpdateStep::Failed(error),
        UpdateStep::Done => UpdateStep::Done,
    }
}

/// A finished update, refused or complete, stays as it is whatever is reported after.
pub proof fn lemma_update_end_is_final(step: UpdateStep, outcomes: Seq<bool>, autostart: bool)
    requires
        step is Failed || step is Done,
    ensures
        spec_update_run(step, outcomes, autostart) == step,
    decreases outcomes.len(),
{
    if outcomes.len() > 0 {
        lemma_update_end_is_final(step, outcomes.drop_first(), autostart);
    }
}

/// When every step succeeds, an update completes within four steps, and then stays
/// complete.
pub proof fn lemma_update_succeeds(old_shortcut: Seq<char>, new_config: Config, outcomes: Seq<bool>)
    requires
        outcomes.len() >= 4,
        forall|i: int| 0 <= i < outcomes.len() ==> outcomes[i],
    ensures
        spec_update_run(spec_update_start(old_shortcut, new_config), outcomes, new_config.autostart)
            == UpdateStep::Done,
{
    let a = new_config.autostart;
    let s0 = spec_update_start(old_shortcut, new_config);
    let o1 = outcomes.drop_first();
    let o2 = o1.drop_first();
    let o3 = o2.drop_first();
    assert(outcomes[0] && o1[0] && o2[0]);
    let s1 = spec_update_next(s0, true, a);
    let s2 = spec_update_next(s1, true, a);
    let s3 = spec_update_next(s2, true, a);
    assert(spec_update_run(s0, outcomes, a) == spec_update_run(s1, o1, a));
    assert(spec_update_run(s1, o1, a) == spec_update_run(s2, o2, a));
    assert(spec_update_run(s2, o2, a) == spec_update_run(s3, o3, a));
    if s0 is SaveSettings {
        assert(s3 == UpdateStep::Done);
        lemma_update_end_is_final(s3, o3, a);
    } else {
        let o4 = o3.drop_first();
        assert(o3[0]);
        let s4 = spec_update_next(s3, true, a);
        assert(spec_update_run(s3, o3, a) == spec_update_run(s4, o4, a));
        assert(s4 == UpdateStep::Done);
        lemma_update_end_is_final(s4, o4, a);
    }
}

/// A new shortcut that cannot be registered refuses the whole update: the settings are
/// not saved and the answer is the invalid-shortcut error, whatever follows.
pub proof fn lemma_refused_shortcut_keeps_settings(
    old_shortcut: Seq<char>,
    new_config: Config,
    outcomes: Seq<bool>,
)
    requires
        new_config.shortcut@ != old_shortcut,
        outcomes.len() >= 1,
        !outcomes[0],
    ensures
        spec_update_run(spec_update_start(old_shortcut, new_config), outcomes, new_config.autostart)
            == UpdateStep::Failed(UpdateError::InvalidShortcut),
{
    assert(spec_update_run(spec_update_start(old_shortcut, new_config), outcomes, new_config.autostart)
        == spec_update_run(UpdateStep::Failed(UpdateError::InvalidShortcut), outcomes.drop_first(), new_config.autostart));
    lemma_update_end_is_final(
        UpdateStep::Failed(UpdateError::InvalidShortcut),
        outcomes.drop_first(),
        new_config.autostart,
    );
}

/// Turning autostart on or off, once it succeeds, is always followed by announcing the
/// new settings, and announcing is followed by the end of the update.
pub proof fn lemma_autostart_then_announce(autostart: bool)
    ensures
        spec_update_next(UpdateStep::EnableAutostart, true, autostart) == UpdateStep::Announce,
        spec_update_next(UpdateStep::DisableAutostart, true, autostart) == UpdateStep::Announce,
        spec_update_next(UpdateStep::Announce, true, autostart) == UpdateStep::Done,
        spec_update_next(UpdateStep::Announce, false, autostart) == UpdateStep::Done,
{
}

/// An update whose steps all succeed reaches the announcement of the new settings one
/// step before it is done: after the shortcut (when it changes), the save and the
/// autostart step.
pub proof fn lemma_update_announces(old_shortcut: Seq<char>, new_config: Config, outcomes: Seq<bool>)
    requires
        outcomes.len() == (if new_config.shortcut@ != old_shortcut { 3int } else { 2int }),
        forall|i: int| 0 <= i < outcomes.len() ==> outcomes[i],
    ensures
        spec_update_run(spec_update_start(old_shortcut, new_config), outcomes, new_config.autostart)
            == UpdateStep::Announce,
{
    let a = new_config.autostart;
    let s0 = spec_update_start(old_shortcut, new_config);
    let o1 = outcomes.drop_first();
    let o2 = o1.drop_first();
    assert(outcomes[0] && o1[0]);
    let s1 = spec_update_next(s0, true, a);
    let s2 = spec_update_next(s1, true, a);
    assert(spec_update_run(s0, outcomes, a) == spec_update_run(s1, o1, a));
    assert(spec_update_run(s1, o1, a) == spec_update_run(s2, o2, a));
    if new_config.shortcut@ != old_shortcut {
        let o3 = o2.drop_first();
        assert(o2[0]);
        let s3 = spec_update_next(s2, true, a);
        assert(spec_update_run(s2, o2, a) == spec_update_run(s3, o3, a));
        assert(o3.len() == 0);
        assert(s3 == UpdateStep::Announce);
    } else {
        assert(o2.len() == 0);
        assert(s2 == UpdateStep::Announce);
    }
}

} // verus!
