//! What the app does once, when it starts.
use vstd::prelude::*;

use crate::config::Config;
use crate::shortcuts::DEFAULT_SHORTCUT;
use crate::text::same_text;

verus! {

/// The steps of setting the app up from the saved settings.
#[derive(Debug, Clone, Copy, PartialEq, Eq, Structural)]
pub enum SetupStep {
    /// Move the main window's global shortcut from the default to the user's own.
    ReplaceDefaultShortcut,
    /// Turn autostart on.
    EnableAutostart,
    /// Show the settings window and give it the focus.
    ShowSettings,
    /// Record that the first run is over, and write the settings to disk.
    CompleteFirstRun,
}

/// The steps that setting up from `config` takes, in order: the user's own shortcut,
/// then autostart when chosen, then, on the first run, the settings window.
pub open spec fn spec_setup_steps(config: Config) -> Seq<SetupStep> {
    (if config.shortcut@ != DEFAULT_SHORTCUT@ {
        seq![SetupStep::ReplaceDefaultShortcut]
    } else {
        Seq::empty()
    }) + (if config.autostart {
        seq![SetupStep::EnableAutostart]
    } else {
        Seq::empty()
    }) + (if config.first_run {
        seq![SetupStep::ShowSettings, SetupStep::CompleteFirstRun]
    } else {
        Seq::empty()
    })
}

/// The steps of setting the app up from `config`, for the app to take in order,
/// stopping at the first that fails.
pub fn setup_steps(config: &Config) -> (steps: Vec<SetupStep>)
    ensures
        steps@ == spec_setup_steps(*config),
{
    let mut steps: Vec<SetupStep> = Vec::new();
    if !same_text(config.shortcut.as_str(), DEFAULT_SHORTCUT) {
        steps.push(SetupStep::ReplaceDefaultShortcut);
    }
    if config.autostart {
        steps.push(SetupStep::EnableAutostart);
    }
    if config.first_run {
        steps.push(SetupStep::ShowSettings);
        steps.push(SetupStep::CompleteFirstRun);
    }
    assert(steps@ =~= spec_setup_steps(*config));
    steps
}

/// On a fresh install, setting up only shows the settings window and ends the first run.
pub proof fn lemma_fresh_install_setup(config: Config)
    requires
        config.is_default(),
    ensures
        spec_setup_steps(config) == seq![SetupStep::ShowSettings, SetupStep::CompleteFirstRun],
{
    assert(spec_setup_steps(config) =~= seq![SetupStep::ShowSettings, SetupStep::CompleteFirstRun]);
}

/// Each step is taken exactly when its setting asks for it, whatever the others are:
/// the shortcut is moved when it is not the default, autostart is turned on when chosen,
/// and the settings window opens and the first run ends only on the first run.
pub proof fn lemma_steps_follow_settings(config: Config)
    ensures
        spec_setup_steps(config).contains(SetupStep::ReplaceDefaultShortcut) <==> config.shortcut@
            != DEFAULT_SHORTCUT@,
        spec_setup_steps(config).contains(SetupStep::EnableAutostart) <==> config.autostart,
        spec_setup_steps(config).contains(SetupStep::ShowSettings) <==> config.first_run,
        spec_setup_steps(config).contains(SetupStep::CompleteFirstRun) <==> config.first_run,
{
    let a: Seq<SetupStep> = if config.shortcut@ != DEFAULT_SHORTCUT@ {
        seq![SetupStep::ReplaceDefaultShortcut]
    } else {
        Seq::empty()
    };
    let b: Seq<SetupStep> = if config.autostart {
        seq![SetupStep::EnableAutostart]
    } else {
        Seq::empty()
    };
    let c: Seq<SetupStep> = if config.first_run {
        seq![SetupStep::ShowSettings, SetupStep::CompleteFirstRun]
    } else {
        Seq::empty()
    };
    let all = spec_setup_steps(config);
    assert(all =~= a + b + c);
    assert forall|s: SetupStep| all.contains(s) <==> (a.contains(s) || b.contains(s) || c.contains(s)) by {
        if all.contains(s) {
            let k = choose|k: int| 0 <= k < all.len() && all[k] == s;
            if k < a.len() {
                assert(a[k] == s);
            } else if k < a.len() + b.len() {
                assert(b[k - a.len()] == s);
            } else {
                assert(c[k - a.len() - b.len()] == s);
            }
        }
        if a.contains(s) {
            let k = choose|k: int| 0 <= k < a.len() && a[k] == s;
            assert(all[k] == s);
        }
        if b.contains(s) {
            let k = choose|k: int| 0 <= k < b.len() && b[k] == s;
            assert(all[a.len() + k] == s);
        }
        if c.contains(s) {
            let k = choose|k: int| 0 <= k < c.len() && c[k] == s;
            assert(all[a.len() + b.len() + k] == s);
        }
    }
    if config.shortcut@ != DEFAULT_SHORTCUT@ {
        assert(a[0] == SetupStep::ReplaceDefaultShortcut);
    }
    if config.autostart {
        assert(b[0] == SetupStep::EnableAutostart);
    }
    if config.first_run {
        assert(c[0] == SetupStep::ShowSettings);
        assert(c[1] == SetupStep::CompleteFirstRun);
    }
}

} // verus!
