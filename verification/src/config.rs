//! The user's settings.
use vstd::prelude::*;

use std::sync::RwLock;

use crate::shortcuts::DEFAULT_SHORTCUT;

verus! {

/// The user's settings, as kept in `Settings.toml`.
#[derive(Debug, Clone)]
pub struct Config {
    /// Start the app when the user logs in.
    pub autostart: bool,
    /// The app has not yet been set up (the settings window opens at start).
    pub first_run: bool,
    /// The global shortcut that shows and hides the main window.
    pub shortcut: String,
    /// Push to the remote after each commit.
    pub should_push: bool,
    /// The folders searched for the repository that changed last.
    pub repo_paths: Vec<String>,
}

impl Config {
    /// The settings after `update` with `new_config`: everything is taken from
    /// `new_config` except `first_run`, which the app alone manages.
    pub open spec fn updated(self, new_config: Config) -> Config {
        Config {
            autostart: new_config.autostart,
            first_run: self.first_run,
            shortcut: new_config.shortcut,
            should_push: new_config.should_push,
            repo_paths: new_config.repo_paths,
        }
    }

    /// Whether these are the settings of a fresh install.
    pub open spec fn is_default(self) -> bool {
        &&& !self.autostart
        &&& self.first_run
        &&& self.shortcut@ == DEFAULT_SHORTCUT@
        &&& self.should_push
        &&& self.repo_paths@.len() == 0
    }

    /// Takes the shortcut, autostart, folders and push choice of `new_config`; whether
    /// this is the first run stays as it was. Writing the result to disk is the caller's.
    pub fn update(&mut self, new_config: Config)
        ensures
            *final(self) == old(self).updated(new_config),
    {
        self.shortcut = new_config.shortcut;
        self.autostart = new_config.autostart;
        self.repo_paths = new_config.repo_paths;
        self.should_push = new_config.should_push;
    }

    /// Records that the first run is over; every other setting stays as it was. Writing
    /// the result to disk is the caller's.
    pub fn complete_first_run(&mut self)
        ensures
            *final(self) == (Config { first_run: false, ..*old(self) }),
    {
        self.first_run = false;
    }

    /// The settings behind a lock, to be shared by the app's windows and commands.
    pub fn manage(self) -> (lock: RwLock<Config>)
        ensures
            guarded_config(lock) == self,
    {
        new_lock(self)
    }
}

impl Default for Config {
    /// The settings of a fresh install: no autostart, first run, the default shortcut,
    /// pushing after each commit, no folders.
    fn default() -> (config: Self)
        ensures
            config.is_default(),
    {
        Config {
            first_run: true,
            autostart: false,
            should_push: true,
            repo_paths: Vec::new(),
            shortcut: String::from_str(DEFAULT_SHORTCUT),
        }
    }
}

/// The reader-writer lock of std.
#[verifier::external_type_specification]
#[verifier::external_body]
#[verifier::reject_recursive_types(T)]
pub struct ExRwLock<T: ?Sized>(RwLock<T>);

/// The settings that a lock was created with. Verus holds a lock's value fixed, while
/// the app changes the settings through `RwLock::write`; so this names only what
/// `RwLock::new` was given, and no function that reads a lock later may be tied to it.
pub uninterp spec fn guarded_config(lock: RwLock<Config>) -> Config;

/// `RwLock::new`: a lock, unlocked, that guards `config`.
#[verifier::external_body]
fn new_lock(config: Config) -> (lock: RwLock<Config>)
    ensures
        guarded_config(lock) == config,
{
    RwLock::new(config)
}

/// Updating keeps whether this is the first run and takes everything else from the new
/// settings; so updating twice with the same settings is updating once.
pub proof fn lemma_update_idempotent(config: Config, new_config: Config)
    ensures
        config.updated(new_config).first_run == config.first_run,
        config.updated(new_config).updated(new_config) == config.updated(new_config),
{
}

/// After an update the shortcut, autostart, push choice and folders are exactly those of
/// the new settings, whatever they were before; only whether this is the first run is kept.
pub proof fn lemma_update_takes_new_settings(config: Config, new_config: Config)
    ensures
        config.updated(new_config).autostart == new_config.autostart,
        config.updated(new_config).shortcut == new_config.shortcut,
        config.updated(new_config).should_push == new_config.should_push,
        config.updated(new_config).repo_paths == new_config.repo_paths,
        config.updated(new_config).first_run == config.first_run,
{
}

} // verus!
