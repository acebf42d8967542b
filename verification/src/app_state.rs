//! The shell's persistent settings: the tray notification flag, the last
//! used microphone and the first-run marker, with the migration rule for
//! the legacy on-disk format.
//!
//! Reading and writing the state file (and its JSON form) happen outside
//! the library; callers persist after every setter.

use vstd::prelude::*;

verus! {

/// The settings that survive between runs.
#[derive(Debug, Clone)]
pub struct AppStateInternal {
    /// Whether the menu-bar hint notification is still shown.
    pub tray_notification: bool,
    /// Device identifier of the last used microphone.
    pub last_used_mic: Option<String>,
    /// Whether the application has never completed a run before.
    pub first_run: bool,
}

impl Default for AppStateInternal {
    /// Fresh settings: the tray hint enabled, no microphone remembered,
    /// first run pending.
    fn default() -> (r: AppStateInternal)
        ensures
            r.tray_notification,
            r.last_used_mic is None,
            r.first_run,
    {
        AppStateInternal { tray_notification: true, last_used_mic: None, first_run: true }
    }
}

/// Migrates settings from the legacy format, which had no first-run
/// marker: a user with a legacy file has run the application before.
pub fn migrate_old_state(tray_notification: bool, last_used_mic: Option<String>) -> (r:
    AppStateInternal)
    ensures
        r.tray_notification == tray_notification,
        r.last_used_mic == last_used_mic,
        !r.first_run,
{
    AppStateInternal { tray_notification, last_used_mic, first_run: false }
}

/// The settings manager the shell reads and writes through.
#[derive(Debug)]
pub struct AppState {
    /// The current settings.
    pub state: AppStateInternal,
}

impl AppState {
    /// Wraps loaded (or fresh) settings.
    pub fn from_state(state: AppStateInternal) -> (r: AppState)
        ensures
            r.state == state,
    {
        AppState { state }
    }

    /// The tray notification setting.
    pub fn tray_notification(&self) -> (r: bool)
        ensures
            r == self.state.tray_notification,
    {
        self.state.tray_notification
    }

    /// Updates the tray notification setting.
    pub fn set_tray_notification(&mut self, value: bool)
        ensures
            final(self).state.tray_notification == value,
            final(self).state.last_used_mic == old(self).state.last_used_mic,
            final(self).state.first_run == old(self).state.first_run,
    {
        self.state.tray_notification = value;
    }

    /// The last used microphone's identifier.
    pub fn last_used_mic(&self) -> (r: Option<String>)
        ensures
            match r {
                Some(mic) => self.state.last_used_mic matches Some(m) && mic@ == m@,
                None => self.state.last_used_mic is None,
            },
    {
        match &self.state.last_used_mic {
            Some(mic) => Some(mic.clone()),
            None => None,
        }
    }

    /// Remembers the microphone in use.
    pub fn set_last_used_mic(&mut self, mic: String)
        ensures
            final(self).state.last_used_mic == Some(mic),
            final(self).state.tray_notification == old(self).state.tray_notification,
            final(self).state.first_run == old(self).state.first_run,
    {
        self.state.last_used_mic = Some(mic);
    }

    /// Whether this is the first run.
    pub fn first_run(&self) -> (r: bool)
        ensures
            r == self.state.first_run,
    {
        self.state.first_run
    }

    /// Updates the first-run marker.
    pub fn set_first_run(&mut self, value: bool)
        ensures
            final(self).state.first_run == value,
            final(self).state.tray_notification == old(self).state.tray_notification,
            final(self).state.last_used_mic == old(self).state.last_used_mic,
    {
        self.state.first_run = value;
    }
}

} // verus!
