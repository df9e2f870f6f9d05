//! The settings held in memory while the application runs: the cache of the
//! settings store, which every command reads and a save replaces.
use vstd::prelude::*;
use crate::settings::{Settings, SettingsView};

verus! {

/// The settings currently in force.
pub struct AppState(pub Settings);

impl View for AppState {
    type V = SettingsView;

    open spec fn view(&self) -> SettingsView {
        self.0@
    }
}

/// What a read of the state gives.
pub open spec fn spec_snapshot(state: SettingsView) -> SettingsView {
    state
}

/// The state after its settings are replaced by `s`.
pub open spec fn spec_replace(state: SettingsView, s: SettingsView) -> SettingsView {
    s
}

impl AppState {
    /// A copy of the current settings.
    pub fn snapshot(&self) -> (r: Settings)
        ensures
            r@ == spec_snapshot(self@),
    {
        Settings {
            jira_url: self.0.jira_url.clone(),
            custom_js: self.0.custom_js.clone(),
            custom_css: self.0.custom_css.clone(),
            auto_reload_enabled: self.0.auto_reload_enabled,
            idle_threshold_secs: self.0.idle_threshold_secs,
            reload_check_interval_secs: self.0.reload_check_interval_secs,
        }
    }

    /// Puts `settings` in force.
    pub fn replace(&mut self, settings: Settings)
        ensures
            final(self)@ == spec_replace(old(self)@, settings@),
    {
        self.0 = settings;
    }
}

/// A read gives back what the last write put in: after `replace(s)` a
/// snapshot is `s`, whatever the state held before, and of two writes in a
/// row only the second is seen.
pub proof fn lemma_snapshot_reads_last_replace(state: SettingsView, a: SettingsView, b: SettingsView)
    ensures
        spec_snapshot(spec_replace(state, a)) == a,
        spec_replace(spec_replace(state, a), b) == spec_replace(state, b),
        spec_replace(state, spec_snapshot(state)) == state,
{
}

} // verus!
