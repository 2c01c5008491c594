//! Hot reloading of `config.toml`: while idle, look at the file's modification time at most
//! once per poll interval, and re-read the file when it changed. A file that fails to parse
//! keeps the old configuration, but its time is still recorded so the same broken file is not
//! retried every second.
//!
//! Times are milliseconds on a monotonic clock; modification times are opaque stamps compared
//! for equality (`None` when the file cannot be read).

use vstd::prelude::*;
use crate::connection::{elapsed, elapsed_spec};

verus! {

/// Minimum time between two looks at the file's modification time.
pub const CONFIG_POLL_INTERVAL: u64 = 1000;

/// The state of hot reloading.
#[derive(Clone, Copy, Debug)]
pub struct ReloadState {
    /// When the modification time was last looked at.
    pub last_check: u64,
    /// The modification time seen last.
    pub last_mtime: Option<u128>,
}

/// The state after deciding whether to look at the file at `now`, and that decision.
pub open spec fn begin_poll_spec(state: ReloadState, now: u64) -> (ReloadState, bool) {
    if elapsed_spec(state.last_check, now) >= CONFIG_POLL_INTERVAL {
        (ReloadState { last_check: now, ..state }, true)
    } else {
        (state, false)
    }
}

/// The state after seeing modification time `current`, and whether the file changed.
pub open spec fn observe_spec(state: ReloadState, current: Option<u128>) -> (ReloadState, bool) {
    (ReloadState { last_mtime: current, ..state }, current != state.last_mtime)
}

impl ReloadState {
    /// Reloading starts at `now` with the file's current modification time.
    pub fn new(now: u64, mtime: Option<u128>) -> (r: Self)
        ensures
            r.last_check == now,
            r.last_mtime == mtime,
    {
        ReloadState { last_check: now, last_mtime: mtime }
    }

    /// Whether to look at the file now; when so, the look is recorded at `now`.
    pub fn begin_poll(&mut self, now: u64) -> (r: bool)
        ensures
            (*final(self), r) == begin_poll_spec(*old(self), now),
    {
        if elapsed(self.last_check, now) < CONFIG_POLL_INTERVAL {
            return false;
        }
        self.last_check = now;
        true
    }

    /// After looking at the file: whether it changed, i.e. whether to re-read it. A changed
    /// time is recorded whether or not the file then parses.
    pub fn observe(&mut self, current: Option<u128>) -> (r: bool)
        ensures
            (*final(self), r) == observe_spec(*old(self), current),
    {
        let changed = match (current, self.last_mtime) {
            (Some(a), Some(b)) => a != b,
            (None, None) => false,
            _ => true,
        };
        self.last_mtime = current;
        changed
    }
}

/// The file is looked at no more than once per poll interval: right after a look at
/// `checked_at`, no second look happens at any `later` time less than the interval on.
pub proof fn lemma_at_most_one_look_per_interval(state: ReloadState, checked_at: u64, later: u64)
    requires
        begin_poll_spec(state, checked_at).1,
        checked_at <= later,
        later - checked_at < CONFIG_POLL_INTERVAL,
    ensures
        !begin_poll_spec(begin_poll_spec(state, checked_at).0, later).1,
        begin_poll_spec(begin_poll_spec(state, checked_at).0, later).0 == begin_poll_spec(
            state,
            checked_at,
        ).0,
{
}

/// A file is re-read once per change of its modification time: once a time has been observed,
/// observing the same time again reports no change, even when the file failed to parse in
/// between; looking does not change the recorded time.
pub proof fn lemma_broken_file_not_retried(state: ReloadState, stamp: Option<u128>, now: u64)
    ensures
        !observe_spec(observe_spec(state, stamp).0, stamp).1,
        !observe_spec(begin_poll_spec(observe_spec(state, stamp).0, now).0, stamp).1,
{
}

/// What applying a configuration does with the auxiliary-code table.
#[derive(Clone, Copy, Debug, PartialEq, Eq, Structural)]
pub enum FumaStep {
    /// Auxiliary codes are off: detach the table.
    Disable,
    /// On, but the table was never read (it was off at start): read it first, then attach.
    LoadAndEnable,
    /// On: attach the table already read (or none when it cannot be read).
    Enable,
}

/// Auxiliary codes follow the new configuration; a table that was never read is read now when
/// the bundle root is known, otherwise switching on would only take effect after a restart.
pub fn fuma_step(scheme_on: bool, table_loaded: bool, root_known: bool) -> (r: FumaStep)
    ensures
        !scheme_on ==> r == FumaStep::Disable,
        scheme_on && !table_loaded && root_known ==> r == FumaStep::LoadAndEnable,
        scheme_on && (table_loaded || !root_known) ==> r == FumaStep::Enable,
{
    if !scheme_on {
        FumaStep::Disable
    } else if !table_loaded && root_known {
        FumaStep::LoadAndEnable
    } else {
        FumaStep::Enable
    }
}

/// What applying a new configuration rebuilds besides the settings it always resets.
#[derive(Clone, Copy, Debug)]
pub struct ApplyPlan {
    /// Give the candidate window its new render settings.
    pub reconfigure_candidates: bool,
    /// Attach the cloud predictor and gloss filler anew.
    pub reattach_cloud: bool,
    /// Load the extra dictionaries anew.
    pub reload_dictionaries: bool,
}

/// The candidate window is reconfigured only when its render settings changed; the cloud
/// predictor and the extra dictionaries are rebuilt only when their sections changed, and only
/// while the configuration file is watched (it always is outside tests).
pub fn apply_plan(render_changed: bool, watching: bool, predict_changed: bool, dictionaries_changed: bool) -> (r: ApplyPlan)
    ensures
        r.reconfigure_candidates == render_changed,
        r.reattach_cloud == (watching && predict_changed),
        r.reload_dictionaries == (watching && dictionaries_changed),
{
    ApplyPlan {
        reconfigure_candidates: render_changed,
        reattach_cloud: watching && predict_changed,
        reload_dictionaries: watching && dictionaries_changed,
    }
}

} // verus!
