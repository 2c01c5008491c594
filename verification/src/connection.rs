//! The text service's link to the Server: open a session on activation or focus, back off
//! after a failure, start the Server when its pipe is missing (throttled), drop the link
//! after a forwarding error and reconnect on the next key.
//!
//! Times are milliseconds on one monotonic clock chosen by the caller.

use vstd::prelude::*;

verus! {

/// The back-off and launch intervals, in milliseconds.
#[derive(Clone, Copy, Debug)]
pub struct ReconnectTimings {
    /// Back-off after a failed connection in the normal case.
    pub reconnect_interval: u64,
    /// The shorter back-off used while a Server launched by us is still coming up.
    pub reconnect_after_launch: u64,
    /// Minimum time between two launches of the Server.
    pub launch_interval: u64,
}

/// Time passed since `at`, zero when the clock reads earlier (as `Instant::elapsed` saturates).
pub open spec fn elapsed_spec(at: u64, now: u64) -> int {
    if now >= at {
        now - at
    } else {
        0
    }
}

/// Time passed since `at`.
pub fn elapsed(at: u64, now: u64) -> (r: u64)
    ensures
        r == elapsed_spec(at, now),
{
    if now >= at {
        now - at
    } else {
        0
    }
}

/// The connection state kept per text-service instance.
#[derive(Clone, Copy, Debug)]
pub struct ConnectionState {
    /// A session with the Server is open.
    pub connected: bool,
    /// When the last connection attempt failed, if it did and nothing cleared it since.
    pub last_connect_failure: Option<u64>,
    /// When the Server was last launched by this instance.
    pub last_launch: Option<u64>,
}

/// What `ensure_connected` does now.
#[derive(Clone, Copy, Debug, PartialEq, Eq, Structural)]
pub enum EnsureStep {
    /// The protocol-mismatch latch is closed: never connect; report "not connected".
    Blocked,
    /// A session is open; report "connected".
    Connected,
    /// The last failure is too recent; report "not connected" without trying.
    BackingOff,
    /// Try to connect now, then report whether a session is open.
    Connect,
}

/// Launching is allowed when the Server was never launched, or long enough ago.
pub open spec fn may_launch_spec(state: ConnectionState, now: u64, t: ReconnectTimings) -> bool {
    match state.last_launch {
        None => true,
        Some(at) => elapsed_spec(at, now) >= t.launch_interval,
    }
}

/// The back-off in force: the short one while a recent launch is still coming up.
pub open spec fn reconnect_interval_spec(state: ConnectionState, now: u64, t: ReconnectTimings) -> u64 {
    match state.last_launch {
        Some(at) if elapsed_spec(at, now) < t.launch_interval => t.reconnect_after_launch,
        _ => t.reconnect_interval,
    }
}

/// The decision of `ensure_connected`.
pub open spec fn ensure_step_spec(state: ConnectionState, mismatched: bool, now: u64, t: ReconnectTimings) -> EnsureStep {
    if mismatched {
        EnsureStep::Blocked
    } else if state.connected {
        EnsureStep::Connected
    } else if state.last_connect_failure matches Some(at) && elapsed_spec(at, now)
        < reconnect_interval_spec(state, now, t) {
        EnsureStep::BackingOff
    } else {
        EnsureStep::Connect
    }
}

impl ConnectionState {
    /// Not connected, nothing failed, nothing launched.
    pub fn new() -> (r: Self)
        ensures
            !r.connected,
            r.last_connect_failure is None,
            r.last_launch is None,
    {
        ConnectionState { connected: false, last_connect_failure: None, last_launch: None }
    }

    /// Whether it has been long enough since the last launch of the Server; right after a
    /// launch it may still be starting.
    pub fn may_launch(&self, now: u64, t: ReconnectTimings) -> (r: bool)
        ensures
            r == may_launch_spec(*self, now, t),
    {
        match self.last_launch {
            None => true,
            Some(at) => elapsed(at, now) >= t.launch_interval,
        }
    }

    /// The back-off interval: short right after launching the Server, the normal one otherwise.
    pub fn reconnect_interval(&self, now: u64, t: ReconnectTimings) -> (r: u64)
        ensures
            r == reconnect_interval_spec(*self, now, t),
    {
        match self.last_launch {
            Some(at) => {
                if elapsed(at, now) < t.launch_interval {
                    t.reconnect_after_launch
                } else {
                    t.reconnect_interval
                }
            },
            None => t.reconnect_interval,
        }
    }

    /// Whether to connect now: never once the protocol-mismatch latch is closed, not while a
    /// session is open, not within the back-off after a failure.
    pub fn ensure_connected(&self, mismatched: bool, now: u64, t: ReconnectTimings) -> (r: EnsureStep)
        ensures
            r == ensure_step_spec(*self, mismatched, now, t),
    {
        if mismatched {
            return EnsureStep::Blocked;
        }
        if self.connected {
            return EnsureStep::Connected;
        }
        let interval = self.reconnect_interval(now, t);
        let recently_failed = match self.last_connect_failure {
            Some(at) => elapsed(at, now) < interval,
            None => false,
        };
        if recently_failed {
            return EnsureStep::BackingOff;
        }
        EnsureStep::Connect
    }

    /// After the pipe could not be opened: launch the Server (and remember when) only when the
    /// pipe was missing and launching is not throttled. Returns whether to launch and wait.
    pub fn on_pipe_error(&mut self, pipe_missing: bool, now: u64, t: ReconnectTimings) -> (r: bool)
        ensures
            r == (pipe_missing && may_launch_spec(*old(self), now, t)),
            final(self).last_launch == (if r { Some(now) } else { old(self).last_launch }),
            final(self).connected == old(self).connected,
            final(self).last_connect_failure == old(self).last_connect_failure,
    {
        if !pipe_missing || !self.may_launch(now, t) {
            return false;
        }
        self.last_launch = Some(now);
        true
    }

    /// Records the outcome of a connection attempt made at `now`.
    pub fn record_connect(&mut self, succeeded: bool, now: u64)
        ensures
            succeeded ==> final(self).connected && final(self).last_connect_failure is None,
            !succeeded ==> final(self).connected == old(self).connected
                && final(self).last_connect_failure == Some(now),
            final(self).last_launch == old(self).last_launch,
    {
        if succeeded {
            self.connected = true;
            self.last_connect_failure = None;
        } else {
            self.last_connect_failure = Some(now);
        }
    }

    /// After a forwarding error: drop the session and forget the last failure, so the next key
    /// reconnects at once. The composition in progress belongs to the dropped session: the
    /// answer tells the caller to end it.
    pub fn disconnect(&mut self) -> (end_composition: bool)
        ensures
            !final(self).connected,
            final(self).last_connect_failure is None,
            final(self).last_launch == old(self).last_launch,
            end_composition,
    {
        self.connected = false;
        self.last_connect_failure = None;
        true
    }
}

/// When polling for the pipe gives up: `budget` milliseconds after `start`.
pub fn poll_deadline(start: u64, budget: u64) -> (r: u64)
    requires
        start + budget <= u64::MAX,
    ensures
        r == start + budget,
{
    start + budget
}

/// Polling for the pipe stops once the deadline is reached.
pub fn poll_expired(now: u64, deadline: u64) -> (r: bool)
    ensures
        r == (now >= deadline),
{
    now >= deadline
}

/// Once the protocol-mismatch latch is closed, no connection is attempted and the link is
/// never reported as up, whatever the state and time.
pub proof fn lemma_mismatch_never_connects(state: ConnectionState, now: u64, t: ReconnectTimings)
    ensures
        ensure_step_spec(state, true, now, t) == EnsureStep::Blocked,
{
}

/// Within the back-off interval after a failed attempt no new attempt is made.
pub proof fn lemma_backoff_after_failure(state: ConnectionState, failed_at: u64, now: u64, t: ReconnectTimings)
    requires
        !state.connected,
        state.last_connect_failure == Some(failed_at),
        failed_at <= now,
        now - failed_at < reconnect_interval_spec(state, now, t),
    ensures
        ensure_step_spec(state, false, now, t) == EnsureStep::BackingOff,
{
}

/// After a disconnect the next key reconnects at once (unless the mismatch latch is closed).
pub proof fn lemma_reconnect_right_after_disconnect(state: ConnectionState, now: u64, t: ReconnectTimings)
    requires
        !state.connected,
        state.last_connect_failure is None,
    ensures
        ensure_step_spec(state, false, now, t) == EnsureStep::Connect,
{
}

/// A launch at `at` blocks further launches until the launch interval has passed.
pub proof fn lemma_launch_throttled(state: ConnectionState, at: u64, now: u64, t: ReconnectTimings)
    requires
        state.last_launch == Some(at),
        at <= now,
    ensures
        may_launch_spec(state, now, t) == (now - at >= t.launch_interval),
{
}

/// The short back-off after launching the Server is in force exactly while a new launch is
/// still throttled, that is for the launch interval after the launch; before any launch and
/// after that interval the normal back-off applies.
pub proof fn lemma_short_backoff_follows_launch(state: ConnectionState, now: u64, t: ReconnectTimings)
    ensures
        reconnect_interval_spec(state, now, t) == (if may_launch_spec(state, now, t) {
            t.reconnect_interval
        } else {
            t.reconnect_after_launch
        }),
        state.last_launch is None ==> reconnect_interval_spec(state, now, t) == t.reconnect_interval,
        state.last_launch matches Some(at) && at <= now && now - at < t.launch_interval
            ==> reconnect_interval_spec(state, now, t) == t.reconnect_after_launch,
        state.last_launch matches Some(at) && at <= now && now - at >= t.launch_interval
            ==> reconnect_interval_spec(state, now, t) == t.reconnect_interval,
{
}

/// Right after a failure a key waits out the back-off in force, then connects: with no
/// session and no mismatch, it backs off exactly while less than that back-off has passed
/// since the failure.
pub proof fn lemma_backoff_measured_from_failure(state: ConnectionState, failed_at: u64, now: u64, t: ReconnectTimings)
    requires
        !state.connected,
        state.last_connect_failure == Some(failed_at),
        failed_at <= now,
    ensures
        (ensure_step_spec(state, false, now, t) == EnsureStep::BackingOff) == (now - failed_at
            < reconnect_interval_spec(state, now, t)),
        (ensure_step_spec(state, false, now, t) == EnsureStep::Connect) == (now - failed_at
            >= reconnect_interval_spec(state, now, t)),
{
}

} // verus!
