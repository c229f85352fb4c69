//! IoT pipe watchdog: when neither IoT pipe answers, the service is
//! recovered, at most once per cooldown.
use vstd::prelude::*;

verus! {

/// Seconds between health probes.
pub const WATCHDOG_INTERVAL_SECS: u64 = 30;

/// Minimum milliseconds between two recovery attempts.
pub const RECOVERY_COOLDOWN_MS: u64 = 300_000;

/// When the last recovery was attempted (monotonic milliseconds).
#[derive(Debug, Clone, Copy, PartialEq, Eq, Structural)]
pub struct WatchdogState {
    pub last_recovery: Option<u64>,
}

/// Milliseconds from `t` to `now` (0 if `t` is later).
pub open spec fn ms_since(now: u64, t: u64) -> int {
    if now >= t {
        now - t
    } else {
        0
    }
}

pub open spec fn allowed_at(s: WatchdogState, now: u64) -> bool {
    match s.last_recovery {
        Some(last) => ms_since(now, last) >= RECOVERY_COOLDOWN_MS,
        None => true,
    }
}

impl WatchdogState {
    pub fn new() -> (s: Self)
        ensures
            s.last_recovery is None,
    {
        WatchdogState { last_recovery: None }
    }

    /// Whether a recovery may start now (the cooldown elapsed); an allowed
    /// attempt is recorded.
    pub fn recovery_allowed(&mut self, now: u64) -> (ok: bool)
        ensures
            ok == allowed_at(*old(self), now),
            ok ==> final(self).last_recovery == Some(now),
            !ok ==> *final(self) == *old(self),
    {
        match self.last_recovery {
            Some(last) => {
                let el = if now >= last {
                    now - last
                } else {
                    0
                };
                if el < RECOVERY_COOLDOWN_MS {
                    return false;
                }
            },
            None => {},
        }
        self.last_recovery = Some(now);
        true
    }
}

/// What a health check decides.
#[derive(Debug, Clone, Copy, PartialEq, Eq, Structural)]
pub enum WatchdogAction {
    /// A pipe answered.
    Healthy,
    /// Down, but a recovery ran less than the cooldown ago.
    Cooldown,
    /// Down: recover the service now.
    Recover,
}

/// One health check: nothing to do while a pipe answers; else recover,
/// unless within the cooldown.
pub fn check_once(state: &mut WatchdogState, pipe_available: bool, now: u64) -> (a: WatchdogAction)
    ensures
        pipe_available ==> a == WatchdogAction::Healthy && *final(state) == *old(state),
        !pipe_available ==> (a == (if allowed_at(*old(state), now) {
            WatchdogAction::Recover
        } else {
            WatchdogAction::Cooldown
        })),
        !pipe_available && allowed_at(*old(state), now) ==> final(state).last_recovery == Some(now),
        !(!pipe_available && allowed_at(*old(state), now)) ==> *final(state) == *old(state),
{
    if pipe_available {
        return WatchdogAction::Healthy;
    }
    if state.recovery_allowed(now) {
        WatchdogAction::Recover
    } else {
        WatchdogAction::Cooldown
    }
}

/// Two recoveries are never closer than the cooldown: right after an
/// allowed attempt at `t`, no attempt is allowed before `t + cooldown`.
pub proof fn law_recoveries_spaced(t: u64, now: u64)
    requires
        t <= now,
        now - t < RECOVERY_COOLDOWN_MS,
    ensures
        !allowed_at(WatchdogState { last_recovery: Some(t) }, now),
{
}

} // verus!
