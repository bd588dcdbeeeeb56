//! Liveness monitor for the UI surface.
//!
//! Tracks readiness and heartbeats of the UI surface and decides when a
//! bounded, backed-off recovery attempt may start. Time is a monotonic clock
//! reading in milliseconds, supplied by the host.

use vstd::prelude::*;
use crate::backoff::{
    backoff_spec, renderer_recovery_backoff, RENDERER_HEARTBEAT_TIMEOUT_SECS,
    RENDERER_MAX_RECOVERY_ATTEMPTS, RENDERER_RECOVERY_BASE_SECS, RENDERER_RECOVERY_MAX_SECS,
};

verus! {

/// A copy of the monitor's current state, handed to the periodic check.
#[derive(Debug, Clone)]
pub struct RendererHealthSnapshot {
    pub ready: bool,
    pub last_heartbeat: Option<u64>,
    pub recovery_attempts: u32,
    pub last_recovery: Option<u64>,
}

/// Readiness, heartbeat and recovery record of the UI surface.
///
/// State machine: not ready, then ready; a ready surface whose heartbeat is
/// older than the stall timeout is stalled, and a stalled surface may enter
/// recovery at most `RENDERER_MAX_RECOVERY_ATTEMPTS` times per episode, each
/// attempt separated by a growing backoff. Any heartbeat or ready signal
/// resets the recovery counters.
#[derive(Debug, Clone)]
pub struct RendererHealth {
    pub ready: bool,
    pub last_ready: Option<u64>,
    pub last_heartbeat: Option<u64>,
    pub recovery_attempts: u32,
    pub last_recovery: Option<u64>,
}

/// Milliseconds elapsed from `earlier` to `now`, zero if the clock readings
/// are out of order (as a monotonic clock's `duration_since` reports).
pub open spec fn elapsed(earlier: u64, now: u64) -> nat {
    if now >= earlier {
        (now - earlier) as nat
    } else {
        0
    }
}

/// The state after a ready signal at `now_ms`.
pub open spec fn spec_mark_ready(h: RendererHealth, now_ms: u64) -> RendererHealth {
    RendererHealth {
        ready: true,
        last_ready: Some(now_ms),
        last_heartbeat: Some(now_ms),
        recovery_attempts: 0,
        last_recovery: None,
    }
}

/// The state after a heartbeat at `now_ms`.
pub open spec fn spec_heartbeat(h: RendererHealth, now_ms: u64) -> RendererHealth {
    RendererHealth {
        last_heartbeat: Some(now_ms),
        recovery_attempts: 0,
        last_recovery: None,
        ..h
    }
}

/// Whether a recovery attempt may start at `now_ms`: the surface must be
/// ready, the attempt cap not yet reached, and any previous recovery older
/// than the supplied backoff.
pub open spec fn recovery_permitted(
    h: RendererHealth,
    now_ms: u64,
    max_attempts: u32,
    backoff_ms: u64,
) -> bool {
    &&& h.ready
    &&& h.recovery_attempts < max_attempts
    &&& match h.last_recovery {
        Some(last) => elapsed(last, now_ms) >= backoff_ms,
        None => true,
    }
}

/// The state after a permitted recovery attempt at `now_ms`.
pub open spec fn spec_start_recovery(h: RendererHealth, now_ms: u64) -> RendererHealth {
    RendererHealth {
        recovery_attempts: (h.recovery_attempts + 1) as u32,
        last_recovery: Some(now_ms),
        ..h
    }
}

/// Whether the periodic check at `now_ms` sees a stalled surface: ready, with
/// a heartbeat at least `RENDERER_HEARTBEAT_TIMEOUT_SECS` old.
pub open spec fn spec_stalled(h: RendererHealth, now_ms: u64) -> bool {
    &&& h.ready
    &&& match h.last_heartbeat {
        Some(hb) => elapsed(hb, now_ms) >= RENDERER_HEARTBEAT_TIMEOUT_SECS * 1000,
        None => false,
    }
}

/// Backoff the periodic check applies before recovery attempt
/// `h.recovery_attempts + 1`, in milliseconds.
pub open spec fn spec_check_backoff_ms(h: RendererHealth) -> nat {
    backoff_spec(
        RENDERER_RECOVERY_BASE_SECS as nat,
        (h.recovery_attempts + 1) as nat,
        RENDERER_RECOVERY_MAX_SECS as nat,
    ) * 1000
}

/// Whether the periodic check at `now_ms` starts a recovery attempt.
pub open spec fn spec_check_recovers(h: RendererHealth, now_ms: u64) -> bool {
    &&& spec_stalled(h, now_ms)
    &&& h.recovery_attempts < RENDERER_MAX_RECOVERY_ATTEMPTS
    &&& match h.last_recovery {
        Some(last) => elapsed(last, now_ms) >= spec_check_backoff_ms(h),
        None => true,
    }
}

impl RendererHealth {
    /// A fresh record: not ready, no timestamps, no recovery attempts.
    pub fn new() -> (h: RendererHealth)
        ensures
            !h.ready,
            h.last_ready == None::<u64>,
            h.last_heartbeat == None::<u64>,
            h.recovery_attempts == 0,
            h.last_recovery == None::<u64>,
    {
        RendererHealth {
            ready: false,
            last_ready: None,
            last_heartbeat: None,
            recovery_attempts: 0,
            last_recovery: None,
        }
    }

    /// The UI surface signalled that it is ready: it becomes ready, the ready
    /// and heartbeat stamps are set to `now_ms`, and the recovery counters
    /// reset.
    pub fn mark_ready(&mut self, now_ms: u64)
        ensures
            *final(self) == spec_mark_ready(*old(self), now_ms),
            final(self).recovery_attempts == 0,
    {
        self.ready = true;
        self.last_ready = Some(now_ms);
        self.last_heartbeat = Some(now_ms);
        self.recovery_attempts = 0;
        self.last_recovery = None;
    }

    /// A heartbeat arrived: the heartbeat stamp is refreshed and the recovery
    /// counters reset; readiness is unchanged.
    pub fn heartbeat(&mut self, now_ms: u64)
        ensures
            *final(self) == spec_heartbeat(*old(self), now_ms),
            final(self).recovery_attempts == 0,
    {
        self.last_heartbeat = Some(now_ms);
        self.recovery_attempts = 0;
        self.last_recovery = None;
    }

    /// A copy of the current state for the periodic check.
    pub fn snapshot(&self) -> (s: RendererHealthSnapshot)
        ensures
            s.ready == self.ready,
            s.last_heartbeat == self.last_heartbeat,
            s.recovery_attempts == self.recovery_attempts,
            s.last_recovery == self.last_recovery,
    {
        RendererHealthSnapshot {
            ready: self.ready,
            last_heartbeat: self.last_heartbeat,
            recovery_attempts: self.recovery_attempts,
            last_recovery: self.last_recovery,
        }
    }

    /// Start a recovery attempt if permitted: the surface is ready, fewer
    /// than `max_attempts` attempts were made, and any previous attempt is at
    /// least `backoff_ms` old. Returns the new attempt number, or `None` (and
    /// changes nothing) if recovery is not permitted.
    pub fn try_start_recovery(&mut self, now_ms: u64, max_attempts: u32, backoff_ms: u64) -> (r:
        Option<u32>)
        ensures
            recovery_permitted(*old(self), now_ms, max_attempts, backoff_ms) ==> {
                &&& *final(self) == spec_start_recovery(*old(self), now_ms)
                &&& r == Some((old(self).recovery_attempts + 1) as u32)
            },
            !recovery_permitted(*old(self), now_ms, max_attempts, backoff_ms) ==> {
                &&& *final(self) == *old(self)
                &&& r == None::<u32>
            },
    {
        if !self.ready {
            return None;
        }
        if self.recovery_attempts >= max_attempts {
            return None;
        }
        if let Some(last) = self.last_recovery {
            let since = if now_ms >= last {
                now_ms - last
            } else {
                0
            };
            if since < backoff_ms {
                return None;
            }
        }
        self.recovery_attempts = self.recovery_attempts + 1;
        self.last_recovery = Some(now_ms);
        Some(self.recovery_attempts)
    }

    /// One periodic liveness check at `now_ms`. If the surface is ready and
    /// its last heartbeat is at least the stall timeout old, a recovery
    /// attempt starts, provided fewer than `RENDERER_MAX_RECOVERY_ATTEMPTS`
    /// were made and the attempt's backoff has elapsed. Returns the attempt
    /// number of a started recovery, or `None` (and changes nothing).
    pub fn check(&mut self, now_ms: u64) -> (r: Option<u32>)
        ensures
            spec_check_recovers(*old(self), now_ms) ==> {
                &&& *final(self) == spec_start_recovery(*old(self), now_ms)
                &&& r == Some((old(self).recovery_attempts + 1) as u32)
            },
            !spec_check_recovers(*old(self), now_ms) ==> {
                &&& *final(self) == *old(self)
                &&& r == None::<u32>
            },
    {
        if !self.ready {
            return None;
        }
        let last_heartbeat = match self.last_heartbeat {
            Some(hb) => hb,
            None => {
                return None;
            },
        };
        let since_heartbeat = if now_ms >= last_heartbeat {
            now_ms - last_heartbeat
        } else {
            0
        };
        if since_heartbeat < RENDERER_HEARTBEAT_TIMEOUT_SECS * 1000 {
            return None;
        }
        let attempt = if self.recovery_attempts < u32::MAX {
            self.recovery_attempts + 1
        } else {
            u32::MAX
        };
        let backoff_ms = renderer_recovery_backoff(attempt) * 1000;
        assert(backoff_ms == spec_check_backoff_ms(*self) || self.recovery_attempts
            >= RENDERER_MAX_RECOVERY_ATTEMPTS);
        self.try_start_recovery(now_ms, RENDERER_MAX_RECOVERY_ATTEMPTS, backoff_ms)
    }
}

/// Any heartbeat resets the recovery counter to zero, and a check within the
/// stall timeout of that heartbeat starts no recovery: the record stays at
/// zero attempts and never enters recovery.
pub proof fn lemma_heartbeat_cancels_stall(h: RendererHealth, t: u64, t_check: u64)
    requires
        elapsed(t, t_check) < RENDERER_HEARTBEAT_TIMEOUT_SECS * 1000,
    ensures
        spec_heartbeat(h, t).recovery_attempts == 0,
        !spec_check_recovers(spec_heartbeat(h, t), t_check),
        spec_mark_ready(h, t).recovery_attempts == 0,
        !spec_check_recovers(spec_mark_ready(h, t), t_check),
{
}

/// Recovery attempts never exceed the cap of 3 for one unresolved stall
/// episode: every transition of the record keeps the counter at or below
/// `RENDERER_MAX_RECOVERY_ATTEMPTS`, and a check that finds the cap reached
/// (the fourth consecutive stalled check) changes nothing.
pub proof fn lemma_recovery_attempts_bounded(h: RendererHealth, now_ms: u64)
    requires
        h.recovery_attempts <= RENDERER_MAX_RECOVERY_ATTEMPTS,
    ensures
        spec_mark_ready(h, now_ms).recovery_attempts <= RENDERER_MAX_RECOVERY_ATTEMPTS,
        spec_heartbeat(h, now_ms).recovery_attempts <= RENDERER_MAX_RECOVERY_ATTEMPTS,
        spec_check_recovers(h, now_ms) ==> spec_start_recovery(h, now_ms).recovery_attempts
            <= RENDERER_MAX_RECOVERY_ATTEMPTS,
        h.recovery_attempts == RENDERER_MAX_RECOVERY_ATTEMPTS ==> !spec_check_recovers(h, now_ms),
{
}

} // verus!
