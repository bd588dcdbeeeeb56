//! Process supervisor: worker handle lifecycle and restart policy.
//!
//! The supervisor owns the single worker handle — replaced, never duplicated
//! — and decides how a disconnect episode proceeds: up to
//! `APP_SERVER_MAX_RESTART_ATTEMPTS` restart attempts, each preceded by an
//! exponential backoff, rate-limited by a sliding window of restart
//! timestamps. The host performs the actual spawn, shutdown, sleep and event
//! delivery, and reports each outcome back.

use vstd::prelude::*;
use crate::backoff::{
    app_server_backoff, backoff_spec, APP_SERVER_BACKOFF_BASE_SECS, APP_SERVER_BACKOFF_MAX_SECS,
    APP_SERVER_MAX_RESTARTS_PER_WINDOW, APP_SERVER_MAX_RESTART_ATTEMPTS,
    APP_SERVER_RESTART_WINDOW_SECS,
};

verus! {

/// Exclusive ownership of one live worker process instance. Only the
/// supervisor creates or destroys handles, and it replaces rather than
/// mutates them on every restart.
#[derive(Debug, Clone, Copy, PartialEq, Eq, Structural)]
pub struct WorkerHandle {
    pub alive: bool,
}

/// Progress of the restart episode triggered by one disconnect notification.
#[derive(Debug, Clone, Copy, PartialEq, Eq, Structural)]
pub struct RestartEpisode {
    /// Number of the next restart attempt, starting at 1.
    pub next_attempt: u32,
    /// The episode is over: a restart succeeded, the rate limit tripped, or
    /// the attempts were exhausted.
    pub finished: bool,
    /// The episode ended by tripping the rate limit.
    pub paused: bool,
}

/// What the host must do next for a disconnect episode.
#[derive(Debug, Clone, Copy, PartialEq, Eq, Structural)]
pub enum EpisodeAction {
    /// Sleep `delay_secs`, try to restart the worker, and report the outcome
    /// through `record_attempt`.
    Attempt { attempt: u32, delay_secs: u64 },
    /// The rate limit tripped: emit the restarts-paused notification once and
    /// stop attempting for this episode.
    Pause,
    /// Nothing more to do for this episode.
    Rest,
}

/// The worker handle and the sliding window of restart timestamps.
#[derive(Debug, Clone)]
pub struct Supervisor {
    pub worker: Option<WorkerHandle>,
    /// Timestamps (seconds, monotonic) of past restart attempts, pruned to
    /// the sliding window on each restart decision.
    pub restart_history: Vec<u64>,
}

/// Whether a restart timestamp still falls in the sliding window at `now`.
/// An out-of-order clock reading counts as age zero, as a monotonic clock's
/// `duration_since` reports.
pub open spec fn in_restart_window(t: u64, now: u64) -> bool {
    now < t || now - t < APP_SERVER_RESTART_WINDOW_SECS
}

/// The restart history pruned to the sliding window at `now`.
pub open spec fn spec_prune(history: Seq<u64>, now: u64) -> Seq<u64> {
    history.filter(|t: u64| in_restart_window(t, now))
}

/// One restart decision of a disconnect episode: prune the window; if it
/// already holds `APP_SERVER_MAX_RESTARTS_PER_WINDOW` entries, pause (ending
/// the episode); if the attempts are exhausted, rest (ending the episode);
/// otherwise attempt a restart after the attempt's backoff. A finished
/// episode rests and changes nothing.
pub open spec fn spec_episode_step(history: Seq<u64>, ep: RestartEpisode, now: u64) -> (
    Seq<u64>,
    RestartEpisode,
    EpisodeAction,
) {
    if ep.finished {
        (history, ep, EpisodeAction::Rest)
    } else {
        let pruned = spec_prune(history, now);
        if pruned.len() >= APP_SERVER_MAX_RESTARTS_PER_WINDOW {
            (
                pruned,
                RestartEpisode { finished: true, paused: true, ..ep },
                EpisodeAction::Pause,
            )
        } else if ep.next_attempt > APP_SERVER_MAX_RESTART_ATTEMPTS {
            (pruned, RestartEpisode { finished: true, ..ep }, EpisodeAction::Rest)
        } else {
            (
                pruned,
                ep,
                EpisodeAction::Attempt {
                    attempt: ep.next_attempt,
                    delay_secs: backoff_spec(
                        APP_SERVER_BACKOFF_BASE_SECS as nat,
                        ep.next_attempt as nat,
                        APP_SERVER_BACKOFF_MAX_SECS as nat,
                    ) as u64,
                },
            )
        }
    }
}

impl Supervisor {
    /// How many live worker handles the supervisor holds: zero or one by
    /// construction, since the single handle slot is replaced, never
    /// duplicated.
    pub open spec fn live_handles(self) -> nat {
        match self.worker {
            Some(h) => if h.alive {
                1
            } else {
                0
            },
            None => 0,
        }
    }

    /// Whether a live worker handle exists.
    pub open spec fn spec_worker_running(self) -> bool {
        self.worker matches Some(h) && h.alive
    }

    /// A fresh supervisor: no worker, empty restart history.
    pub fn new() -> (s: Supervisor)
        ensures
            s.worker == None::<WorkerHandle>,
            s.restart_history@ == Seq::<u64>::empty(),
    {
        Supervisor { worker: None, restart_history: Vec::new() }
    }

    /// Whether a live worker handle exists.
    pub fn worker_running(&self) -> (b: bool)
        ensures
            b == self.spec_worker_running(),
    {
        match &self.worker {
            Some(h) => h.alive,
            None => false,
        }
    }

    /// Whether `start` must spawn a worker: there is no handle, or the
    /// handle is dead. A live worker makes `start` a no-op.
    pub fn needs_spawn(&self) -> (b: bool)
        ensures
            b == !self.spec_worker_running(),
    {
        !self.worker_running()
    }

    /// The host spawned a worker: record the new live handle. Requires that
    /// no live handle exists — the supervisor never holds two live handles,
    /// so a dead or absent handle is replaced, never joined.
    pub fn note_spawned(&mut self)
        requires
            !old(self).spec_worker_running(),
        ensures
            final(self).worker == Some(WorkerHandle { alive: true }),
            final(self).restart_history@ == old(self).restart_history@,
            final(self).live_handles() == 1,
    {
        self.worker = Some(WorkerHandle { alive: true });
    }

    /// The host shut the worker down (or found none): the handle is dropped.
    pub fn note_stopped(&mut self)
        ensures
            final(self).worker == None::<WorkerHandle>,
            final(self).restart_history@ == old(self).restart_history@,
            final(self).live_handles() == 0,
    {
        self.worker = None;
    }

    /// The worker terminated unexpectedly (a disconnect notification): the
    /// handle, if any, is now dead. Returns a fresh episode for the restart
    /// loop.
    pub fn note_disconnected(&mut self) -> (ep: RestartEpisode)
        ensures
            final(self).worker == match old(self).worker {
                Some(_) => Some(WorkerHandle { alive: false }),
                None => None::<WorkerHandle>,
            },
            final(self).restart_history@ == old(self).restart_history@,
            final(self).live_handles() == 0,
            ep == (RestartEpisode { next_attempt: 1, finished: false, paused: false }),
    {
        if self.worker.is_some() {
            self.worker = Some(WorkerHandle { alive: false });
        }
        RestartEpisode { next_attempt: 1, finished: false, paused: false }
    }

    /// One restart decision for the episode, as `spec_episode_step` says:
    /// prunes the restart window, trips the rate limit with `Pause`, gives up
    /// with `Rest`, or hands out the next `Attempt` with its backoff delay.
    pub fn episode_step(&mut self, ep: &mut RestartEpisode, now: u64) -> (a: EpisodeAction)
        ensures
            final(self).restart_history@ == spec_episode_step(
                old(self).restart_history@,
                *old(ep),
                now,
            ).0,
            *final(ep) == spec_episode_step(old(self).restart_history@, *old(ep), now).1,
            a == spec_episode_step(old(self).restart_history@, *old(ep), now).2,
            final(self).worker == old(self).worker,
    {
        if ep.finished {
            return EpisodeAction::Rest;
        }
        self.prune_history(now);
        if self.restart_history.len() >= APP_SERVER_MAX_RESTARTS_PER_WINDOW {
            ep.finished = true;
            ep.paused = true;
            return EpisodeAction::Pause;
        }
        if ep.next_attempt > APP_SERVER_MAX_RESTART_ATTEMPTS {
            ep.finished = true;
            return EpisodeAction::Rest;
        }
        let delay_secs = app_server_backoff(ep.next_attempt);
        EpisodeAction::Attempt { attempt: ep.next_attempt, delay_secs }
    }

    /// The host slept the delay and tried the restart: append the attempt's
    /// timestamp to the window — success or failure — and advance the
    /// episode. A successful restart replaces the handle with a live one and
    /// ends the episode; a failed one leaves the worker down.
    pub fn record_attempt(&mut self, ep: &mut RestartEpisode, now: u64, success: bool)
        requires
            !old(ep).finished,
            old(ep).next_attempt <= APP_SERVER_MAX_RESTART_ATTEMPTS,
        ensures
            final(self).restart_history@ == old(self).restart_history@.push(now),
            final(ep).next_attempt == old(ep).next_attempt + 1,
            final(ep).paused == old(ep).paused,
            success ==> final(ep).finished && final(self).worker == Some(
                WorkerHandle { alive: true },
            ) && final(self).live_handles() == 1,
            !success ==> final(ep).finished == old(ep).finished && final(self).worker
                == None::<WorkerHandle> && final(self).live_handles() == 0,
    {
        self.restart_history.push(now);
        ep.next_attempt = ep.next_attempt + 1;
        if success {
            ep.finished = true;
            self.worker = Some(WorkerHandle { alive: true });
        } else {
            self.worker = None;
        }
    }

    /// Drop every restart timestamp that has left the sliding window.
    fn prune_history(&mut self, now: u64)
        ensures
            final(self).restart_history@ == spec_prune(old(self).restart_history@, now),
            final(self).worker == old(self).worker,
    {
        let ghost pred = |t: u64| in_restart_window(t, now);
        let mut kept: Vec<u64> = Vec::new();
        let mut i: usize = 0;
        while i < self.restart_history.len()
            invariant
                i <= self.restart_history@.len(),
                kept@ == self.restart_history@.subrange(0, i as int).filter(pred),
                pred == (|t: u64| in_restart_window(t, now)),
            decreases self.restart_history@.len() - i,
        {
            let t = self.restart_history[i];
            proof {
                reveal(Seq::filter);
                assert(self.restart_history@.subrange(0, i + 1 as int).drop_last()
                    =~= self.restart_history@.subrange(0, i as int));
                assert(self.restart_history@.subrange(0, i + 1 as int).last() == t);
            }
            let keep = if now < t {
                true
            } else {
                now - t < APP_SERVER_RESTART_WINDOW_SECS
            };
            if keep {
                kept.push(t);
            }
            i = i + 1;
        }
        proof {
            assert(self.restart_history@.subrange(0, self.restart_history@.len() as int)
                =~= self.restart_history@);
        }
        self.restart_history = kept;
    }
}

/// For all sequences of disconnect events, the supervisor never holds two
/// live worker handles at once: the handle slot holds at most one handle,
/// every transition leaves at most one live, and a spawn is recorded only
/// when no live handle exists (see `note_spawned`'s precondition).
pub proof fn lemma_at_most_one_live_worker(s: Supervisor)
    ensures
        s.live_handles() <= 1,
{
}

/// The rate limit ends an episode and is reported exactly once: a finished
/// episode only ever rests, unchanged — so no restart attempt and no second
/// pause follows — and `Pause` is produced exactly by a step of an
/// unfinished episode whose pruned window is full, which finishes it.
pub proof fn lemma_pause_is_terminal(history: Seq<u64>, ep: RestartEpisode, now: u64)
    ensures
        ep.finished ==> spec_episode_step(history, ep, now) == (history, ep, EpisodeAction::Rest),
        spec_episode_step(history, ep, now).2 == EpisodeAction::Pause <==> (!ep.finished
            && spec_prune(history, now).len() >= APP_SERVER_MAX_RESTARTS_PER_WINDOW),
        spec_episode_step(history, ep, now).2 == EpisodeAction::Pause ==> spec_episode_step(
            history,
            ep,
            now,
        ).1.finished && spec_episode_step(history, ep, now).1.paused,
        spec_episode_step(history, ep, now).2 matches EpisodeAction::Attempt { .. }
            ==> spec_prune(history, now).len() < APP_SERVER_MAX_RESTARTS_PER_WINDOW,
{
}

} // verus!
