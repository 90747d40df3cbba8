//! The per-project monitor actor: its durable state and every transition of
//! its state machine.
//!
//! One `MonitorStore` stands for the durable state a single project's actor
//! owns: the stored configuration (absent until setup), the last-seen
//! release fingerprint, and the at-most-one pending single-shot timer. The
//! platform serializes each actor's operations, so the transitions here are
//! plain functions from the old state to the new one.
//!
//! The check algorithm itself needs the outside world (a fetch, a dispatch
//! call); its decisions live in [`crate::check`] as pure functions, and the
//! transitions here hand the configuration out and take the outcome back.

use vstd::prelude::*;
use crate::config::{MonitorState, ProjectConfig};
use crate::errors::{WatchError, WatchErrorStatus, WatchResult};
use crate::release::GitHubRelease;
use crate::time::Timestamp;

verus! {

/// The durable state of one project's monitor actor.
pub struct MonitorStore {
    /// The stored configuration; absent until setup, absent again after stop.
    pub config: Option<ProjectConfig>,
    /// The last-seen release fingerprint; written only after an accepted
    /// dispatch.
    pub fingerprint: Option<GitHubRelease>,
    /// The pending single-shot timer, as the delay in milliseconds it was
    /// scheduled with; at most one is ever pending.
    pub timer: Option<u64>,
}

impl MonitorStore {
    /// The timer discipline the transitions maintain: no configuration or a
    /// paused one means no pending timer, and a running project has exactly
    /// one. A violation can only be left behind by the outside world (an
    /// orphaned timer); the alarm transition repairs it.
    pub open spec fn consistent(self) -> bool {
        match self.config {
            None => self.timer is None,
            Some(c) => match c.state {
                MonitorState::Paused => self.timer is None,
                MonitorState::Running { .. } => self.timer is Some,
            },
        }
    }

    /// A fresh actor: nothing stored, nothing pending.
    pub fn new() -> (store: MonitorStore)
        ensures
            store.config is None,
            store.fingerprint is None,
            store.timer is None,
            store.consistent(),
    {
        MonitorStore { config: None, fingerprint: None, timer: None }
    }

    /// Setup: store the configuration with state
    /// `Running(now + initial_delay)` and schedule exactly one timer for
    /// that delay. Always succeeds and overwrites any prior configuration
    /// and state; re-setup is how a project is updated.
    pub fn setup(&mut self, config: ProjectConfig, now: Timestamp) -> (r: WatchResult<()>)
        requires
            config.request.initial_delay.spec_millis() <= i64::MAX,
            now.spec_millis() + config.request.initial_delay.spec_millis() <= i64::MAX,
        ensures
            r is Ok,
            final(self).config matches Some(c) && {
                &&& c.unique_key == config.unique_key
                &&& c.request == config.request
                &&& c.state == (MonitorState::Running {
                    next_check_at: Timestamp {
                        millis: (now.spec_millis()
                            + config.request.initial_delay.spec_millis()) as i64,
                    },
                })
            },
            final(self).timer == Some(
                config.request.initial_delay.spec_millis() as u64,
            ),
            final(self).fingerprint == old(self).fingerprint,
            final(self).consistent(),
    {
        let delay = config.request.initial_delay;
        let next_check_at = now.plus(delay);
        let stored = ProjectConfig {
            unique_key: config.unique_key,
            state: MonitorState::running(next_check_at),
            request: config.request,
        };
        self.config = Some(stored);
        self.timer = Some(delay.as_millis());
        Ok(())
    }

    /// Stop: delete the configuration, the fingerprint, and any pending
    /// timer. Idempotent: the final state is empty whatever held before.
    pub fn stop(&mut self) -> (r: WatchResult<()>)
        ensures
            r is Ok,
            final(self).config is None,
            final(self).fingerprint is None,
            final(self).timer is None,
            final(self).consistent(),
    {
        self.config = None;
        self.fingerprint = None;
        self.timer = None;
        Ok(())
    }

    /// Read the stored configuration; absence is an answer, never an error.
    pub fn get_config(&self) -> (r: WatchResult<Option<ProjectConfig>>)
        ensures
            r == WatchResult::<Option<ProjectConfig>>::Ok(self.config),
    {
        match &self.config {
            Some(c) => Ok(Some(c.clone())),
            None => Ok(None),
        }
    }

    /// Switch the paused-ness. With no stored configuration this fails with
    /// NotFound and changes nothing. When the requested paused-ness already
    /// holds it is a no-op: no write, no timer change. Pausing cancels the
    /// timer; resuming sets `next_check_at = now` and schedules an immediate
    /// (zero-delay) timer, so a check runs promptly through the normal
    /// algorithm.
    pub fn switch(&mut self, paused: bool, now: Timestamp) -> (r: WatchResult<()>)
        ensures
            old(self).consistent() ==> final(self).consistent(),
            old(self).config is None ==> {
                &&& r is Err
                &&& r->Err_0.status == WatchErrorStatus::NotFound
                &&& *final(self) == *old(self)
            },
            old(self).config matches Some(c) ==> {
                &&& final(self).fingerprint == old(self).fingerprint
                &&& r is Ok
                &&& if (c.state is Paused) == paused {
                    *final(self) == *old(self)
                } else if paused {
                    final(self).config == Some(
                        ProjectConfig {
                            state: MonitorState::Paused,
                            ..c
                        },
                    ) && final(self).timer is None
                } else {
                    final(self).config == Some(
                        ProjectConfig {
                            state: MonitorState::Running { next_check_at: now },
                            ..c
                        },
                    ) && final(self).timer == Some(0u64)
                }
            },
    {
        let config = match &self.config {
            Some(c) => c,
            None => {
                return Err(WatchError::not_found(String::from_str("No config found")));
            },
        };
        let is_currently_paused = config.state.is_paused();
        if is_currently_paused == paused {
            return Ok(());
        }
        if paused {
            self.config = Some(
                ProjectConfig {
                    unique_key: config.unique_key.clone(),
                    state: MonitorState::Paused,
                    request: config.request.clone(),
                },
            );
            self.timer = None;
        } else {
            self.config = Some(
                ProjectConfig {
                    unique_key: config.unique_key.clone(),
                    state: MonitorState::running(now),
                    request: config.request.clone(),
                },
            );
            self.timer = Some(0);
        }
        Ok(())
    }

    /// Manual trigger: with no stored configuration it fails with NotFound;
    /// otherwise it hands the configuration out for the caller to run the
    /// check algorithm with. Neither the timer nor `next_check_at` is
    /// touched: a manual trigger does not reschedule the autonomous cadence.
    pub fn trigger_gate(&self) -> (r: WatchResult<ProjectConfig>)
        ensures
            self.config is None ==> r is Err && r->Err_0.status == WatchErrorStatus::NotFound,
            self.config matches Some(c) ==> r == WatchResult::<ProjectConfig>::Ok(c),
    {
        match &self.config {
            Some(c) => Ok(c.clone()),
            None => Err(WatchError::not_found(String::from_str("No config found"))),
        }
    }

    /// The guard the timer callback runs first. With no stored
    /// configuration it cancels any stray timer and ends successfully
    /// (self-healing against orphaned timers); while paused it cancels the
    /// timer and ends successfully (a timer that fired after a race with a
    /// pause); only a running project's configuration is handed out for the
    /// check. In the first two cases no new timer is scheduled.
    pub fn on_alarm_gate(&mut self) -> (proceed: Option<ProjectConfig>)
        ensures
            old(self).config is None ==> {
                &&& proceed is None
                &&& final(self).timer is None
                &&& final(self).config == old(self).config
                &&& final(self).fingerprint == old(self).fingerprint
                &&& final(self).consistent()
            },
            old(self).config matches Some(c) ==> (c.state is Paused ==> {
                &&& proceed is None
                &&& final(self).timer is None
                &&& final(self).config == old(self).config
                &&& final(self).fingerprint == old(self).fingerprint
                &&& final(self).consistent()
            }),
            old(self).config matches Some(c) ==> (c.state is Running ==> {
                &&& proceed == Some(c)
                &&& *final(self) == *old(self)
            }),
    {
        let config = match &self.config {
            Some(c) => c,
            None => {
                self.timer = None;
                return None;
            },
        };
        if config.state.is_paused() {
            self.timer = None;
            return None;
        }
        Some(config.clone())
    }

    /// The tail of the timer callback, run whatever the check's outcome
    /// was: pick the next interval (the check interval after success, the
    /// retry interval after failure), set `next_check_at = now + interval`,
    /// and schedule exactly one new timer for it. Every alarm of a running
    /// project thus perpetuates itself.
    pub fn on_alarm_finish(&mut self, now: Timestamp, check_ok: bool) -> (r: WatchResult<()>)
        requires
            old(self).config is Some,
            old(self).config->0.request.time_config.check_interval.spec_millis() <= i64::MAX,
            old(self).config->0.request.time_config.retry_interval.spec_millis() <= i64::MAX,
            now.spec_millis() + old(
                self,
            ).config->0.request.time_config.check_interval.spec_millis() <= i64::MAX,
            now.spec_millis() + old(
                self,
            ).config->0.request.time_config.retry_interval.spec_millis() <= i64::MAX,
        ensures
            r is Ok,
            ({
                let c = old(self).config->0;
                let interval = if check_ok {
                    c.request.time_config.check_interval
                } else {
                    c.request.time_config.retry_interval
                };
                &&& final(self).config == Some(
                    ProjectConfig {
                        state: MonitorState::Running {
                            next_check_at: Timestamp {
                                millis: (now.spec_millis() + interval.spec_millis()) as i64,
                            },
                        },
                        ..c
                    },
                )
                &&& final(self).timer == Some(interval.spec_millis() as u64)
            }),
            final(self).fingerprint == old(self).fingerprint,
            final(self).consistent(),
    {
        let config = match &self.config {
            Some(c) => c,
            None => {
                return Err(WatchError::store(String::from_str("No config found")));
            },
        };
        let interval = if check_ok {
            config.request.time_config.check_interval
        } else {
            config.request.time_config.retry_interval
        };
        let next_check_at = now.plus(interval);
        self.config = Some(
            ProjectConfig {
                unique_key: config.unique_key.clone(),
                state: MonitorState::running(next_check_at),
                request: config.request.clone(),
            },
        );
        self.timer = Some(interval.as_millis());
        Ok(())
    }

    /// Settle a dispatch made for a fresh release: only an accepted dispatch
    /// persists the new fingerprint; a failed one leaves the stored
    /// fingerprint as it was and surfaces the failure. The configuration and
    /// the timer are never touched here.
    pub fn settle_dispatch(
        &mut self,
        fingerprint: GitHubRelease,
        dispatch_result: WatchResult<()>,
    ) -> (r: WatchResult<()>)
        ensures
            old(self).consistent() ==> final(self).consistent(),
            final(self).config == old(self).config,
            final(self).timer == old(self).timer,
            dispatch_result is Ok ==> {
                &&& r is Ok
                &&& final(self).fingerprint == Some(fingerprint)
            },
            dispatch_result matches Err(e) ==> {
                &&& r == WatchResult::<()>::Err(e)
                &&& final(self).fingerprint == old(self).fingerprint
            },
    {
        match dispatch_result {
            Ok(()) => {
                self.fingerprint = Some(fingerprint);
                Ok(())
            },
            Err(e) => Err(e),
        }
    }
}

} // verus!
