//! When the program looks for a newer version of itself, and how.
//!
//! The worker is independent of synchronisation. It checks once when it
//! starts and then once per interval, and between checks it sleeps in short
//! slices so that a request to end is noticed soon.

use crate::config::SelfUpdateConfig;
use vstd::prelude::*;
use vstd::string::StringExecFns;

verus! {

/// Hours between two checks where the settings name none.
pub const DEFAULT_INTERVAL_HOURS: u64 = 24;

/// The longest single sleep of the worker, in milliseconds.
pub const MAX_SLEEP_MS: u64 = 60_000;

/// How an update is looked for.
#[derive(Debug, Clone, PartialEq, Eq)]
pub enum UpdateMethod {
    /// By running this shell command.
    Custom(String),
    /// By the built-in updater.
    Builtin,
}

/// What the worker does next.
#[derive(PartialEq, Eq, Structural, Clone, Copy, Debug)]
pub enum UpdateStep {
    /// End.
    Stop,
    /// Look for an update, then report with `check_finished`.
    Check,
    /// Sleep for so many milliseconds, then ask again.
    Sleep { millis: u64 },
}

/// Where the worker stands.
#[derive(PartialEq, Eq, Structural, Clone, Copy, Debug)]
pub enum WorkerPhase {
    /// It has not checked yet.
    Fresh,
    /// It has checked and waits until the next check is due.
    Waiting { until: u64 },
    /// It has ended.
    Ended,
}

/// The schedule of the update checks. Times are readings of one monotonic
/// clock in milliseconds.
#[derive(Clone, Copy, Debug, PartialEq, Eq)]
pub struct UpdateWorker {
    /// Milliseconds between two checks.
    pub interval: u64,
    pub phase: WorkerPhase,
}

/// Milliseconds between two checks for the hours that the settings name: at
/// least one hour, a day where they name none, and the largest time span
/// where the product does not fit.
pub open spec fn interval_millis(hours: Option<u64>) -> int {
    let h = match hours {
        Some(h) => if h < 1 {
            1
        } else {
            h as int
        },
        None => DEFAULT_INTERVAL_HOURS as int,
    };
    if h * 3_600_000 > u64::MAX {
        u64::MAX as int
    } else {
        h * 3_600_000
    }
}

/// `now + span`, or the largest time where that does not fit.
pub open spec fn deadline(now: u64, span: u64) -> u64 {
    if now + span > u64::MAX {
        u64::MAX
    } else {
        (now + span) as u64
    }
}

impl UpdateWorker {
    /// What the worker does at `now`. Fresh, it checks. Waiting, it stops
    /// where asked to; else it sleeps until the check is due, but never
    /// longer than [`MAX_SLEEP_MS`] at a time; once the check is due, it
    /// checks. Ended, it stops.
    pub open spec fn decision(self, now: u64, shutdown: bool) -> UpdateStep {
        match self.phase {
            WorkerPhase::Fresh => UpdateStep::Check,
            WorkerPhase::Ended => UpdateStep::Stop,
            WorkerPhase::Waiting { until } => if shutdown {
                UpdateStep::Stop
            } else if now < until {
                UpdateStep::Sleep {
                    millis: if until - now < MAX_SLEEP_MS {
                        (until - now) as u64
                    } else {
                        MAX_SLEEP_MS
                    },
                }
            } else {
                UpdateStep::Check
            },
        }
    }

    /// What the worker does at `now`. Once it stops it has ended.
    pub fn next_step(&mut self, now: u64, shutdown: bool) -> (step: UpdateStep)
        ensures
            step == old(self).decision(now, shutdown),
            step matches UpdateStep::Sleep { millis } ==> 0 < millis <= MAX_SLEEP_MS,
            final(self).interval == old(self).interval,
            final(self).phase == (if step == UpdateStep::Stop {
                WorkerPhase::Ended
            } else {
                old(self).phase
            }),
    {
        match self.phase {
            WorkerPhase::Fresh => UpdateStep::Check,
            WorkerPhase::Ended => UpdateStep::Stop,
            WorkerPhase::Waiting { until } => {
                if shutdown {
                    self.phase = WorkerPhase::Ended;
                    UpdateStep::Stop
                } else if now < until {
                    let left = until - now;
                    UpdateStep::Sleep {
                        millis: if left < MAX_SLEEP_MS {
                            left
                        } else {
                            MAX_SLEEP_MS
                        },
                    }
                } else {
                    UpdateStep::Check
                }
            },
        }
    }

    /// Takes note that a check ended at `now`: the next one is due an
    /// interval later. A worker that has ended stays so.
    pub fn check_finished(&mut self, now: u64)
        ensures
            final(self).interval == old(self).interval,
            final(self).phase == (if old(self).phase == WorkerPhase::Ended {
                WorkerPhase::Ended
            } else {
                WorkerPhase::Waiting { until: deadline(now, old(self).interval) }
            }),
    {
        match self.phase {
            WorkerPhase::Ended => {},
            _ => {
                let until = if self.interval > u64::MAX - now {
                    u64::MAX
                } else {
                    now + self.interval
                };
                self.phase = WorkerPhase::Waiting { until };
            },
        }
    }
}

/// Looks for newer versions of the program as the settings say.
#[derive(Debug, Clone)]
pub struct SelfUpdateManager {
    config: SelfUpdateConfig,
    config_path: String,
}

impl SelfUpdateManager {
    /// The settings of the manager.
    pub closed spec fn config(&self) -> SelfUpdateConfig {
        self.config
    }

    /// The settings file that the manager was made for.
    pub closed spec fn config_path(&self) -> Seq<char> {
        self.config_path@
    }

    /// A manager for these settings.
    pub fn new(config: &SelfUpdateConfig, config_path: &str) -> (m: SelfUpdateManager)
        ensures
            m.config().enabled == config.enabled,
            m.config().command == config.command,
            m.config().interval_hours == config.interval_hours,
            m.config_path() == config_path@,
    {
        SelfUpdateManager {
            config: SelfUpdateConfig {
                enabled: config.enabled,
                command: match &config.command {
                    Some(c) => Some(c.clone()),
                    None => None,
                },
                interval_hours: config.interval_hours,
            },
            config_path: String::from_str(config_path),
        }
    }

    /// The manager to run in the background: one where updates are enabled,
    /// none where they are not.
    pub fn spawn_if_enabled(config: &SelfUpdateConfig, config_path: &str) -> (r: Option<
        SelfUpdateManager,
    >)
        ensures
            r is Some <==> config.enabled,
            r matches Some(m) ==> m.config().enabled && m.config().command == config.command
                && m.config().interval_hours == config.interval_hours && m.config_path()
                == config_path@,
    {
        if !config.enabled {
            return None;
        }
        Some(Self::new(config, config_path))
    }

    /// The schedule of the background worker: it has not checked yet.
    pub fn spawn(&self) -> (w: UpdateWorker)
        ensures
            w.phase == WorkerPhase::Fresh,
            w.interval == interval_millis(self.config().interval_hours),
            w.interval >= 3_600_000,
    {
        let hours = match self.config.interval_hours {
            Some(h) => if h < 1 {
                1
            } else {
                h
            },
            None => DEFAULT_INTERVAL_HOURS,
        };
        let interval = if hours > u64::MAX / 3_600_000 {
            u64::MAX
        } else {
            hours * 3_600_000
        };
        UpdateWorker { interval, phase: WorkerPhase::Fresh }
    }

    /// How to look for an update now: by the command that the settings name,
    /// by the built-in updater where they name none. `force` changes nothing.
    pub fn check_now(&self, force: bool) -> (method: UpdateMethod)
        ensures
            method == match self.config().command {
                Some(command) => UpdateMethod::Custom(command),
                None => UpdateMethod::Builtin,
            },
    {
        match &self.config.command {
            Some(command) => UpdateMethod::Custom(command.clone()),
            None => UpdateMethod::Builtin,
        }
    }

    /// The path of the settings file.
    pub fn settings_path(&self) -> (p: &String)
        ensures
            p@ == self.config_path(),
    {
        &self.config_path
    }
}

/// Between two checks the worker never sleeps longer than a minute at a
/// time, and it never sleeps past the time at which the check is due.
pub proof fn lemma_sleep_is_bounded(worker: UpdateWorker, now: u64)
    ensures
        worker.decision(now, false) matches UpdateStep::Sleep { millis } ==> 0 < millis
            <= MAX_SLEEP_MS && (worker.phase matches WorkerPhase::Waiting { until } && now
            + millis <= until),
        worker.decision(now, true) !is Sleep,
{
}

} // verus!
