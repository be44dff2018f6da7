//! The timing of the synchroniser: when to commit and push local changes,
//! when to look at the remote, how long to stay away after a failure, and
//! how long to sleep when nothing is due.
//!
//! Times are readings of one monotonic clock in milliseconds; spans are
//! milliseconds too. The engine never reads a clock: every call is handed
//! the time at which it happens.

use crate::config::Config;
use vstd::prelude::*;

verus! {

/// The longest wait for an event, in milliseconds.
pub const MAX_WAIT_MS: u64 = 300_000;

/// The shortest wait for an event, in milliseconds.
pub const MIN_WAIT_MS: u64 = 200;

/// The highest backoff step.
pub const MAX_BACKOFF_STEP: u32 = 6;

/// Two to the power of `step`.
pub open spec fn doubled(step: nat) -> nat
    decreases step,
{
    if step == 0 {
        1
    } else {
        2 * doubled((step - 1) as nat)
    }
}

/// Seconds to stay away after `step` failures in a row: two to the power of
/// `step`, and never more than 300.
pub open spec fn backoff_seconds(step: nat) -> nat {
    if doubled(step) < 300 {
        doubled(step)
    } else {
        300
    }
}

/// Powers of two grow with the exponent.
pub proof fn lemma_doubled_grows(a: nat, b: nat)
    requires
        a <= b,
    ensures
        1 <= doubled(a) <= doubled(b),
    decreases b,
{
    if a < b {
        lemma_doubled_grows(a, (b - 1) as nat);
    } else if a > 0 {
        lemma_doubled_grows((a - 1) as nat, (a - 1) as nat);
    }
}

/// The backoff delay never shrinks as failures add up, never exceeds 300
/// seconds, and is one second at step zero.
pub proof fn lemma_backoff_delay_monotonic(a: nat, b: nat)
    requires
        a <= b,
    ensures
        backoff_seconds(a) <= backoff_seconds(b),
        backoff_seconds(b) <= 300,
        backoff_seconds(0) == 1,
{
    lemma_doubled_grows(a, b);
}

/// Milliseconds to stay away after `step` failures in a row.
pub fn backoff_delay(step: u32) -> (r: u64)
    ensures
        r == 1000 * backoff_seconds(step as nat),
        1000 <= r <= 300_000,
{
    let mut seconds: u64 = 1;
    let mut i: u32 = 0;
    while i < step && seconds < 300
        invariant
            i <= step,
            seconds == doubled(i as nat),
            1 <= seconds < 600,
        decreases step - i,
    {
        seconds = seconds * 2;
        i = i + 1;
    }
    proof {
        lemma_doubled_grows(i as nat, step as nat);
    }
    if seconds < 300 {
        seconds * 1000
    } else {
        300_000
    }
}

/// Time left until `start + span`, seen from `now`; zero once it has passed.
pub open spec fn time_left(start: u64, span: u64, now: u64) -> int {
    if start + span > now {
        start + span - now
    } else {
        0
    }
}

/// The smaller of the two.
pub open spec fn least(a: int, b: int) -> int {
    if a <= b {
        a
    } else {
        b
    }
}

/// How long to wait for an event: until the nearest of the end of the
/// backoff, the end of the debounce interval and the next poll; never longer
/// than [`MAX_WAIT_MS`] and never shorter than [`MIN_WAIT_MS`].
pub open spec fn wait_time(
    now: u64,
    dirty_since: Option<u64>,
    debounce: u64,
    last_poll: u64,
    poll_interval: u64,
    backoff_until: Option<u64>,
) -> int {
    let from_backoff = match backoff_until {
        Some(until) => least(MAX_WAIT_MS as int, time_left(until, 0, now)),
        None => MAX_WAIT_MS as int,
    };
    let from_debounce = match dirty_since {
        Some(dirty_at) => least(from_backoff, time_left(dirty_at, debounce, now)),
        None => from_backoff,
    };
    let nearest = least(from_debounce, time_left(last_poll, poll_interval, now));
    if nearest < MIN_WAIT_MS {
        MIN_WAIT_MS as int
    } else {
        nearest
    }
}

/// The time left until `start + span`, but no more than [`MAX_WAIT_MS`].
fn capped_time_left(start: u64, span: u64, now: u64) -> (r: u64)
    ensures
        r == least(MAX_WAIT_MS as int, time_left(start, span, now)),
{
    if start >= now {
        let ahead = start - now;
        if ahead >= MAX_WAIT_MS || span >= MAX_WAIT_MS - ahead {
            MAX_WAIT_MS
        } else {
            ahead + span
        }
    } else {
        let elapsed = now - start;
        if span <= elapsed {
            0
        } else if span - elapsed > MAX_WAIT_MS {
            MAX_WAIT_MS
        } else {
            span - elapsed
        }
    }
}

/// How long to wait for an event, in milliseconds.
pub fn compute_timeout(
    now: u64,
    dirty_since: Option<u64>,
    debounce: u64,
    last_poll: u64,
    poll_interval: u64,
    backoff_until: Option<u64>,
) -> (r: u64)
    ensures
        r == wait_time(now, dirty_since, debounce, last_poll, poll_interval, backoff_until),
        MIN_WAIT_MS <= r <= MAX_WAIT_MS,
{
    let mut nearest = MAX_WAIT_MS;
    if let Some(until) = backoff_until {
        nearest = capped_time_left(until, 0, now);
    }
    if let Some(dirty_at) = dirty_since {
        let left = capped_time_left(dirty_at, debounce, now);
        if left < nearest {
            nearest = left;
        }
    }
    let left = capped_time_left(last_poll, poll_interval, now);
    if left < nearest {
        nearest = left;
    }
    if nearest < MIN_WAIT_MS {
        MIN_WAIT_MS
    } else {
        nearest
    }
}

/// What the watcher reports.
#[derive(Debug, Clone, PartialEq, Eq)]
pub enum SyncEvent {
    /// Something relevant changed below the working directory.
    Changed,
    /// Events were lost; the directory has to be looked at as a whole.
    Rescan,
    /// The watcher failed.
    WatcherError(String),
}

/// How a wait for an event ended.
#[derive(Debug, Clone, PartialEq, Eq)]
pub enum Wake {
    /// An event arrived.
    Event(SyncEvent),
    /// The wait timed out.
    TimedOut,
    /// The watcher is gone.
    Disconnected,
}

/// What the engine wants done next.
#[derive(PartialEq, Eq, Structural, Clone, Copy, Debug)]
pub enum Action {
    /// Leave the loop.
    Stop,
    /// Commit local changes, rebase onto the remote and push.
    Sync,
    /// Rebase onto the remote.
    Poll,
    /// Wait for an event, for at most so many milliseconds.
    Wait { timeout: u64 },
}

/// The timing state of the synchroniser.
#[derive(Clone, Copy, Debug, PartialEq, Eq)]
pub struct SyncEngine {
    /// Quiet time after a change before it is synchronised, in milliseconds.
    pub debounce: u64,
    /// Time between two looks at the remote, in milliseconds.
    pub poll_interval: u64,
    /// When the latest change since the last synchronisation was seen.
    pub dirty_since: Option<u64>,
    /// When the remote was last looked at.
    pub last_poll: u64,
    /// Until when nothing is tried, after a failure.
    pub backoff_until: Option<u64>,
    /// How many attempts failed in a row, up to [`MAX_BACKOFF_STEP`].
    pub backoff_step: u32,
    /// Whether the watcher is gone.
    pub stopped: bool,
}

/// `time + span`, or the largest time where that does not fit.
pub open spec fn later(time: u64, span: u64) -> u64 {
    if time + span > u64::MAX {
        u64::MAX
    } else {
        (time + span) as u64
    }
}

impl SyncEngine {
    /// What holds of every engine: the intervals are at least their minimum,
    /// and the backoff step is within its range.
    pub open spec fn wf(self) -> bool {
        &&& self.debounce >= 1000
        &&& self.poll_interval >= 30_000
        &&& self.backoff_step <= MAX_BACKOFF_STEP
    }

    /// Whether a backoff is still running at `now`.
    pub open spec fn backing_off(self, now: u64) -> bool {
        self.backoff_until matches Some(until) && now < until
    }

    /// Whether there are changes that have been quiet for the debounce
    /// interval at `now`.
    pub open spec fn debounced(self, now: u64) -> bool {
        self.dirty_since matches Some(dirty_at) && now - dirty_at >= self.debounce
    }

    /// Whether the remote is due for a look at `now`.
    pub open spec fn poll_due(self, now: u64) -> bool {
        now - self.last_poll >= self.poll_interval
    }

    /// The engine once a backoff that has run out at `now` is forgotten.
    pub open spec fn settled(self, now: u64) -> SyncEngine {
        if self.backing_off(now) {
            self
        } else {
            SyncEngine { backoff_until: None, ..self }
        }
    }

    /// What is to be done at `now`. In order: stop where asked to or where
    /// the watcher is gone; nothing but waiting during a backoff; a
    /// synchronisation where changes have been quiet for long enough; a look
    /// at the remote where one is due; else a wait.
    pub open spec fn decision(self, now: u64, shutdown: bool) -> Action {
        if shutdown || self.stopped {
            Action::Stop
        } else if !self.backing_off(now) && self.debounced(now) {
            Action::Sync
        } else if !self.backing_off(now) && self.poll_due(now) {
            Action::Poll
        } else {
            Action::Wait {
                timeout: wait_time(
                    now,
                    self.dirty_since,
                    self.debounce,
                    self.last_poll,
                    self.poll_interval,
                    self.settled(now).backoff_until,
                ) as u64,
            }
        }
    }

    /// The engine after an attempt that succeeded at `now`. A
    /// synchronisation also clears the changes.
    pub open spec fn after_success(self, synced: bool, now: u64) -> SyncEngine {
        SyncEngine {
            dirty_since: if synced {
                None
            } else {
                self.dirty_since
            },
            last_poll: now,
            backoff_until: None,
            backoff_step: 0,
            ..self
        }
    }

    /// The backoff step after one more failure.
    pub open spec fn next_step(self) -> u32 {
        if self.backoff_step < MAX_BACKOFF_STEP {
            (self.backoff_step + 1) as u32
        } else {
            MAX_BACKOFF_STEP
        }
    }

    /// The engine after an attempt that failed at `now`.
    pub open spec fn after_failure(self, now: u64) -> SyncEngine {
        SyncEngine {
            backoff_step: self.next_step(),
            backoff_until: Some(
                later(now, (1000 * backoff_seconds(self.next_step() as nat)) as u64),
            ),
            ..self
        }
    }

    /// The engine after a wait that ended at `now`.
    pub open spec fn after_wake(self, wake: Wake, now: u64) -> SyncEngine {
        match wake {
            Wake::Event(SyncEvent::Changed) | Wake::Event(SyncEvent::Rescan) => SyncEngine {
                dirty_since: Some(now),
                ..self
            },
            Wake::Event(SyncEvent::WatcherError(_)) | Wake::TimedOut => self,
            Wake::Disconnected => SyncEngine { stopped: true, ..self },
        }
    }

    /// Whether the engine is well formed.
    pub fn is_valid(&self) -> (b: bool)
        ensures
            b == self.wf(),
    {
        self.debounce >= 1000 && self.poll_interval >= 30_000 && self.backoff_step
            <= MAX_BACKOFF_STEP
    }

    /// The engine at the start of a run at `now`: no changes, no backoff, and
    /// a look at the remote due at once where the clock has run for a poll
    /// interval already.
    pub fn start(config: &Config, now: u64) -> (e: SyncEngine)
        ensures
            e.wf(),
            e.debounce == config.spec_debounce(),
            e.poll_interval == config.spec_poll_interval(),
            e.dirty_since is None,
            e.backoff_until is None,
            e.backoff_step == 0,
            !e.stopped,
            e.last_poll == (if now >= e.poll_interval {
                (now - e.poll_interval) as u64
            } else {
                now
            }),
    {
        let debounce = config.debounce_duration();
        let poll_interval = config.poll_interval();
        let last_poll = if now >= poll_interval {
            now - poll_interval
        } else {
            now
        };
        SyncEngine {
            debounce,
            poll_interval,
            dirty_since: None,
            last_poll,
            backoff_until: None,
            backoff_step: 0,
            stopped: false,
        }
    }

    /// Decides what to do at `now`, and forgets a backoff that has run out.
    /// `shutdown` says whether the process was asked to end.
    pub fn next_action(&mut self, now: u64, shutdown: bool) -> (action: Action)
        ensures
            action == old(self).decision(now, shutdown),
            *final(self) == (if action == Action::Stop {
                *old(self)
            } else {
                old(self).settled(now)
            }),
            old(self).wf() ==> final(self).wf(),
    {
        if shutdown || self.stopped {
            return Action::Stop;
        }
        if let Some(until) = self.backoff_until {
            if now >= until {
                self.backoff_until = None;
            }
        }
        if self.backoff_until.is_none() {
            if let Some(dirty_at) = self.dirty_since {
                if now >= dirty_at && now - dirty_at >= self.debounce {
                    return Action::Sync;
                }
            }
            if now >= self.last_poll && now - self.last_poll >= self.poll_interval {
                return Action::Poll;
            }
        }
        Action::Wait {
            timeout: compute_timeout(
                now,
                self.dirty_since,
                self.debounce,
                self.last_poll,
                self.poll_interval,
                self.backoff_until,
            ),
        }
    }

    /// Takes note that a synchronisation ended at `now`.
    pub fn sync_finished(&mut self, succeeded: bool, now: u64)
        ensures
            *final(self) == (if succeeded {
                old(self).after_success(true, now)
            } else {
                old(self).after_failure(now)
            }),
            succeeded ==> final(self).backoff_step == 0 && final(self).backoff_until is None
                && final(self).dirty_since is None,
            !succeeded ==> final(self).backoff_step >= 1 && final(self).backoff_until is Some,
            old(self).wf() ==> final(self).wf(),
    {
        if succeeded {
            self.dirty_since = None;
            self.backoff_step = 0;
            self.backoff_until = None;
            self.last_poll = now;
        } else {
            self.fail(now);
        }
    }

    /// Takes note that a look at the remote ended at `now`.
    pub fn poll_finished(&mut self, succeeded: bool, now: u64)
        ensures
            *final(self) == (if succeeded {
                old(self).after_success(false, now)
            } else {
                old(self).after_failure(now)
            }),
            succeeded ==> final(self).backoff_step == 0 && final(self).backoff_until is None,
            !succeeded ==> final(self).backoff_step >= 1 && final(self).backoff_until is Some,
            old(self).wf() ==> final(self).wf(),
    {
        if succeeded {
            self.last_poll = now;
            self.backoff_step = 0;
            self.backoff_until = None;
        } else {
            self.fail(now);
        }
    }

    fn fail(&mut self, now: u64)
        ensures
            *final(self) == old(self).after_failure(now),
            old(self).wf() ==> final(self).wf(),
    {
        self.backoff_step = if self.backoff_step < MAX_BACKOFF_STEP {
            self.backoff_step + 1
        } else {
            MAX_BACKOFF_STEP
        };
        let delay = backoff_delay(self.backoff_step);
        let until = if delay > u64::MAX - now {
            u64::MAX
        } else {
            now + delay
        };
        self.backoff_until = Some(until);
    }

    /// Takes note of how a wait ended at `now`. A change or a rescan marks
    /// the tree as changed at `now`; a failure of the watcher changes
    /// nothing; its disappearance ends the run.
    pub fn woke(&mut self, wake: &Wake, now: u64)
        ensures
            *final(self) == old(self).after_wake(*wake, now),
            old(self).wf() ==> final(self).wf(),
    {
        match wake {
            Wake::Event(SyncEvent::Changed) => {
                self.dirty_since = Some(now);
            },
            Wake::Event(SyncEvent::Rescan) => {
                self.dirty_since = Some(now);
            },
            Wake::Event(SyncEvent::WatcherError(_)) => {},
            Wake::TimedOut => {},
            Wake::Disconnected => {
                self.stopped = true;
            },
        }
    }
}

/// Whether the times are in order and each but the first comes less than
/// `gap` after the one before it.
pub open spec fn in_quick_succession(times: Seq<u64>, gap: u64) -> bool {
    forall|i: int, j: int|
        0 <= i && j == i + 1 && j < times.len() ==> #[trigger] times[i] <= #[trigger] times[j]
            && times[j] - times[i] < gap
}

impl SyncEngine {
    /// The engine after a change was seen at each of `times`, in order.
    pub open spec fn after_changes(self, times: Seq<u64>) -> SyncEngine
        decreases times.len(),
    {
        if times.len() == 0 {
            self
        } else {
            self.after_changes(times.drop_last()).after_wake(
                Wake::Event(SyncEvent::Changed),
                times.last(),
            )
        }
    }
}

/// Changes only move the time since which the tree counts as changed: to the
/// time of the latest one.
pub proof fn lemma_after_changes(e: SyncEngine, times: Seq<u64>)
    requires
        times.len() > 0,
    ensures
        e.after_changes(times) == (SyncEngine { dirty_since: Some(times.last()), ..e }),
    decreases times.len(),
{
    if times.len() > 1 {
        lemma_after_changes(e, times.drop_last());
    } else {
        assert(e.after_changes(times.drop_last()) == e);
    }
}

/// Changes that follow each other faster than the debounce interval are
/// synchronised together, once: while they keep coming no synchronisation is
/// due; when they have been quiet for the debounce interval one is due, for
/// an engine that is not in a backoff; and when that one has succeeded, none
/// is due until the next change.
///
/// `k` counts the changes seen so far, `t` is the time of the decision, and
/// `done` the time at which the synchronisation succeeded.
pub proof fn lemma_changes_coalesce(e: SyncEngine, times: Seq<u64>, k: int, t: u64, done: u64)
    requires
        e.wf(),
        !e.stopped,
        e.backoff_until is None,
        in_quick_succession(times, e.debounce),
        1 <= k <= times.len(),
    ensures
        times[k - 1] <= t && (if k < times.len() {
            t <= times[k]
        } else {
            t - times[k - 1] < e.debounce
        }) ==> e.after_changes(times.take(k)).decision(t, false) != Action::Sync,
        t - times.last() >= e.debounce ==> e.after_changes(times).decision(t, false)
            == Action::Sync,
        e.after_changes(times).after_success(true, done).decision(t, false) != Action::Sync,
{
    lemma_after_changes(e, times);
    lemma_after_changes(e, times.take(k));
    assert(times.take(k).last() == times[k - 1]);
    if k < times.len() {
        assert(times[k - 1] <= times[k] && times[k] - times[k - 1] < e.debounce);
    }
}

} // verus!
