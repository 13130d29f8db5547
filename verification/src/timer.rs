//! The pomodoro interval timer: a state machine over whole seconds, driven
//! purely by point-in-time queries. Nothing ticks in the background; every
//! operation reads the clock once, reconciles the state (discovering an
//! expired phase lazily), and returns a full status snapshot.
//!
//! All arithmetic on timestamps clamps a backwards-moving clock to a zero
//! delta and saturates instead of wrapping, so no operation can panic.

use vstd::prelude::*;
use crate::{delta, sat_add, sub_clamped, add_sat};

verus! {

/// The full status snapshot that every timer operation returns.
#[derive(Clone, Copy, Debug, PartialEq, Eq)]
pub struct TimerStatus {
    pub is_running: bool,
    pub is_break: bool,
    pub remaining_seconds: i64,
    pub total_seconds: i64,
    pub completed_pomodoros: u64,
    pub work_time_today: u64,
    pub work_duration_seconds: i64,
    pub break_duration_seconds: i64,
    pub daily_work_hours: u64,
}

/// The timer's state. Durations are whole seconds; timestamps are seconds
/// since the Unix epoch. `start_time` is meaningful only while running, and
/// `work_time_start` only while running in the work phase.
pub struct PomodoroTimer {
    pub work_duration: u64,
    pub break_duration: u64,
    pub is_running: bool,
    pub is_break: bool,
    pub start_time: u64,
    pub elapsed_time: u64,
    pub completed_pomodoros: u64,
    pub work_time_today: u64,
    pub work_time_start: u64,
    pub daily_work_hours: u64,
    pub sound_enabled: bool,
}

/// Duration of the phase the timer is currently in.
pub open spec fn phase_duration(s: PomodoroTimer) -> u64 {
    if s.is_break {
        s.break_duration
    } else {
        s.work_duration
    }
}

/// Seconds spent in the current phase as observed at `now`: the frozen
/// total of closed segments, plus the open segment while running.
pub open spec fn elapsed_at(s: PomodoroTimer, now: u64) -> u64 {
    if s.is_running {
        sat_add(delta(now, s.start_time), s.elapsed_time)
    } else {
        s.elapsed_time
    }
}

/// Work seconds credited today as observed at `now`, including the still
/// open work segment while running in the work phase.
pub open spec fn work_today_at(s: PomodoroTimer, now: u64) -> u64 {
    if s.is_running && !s.is_break {
        sat_add(s.work_time_today, delta(now, s.work_time_start))
    } else {
        s.work_time_today
    }
}

/// The current phase has used up its whole duration at `now`.
pub open spec fn expired(s: PomodoroTimer, now: u64) -> bool {
    elapsed_at(s, now) >= phase_duration(s)
}

/// Transition to the other phase at `now`: count a finished work phase,
/// flush the open work segment, flip the phase, zero the phase clock, and
/// re-anchor the open segments if the timer keeps running.
pub open spec fn spec_flip(s: PomodoroTimer, now: u64) -> PomodoroTimer {
    PomodoroTimer {
        is_break: !s.is_break,
        elapsed_time: 0,
        completed_pomodoros: if !s.is_break {
            sat_add(s.completed_pomodoros, 1)
        } else {
            s.completed_pomodoros
        },
        work_time_today: if !s.is_break && s.is_running {
            sat_add(s.work_time_today, delta(now, s.work_time_start))
        } else {
            s.work_time_today
        },
        start_time: if s.is_running {
            now
        } else {
            s.start_time
        },
        work_time_start: if s.is_running && s.is_break {
            now
        } else {
            s.work_time_start
        },
        ..s
    }
}

/// Lazy reconciliation performed by every status read: flip the phase once
/// if it has expired, otherwise leave the state alone.
pub open spec fn spec_reconcile(s: PomodoroTimer, now: u64) -> PomodoroTimer {
    if expired(s, now) {
        spec_flip(s, now)
    } else {
        s
    }
}

/// The snapshot a status read returns at `now`: the fields of the state
/// after reconciliation, with the remaining time floored at zero.
pub open spec fn plain_snapshot(s: PomodoroTimer, now: u64) -> TimerStatus {
    TimerStatus {
        is_running: s.is_running,
        is_break: s.is_break,
        remaining_seconds: if elapsed_at(s, now) >= phase_duration(s) {
            0
        } else {
            (phase_duration(s) - elapsed_at(s, now)) as i64
        },
        total_seconds: phase_duration(s) as i64,
        completed_pomodoros: s.completed_pomodoros,
        work_time_today: work_today_at(s, now),
        work_duration_seconds: s.work_duration as i64,
        break_duration_seconds: s.break_duration as i64,
        daily_work_hours: s.daily_work_hours,
    }
}

/// What a status read at `now` reports of state `s`.
pub open spec fn spec_snapshot(s: PomodoroTimer, now: u64) -> TimerStatus {
    plain_snapshot(spec_reconcile(s, now), now)
}

/// Effect of `start` at `now`: re-anchor the running segment (idempotently
/// if already running) and let the clock advance.
pub open spec fn spec_start(s: PomodoroTimer, now: u64) -> PomodoroTimer {
    PomodoroTimer {
        start_time: now,
        is_running: true,
        work_time_start: if !s.is_break {
            now
        } else {
            s.work_time_start
        },
        ..s
    }
}

/// Effect of `pause` at `now`: close the open segment into `elapsed_time`,
/// flush the open work credit, and stop the clock. A no-op while paused.
pub open spec fn spec_pause(s: PomodoroTimer, now: u64) -> PomodoroTimer {
    if s.is_running {
        PomodoroTimer {
            elapsed_time: sat_add(delta(now, s.start_time), s.elapsed_time),
            work_time_today: if !s.is_break {
                sat_add(s.work_time_today, delta(now, s.work_time_start))
            } else {
                s.work_time_today
            },
            is_running: false,
            ..s
        }
    } else {
        s
    }
}

/// Effect of `reset` at `now`: flush the open work credit if running in the
/// work phase, then stop the clock and zero the phase clock. Phase and
/// totals are preserved.
pub open spec fn spec_reset(s: PomodoroTimer, now: u64) -> PomodoroTimer {
    PomodoroTimer {
        work_time_today: if s.is_running && !s.is_break {
            sat_add(s.work_time_today, delta(now, s.work_time_start))
        } else {
            s.work_time_today
        },
        is_running: false,
        elapsed_time: 0,
        ..s
    }
}

/// Effect of `update_settings` at `now`: pause (flushing credit) if
/// running, replace the three settings, wipe the phase clock, and restart
/// if it had been running.
pub open spec fn spec_update(
    s: PomodoroTimer,
    now: u64,
    work_minutes: u64,
    break_minutes: u64,
    daily_hours: u64,
) -> PomodoroTimer {
    let paused = if s.is_running {
        spec_pause(s, now)
    } else {
        s
    };
    let replaced = PomodoroTimer {
        work_duration: (work_minutes * 60) as u64,
        break_duration: (break_minutes * 60) as u64,
        daily_work_hours: daily_hours,
        elapsed_time: 0,
        ..paused
    };
    if s.is_running {
        spec_start(replaced, now)
    } else {
        replaced
    }
}

/// Effect of `toggle_sound`: store the flag; the timing state is untouched.
pub open spec fn spec_set_sound(s: PomodoroTimer, enabled: bool) -> PomodoroTimer {
    PomodoroTimer { sound_enabled: enabled, ..s }
}

/// The state a freshly created timer is in: 25 work minutes, 5 break
/// minutes, an 8 hour daily target, paused in the work phase with nothing
/// accumulated.
pub open spec fn initial_timer() -> PomodoroTimer {
    PomodoroTimer {
        work_duration: 1500,
        break_duration: 300,
        is_running: false,
        is_break: false,
        start_time: 0,
        elapsed_time: 0,
        completed_pomodoros: 0,
        work_time_today: 0,
        work_time_start: 0,
        daily_work_hours: 8,
        sound_enabled: true,
    }
}

impl PomodoroTimer {
    /// Both durations fit in a signed second count, so every snapshot cast
    /// is exact.
    pub open spec fn wf(self) -> bool {
        &&& self.work_duration <= i64::MAX
        &&& self.break_duration <= i64::MAX
    }

    pub fn new() -> (r: Self)
        ensures
            r == initial_timer(),
            r.wf(),
    {
        PomodoroTimer {
            work_duration: 1500,
            break_duration: 300,
            is_running: false,
            is_break: false,
            start_time: 0,
            elapsed_time: 0,
            completed_pomodoros: 0,
            work_time_today: 0,
            work_time_start: 0,
            daily_work_hours: 8,
            sound_enabled: true,
        }
    }

    /// The snapshot of the state as it stands, with no reconciliation.
    fn snapshot_at(&self, now: u64) -> (r: TimerStatus)
        requires
            self.wf(),
        ensures
            r == plain_snapshot(*self, now),
    {
        let dur = if self.is_break {
            self.break_duration
        } else {
            self.work_duration
        };
        let elapsed = if self.is_running {
            add_sat(sub_clamped(now, self.start_time), self.elapsed_time)
        } else {
            self.elapsed_time
        };
        let remaining: i64 = if elapsed >= dur {
            0
        } else {
            (dur - elapsed) as i64
        };
        let work_today = if self.is_running && !self.is_break {
            add_sat(self.work_time_today, sub_clamped(now, self.work_time_start))
        } else {
            self.work_time_today
        };
        TimerStatus {
            is_running: self.is_running,
            is_break: self.is_break,
            remaining_seconds: remaining,
            total_seconds: dur as i64,
            completed_pomodoros: self.completed_pomodoros,
            work_time_today: work_today,
            work_duration_seconds: self.work_duration as i64,
            break_duration_seconds: self.break_duration as i64,
            daily_work_hours: self.daily_work_hours,
        }
    }

    /// Transition to the other phase at `now`, as `spec_flip` states.
    fn flip_phase(&mut self, now: u64)
        requires
            old(self).wf(),
        ensures
            *final(self) == spec_flip(*old(self), now),
            final(self).wf(),
    {
        let was_break = self.is_break;
        if !was_break {
            self.completed_pomodoros = add_sat(self.completed_pomodoros, 1);
            if self.is_running {
                self.work_time_today =
                    add_sat(self.work_time_today, sub_clamped(now, self.work_time_start));
            }
        }
        self.is_break = !was_break;
        self.elapsed_time = 0;
        if self.is_running {
            self.start_time = now;
            if was_break {
                self.work_time_start = now;
            }
        }
    }

    /// The single read path: reconcile the state at `now` (flipping an
    /// expired phase once) and return the snapshot of the result.
    pub fn get_status_at(&mut self, now: u64) -> (r: TimerStatus)
        requires
            old(self).wf(),
        ensures
            final(self).wf(),
            *final(self) == spec_reconcile(*old(self), now),
            r == spec_snapshot(*old(self), now),
    {
        let dur = if self.is_break {
            self.break_duration
        } else {
            self.work_duration
        };
        let elapsed = if self.is_running {
            add_sat(sub_clamped(now, self.start_time), self.elapsed_time)
        } else {
            self.elapsed_time
        };
        if elapsed >= dur {
            self.flip_phase(now);
        }
        self.snapshot_at(now)
    }

    /// Start (or re-anchor) the clock at `now` and report the status.
    pub fn start_at(&mut self, now: u64) -> (r: TimerStatus)
        requires
            old(self).wf(),
        ensures
            final(self).wf(),
            *final(self) == spec_reconcile(spec_start(*old(self), now), now),
            r == spec_snapshot(spec_start(*old(self), now), now),
    {
        self.start_time = now;
        self.is_running = true;
        if !self.is_break {
            self.work_time_start = now;
        }
        self.get_status_at(now)
    }

    /// Stop the clock at `now`, closing the open segments, and report the
    /// status. A no-op while paused.
    pub fn pause_at(&mut self, now: u64) -> (r: TimerStatus)
        requires
            old(self).wf(),
        ensures
            final(self).wf(),
            *final(self) == spec_reconcile(spec_pause(*old(self), now), now),
            r == spec_snapshot(spec_pause(*old(self), now), now),
    {
        if self.is_running {
            self.elapsed_time = add_sat(sub_clamped(now, self.start_time), self.elapsed_time);
            if !self.is_break {
                self.work_time_today =
                    add_sat(self.work_time_today, sub_clamped(now, self.work_time_start));
            }
            self.is_running = false;
        }
        self.get_status_at(now)
    }

    /// Restart the current phase's clock at `now`: flush the open work
    /// credit, stop, and zero the elapsed time. Phase and totals stay.
    pub fn reset_at(&mut self, now: u64) -> (r: TimerStatus)
        requires
            old(self).wf(),
        ensures
            final(self).wf(),
            *final(self) == spec_reconcile(spec_reset(*old(self), now), now),
            r == spec_snapshot(spec_reset(*old(self), now), now),
    {
        if self.is_running && !self.is_break {
            self.work_time_today =
                add_sat(self.work_time_today, sub_clamped(now, self.work_time_start));
        }
        self.is_running = false;
        self.elapsed_time = 0;
        self.get_status_at(now)
    }

    /// Force the transition to the other phase at `now`, whatever time is
    /// left, keeping the running flag across the skip.
    pub fn skip_current_at(&mut self, now: u64) -> (r: TimerStatus)
        requires
            old(self).wf(),
        ensures
            final(self).wf(),
            *final(self) == spec_reconcile(spec_flip(*old(self), now), now),
            r == spec_snapshot(spec_flip(*old(self), now), now),
    {
        self.flip_phase(now);
        self.get_status_at(now)
    }

    /// Replace the settings at `now`. A running timer is paused first (so
    /// no accounted time is corrupted), the phase clock starts from a clean
    /// slate under the new duration, and the timer is restarted if it had
    /// been running.
    pub fn update_settings_at(
        &mut self,
        work_minutes: u64,
        break_minutes: u64,
        daily_hours: u64,
        now: u64,
    ) -> (r: TimerStatus)
        requires
            old(self).wf(),
            work_minutes * 60 <= i64::MAX,
            break_minutes * 60 <= i64::MAX,
        ensures
            final(self).wf(),
            *final(self) == spec_reconcile(
                spec_update(*old(self), now, work_minutes, break_minutes, daily_hours),
                now,
            ),
            r == spec_snapshot(
                spec_update(*old(self), now, work_minutes, break_minutes, daily_hours),
                now,
            ),
    {
        let was_running = self.is_running;
        if was_running {
            self.elapsed_time = add_sat(sub_clamped(now, self.start_time), self.elapsed_time);
            if !self.is_break {
                self.work_time_today =
                    add_sat(self.work_time_today, sub_clamped(now, self.work_time_start));
            }
            self.is_running = false;
        }
        self.work_duration = work_minutes * 60;
        self.break_duration = break_minutes * 60;
        self.daily_work_hours = daily_hours;
        self.elapsed_time = 0;
        if was_running {
            self.start_time = now;
            self.is_running = true;
            if !self.is_break {
                self.work_time_start = now;
            }
        }
        self.get_status_at(now)
    }

    /// Store the sound preference; the timing state machine is untouched
    /// beyond the reconciliation every status read performs.
    pub fn toggle_sound_at(&mut self, enabled: bool, now: u64) -> (r: TimerStatus)
        requires
            old(self).wf(),
        ensures
            final(self).wf(),
            *final(self) == spec_reconcile(spec_set_sound(*old(self), enabled), now),
            final(self).sound_enabled == enabled,
            r == spec_snapshot(spec_set_sound(*old(self), enabled), now),
    {
        self.sound_enabled = enabled;
        self.get_status_at(now)
    }

    /// `start_at` at the wall clock's current time.
    pub fn start(&mut self) -> (r: TimerStatus)
        requires
            old(self).wf(),
        ensures
            final(self).wf(),
            exists|now: u64|
                *final(self) == spec_reconcile(#[trigger] spec_start(*old(self), now), now)
                    && r == spec_snapshot(spec_start(*old(self), now), now),
    {
        let now = crate::clock::now_seconds();
        self.start_at(now)
    }

    /// `pause_at` at the wall clock's current time.
    pub fn pause(&mut self) -> (r: TimerStatus)
        requires
            old(self).wf(),
        ensures
            final(self).wf(),
            exists|now: u64|
                *final(self) == spec_reconcile(#[trigger] spec_pause(*old(self), now), now)
                    && r == spec_snapshot(spec_pause(*old(self), now), now),
    {
        let now = crate::clock::now_seconds();
        self.pause_at(now)
    }

    /// `reset_at` at the wall clock's current time.
    pub fn reset(&mut self) -> (r: TimerStatus)
        requires
            old(self).wf(),
        ensures
            final(self).wf(),
            exists|now: u64|
                *final(self) == spec_reconcile(#[trigger] spec_reset(*old(self), now), now)
                    && r == spec_snapshot(spec_reset(*old(self), now), now),
    {
        let now = crate::clock::now_seconds();
        self.reset_at(now)
    }

    /// `skip_current_at` at the wall clock's current time.
    pub fn skip_current(&mut self) -> (r: TimerStatus)
        requires
            old(self).wf(),
        ensures
            final(self).wf(),
            exists|now: u64|
                *final(self) == spec_reconcile(#[trigger] spec_flip(*old(self), now), now)
                    && r == spec_snapshot(spec_flip(*old(self), now), now),
    {
        let now = crate::clock::now_seconds();
        self.skip_current_at(now)
    }

    /// `update_settings_at` at the wall clock's current time.
    pub fn update_settings(
        &mut self,
        work_minutes: u64,
        break_minutes: u64,
        daily_hours: u64,
    ) -> (r: TimerStatus)
        requires
            old(self).wf(),
            work_minutes * 60 <= i64::MAX,
            break_minutes * 60 <= i64::MAX,
        ensures
            final(self).wf(),
            exists|now: u64|
                *final(self) == spec_reconcile(
                    #[trigger] spec_update(*old(self), now, work_minutes, break_minutes,
                        daily_hours),
                    now,
                ) && r == spec_snapshot(
                    spec_update(*old(self), now, work_minutes, break_minutes, daily_hours),
                    now,
                ),
    {
        let now = crate::clock::now_seconds();
        self.update_settings_at(work_minutes, break_minutes, daily_hours, now)
    }

    /// `toggle_sound_at` at the wall clock's current time.
    pub fn toggle_sound(&mut self, enabled: bool) -> (r: TimerStatus)
        requires
            old(self).wf(),
        ensures
            final(self).wf(),
            final(self).sound_enabled == enabled,
            exists|now: u64|
                *final(self) == #[trigger] spec_reconcile(spec_set_sound(*old(self), enabled), now)
                    && r == spec_snapshot(spec_set_sound(*old(self), enabled), now),
    {
        let now = crate::clock::now_seconds();
        self.toggle_sound_at(enabled, now)
    }

    /// `get_status_at` at the wall clock's current time.
    pub fn get_status(&mut self) -> (r: TimerStatus)
        requires
            old(self).wf(),
        ensures
            final(self).wf(),
            exists|now: u64|
                *final(self) == #[trigger] spec_reconcile(*old(self), now)
                    && r == spec_snapshot(*old(self), now),
    {
        let now = crate::clock::now_seconds();
        self.get_status_at(now)
    }
}

/// Pausing a running timer and starting it again with no time elapsing in
/// between leaves the reported status unchanged. A zero-length duration is
/// left out: it makes a status read itself flip the phase, so two reads at
/// the same instant already differ.
pub proof fn lemma_pause_start_status_unchanged(s: PomodoroTimer, now: u64)
    requires
        s.wf(),
        s.is_running,
        s.work_duration > 0,
        s.break_duration > 0,
    ensures
        spec_snapshot(spec_start(spec_reconcile(spec_pause(s, now), now), now), now)
            == spec_snapshot(s, now),
{
}

/// Every returned snapshot reports a nonnegative remaining time.
pub proof fn lemma_remaining_nonnegative(s: PomodoroTimer, now: u64)
    requires
        s.wf(),
    ensures
        spec_snapshot(s, now).remaining_seconds >= 0,
{
}

/// A status read increments the completed count exactly once when it finds
/// a work phase expired, and never when a break phase expires or nothing
/// has expired. (A count already at `u64::MAX` can only saturate.)
pub proof fn lemma_completed_pomodoros_step(s: PomodoroTimer, now: u64)
    requires
        s.wf(),
    ensures
        expired(s, now) && !s.is_break && s.completed_pomodoros < u64::MAX
            ==> spec_reconcile(s, now).completed_pomodoros == s.completed_pomodoros + 1,
        expired(s, now) && s.is_break
            ==> spec_reconcile(s, now).completed_pomodoros == s.completed_pomodoros,
        !expired(s, now)
            ==> spec_reconcile(s, now).completed_pomodoros == s.completed_pomodoros,
{
}

/// After `reset` the timer is paused with a zeroed phase clock, whatever
/// the prior state; phase and completed count are preserved whenever the
/// current phase's duration is not zero (a zero duration expires at once on
/// the status read, flipping the phase by design).
pub proof fn lemma_reset(s: PomodoroTimer, now: u64)
    requires
        s.wf(),
    ensures
        !spec_reconcile(spec_reset(s, now), now).is_running,
        spec_reconcile(spec_reset(s, now), now).elapsed_time == 0,
        phase_duration(s) > 0 ==> spec_reconcile(spec_reset(s, now), now).is_break == s.is_break,
        phase_duration(s) > 0 ==> spec_reconcile(spec_reset(s, now), now).completed_pomodoros
            == s.completed_pomodoros,
{
}

/// Updating the settings while running leaves the timer running, and the
/// reported remaining time is the full new duration of the current phase
/// whenever that duration is not zero.
pub proof fn lemma_update_settings_while_running(
    s: PomodoroTimer,
    now: u64,
    work_minutes: u64,
    break_minutes: u64,
    daily_hours: u64,
)
    requires
        s.wf(),
        s.is_running,
        work_minutes * 60 <= i64::MAX,
        break_minutes * 60 <= i64::MAX,
    ensures
        spec_snapshot(spec_update(s, now, work_minutes, break_minutes, daily_hours), now)
            .is_running,
        ({
            let new_duration: int = if s.is_break {
                break_minutes * 60
            } else {
                work_minutes * 60
            };
            new_duration > 0 ==> spec_snapshot(
                spec_update(s, now, work_minutes, break_minutes, daily_hours),
                now,
            ).remaining_seconds == new_duration
        }),
{
}

} // verus!
