//! The countdown state machine.
//!
//! The engine never reads a clock: every operation that depends on the time
//! takes the current reading `now`, in milliseconds, of a monotonic clock.

use vstd::prelude::*;

use crate::clock_text::clock_text;
use crate::settings::{Setting, WorkTimeSettings};

verus! {

/// The kind of interval being timed.
#[derive(PartialEq, Eq, Structural, Clone, Copy, Debug, Hash)]
pub enum WorkTimes {
    Work,
    Short,
    Long,
}

/// Where the countdown stands.
#[derive(PartialEq, Eq, Structural, Clone, Copy, Debug)]
pub enum TimerState {
    /// Running, with time counted from the given clock reading. After a
    /// resume that reading lies back by the time elapsed before the pause.
    Started(u64),
    /// Halted after the given elapsed time.
    Paused(u64),
    /// Not running: the full interval is ahead.
    Done,
}

/// Playing the alert sound failed: no output device, no sound file, or a
/// file that could not be decoded.
#[derive(Debug, Clone)]
pub struct AlertPlayingError;

// ----- The model -----

/// The interval that follows `w` when a countdown of it runs out: work is
/// followed by a short break, and any break by work.
pub open spec fn next_work_time(w: WorkTimes) -> WorkTimes {
    match w {
        WorkTimes::Work => WorkTimes::Short,
        _ => WorkTimes::Work,
    }
}

/// Time passed from `start` to `now`; none where the reading is earlier.
pub open spec fn elapsed(start: u64, now: u64) -> u64 {
    if now >= start {
        (now - start) as u64
    } else {
        0
    }
}

/// What is left of `length` once `spent` has passed, never below zero.
pub open spec fn left_of(length: u64, spent: u64) -> u64 {
    if spent <= length {
        (length - spent) as u64
    } else {
        0
    }
}

/// The time left of an interval of `length` at clock reading `now`.
pub open spec fn remaining(state: TimerState, length: u64, now: u64) -> u64 {
    match state {
        TimerState::Done => length,
        TimerState::Started(start) => left_of(length, elapsed(start, now)),
        TimerState::Paused(spent) => left_of(length, spent),
    }
}

/// `start` at `now`: an idle countdown begins from zero elapsed time.
pub open spec fn started(state: TimerState, now: u64) -> TimerState {
    match state {
        TimerState::Done => TimerState::Started(now),
        _ => state,
    }
}

/// `pause` at `now`: a running countdown keeps the time elapsed so far.
pub open spec fn paused(state: TimerState, now: u64) -> TimerState {
    match state {
        TimerState::Started(start) => TimerState::Paused(elapsed(start, now)),
        _ => state,
    }
}

/// `resume` at `now`: a paused countdown runs again, its start moved back by
/// the time that had elapsed (to the clock's zero at the earliest).
pub open spec fn resumed(state: TimerState, now: u64) -> TimerState {
    match state {
        TimerState::Paused(spent) => TimerState::Started(
            if spent <= now {
                (now - spent) as u64
            } else {
                0
            },
        ),
        _ => state,
    }
}

/// Whether a running countdown of `length` has run out at `now`.
pub open spec fn expired(state: TimerState, length: u64, now: u64) -> bool {
    match state {
        TimerState::Started(start) => elapsed(start, now) >= length,
        _ => false,
    }
}

/// The session as a polling tick at `now` leaves it: a countdown that has
/// run out stops, and the next interval kind is selected.
pub open spec fn ticked(state: TimerState, w: WorkTimes, length: u64, now: u64) -> (
    TimerState,
    WorkTimes,
) {
    if expired(state, length, now) {
        (TimerState::Done, next_work_time(w))
    } else {
        (state, w)
    }
}

// ----- The engine -----

/// The timer session: the current interval kind and the countdown state.
pub struct TimerData {
    timer_state: TimerState,
    work_time: WorkTimes,
}

impl Default for TimerData {
    fn default() -> (r: TimerData)
        ensures
            r.spec_timer_state() == TimerState::Done,
            r.spec_work_time() == WorkTimes::Work,
    {
        TimerData { timer_state: TimerState::Done, work_time: WorkTimes::Work }
    }
}

impl TimerData {
    pub closed spec fn spec_timer_state(&self) -> TimerState {
        self.timer_state
    }

    pub closed spec fn spec_work_time(&self) -> WorkTimes {
        self.work_time
    }

    pub fn timer_state(&self) -> (r: &TimerState)
        ensures
            *r == self.spec_timer_state(),
    {
        &self.timer_state
    }

    pub fn timer_state_mut(&mut self) -> (r: &mut TimerState)
        ensures
            *r == old(self).spec_timer_state(),
            final(self).spec_timer_state() == *final(r),
            final(self).spec_work_time() == old(self).spec_work_time(),
    {
        &mut self.timer_state
    }

    pub fn work_time(&self) -> (r: &WorkTimes)
        ensures
            *r == self.spec_work_time(),
    {
        &self.work_time
    }

    pub fn work_time_mut(&mut self) -> (r: &mut WorkTimes)
        ensures
            *r == old(self).spec_work_time(),
            final(self).spec_work_time() == *final(r),
            final(self).spec_timer_state() == old(self).spec_timer_state(),
    {
        &mut self.work_time
    }

    /// The length configured for `work_time`.
    pub fn get_work_time(work_time: &WorkTimes, work_time_setting: &WorkTimeSettings) -> (r: u64)
        ensures
            r == work_time_setting.spec_get(*work_time),
    {
        match work_time {
            WorkTimes::Work => work_time_setting.work,
            WorkTimes::Short => work_time_setting.short,
            WorkTimes::Long => work_time_setting.long,
        }
    }

    /// The time left of the current interval at clock reading `now`.
    pub fn remaining_time(&self, settings: &Setting, now: u64) -> (r: u64)
        ensures
            r == remaining(
                self.spec_timer_state(),
                settings.spec_work_times().spec_get(self.spec_work_time()),
                now,
            ),
    {
        let length = TimerData::get_work_time(&self.work_time, settings.work_time_settings());
        let spent = match self.timer_state {
            TimerState::Done => 0,
            TimerState::Started(start) => if now >= start {
                now - start
            } else {
                0
            },
            TimerState::Paused(spent) => spent,
        };
        if spent <= length {
            length - spent
        } else {
            0
        }
    }

    /// The `MM:SS` text of the time left at clock reading `now`.
    pub fn calculate_timer_text(&self, settings: &Setting, now: u64) -> (r: String)
        ensures
            r@ == clock_text(
                remaining(
                    self.spec_timer_state(),
                    settings.spec_work_times().spec_get(self.spec_work_time()),
                    now,
                ) as nat,
            ),
    {
        TimerData::dur_as_minutes(self.remaining_time(settings, now))
    }

    /// The texts with which the settings screen opens: the lengths of work,
    /// of the long break and of the short break, in that order.
    pub fn load_editable_settings(settings: &Setting) -> (r: Vec<String>)
        ensures
            r@.len() == 3,
            r@[0]@ == clock_text(settings.spec_work_times().work as nat),
            r@[1]@ == clock_text(settings.spec_work_times().long as nat),
            r@[2]@ == clock_text(settings.spec_work_times().short as nat),
    {
        let lengths = settings.work_time_settings();
        let mut editable_strings: Vec<String> = Vec::new();
        editable_strings.push(TimerData::dur_as_minutes(lengths.work));
        editable_strings.push(TimerData::dur_as_minutes(lengths.long));
        editable_strings.push(TimerData::dur_as_minutes(lengths.short));
        editable_strings
    }

    /// Starts an idle countdown at `now`; otherwise changes nothing.
    pub fn start(&mut self, now: u64)
        ensures
            final(self).spec_timer_state() == started(old(self).spec_timer_state(), now),
            final(self).spec_work_time() == old(self).spec_work_time(),
    {
        if let TimerState::Done = self.timer_state {
            self.timer_state = TimerState::Started(now);
        }
    }

    /// Halts a running countdown at `now`, keeping the time elapsed;
    /// otherwise changes nothing.
    pub fn pause(&mut self, now: u64)
        ensures
            final(self).spec_timer_state() == paused(old(self).spec_timer_state(), now),
            final(self).spec_work_time() == old(self).spec_work_time(),
    {
        if let TimerState::Started(start) = self.timer_state {
            let spent = if now >= start {
                now - start
            } else {
                0
            };
            self.timer_state = TimerState::Paused(spent);
        }
    }

    /// Runs a paused countdown again from `now`, with the time elapsed before
    /// the pause still counted; otherwise changes nothing.
    pub fn resume(&mut self, now: u64)
        ensures
            final(self).spec_timer_state() == resumed(old(self).spec_timer_state(), now),
            final(self).spec_work_time() == old(self).spec_work_time(),
    {
        if let TimerState::Paused(spent) = self.timer_state {
            let start = if spent <= now {
                now - spent
            } else {
                0
            };
            self.timer_state = TimerState::Started(start);
        }
    }

    /// The start/pause button: starts an idle countdown, pauses a running
    /// one, resumes a paused one.
    pub fn toggle_pause(&mut self, now: u64)
        ensures
            final(self).spec_timer_state() == match old(self).spec_timer_state() {
                TimerState::Done => started(old(self).spec_timer_state(), now),
                TimerState::Started(_) => paused(old(self).spec_timer_state(), now),
                TimerState::Paused(_) => resumed(old(self).spec_timer_state(), now),
            },
            final(self).spec_work_time() == old(self).spec_work_time(),
    {
        match self.timer_state {
            TimerState::Done => self.start(now),
            TimerState::Started(_) => self.pause(now),
            TimerState::Paused(_) => self.resume(now),
        }
    }

    /// Abandons the countdown, whatever its state; the interval kind stays.
    pub fn skip(&mut self)
        ensures
            final(self).spec_timer_state() == TimerState::Done,
            final(self).spec_work_time() == old(self).spec_work_time(),
    {
        self.timer_state = TimerState::Done;
    }

    /// Whether the interval kind may be changed: not while a countdown runs.
    pub fn can_change_work_time(&self) -> (r: bool)
        ensures
            r == !(self.spec_timer_state() is Started),
    {
        !matches!(self.timer_state, TimerState::Started(_))
    }

    /// Selects the interval kind `work_time` and resets the countdown, unless
    /// a countdown is running, in which case nothing changes.
    pub fn select_work_time(&mut self, work_time: WorkTimes)
        ensures
            old(self).spec_timer_state() is Started ==> final(self).spec_timer_state()
                == old(self).spec_timer_state() && final(self).spec_work_time()
                == old(self).spec_work_time(),
            !(old(self).spec_timer_state() is Started) ==> final(self).spec_timer_state()
                == TimerState::Done && final(self).spec_work_time() == work_time,
    {
        if self.can_change_work_time() {
            self.work_time = work_time;
            self.timer_state = TimerState::Done;
        }
    }

    /// The polling tick at `now`. A running countdown that has run out stops
    /// and the next interval kind is selected; the result says whether that
    /// happened, that is, whether the alert is due. Nothing else changes.
    pub fn update(&mut self, settings: &Setting, now: u64) -> (alert: bool)
        ensures
            alert == expired(
                old(self).spec_timer_state(),
                settings.spec_work_times().spec_get(old(self).spec_work_time()),
                now,
            ),
            (final(self).spec_timer_state(), final(self).spec_work_time()) == ticked(
                old(self).spec_timer_state(),
                old(self).spec_work_time(),
                settings.spec_work_times().spec_get(old(self).spec_work_time()),
                now,
            ),
    {
        if let TimerState::Started(start) = self.timer_state {
            let length = TimerData::get_work_time(&self.work_time, settings.work_time_settings());
            let spent = if now >= start {
                now - start
            } else {
                0
            };
            if spent >= length {
                self.timer_state = TimerState::Done;
                self.work_time = match self.work_time {
                    WorkTimes::Work => WorkTimes::Short,
                    _ => WorkTimes::Work,
                };
                return true;
            }
        }
        false
    }
}

// ----- Laws -----

/// Starting an idle countdown and asking for the time left at once gives the
/// full length of the interval.
pub proof fn lemma_start_shows_full_length(length: u64, now: u64)
    ensures
        remaining(started(TimerState::Done, now), length, now) == length,
{
}

/// Resuming undoes pausing. Resumed at the instant of the pause, the
/// countdown is as it was; the time left stays fixed while paused; and after
/// a resume the countdown runs as if the time spent paused had not passed.
pub proof fn lemma_resume_undoes_pause(
    start: u64,
    pause_at: u64,
    resume_at: u64,
    later: u64,
    length: u64,
)
    requires
        start <= pause_at <= resume_at <= later,
    ensures
        resumed(paused(TimerState::Started(start), pause_at), pause_at) == TimerState::Started(
            start,
        ),
        remaining(paused(TimerState::Started(start), pause_at), length, resume_at) == remaining(
            TimerState::Started(start),
            length,
            pause_at,
        ),
        remaining(
            resumed(paused(TimerState::Started(start), pause_at), resume_at),
            length,
            resume_at,
        ) == remaining(TimerState::Started(start), length, pause_at),
        remaining(resumed(paused(TimerState::Started(start), pause_at), resume_at), length, later)
            == remaining(TimerState::Started(start), length, (later - (resume_at - pause_at)) as u64),
{
}

/// Skipping leaves the countdown idle, whatever its state was, and an idle
/// countdown shows the full length of the current interval kind.
pub proof fn lemma_skip_shows_full_length(lengths: WorkTimeSettings, w: WorkTimes, now: u64)
    ensures
        remaining(TimerState::Done, lengths.spec_get(w), now) == lengths.spec_get(w),
{
}

/// A running countdown whose time is up stops at the next tick, which
/// selects the next interval kind (work gives a short break, any break gives
/// work) and calls for the alert. The tick after it, whenever it comes, calls
/// for no alert and changes nothing.
pub proof fn lemma_expiry_alerts_once(
    start: u64,
    w: WorkTimes,
    lengths: WorkTimeSettings,
    now: u64,
    later: u64,
)
    requires
        elapsed(start, now) >= lengths.spec_get(w),
    ensures
        expired(TimerState::Started(start), lengths.spec_get(w), now),
        ticked(TimerState::Started(start), w, lengths.spec_get(w), now) == (
            TimerState::Done,
            next_work_time(w),
        ),
        w == WorkTimes::Work ==> next_work_time(w) == WorkTimes::Short,
        w != WorkTimes::Work ==> next_work_time(w) == WorkTimes::Work,
        !expired(TimerState::Done, lengths.spec_get(next_work_time(w)), later),
        ticked(TimerState::Done, next_work_time(w), lengths.spec_get(next_work_time(w)), later)
            == (TimerState::Done, next_work_time(w)),
{
}

/// Selecting an interval kind while the countdown is idle or paused leaves it
/// idle, so the time left is the full length of the kind selected, whatever
/// had elapsed before.
pub proof fn lemma_select_discards_progress(
    lengths: WorkTimeSettings,
    selected: WorkTimes,
    now: u64,
)
    ensures
        remaining(TimerState::Done, lengths.spec_get(selected), now) == lengths.spec_get(selected),
{
}

/// The time left never exceeds the interval's length, and once the interval
/// has run out it is zero however late the clock is read.
pub proof fn lemma_remaining_clamped(state: TimerState, length: u64, now: u64)
    ensures
        remaining(state, length, now) <= length,
        expired(state, length, now) ==> remaining(state, length, now) == 0,
        state matches TimerState::Paused(spent) && spent >= length ==> remaining(state, length, now)
            == 0,
{
}

} // verus!
