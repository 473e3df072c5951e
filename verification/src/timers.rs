//! Duration and edge timers.
//!
//! All timers work on an injected monotonic clock: `now` is a tick count in
//! milliseconds, and presets are millisecond durations. A timer remembers the
//! last observed value and the tick at which it last changed; "elapsed" means
//! that at least `preset` milliseconds have passed since that change. A timer
//! that has never seen a change counts as already elapsed.

use vstd::prelude::*;

verus! {

/// Equality test usable from verified code. The result must agree with
/// (spec-level) structural equality, which is what the timer contracts are
/// written over.
pub trait ValueEq: Sized {
    fn eq_value(&self, other: &Self) -> (r: bool)
        ensures
            r == (self == other),
    ;
}

impl ValueEq for bool {
    fn eq_value(&self, other: &Self) -> (r: bool)
        ensures
            r == (self == other),
    {
        *self == *other
    }
}

/// Tracks the last observed value of type `T` and the tick at which it last
/// changed (`None` until the first change is seen).
#[derive(Debug, Clone, Copy)]
pub struct BaseTimer<T> {
    pub change: Option<u64>,
    pub last: T,
}

/// True when at least `preset` ms have passed since the recorded change, or
/// when no change was ever recorded.
pub open spec fn timer_done(change: Option<u64>, now: u64, preset: u64) -> bool {
    match change {
        Option::None => true,
        Option::Some(t) => t + preset <= now,
    }
}

/// Milliseconds since the recorded change; zero when no change was recorded
/// or when the clock reads earlier than the change.
pub open spec fn elapsed_since(change: Option<u64>, now: u64) -> u64 {
    match change {
        Option::None => 0,
        Option::Some(t) => if t <= now { (now - t) as u64 } else { 0 },
    }
}

/// The state of a base timer after one `run` step: an observed change of
/// value stamps the current tick.
pub open spec fn base_after_run<T>(t: BaseTimer<T>, now: u64, value: T) -> BaseTimer<T> {
    BaseTimer {
        change: if t.last == value {
            t.change
        } else {
            Some(now)
        },
        last: value,
    }
}

impl<T: ValueEq> BaseTimer<T> {
    pub fn new(start: T) -> (r: Self)
        ensures
            r.change is None,
            r.last == start,
    {
        Self { change: None, last: start }
    }

    pub fn run(&mut self, now: u64, value: T)
        ensures
            *final(self) == base_after_run(*old(self), now, value),
    {
        if !self.last.eq_value(&value) {
            self.change = Some(now);
        }
        self.last = value;
    }

    /// Returns true if `preset` ms have passed since the last value change.
    pub fn timer(&self, now: u64, preset: u64) -> (r: bool)
        ensures
            r == timer_done(self.change, now, preset),
    {
        match self.change {
            None => true,
            Some(t) => t <= now && now - t >= preset,
        }
    }

    /// Returns the time since the last value change.
    pub fn timer_value(&self, now: u64) -> (r: u64)
        ensures
            r == elapsed_since(self.change, now),
    {
        match self.change {
            None => 0,
            Some(t) => if t <= now {
                now - t
            } else {
                0
            },
        }
    }

    /// Reset the "last" value without triggering change detection.
    pub fn reset_value(&mut self, value: T)
        ensures
            final(self).last == value,
            final(self).change == old(self).change,
    {
        self.last = value;
    }

    /// Trigger the timer without a value change.
    pub fn trigger(&mut self, now: u64)
        ensures
            final(self).change == Some(now),
            final(self).last == old(self).last,
    {
        self.change = Some(now);
    }
}

/// A timer that has never recorded a change reports itself elapsed, and
/// running it with an unchanged value keeps it that way.
pub proof fn lemma_never_changed_already_elapsed<T>(t: BaseTimer<T>, now: u64, now2: u64, preset: u64)
    requires
        t.change is None,
    ensures
        timer_done(t.change, now2, preset),
        base_after_run(t, now, t.last).change is None,
{
}

#[derive(Default, Debug, Clone, Copy, PartialEq, Eq, Structural)]
pub struct TimerResult {
    pub done: bool,
    pub timing: bool,
}

/// On-delay timer: `done` only after the input has been true for `preset`.
#[derive(Debug, Clone, Copy)]
pub struct TimerOn {
    pub base: BaseTimer<bool>,
}

impl TimerOn {
    pub fn new() -> (r: Self)
        ensures
            r.base.change is None,
            r.base.last == false,
    {
        Self { base: BaseTimer { change: None, last: false } }
    }

    pub fn run(&mut self, now: u64, value: bool, preset: u64) -> (r: TimerResult)
        ensures
            final(self).base == base_after_run(old(self).base, now, value),
            r.done == (value && timer_done(final(self).base.change, now, preset)),
            r.timing == (value && !timer_done(final(self).base.change, now, preset)),
    {
        self.base.run(now, value);
        TimerResult {
            done: value && self.base.timer(now, preset),
            timing: value && !self.base.timer(now, preset),
        }
    }
}

/// Off-delay timer: `done` stays true for `preset` after the input drops.
#[derive(Debug, Clone, Copy)]
pub struct TimerOff {
    pub base: BaseTimer<bool>,
}

impl TimerOff {
    pub fn new() -> (r: Self)
        ensures
            r.base.change is None,
            r.base.last == false,
    {
        Self { base: BaseTimer { change: None, last: false } }
    }

    pub fn run(&mut self, now: u64, value: bool, preset: u64) -> (r: TimerResult)
        ensures
            final(self).base == base_after_run(old(self).base, now, value),
            r.done == (value || !timer_done(final(self).base.change, now, preset)),
            r.timing == (!value && !timer_done(final(self).base.change, now, preset)),
    {
        self.base.run(now, value);
        TimerResult {
            done: value || !self.base.timer(now, preset),
            timing: !value && !self.base.timer(now, preset),
        }
    }
}

/// The state of a pulse timer's base after one `run` step: a true input (or a
/// still-open pulse window) keeps the pulse latched, anything else re-arms it.
pub open spec fn pulse_after_run(base: BaseTimer<bool>, now: u64, value: bool, preset: u64) -> BaseTimer<bool> {
    if !timer_done(base.change, now, preset) || value {
        base_after_run(base, now, true)
    } else {
        BaseTimer { change: base.change, last: false }
    }
}

/// Pulse timer: a rising edge opens a window of `preset`, re-triggerable
/// while the window is still open.
#[derive(Debug, Clone, Copy)]
pub struct PulseTimer {
    pub base: BaseTimer<bool>,
}

impl PulseTimer {
    pub fn new() -> (r: Self)
        ensures
            r.base.change is None,
            r.base.last == false,
    {
        Self { base: BaseTimer { change: None, last: false } }
    }

    pub fn run(&mut self, now: u64, value: bool, preset: u64) -> (r: TimerResult)
        ensures
            final(self).base == pulse_after_run(old(self).base, now, value, preset),
            r.done == !timer_done(final(self).base.change, now, preset),
            r.timing == r.done,
    {
        let already_timing = !self.base.timer(now, preset);

        if already_timing || value {
            self.base.run(now, true)
        } else {
            self.base.reset_value(false);
        }

        let done = !self.base.timer(now, preset);
        TimerResult { done, timing: done }
    }
}

/// Conversions from plain numbers to millisecond durations.
pub trait TimeExt {
    spec fn spec_millis(&self) -> int;

    fn millis(&self) -> (r: u64)
        requires
            0 <= self.spec_millis() <= u64::MAX,
        ensures
            r == self.spec_millis(),
    ;

    fn secs(&self) -> (r: u64)
        requires
            0 <= self.spec_millis() * 1000 <= u64::MAX,
        ensures
            r == self.spec_millis() * 1000,
    ;
}

impl TimeExt for i32 {
    open spec fn spec_millis(&self) -> int {
        *self as int
    }

    fn millis(&self) -> (r: u64)
    {
        *self as u64
    }

    fn secs(&self) -> (r: u64)
    {
        (*self as u64) * 1000
    }
}

} // verus!
