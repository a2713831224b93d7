//! Countdown and repeating timers, advanced by the timer of the `bevy` engine.

use vstd::prelude::*;

verus! {

/// What a timer does when it reaches its duration.
#[derive(Clone, Copy, Debug, PartialEq, Eq, Structural)]
pub enum TimerMode {
    /// Stops at its duration and stays finished.
    Once,
    /// Wraps around, and is finished only on the tick on which it wrapped.
    Repeating,
}

/// The time a timer shows after `delta` more microseconds.
pub open spec fn elapsed_after(duration: u64, mode: TimerMode, elapsed: u64, delta: u32) -> int {
    let total = elapsed + delta;
    if total < duration {
        total
    } else if mode == TimerMode::Repeating {
        total % (duration as int)
    } else {
        duration as int
    }
}

/// Whether `delta` more microseconds take a timer to its duration.
pub open spec fn finishes_after(duration: u64, elapsed: u64, delta: u32) -> bool {
    elapsed + delta >= duration
}

/// Calls `bevy::time::Timer::tick` on a timer of the given duration and mode
/// that shows `elapsed`, and reads back `elapsed()` and `finished()`.
///
/// Trusted: the engine adds `delta` to the elapsed time; below the duration
/// the timer is not finished; from the duration on it is finished, and a
/// one-shot timer then shows its duration while a repeating one shows the
/// remainder of the division by its duration.
#[verifier::external_body]
fn engine_tick(duration: u64, mode: TimerMode, elapsed: u64, delta: u32) -> (r: (u64, bool))
    requires
        mode == TimerMode::Repeating ==> elapsed < duration,
        mode == TimerMode::Once ==> elapsed <= duration,
    ensures
        r.0 == elapsed_after(duration, mode, elapsed, delta),
        r.1 == finishes_after(duration, elapsed, delta),
{
    let engine_mode = match mode {
        TimerMode::Once => bevy::time::TimerMode::Once,
        TimerMode::Repeating => bevy::time::TimerMode::Repeating,
    };
    let mut timer = bevy::time::Timer::new(std::time::Duration::from_micros(duration), engine_mode);
    timer.set_elapsed(std::time::Duration::from_micros(elapsed));
    timer.tick(std::time::Duration::from_micros(delta as u64));
    (timer.elapsed().as_micros() as u64, timer.finished())
}

/// A timer: its duration, the time it shows, and whether its last tick finished it.
#[derive(Clone, Copy, Debug, PartialEq, Eq)]
pub struct Timer {
    duration: u64,
    elapsed: u64,
    mode: TimerMode,
    finished: bool,
}

impl Timer {
    /// A repeating timer shows less than its (positive) duration; a one-shot
    /// timer shows at most its duration, and exactly that once finished.
    pub open spec fn wf(self) -> bool {
        match self.mode() {
            TimerMode::Repeating => self.elapsed() < self.duration(),
            TimerMode::Once => self.elapsed() <= self.duration() && (self.finished()
                ==> self.elapsed() == self.duration()),
        }
    }

    #[verifier::type_invariant]
    spec fn inv(self) -> bool {
        self.wf()
    }

    /// The duration, in microseconds.
    pub closed spec fn duration(self) -> u64 {
        self.duration
    }

    /// The time shown, in microseconds.
    pub closed spec fn elapsed(self) -> u64 {
        self.elapsed
    }

    pub closed spec fn mode(self) -> TimerMode {
        self.mode
    }

    /// Whether the last tick took the timer to its duration.
    pub closed spec fn finished(self) -> bool {
        self.finished
    }

    /// The timer as it is after `delta` more microseconds.
    pub open spec fn ticked(self, delta: u32) -> Timer {
        Timer::of(
            self.duration(),
            self.mode(),
            elapsed_after(self.duration(), self.mode(), self.elapsed(), delta) as u64,
            finishes_after(self.duration(), self.elapsed(), delta),
        )
    }

    /// The timer with the given parts.
    pub closed spec fn of(duration: u64, mode: TimerMode, elapsed: u64, finished: bool) -> Timer {
        Timer { duration, elapsed, mode, finished }
    }

    /// A timer of `duration` microseconds that has not run yet.
    pub fn new(duration: u64, mode: TimerMode) -> (t: Timer)
        requires
            mode == TimerMode::Repeating ==> duration > 0,
        ensures
            t == Timer::of(duration, mode, 0, false),
            t.duration() == duration,
            t.mode() == mode,
            t.elapsed() == 0,
            !t.finished(),
            t.wf(),
    {
        Timer { duration, elapsed: 0, mode, finished: false }
    }

    /// The timer set back to zero, as it was when new.
    pub open spec fn rewound(self) -> Timer {
        Timer::of(self.duration(), self.mode(), 0, false)
    }

    /// Whether the timer has covered no part of a positive duration.
    pub open spec fn at_start(self) -> bool {
        self.elapsed() == 0 && self.duration() > 0
    }

    /// The duration, in microseconds.
    pub fn duration_micros(&self) -> (d: u64)
        ensures
            d == self.duration(),
    {
        self.duration
    }

    /// The time shown, in microseconds.
    pub fn elapsed_micros(&self) -> (e: u64)
        ensures
            e == self.elapsed(),
    {
        self.elapsed
    }

    /// Whether the timer wraps around at its duration.
    pub fn is_repeating(&self) -> (b: bool)
        ensures
            b == (self.mode() == TimerMode::Repeating),
    {
        match self.mode {
            TimerMode::Repeating => true,
            TimerMode::Once => false,
        }
    }

    /// Whether the last tick took the timer to its duration.
    pub fn has_finished(&self) -> (b: bool)
        ensures
            b == self.finished(),
    {
        self.finished
    }

    /// Whether the completed fraction of the timer is exactly zero.
    pub fn fraction_is_zero(&self) -> (b: bool)
        ensures
            b == self.at_start(),
    {
        self.elapsed == 0 && self.duration > 0
    }

    /// Sets the timer back to zero.
    pub fn reset(&mut self)
        ensures
            *final(self) == old(self).rewound(),
            final(self).duration() == old(self).duration(),
            final(self).mode() == old(self).mode(),
            final(self).elapsed() == 0,
            !final(self).finished(),
            final(self).wf(),
    {
        proof {
            use_type_invariant(&*self);
        }
        *self = Timer { duration: self.duration, elapsed: 0, mode: self.mode, finished: false };
    }

    /// Advances the timer by `delta` microseconds; returns whether that took it to its duration.
    pub fn tick(&mut self, delta: u32) -> (done: bool)
        ensures
            *final(self) == old(self).ticked(delta),
            final(self).duration() == old(self).duration(),
            final(self).mode() == old(self).mode(),
            final(self).elapsed() == elapsed_after(
                old(self).duration(),
                old(self).mode(),
                old(self).elapsed(),
                delta,
            ),
            final(self).finished() == finishes_after(
                old(self).duration(),
                old(self).elapsed(),
                delta,
            ),
            done == final(self).finished(),
            final(self).wf(),
    {
        proof {
            use_type_invariant(&*self);
        }
        let (elapsed, finished) = engine_tick(self.duration, self.mode, self.elapsed, delta);
        proof {
            lemma_tick_keeps_wf(self.duration, self.mode, self.elapsed, delta);
        }
        *self = Timer { duration: self.duration, elapsed, mode: self.mode, finished };
        finished
    }
}

/// A timer put together from parts has those parts.
pub proof fn lemma_timer_parts(duration: u64, mode: TimerMode, elapsed: u64, finished: bool)
    ensures
        Timer::of(duration, mode, elapsed, finished).duration() == duration,
        Timer::of(duration, mode, elapsed, finished).elapsed() == elapsed,
        Timer::of(duration, mode, elapsed, finished).mode() == mode,
        Timer::of(duration, mode, elapsed, finished).finished() == finished,
{
}

/// A tick takes a well-formed timer to a well-formed timer.
pub proof fn lemma_tick_keeps_wf(duration: u64, mode: TimerMode, elapsed: u64, delta: u32)
    requires
        mode == TimerMode::Repeating ==> elapsed < duration,
        mode == TimerMode::Once ==> elapsed <= duration,
    ensures
        0 <= elapsed_after(duration, mode, elapsed, delta) <= duration,
        mode == TimerMode::Repeating ==> elapsed_after(duration, mode, elapsed, delta) < duration,
        mode == TimerMode::Once && finishes_after(duration, elapsed, delta) ==> elapsed_after(
            duration,
            mode,
            elapsed,
            delta,
        ) == duration,
{
    let total = elapsed + delta;
    if total >= duration && mode == TimerMode::Repeating {
        assert(0 <= total % (duration as int) < duration) by (nonlinear_arith)
            requires
                duration > 0,
                total >= 0,
        ;
    }
}

} // verus!
