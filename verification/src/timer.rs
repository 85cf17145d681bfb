//! The countdown that holds a track back after it starts.

use vstd::prelude::*;

verus! {

/// A timer that runs once. It counts the milliseconds it is ticked by and is
/// finished from the tick on which they reach its duration. A new timer is not
/// finished, not even one of duration zero: its first tick finishes it.
#[derive(Clone, Copy, Debug, PartialEq, Eq, Hash, Structural)]
pub struct DebounceTimer {
    /// How long the timer runs, in milliseconds.
    pub duration: u64,
    /// How long it has run, never more than its duration once finished.
    pub elapsed: u64,
    /// Whether it has run out.
    pub finished: bool,
}

/// The timer of `duration` milliseconds before its first tick.
pub open spec fn fresh_timer(duration: u64) -> DebounceTimer {
    DebounceTimer { duration, elapsed: 0, finished: false }
}

/// `timer` after a tick of `delta` milliseconds. A finished timer stays as it
/// is. Another one adds the tick to its count, as far as 64 bits go, and is
/// finished if the count has reached the duration, where the count then stops.
pub open spec fn ticked(timer: DebounceTimer, delta: u64) -> DebounceTimer {
    if timer.finished {
        timer
    } else if timer.elapsed + delta >= timer.duration {
        DebounceTimer { duration: timer.duration, elapsed: timer.duration, finished: true }
    } else {
        DebounceTimer {
            duration: timer.duration,
            elapsed: (timer.elapsed + delta) as u64,
            finished: false,
        }
    }
}

/// `timer` set back to its start: the same duration, nothing counted, not
/// finished.
pub open spec fn restarted(timer: DebounceTimer) -> DebounceTimer {
    fresh_timer(timer.duration)
}

impl DebounceTimer {
    /// A timer of `duration` milliseconds that has not run yet.
    pub fn new(duration: u64) -> (timer: Self)
        ensures
            timer == fresh_timer(duration),
    {
        DebounceTimer { duration, elapsed: 0, finished: false }
    }

    /// Advances the timer by `delta` milliseconds.
    pub fn tick(&mut self, delta: u64)
        ensures
            *final(self) == ticked(*old(self), delta),
    {
        if !self.finished {
            let count: u64 = if delta > u64::MAX - self.elapsed {
                u64::MAX
            } else {
                self.elapsed + delta
            };
            if count >= self.duration {
                self.elapsed = self.duration;
                self.finished = true;
            } else {
                self.elapsed = count;
            }
        }
    }

    /// Sets the timer back to its start. Its duration stays.
    pub fn reset(&mut self)
        ensures
            *final(self) == restarted(*old(self)),
    {
        self.elapsed = 0;
        self.finished = false;
    }

    /// Whether the timer has run out.
    pub fn finished(&self) -> (done: bool)
        ensures
            done == self.finished,
    {
        self.finished
    }
}

/// A timer that has been ticked by at least its duration since it was made is
/// finished, and one ticked by less in a single tick is not.
pub proof fn lemma_first_tick(duration: u64, delta: u64)
    ensures
        ticked(fresh_timer(duration), delta).finished == (delta >= duration),
{
}

/// `timer` after the ticks of `deltas`, one after the other.
pub open spec fn ticked_through(timer: DebounceTimer, deltas: Seq<u64>) -> DebounceTimer
    decreases deltas.len(),
{
    if deltas.len() == 0 {
        timer
    } else {
        ticked(ticked_through(timer, deltas.drop_last()), deltas.last())
    }
}

/// The sum of `deltas`.
pub open spec fn total(deltas: Seq<u64>) -> int
    decreases deltas.len(),
{
    if deltas.len() == 0 {
        0
    } else {
        total(deltas.drop_last()) + deltas.last()
    }
}

/// However the time is cut into ticks, a running timer that is ticked at
/// least once is finished exactly when the ticks add up to what was left of
/// its duration. Until then it has counted every millisecond of them.
pub proof fn lemma_ticks_add_up(timer: DebounceTimer, deltas: Seq<u64>)
    requires
        !timer.finished,
    ensures
        total(deltas) >= 0,
        ticked_through(timer, deltas).duration == timer.duration,
        deltas.len() > 0 ==> ticked_through(timer, deltas).finished == (timer.elapsed + total(
            deltas,
        ) >= timer.duration),
        deltas.len() == 0 ==> ticked_through(timer, deltas) == timer,
        !ticked_through(timer, deltas).finished ==> ticked_through(timer, deltas).elapsed
            == timer.elapsed + total(deltas),
    decreases deltas.len(),
{
    if deltas.len() > 0 {
        lemma_ticks_add_up(timer, deltas.drop_last());
    }
}

} // verus!
