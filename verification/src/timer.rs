//! Countdown timers measured in whole nanoseconds.

use vstd::prelude::*;

verus! {

/// A one-shot countdown: an elapsed-time accumulator compared against a fixed duration.
///
/// The accumulator never runs past the duration, so the time remaining never goes
/// below zero, and a timer that has finished stays finished.
#[derive(Clone, Copy, Debug, PartialEq, Eq, Structural)]
pub struct Timer {
    pub duration: u64,
    pub elapsed: u64,
    pub finished: bool,
}

impl Timer {
    /// The accumulator is within the duration, and a finished timer has used all of it.
    pub open spec fn wf(self) -> bool {
        &&& self.elapsed <= self.duration
        &&& self.finished ==> self.elapsed == self.duration
    }

    /// The timer after `delta` more nanoseconds.
    pub open spec fn ticked(self, delta: u64) -> Timer {
        if self.finished {
            self
        } else if self.elapsed + delta >= self.duration {
            Timer { duration: self.duration, elapsed: self.duration, finished: true }
        } else {
            Timer { duration: self.duration, elapsed: (self.elapsed + delta) as u64, finished: false }
        }
    }

    /// The timer after each of `deltas` in turn.
    pub open spec fn ticked_all(self, deltas: Seq<u64>) -> Timer
        decreases deltas.len(),
    {
        if deltas.len() == 0 {
            self
        } else {
            self.ticked_all(deltas.drop_last()).ticked(deltas.last())
        }
    }

    /// Time left before completion.
    pub open spec fn remaining_spec(self) -> int {
        if self.elapsed >= self.duration {
            0
        } else {
            self.duration - self.elapsed
        }
    }

    /// A fresh timer that has accumulated nothing and has not finished.
    pub fn new(duration: u64) -> (t: Timer)
        ensures
            t == (Timer { duration, elapsed: 0, finished: false }),
            t.wf(),
    {
        Timer { duration, elapsed: 0, finished: false }
    }

    /// Advances the timer by `delta` nanoseconds.
    pub fn tick(&mut self, delta: u64)
        ensures
            *final(self) == old(self).ticked(delta),
            old(self).wf() ==> final(self).wf(),
    {
        if !self.finished {
            if self.elapsed >= self.duration || delta >= self.duration - self.elapsed {
                self.elapsed = self.duration;
                self.finished = true;
            } else {
                self.elapsed = self.elapsed + delta;
            }
        }
    }

    /// Whether the accumulated time has reached the duration.
    pub fn finished(&self) -> (b: bool)
        ensures
            b == self.finished,
    {
        self.finished
    }

    /// Time left before completion; zero once the timer has finished.
    pub fn remaining(&self) -> (r: u64)
        ensures
            r as int == self.remaining_spec(),
    {
        if self.elapsed >= self.duration {
            0
        } else {
            self.duration - self.elapsed
        }
    }
}

/// Sum of a sequence of tick lengths.
pub open spec fn total_time(deltas: Seq<u64>) -> int
    decreases deltas.len(),
{
    if deltas.len() == 0 {
        0
    } else {
        total_time(deltas.drop_last()) + deltas.last()
    }
}

/// A fresh timer of duration `d` has finished after a run of ticks exactly when at least
/// one tick happened and the tick lengths add up to `d` or more; until then it holds
/// their exact sum.
pub proof fn lemma_timer_accumulates(d: u64, deltas: Seq<u64>)
    ensures
        ({
            let t = (Timer { duration: d, elapsed: 0, finished: false }).ticked_all(deltas);
            &&& t.wf()
            &&& t.duration == d
            &&& t.finished <==> deltas.len() > 0 && total_time(deltas) >= d
            &&& !t.finished ==> t.elapsed == total_time(deltas)
        }),
    decreases deltas.len(),
{
    if deltas.len() > 0 {
        lemma_timer_accumulates(d, deltas.drop_last());
        lemma_total_time_monotonic(deltas);
    }
}

/// Adding a tick never lowers the accumulated time.
pub proof fn lemma_total_time_monotonic(deltas: Seq<u64>)
    requires
        deltas.len() > 0,
    ensures
        total_time(deltas.drop_last()) <= total_time(deltas),
        0 <= total_time(deltas.drop_last()),
    decreases deltas.len(),
{
    if deltas.len() > 1 {
        lemma_total_time_monotonic(deltas.drop_last());
    }
}

/// Time remaining never increases from one tick to the next, and never goes below zero.
pub proof fn lemma_timer_monotonic(t: Timer, delta: u64)
    requires
        t.wf(),
    ensures
        0 <= t.ticked(delta).remaining_spec() <= t.remaining_spec(),
        t.finished ==> t.ticked(delta) == t,
{
}

} // verus!
