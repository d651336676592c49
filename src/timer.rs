//! One-shot timers advanced by an explicit per-tick delta.

use vstd::prelude::*;

verus! {

/// A one-shot timer, with the semantics of bevy's non-repeating `Timer`: it
/// counts elapsed microseconds and, on the tick that reaches its duration,
/// becomes finished with the elapsed time set to the duration. The finished
/// state is a flag that only `tick` sets and only `reset` clears, so a timer
/// of zero duration is not finished until it has been ticked once. A paused
/// or finished timer ignores ticks.
#[derive(Clone, Copy, Debug, PartialEq, Eq, Structural)]
pub struct Timer {
    pub duration_us: u64,
    pub elapsed_us: u64,
    pub paused: bool,
    pub finished: bool,
}

impl Timer {
    /// The timer has run its whole duration since it was created or reset.
    pub open spec fn is_finished(self) -> bool {
        self.finished
    }

    /// The timer after one tick of `delta_us` microseconds.
    pub open spec fn ticked(self, delta_us: u64) -> Timer {
        if self.paused || self.finished {
            self
        } else if self.elapsed_us + delta_us >= self.duration_us {
            Timer { elapsed_us: self.duration_us, finished: true, ..self }
        } else {
            Timer { elapsed_us: (self.elapsed_us + delta_us) as u64, ..self }
        }
    }

    /// A running, unfinished timer with nothing elapsed.
    pub fn new(duration_us: u64) -> (r: Timer)
        ensures
            r == (Timer { duration_us, elapsed_us: 0, paused: false, finished: false }),
    {
        Timer { duration_us, elapsed_us: 0, paused: false, finished: false }
    }

    pub fn finished(&self) -> (r: bool)
        ensures
            r == self.is_finished(),
    {
        self.finished
    }

    pub fn is_paused(&self) -> (r: bool)
        ensures
            r == self.paused,
    {
        self.paused
    }

    pub fn pause(&mut self)
        ensures
            *final(self) == (Timer { paused: true, ..*old(self) }),
    {
        self.paused = true;
    }

    pub fn unpause(&mut self)
        ensures
            *final(self) == (Timer { paused: false, ..*old(self) }),
    {
        self.paused = false;
    }

    /// Restart the count from zero and clear the finished state; the pause
    /// state is kept.
    pub fn reset(&mut self)
        ensures
            *final(self) == (Timer { elapsed_us: 0, finished: false, ..*old(self) }),
    {
        self.elapsed_us = 0;
        self.finished = false;
    }

    /// Advance the timer by `delta_us`; on reaching the duration it becomes
    /// finished with the elapsed time set to the duration.
    pub fn tick(&mut self, delta_us: u64)
        ensures
            *final(self) == old(self).ticked(delta_us),
    {
        if self.paused || self.finished {
            return;
        }
        if self.elapsed_us >= self.duration_us || delta_us >= self.duration_us - self.elapsed_us {
            self.elapsed_us = self.duration_us;
            self.finished = true;
        } else {
            self.elapsed_us = self.elapsed_us + delta_us;
        }
    }
}

} // verus!
