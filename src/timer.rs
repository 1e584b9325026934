//! Countdown timers driven by elapsed time, in microseconds.
use vstd::prelude::*;

verus! {

#[derive(Clone, Copy, Debug, PartialEq, Eq, Structural)]
pub enum TimerMode {
    /// Finishes once and stays finished until reset.
    Once,
    /// Finishes each time a full period has elapsed, and starts over from
    /// zero.
    Repeating,
}

/// A countdown of `duration` microseconds; `finished` tells whether the last
/// tick completed it.
#[derive(Clone, Copy, Debug, PartialEq, Eq, Structural)]
pub struct Timer {
    pub duration: u64,
    pub elapsed: u64,
    pub mode: TimerMode,
    pub finished: bool,
}

pub open spec fn sat_add_u64(a: u64, b: u64) -> u64 {
    if a + b > u64::MAX { u64::MAX } else { (a + b) as u64 }
}

impl Timer {
    /// The timer after `delta` more microseconds have elapsed.
    pub open spec fn ticked(self, delta: u64) -> Timer {
        if self.mode == TimerMode::Once && self.finished {
            self
        } else {
            let e = sat_add_u64(self.elapsed, delta);
            if e >= self.duration {
                match self.mode {
                    TimerMode::Once => Timer { elapsed: self.duration, finished: true, ..self },
                    TimerMode::Repeating => Timer { elapsed: 0, finished: true, ..self },
                }
            } else {
                Timer { elapsed: e, finished: false, ..self }
            }
        }
    }

    pub open spec fn restarted(self) -> Timer {
        Timer { elapsed: 0, finished: false, ..self }
    }

    pub fn from_micros(duration: u64, mode: TimerMode) -> (r: Timer)
        ensures
            r == (Timer { duration, elapsed: 0, mode, finished: false }),
    {
        Timer { duration, elapsed: 0, mode, finished: false }
    }

    pub fn tick(&mut self, delta: u64)
        ensures
            *final(self) == old(self).ticked(delta),
    {
        if self.mode == TimerMode::Once && self.finished {
            return;
        }
        let e = self.elapsed.saturating_add(delta);
        if e >= self.duration {
            self.finished = true;
            match self.mode {
                TimerMode::Once => {
                    self.elapsed = self.duration;
                },
                TimerMode::Repeating => {
                    self.elapsed = 0;
                },
            }
        } else {
            self.elapsed = e;
            self.finished = false;
        }
    }

    pub fn finished(&self) -> (r: bool)
        ensures
            r == self.finished,
    {
        self.finished
    }

    pub fn reset(&mut self)
        ensures
            *final(self) == old(self).restarted(),
    {
        self.elapsed = 0;
        self.finished = false;
    }
}

} // verus!
