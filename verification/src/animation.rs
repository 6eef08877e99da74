use vstd::prelude::*;
use crate::easing::Easing;
use crate::progress::Progress;

verus! {

/// One transition in flight, from one target value to the next.
#[derive(Debug)]
pub struct Animation<T, I> {
    /// The value the transition leaves.
    pub from: T,
    /// The value the transition heads for.
    pub to: T,
    /// The interpolated form of `to` at rest.
    pub to_i: I,
    /// When the transition began, in nanoseconds on the caller's clock.
    pub start: u64,
    /// How long the transition runs, in nanoseconds.
    pub duration: u64,
    /// The curve the transition follows.
    pub easing: Easing,
}

impl<T, I> Animation<T, I> {
    /// The transition is over at `now`: strictly more than its duration has
    /// passed since its start.
    pub open spec fn finished_at(self, now: u64) -> bool {
        now > self.start + self.duration
    }

    /// The clamped fraction of the running time that has passed at `now`.
    /// A clock that reads earlier than the start counts as no time passed,
    /// and a transition without duration is complete from its first instant.
    pub open spec fn progress_at(self, now: u64) -> Progress {
        if self.duration == 0 {
            Progress { elapsed: 1, duration: 1, easing: self.easing }
        } else if now <= self.start {
            Progress { elapsed: 0, duration: self.duration, easing: self.easing }
        } else if now - self.start >= self.duration {
            Progress { elapsed: self.duration, duration: self.duration, easing: self.easing }
        } else {
            Progress {
                elapsed: (now - self.start) as u64,
                duration: self.duration,
                easing: self.easing,
            }
        }
    }

    /// Whether the transition is over at `now`.
    pub fn is_finished(&self, now: u64) -> (b: bool)
        ensures
            b == self.finished_at(now),
    {
        match self.start.checked_add(self.duration) {
            Some(end) => now > end,
            None => false,
        }
    }

    /// The progress of the transition at `now`.
    pub fn progress(&self, now: u64) -> (p: Progress)
        ensures
            p == self.progress_at(now),
            p.wf(),
            p.easing == self.easing,
            self.finished_at(now) ==> p.is_complete(),
    {
        if self.duration == 0 {
            Progress { elapsed: 1, duration: 1, easing: self.easing }
        } else {
            let passed: u64 = now.saturating_sub(self.start);
            let elapsed: u64 = if passed >= self.duration { self.duration } else { passed };
            Progress { elapsed, duration: self.duration, easing: self.easing }
        }
    }
}

} // verus!
