use vstd::prelude::*;
use crate::easing::Easing;

verus! {

/// How far an animation has come: the fraction `elapsed / duration` of its
/// running time, already clamped to the unit interval, and the easing curve
/// that is still to be applied to that fraction.
#[derive(Clone, Copy, Debug, PartialEq, Eq, Structural)]
pub struct Progress {
    /// Numerator of the fraction, in nanoseconds.
    pub elapsed: u64,
    /// Denominator of the fraction, in nanoseconds.
    pub duration: u64,
    /// The curve to apply to the fraction.
    pub easing: Easing,
}

impl Progress {
    /// The fraction is well defined and lies between zero and one.
    pub open spec fn wf(self) -> bool {
        0 < self.duration && self.elapsed <= self.duration
    }

    /// The fraction equals one.
    pub open spec fn is_complete(self) -> bool {
        self.elapsed == self.duration
    }

    /// The progress of a value at rest: the fraction one under the identity
    /// curve.
    pub open spec fn settled() -> Progress {
        Progress { elapsed: 1, duration: 1, easing: Easing::Linear }
    }

    /// The progress at which a tween is asked for the value of a target at
    /// rest.
    pub fn complete() -> (p: Progress)
        ensures
            p == Progress::settled(),
            p.wf(),
            p.is_complete(),
    {
        Progress { elapsed: 1, duration: 1, easing: Easing::Linear }
    }

    /// Whether the animation has run its full time.
    pub fn finished(&self) -> (b: bool)
        ensures
            b == self.is_complete(),
    {
        self.elapsed == self.duration
    }
}

} // verus!
