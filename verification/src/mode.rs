use vstd::prelude::*;

verus! {

/// How a new target treats the animations that are still running.
#[derive(Clone, Copy, Debug, PartialEq, Eq, Structural)]
pub enum AnimationMode {
    /// Always start a new animation on top of the running ones.
    Start,
    /// Replace the target of the latest running animation, or start one if
    /// none is running.
    ReplaceOrStart,
    /// Replace the target of the latest running animation, or jump to the
    /// target if none is running.
    ReplaceOrSnap,
    /// Cancel every running animation and jump to the target.
    Snap,
}

impl AnimationMode {
    /// Whether this mode begins a transition when nothing is running.
    pub open spec fn starts_when_idle(self) -> bool {
        self == AnimationMode::Start || self == AnimationMode::ReplaceOrStart
    }
}

} // verus!
