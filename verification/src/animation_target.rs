use vstd::prelude::*;
use vstd::std_specs::convert::FromSpecImpl;
use crate::easing::Easing;
use crate::mode::AnimationMode;

verus! {

/// The running time of an animation whose target names none: half a second,
/// in nanoseconds.
pub const DEFAULT_DURATION: u64 = 500_000_000;

/// The easing of an animation whose target names none.
pub open spec fn default_easing() -> Easing {
    Easing::SineOut
}

/// The mode of an animation whose target names none.
pub open spec fn default_mode() -> AnimationMode {
    AnimationMode::Start
}

/// A value to ease towards, with the running time, the easing and the way to
/// treat the animations that are still running.
#[derive(Debug)]
pub struct AnimationTarget<T> {
    /// The final value to animate towards.
    pub target: T,
    /// The time for which the animation plays, in nanoseconds.
    pub duration: u64,
    /// The easing to apply during the animation.
    pub easing: Easing,
    /// How to deal with the animations that are still running.
    pub mode: AnimationMode,
}

impl<T> From<T> for AnimationTarget<T> {
    /// A target with the default duration, easing and mode.
    fn from(target: T) -> (r: Self) {
        AnimationTarget {
            target,
            mode: AnimationMode::Start,
            duration: DEFAULT_DURATION,
            easing: Easing::SineOut,
        }
    }
}

impl<T> FromSpecImpl<T> for AnimationTarget<T> {
    open spec fn obeys_from_spec() -> bool {
        true
    }

    open spec fn from_spec(target: T) -> Self {
        AnimationTarget {
            target,
            mode: default_mode(),
            duration: DEFAULT_DURATION,
            easing: default_easing(),
        }
    }
}

impl<T> From<(T, u64)> for AnimationTarget<T> {
    /// A target with the given duration and the default easing and mode.
    fn from(parts: (T, u64)) -> (r: Self) {
        AnimationTarget {
            target: parts.0,
            mode: AnimationMode::Start,
            duration: parts.1,
            easing: Easing::SineOut,
        }
    }
}

impl<T> FromSpecImpl<(T, u64)> for AnimationTarget<T> {
    open spec fn obeys_from_spec() -> bool {
        true
    }

    open spec fn from_spec(parts: (T, u64)) -> Self {
        AnimationTarget {
            target: parts.0,
            mode: default_mode(),
            duration: parts.1,
            easing: default_easing(),
        }
    }
}

impl<T> From<(T, Easing)> for AnimationTarget<T> {
    /// A target with the given easing and the default duration and mode.
    fn from(parts: (T, Easing)) -> (r: Self) {
        AnimationTarget {
            target: parts.0,
            mode: AnimationMode::Start,
            duration: DEFAULT_DURATION,
            easing: parts.1,
        }
    }
}

impl<T> FromSpecImpl<(T, Easing)> for AnimationTarget<T> {
    open spec fn obeys_from_spec() -> bool {
        true
    }

    open spec fn from_spec(parts: (T, Easing)) -> Self {
        AnimationTarget {
            target: parts.0,
            mode: default_mode(),
            duration: DEFAULT_DURATION,
            easing: parts.1,
        }
    }
}

impl<T> From<(T, AnimationMode)> for AnimationTarget<T> {
    /// A target with the given mode and the default duration and easing.
    fn from(parts: (T, AnimationMode)) -> (r: Self) {
        AnimationTarget {
            target: parts.0,
            mode: parts.1,
            duration: DEFAULT_DURATION,
            easing: Easing::SineOut,
        }
    }
}

impl<T> FromSpecImpl<(T, AnimationMode)> for AnimationTarget<T> {
    open spec fn obeys_from_spec() -> bool {
        true
    }

    open spec fn from_spec(parts: (T, AnimationMode)) -> Self {
        AnimationTarget {
            target: parts.0,
            mode: parts.1,
            duration: DEFAULT_DURATION,
            easing: default_easing(),
        }
    }
}

impl<T> From<(T, u64, Easing)> for AnimationTarget<T> {
    /// A target with the given duration and easing and the default mode.
    fn from(parts: (T, u64, Easing)) -> (r: Self) {
        AnimationTarget {
            target: parts.0,
            mode: AnimationMode::Start,
            duration: parts.1,
            easing: parts.2,
        }
    }
}

impl<T> FromSpecImpl<(T, u64, Easing)> for AnimationTarget<T> {
    open spec fn obeys_from_spec() -> bool {
        true
    }

    open spec fn from_spec(parts: (T, u64, Easing)) -> Self {
        AnimationTarget {
            target: parts.0,
            mode: default_mode(),
            duration: parts.1,
            easing: parts.2,
        }
    }
}

impl<T> From<(T, Easing, AnimationMode)> for AnimationTarget<T> {
    /// A target with the given easing and mode and the default duration.
    fn from(parts: (T, Easing, AnimationMode)) -> (r: Self) {
        AnimationTarget {
            target: parts.0,
            mode: parts.2,
            duration: DEFAULT_DURATION,
            easing: parts.1,
        }
    }
}

impl<T> FromSpecImpl<(T, Easing, AnimationMode)> for AnimationTarget<T> {
    open spec fn obeys_from_spec() -> bool {
        true
    }

    open spec fn from_spec(parts: (T, Easing, AnimationMode)) -> Self {
        AnimationTarget {
            target: parts.0,
            mode: parts.2,
            duration: DEFAULT_DURATION,
            easing: parts.1,
        }
    }
}

impl<T> From<(T, u64, AnimationMode)> for AnimationTarget<T> {
    /// A target with the given duration and mode and the default easing.
    fn from(parts: (T, u64, AnimationMode)) -> (r: Self) {
        AnimationTarget {
            target: parts.0,
            mode: parts.2,
            duration: parts.1,
            easing: Easing::SineOut,
        }
    }
}

impl<T> FromSpecImpl<(T, u64, AnimationMode)> for AnimationTarget<T> {
    open spec fn obeys_from_spec() -> bool {
        true
    }

    open spec fn from_spec(parts: (T, u64, AnimationMode)) -> Self {
        AnimationTarget {
            target: parts.0,
            mode: parts.2,
            duration: parts.1,
            easing: default_easing(),
        }
    }
}

impl<T> From<(T, u64, Easing, AnimationMode)> for AnimationTarget<T> {
    /// A target with the given duration, easing and mode.
    fn from(parts: (T, u64, Easing, AnimationMode)) -> (r: Self) {
        AnimationTarget {
            target: parts.0,
            mode: parts.3,
            duration: parts.1,
            easing: parts.2,
        }
    }
}

impl<T> FromSpecImpl<(T, u64, Easing, AnimationMode)> for AnimationTarget<T> {
    open spec fn obeys_from_spec() -> bool {
        true
    }

    open spec fn from_spec(parts: (T, u64, Easing, AnimationMode)) -> Self {
        AnimationTarget {
            target: parts.0,
            mode: parts.3,
            duration: parts.1,
            easing: parts.2,
        }
    }
}

impl<T: Default> Default for AnimationTarget<T> {
    /// The default value of `T` as a target, with the default duration,
    /// easing and mode.
    fn default() -> (r: Self)
        ensures
            r.duration == DEFAULT_DURATION,
            r.easing == default_easing(),
            r.mode == default_mode(),
            call_ensures(T::default, (), r.target),
    {
        AnimationTarget {
            target: T::default(),
            mode: AnimationMode::Start,
            duration: DEFAULT_DURATION,
            easing: Easing::SineOut,
        }
    }
}

} // verus!
