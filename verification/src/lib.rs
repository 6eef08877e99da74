//! An additive animation engine: targets arrive over time, and the engine
//! blends every transition that is still in flight into one output value.

pub mod animation;
pub mod animation_target;
pub mod blend;
pub mod clock;
pub mod cloning;
pub mod context;
pub mod easing;
pub mod laws;
pub mod mode;
pub mod progress;
pub mod signal;
pub mod status;

pub use crate::animation::Animation;
pub use crate::animation_target::{AnimationTarget, DEFAULT_DURATION};
pub use crate::clock::Clock;
pub use crate::context::AnimationContext;
pub use crate::easing::Easing;
pub use crate::mode::AnimationMode;
pub use crate::progress::Progress;
pub use crate::signal::{create_animated_signal, AnimatedSignal, Reading};
pub use crate::status::AnimationStatus;
