use leptos_animation::{
    create_animated_signal, AnimationContext, AnimationMode, AnimationStatus, AnimationTarget,
    Easing, Progress,
};
use std::cell::Cell;

fn lerp(from: &f64, to: &f64, at: Progress) -> f64 {
    (*to - *from) * (at.elapsed as f64 / at.duration as f64) + *from
}

#[test]
fn requests_before_the_frame_register_once() {
    let registered = Cell::new(0u32);
    let mut context: AnimationContext<u32> = AnimationContext::provide();
    assert!(!context.is_pending());
    let mut made = 0;
    for _ in 0..10 {
        let unused = context.request_animation_frame(|| {
            registered.set(registered.get() + 1);
            77
        });
        if unused.is_none() {
            made += 1;
        }
        assert!(context.is_pending());
    }
    assert_eq!(made, 1);
    assert_eq!(registered.get(), 1);
}

#[test]
fn pending_request_hands_the_registration_back_unused() {
    let mut context: AnimationContext<u32> = AnimationContext::provide();
    assert!(context.request_animation_frame(|| 1).is_none());
    let unused = context.request_animation_frame(|| 2);
    let register = unused.expect("a pending scheduler hands the registration back");
    assert_eq!(register(), 2);
    assert_eq!(context.dispose(), Some(1));
}

#[test]
fn a_fired_frame_allows_the_next_registration() {
    let registered = Cell::new(0u32);
    let mut context: AnimationContext<u32> = AnimationContext::provide();
    for frame in 1..=3u32 {
        assert!(context
            .request_animation_frame(|| {
                registered.set(registered.get() + 1);
                frame
            })
            .is_none());
        assert!(context
            .request_animation_frame(|| {
                registered.set(registered.get() + 1);
                frame
            })
            .is_some());
        context.frame_fired();
        assert!(!context.is_pending());
        assert_eq!(registered.get(), frame);
    }
}

#[test]
fn dispose_hands_out_the_pending_handle() {
    let mut context: AnimationContext<&str> = AnimationContext::provide();
    assert_eq!(context.dispose(), None);
    assert!(context.request_animation_frame(|| "handle").is_none());
    assert_eq!(context.dispose(), Some("handle"));
    assert!(!context.is_pending());
    assert_eq!(context.dispose(), None);
}

#[test]
fn binding_starts_no_animation() {
    let signal = create_animated_signal(
        AnimationTarget {
            target: 3.5,
            duration: 1,
            easing: Easing::Linear,
            mode: AnimationMode::Start,
        },
        lerp,
    );
    assert!(matches!(signal.status(), AnimationStatus::Static(v) if *v == 3.5));
    assert!(!signal.status().is_running());
}

#[test]
fn signal_runs_on_its_own_clock() {
    let mut signal = create_animated_signal(AnimationTarget::from(0.0), lerp);
    let first = signal.get();
    assert_eq!(first.value, 0.0);
    assert!(!first.request_frame);
    assert!(!signal.frame());

    signal.set_target(AnimationTarget::from((10.0, u64::MAX)));
    assert!(signal.status().is_running());
    let moving = signal.get();
    assert!(moving.request_frame);
    assert!(moving.value >= 0.0 && moving.value < 10.0);
    assert!(signal.frame());

    signal.set_target(AnimationTarget::from((4.0, AnimationMode::Snap)));
    let snapped = signal.get();
    assert_eq!(snapped.value, 4.0);
    assert!(!snapped.request_frame);
    assert!(signal.frame());
    assert!(!signal.frame());
    assert!(matches!(signal.status(), AnimationStatus::Static(v) if *v == 4.0));
}

#[test]
fn signal_settles_after_a_zero_duration() {
    let mut signal = create_animated_signal(AnimationTarget::from(0.0), lerp);
    signal.set_target(AnimationTarget::from((10.0, 0u64)));
    let mut reading = signal.get();
    let mut tries = 0;
    while reading.request_frame && tries < 1_000_000 {
        reading = signal.get();
        tries += 1;
    }
    assert_eq!(reading.value, 10.0);
    assert!(!reading.request_frame);
}

#[test]
fn signal_keeps_the_tween_it_was_bound_with() {
    let doubled = |_from: &f64, to: &f64, _at: Progress| 2.0 * *to;
    let mut signal = create_animated_signal(AnimationTarget::from(1.5), doubled);
    assert_eq!(signal.get().value, 3.0);
    signal.set_target(AnimationTarget::from((4.0, AnimationMode::Snap)));
    assert_eq!(signal.get().value, 8.0);
}
