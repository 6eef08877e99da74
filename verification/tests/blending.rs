use leptos_animation::blend::blend;
use leptos_animation::{
    Animation, AnimationMode, AnimationStatus, AnimationTarget, Easing, Progress,
};
use std::collections::VecDeque;
use std::ops::Sub;

const SECOND: u64 = 1_000_000_000;

fn fraction(at: Progress) -> f64 {
    let t = at.elapsed as f64 / at.duration as f64;
    match at.easing {
        Easing::Reverse => 1.0 - t,
        Easing::QuadIn => t * t,
        _ => t,
    }
}

fn lerp(from: &f64, to: &f64, at: Progress) -> f64 {
    (*to - *from) * fraction(at) + *from
}

fn target(value: f64, duration: u64, mode: AnimationMode) -> AnimationTarget<f64> {
    AnimationTarget { target: value, duration, easing: Easing::Linear, mode }
}

fn queue_len(status: &AnimationStatus<f64, f64>) -> usize {
    match status {
        AnimationStatus::Running { animations, .. } => animations.len(),
        _ => 0,
    }
}

#[test]
fn blend_subtracts_every_deficit() {
    let mut animations: VecDeque<Animation<i64, i64>> = VecDeque::new();
    for (to_i, start) in [(1000, 30), (100, 20), (10, 10)] {
        animations.push_back(Animation {
            from: 0,
            to: to_i,
            to_i,
            start,
            duration: SECOND,
            easing: Easing::Linear,
        });
    }
    let values: Vec<i64> = vec![400, 70, 9];
    assert_eq!(blend(1000, &animations, &values), 1000 - 600 - 30 - 1);
}

#[test]
fn blend_of_no_record_is_the_value_at_rest() {
    let animations: VecDeque<Animation<i64, i64>> = VecDeque::new();
    assert_eq!(blend(17, &animations, &Vec::new()), 17);
}

#[test]
fn blend_of_complete_records_is_the_value_at_rest() {
    let mut animations: VecDeque<Animation<i64, i64>> = VecDeque::new();
    animations.push_back(Animation {
        from: 0,
        to: 7,
        to_i: 7,
        start: 0,
        duration: 1,
        easing: Easing::Linear,
    });
    assert_eq!(blend(7, &animations, &vec![7]), 7);
}

#[test]
fn linear_second_reads_half_way_then_settles() {
    let mut status: AnimationStatus<f64, f64> = AnimationStatus::Static(0.0);
    status.retarget(target(10.0, SECOND, AnimationMode::Start), 0, &lerp);
    assert!(status.is_running());

    let mid = status.read(SECOND / 2, &lerp);
    assert!((mid.value - 5.0).abs() < 1e-9);
    assert!(mid.request_frame);

    assert!(status.tick(SECOND + SECOND / 10));
    let end = status.read(SECOND + SECOND / 10, &lerp);
    assert_eq!(end.value, 10.0);
    assert!(!end.request_frame);
    assert_eq!(queue_len(&status), 0);

    assert!(status.tick(SECOND + SECOND / 5));
    assert!(matches!(status, AnimationStatus::Static(v) if v == 10.0));
    for k in 0..5u64 {
        let now = 2 * SECOND + k;
        assert!(!status.tick(now));
        let again = status.read(now, &lerp);
        assert_eq!(again.value, 10.0);
        assert!(!again.request_frame);
    }
}

#[test]
fn read_alone_settles_a_finished_animation() {
    let mut status: AnimationStatus<f64, f64> = AnimationStatus::Static(0.0);
    status.retarget(target(10.0, SECOND, AnimationMode::Start), 0, &lerp);
    let end = status.read(SECOND + 1, &lerp);
    assert_eq!(end.value, 10.0);
    assert!(!end.request_frame);
    assert!(matches!(status, AnimationStatus::Snap(v) if v == 10.0));
}

#[test]
fn replace_or_start_steers_the_running_record() {
    let mut status: AnimationStatus<f64, f64> = AnimationStatus::Static(0.0);
    status.retarget(target(10.0, SECOND, AnimationMode::Start), 0, &lerp);
    let before = status.read(SECOND / 2, &lerp);
    assert!((before.value - 5.0).abs() < 1e-9);

    status.retarget(target(20.0, SECOND, AnimationMode::ReplaceOrStart), SECOND / 2, &lerp);
    assert_eq!(queue_len(&status), 1);
    let after = status.read(SECOND / 2, &lerp);
    assert!((after.value - 10.0).abs() < 1e-9);
    assert!(after.request_frame);

    let end = status.read(SECOND + SECOND / 2, &lerp);
    assert_eq!(end.value, 20.0);
    assert!(!end.request_frame);
}

#[test]
fn start_mid_flight_does_not_jump() {
    let mut status: AnimationStatus<f64, f64> = AnimationStatus::Static(0.0);
    status.retarget(target(10.0, SECOND, AnimationMode::Start), 0, &lerp);
    let now = SECOND / 4;
    let before = status.read(now, &lerp);
    status.retarget(target(30.0, 2 * SECOND, AnimationMode::Start), now, &lerp);
    assert_eq!(queue_len(&status), 2);
    let after = status.read(now, &lerp);
    assert!((before.value - after.value).abs() < 1e-9);
    assert!((after.value - 2.5).abs() < 1e-9);

    let later = status.read(SECOND / 2, &lerp);
    assert!((later.value - (30.0 - (30.0 - 12.5) - (10.0 - 5.0))).abs() < 1e-9);
}

#[test]
fn start_from_rest_does_not_jump() {
    let mut status: AnimationStatus<f64, f64> = AnimationStatus::Static(4.0);
    let before = status.read(100, &lerp);
    status.retarget(target(30.0, SECOND, AnimationMode::Start), 100, &lerp);
    let after = status.read(100, &lerp);
    assert_eq!(before.value, 4.0);
    assert!((after.value - 4.0).abs() < 1e-9);
}

#[test]
fn overlapping_starts_converge_on_the_last_target() {
    let mut status: AnimationStatus<f64, f64> = AnimationStatus::Static(0.0);
    let arrivals = [(100.0, 3 * SECOND, 0), (1000.0, SECOND, SECOND / 2), (-7.5, 2 * SECOND, SECOND)];
    for (value, duration, at) in arrivals {
        status.retarget(target(value, duration, AnimationMode::Start), at, &lerp);
    }
    assert_eq!(queue_len(&status), 3);
    let running = status.read(2 * SECOND, &lerp);
    assert!(running.request_frame);
    assert_eq!(queue_len(&status), 2);
    let settled = status.read(3 * SECOND + 1, &lerp);
    assert_eq!(settled.value, -7.5);
    assert!(!settled.request_frame);
    assert_eq!(queue_len(&status), 0);
}

#[test]
fn reverse_easing_starts_at_the_target() {
    let mut status: AnimationStatus<f64, f64> = AnimationStatus::Static(0.0);
    status.retarget(
        AnimationTarget {
            target: 10.0,
            duration: SECOND,
            easing: Easing::Reverse,
            mode: AnimationMode::Start,
        },
        0,
        &lerp,
    );
    assert!((status.read(0, &lerp).value - 10.0).abs() < 1e-9);
    assert!((status.read(SECOND, &lerp).value - 0.0).abs() < 1e-9);
    assert_eq!(status.read(SECOND + 1, &lerp).value, 10.0);
}

#[test]
fn zero_duration_reads_the_target_at_once() {
    let mut status: AnimationStatus<f64, f64> = AnimationStatus::Static(0.0);
    status.retarget(target(10.0, 0, AnimationMode::Start), 50, &lerp);
    let first = status.read(50, &lerp);
    assert_eq!(first.value, 10.0);
    assert!(first.request_frame);
    let next = status.read(51, &lerp);
    assert_eq!(next.value, 10.0);
    assert!(!next.request_frame);
}

#[test]
fn value_does_not_prune() {
    let mut status: AnimationStatus<f64, f64> = AnimationStatus::Static(0.0);
    status.retarget(target(10.0, SECOND, AnimationMode::Start), 0, &lerp);
    assert_eq!(status.value(5 * SECOND, &lerp), 10.0);
    assert_eq!(queue_len(&status), 1);
    assert!((status.value(SECOND / 2, &lerp) - 5.0).abs() < 1e-9);
}

#[derive(Clone, Debug, PartialEq)]
struct Splice(String);

impl Sub for Splice {
    type Output = Splice;

    fn sub(self, rhs: Splice) -> Splice {
        rhs
    }
}

fn splice(from: &String, to: &String, at: Progress) -> Splice {
    let taken = to.len() * at.elapsed as usize / at.duration as usize;
    let skipped = from.len() * at.elapsed as usize / at.duration as usize;
    Splice(to.chars().take(taken).chain(from.chars().skip(skipped)).collect())
}

fn text(value: &str, mode: AnimationMode) -> AnimationTarget<String> {
    AnimationTarget { target: value.to_string(), duration: 10, easing: Easing::Linear, mode }
}

#[test]
fn text_is_spliced_letter_by_letter() {
    let mut status: AnimationStatus<String, Splice> = AnimationStatus::Static("hello".to_string());
    assert_eq!(status.read(0, &splice).value, Splice("hello".to_string()));
    status.retarget(text("HELLO WORLD", AnimationMode::Start), 0, &splice);
    assert_eq!(status.read(0, &splice).value, Splice("hello".to_string()));
    assert_eq!(status.read(4, &splice).value, Splice("HELLllo".to_string()));
    assert_eq!(status.read(10, &splice).value, Splice("HELLO WORLD".to_string()));
    let settled = status.read(11, &splice);
    assert_eq!(settled.value, Splice("HELLO WORLD".to_string()));
    assert!(!settled.request_frame);
    assert_eq!(status.resting(), "HELLO WORLD".to_string());
}

#[test]
fn degenerate_subtraction_shows_the_oldest_record() {
    let mut status: AnimationStatus<String, Splice> = AnimationStatus::Static("aa".to_string());
    status.retarget(text("bb", AnimationMode::Start), 0, &splice);
    status.retarget(text("cc", AnimationMode::Start), 5, &splice);
    assert_eq!(status.read(5, &splice).value, Splice("ba".to_string()));
    assert_eq!(status.read(12, &splice).value, Splice("cb".to_string()));
    assert_eq!(status.read(16, &splice).value, Splice("cc".to_string()));
}

#[test]
fn pruning_does_not_change_the_value() {
    let mut status: AnimationStatus<f64, f64> = AnimationStatus::Static(0.0);
    status.retarget(target(10.0, 4 * SECOND, AnimationMode::Start), 0, &lerp);
    status.retarget(target(30.0, SECOND, AnimationMode::Start), SECOND, &lerp);
    status.retarget(target(-5.0, 3 * SECOND, AnimationMode::Start), 2 * SECOND, &lerp);
    assert_eq!(queue_len(&status), 3);

    let now = 3 * SECOND;
    let unpruned = status.value(now, &lerp);
    let pruned = status.read(now, &lerp);
    assert_eq!(queue_len(&status), 2);
    assert!((unpruned - pruned.value).abs() < 1e-9);
    assert!((pruned.value - (-5.0 - (-5.0 - 18.333333333333332) - (10.0 - 7.5))).abs() < 1e-9);

    let end = 6 * SECOND;
    let unpruned = status.value(end, &lerp);
    let settled = status.read(end, &lerp);
    assert_eq!(queue_len(&status), 0);
    assert!((unpruned - settled.value).abs() < 1e-9);
    assert_eq!(settled.value, -5.0);
}

#[test]
fn frame_does_not_change_the_value() {
    let mut status: AnimationStatus<f64, f64> = AnimationStatus::Static(0.0);
    status.retarget(target(10.0, SECOND, AnimationMode::Start), 0, &lerp);
    status.retarget(target(20.0, 4 * SECOND, AnimationMode::Start), SECOND / 2, &lerp);
    let now = 2 * SECOND;
    let before = status.value(now, &lerp);
    assert!(status.tick(now));
    assert_eq!(queue_len(&status), 1);
    let after = status.value(now, &lerp);
    assert!((before - after).abs() < 1e-9);
}
