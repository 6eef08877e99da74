use leptos_animation::{
    Animation, AnimationMode, AnimationStatus, AnimationTarget, Easing, Progress,
};
use std::collections::VecDeque;

const SECOND: u64 = 1_000_000_000;

fn target(value: i64, duration: u64, mode: AnimationMode) -> AnimationTarget<i64> {
    AnimationTarget { target: value, duration, easing: Easing::Linear, mode }
}

fn identity(_from: &i64, to: &i64, _at: Progress) -> i64 {
    *to
}

fn records(status: &AnimationStatus<i64, i64>) -> Vec<(i64, i64, i64, u64, u64)> {
    match status {
        AnimationStatus::Running { animations, .. } => {
            animations.iter().map(|a| (a.from, a.to, a.to_i, a.start, a.duration)).collect()
        }
        _ => Vec::new(),
    }
}

fn running(to: i64, queue: Vec<(i64, i64, u64, u64)>) -> AnimationStatus<i64, i64> {
    let mut animations = VecDeque::new();
    for (from, to, start, duration) in queue {
        animations.push_back(Animation {
            from,
            to,
            to_i: to,
            start,
            duration,
            easing: Easing::Linear,
        });
    }
    AnimationStatus::Running { to, to_i: to, animations }
}

#[test]
fn start_from_static_begins_one_record() {
    let mut status: AnimationStatus<i64, i64> = AnimationStatus::Static(3);
    status.apply(target(10, SECOND, AnimationMode::Start), 10, 7);
    assert!(matches!(status, AnimationStatus::Running { to: 10, to_i: 10, .. }));
    assert_eq!(records(&status), vec![(3, 10, 10, 7, SECOND)]);
}

#[test]
fn replace_or_start_from_snap_begins_one_record() {
    let mut status: AnimationStatus<i64, i64> = AnimationStatus::Snap(4);
    status.apply(target(10, SECOND, AnimationMode::ReplaceOrStart), 10, 0);
    assert_eq!(records(&status), vec![(4, 10, 10, 0, SECOND)]);
    assert!(status.is_running());
}

#[test]
fn snapping_modes_at_rest_snap() {
    let modes = [AnimationMode::ReplaceOrSnap, AnimationMode::Snap];
    for mode in modes {
        let mut from_static: AnimationStatus<i64, i64> = AnimationStatus::Static(1);
        from_static.apply(target(9, SECOND, mode), 9, 0);
        assert!(matches!(from_static, AnimationStatus::Snap(9)));
        let mut from_snap: AnimationStatus<i64, i64> = AnimationStatus::Snap(1);
        from_snap.apply(target(9, SECOND, mode), 9, 0);
        assert!(matches!(from_snap, AnimationStatus::Snap(9)));
    }
}

#[test]
fn replace_or_snap_at_rest_equals_snap() {
    let mut replaced: AnimationStatus<i64, i64> = AnimationStatus::Static(1);
    let mut snapped: AnimationStatus<i64, i64> = AnimationStatus::Static(1);
    replaced.apply(target(5, SECOND, AnimationMode::ReplaceOrSnap), 5, 3);
    snapped.apply(target(5, SECOND, AnimationMode::Snap), 5, 3);
    assert!(matches!(replaced, AnimationStatus::Snap(5)));
    assert!(matches!(snapped, AnimationStatus::Snap(5)));
    assert_eq!(records(&replaced), records(&snapped));
}

#[test]
fn start_while_running_pushes_to_the_front() {
    let mut status = running(10, vec![(0, 10, 0, SECOND)]);
    status.apply(target(30, 2 * SECOND, AnimationMode::Start), 30, SECOND / 2);
    assert!(matches!(status, AnimationStatus::Running { to: 30, to_i: 30, .. }));
    assert_eq!(
        records(&status),
        vec![(10, 30, 30, SECOND / 2, 2 * SECOND), (0, 10, 10, 0, SECOND)]
    );
}

#[test]
fn replace_while_running_steers_the_front_record() {
    for mode in [AnimationMode::ReplaceOrStart, AnimationMode::ReplaceOrSnap] {
        let mut status = running(10, vec![(5, 10, 100, SECOND), (0, 5, 0, SECOND)]);
        status.apply(target(20, 7 * SECOND, mode), 21, 200);
        assert!(matches!(status, AnimationStatus::Running { to: 20, to_i: 21, .. }));
        assert_eq!(records(&status), vec![(5, 20, 21, 100, SECOND), (0, 5, 5, 0, SECOND)]);
    }
}

#[test]
fn snap_while_running_discards_every_record() {
    let mut status = running(10, vec![(5, 10, 100, SECOND), (0, 5, 0, SECOND)]);
    status.apply(target(42, SECOND, AnimationMode::Snap), 42, 200);
    assert!(matches!(status, AnimationStatus::Snap(42)));
    assert!(records(&status).is_empty());
    assert!(!status.is_running());
    let reading = status.read(200, &identity);
    assert_eq!(reading.value, 42);
    assert!(!reading.request_frame);
    assert!(status.tick(300));
    assert!(matches!(status, AnimationStatus::Static(42)));
    assert!(!status.tick(400));
    assert!(matches!(status, AnimationStatus::Static(42)));
}

#[test]
fn finished_records_are_dropped_before_a_target_is_applied() {
    let mut status = running(10, vec![(0, 10, 0, SECOND)]);
    status.apply(target(20, SECOND, AnimationMode::ReplaceOrSnap), 20, SECOND + 1);
    assert!(matches!(status, AnimationStatus::Snap(20)));

    let mut status = running(10, vec![(0, 10, 0, SECOND)]);
    status.apply(target(20, SECOND, AnimationMode::Start), 20, SECOND + 1);
    assert_eq!(records(&status), vec![(10, 20, 20, SECOND + 1, SECOND)]);

    let mut status = running(10, vec![(5, 10, 10, 5 * SECOND), (0, 5, 0, SECOND)]);
    status.apply(target(20, SECOND, AnimationMode::ReplaceOrStart), 20, 2 * SECOND);
    assert_eq!(records(&status), vec![(5, 20, 20, 10, 5 * SECOND)]);
}

#[test]
fn frame_drops_finished_records_in_order() {
    let mut status = running(
        30,
        vec![(20, 30, 300, SECOND), (10, 20, 200, 10), (0, 10, 100, SECOND), (0, 0, 0, 50)],
    );
    status.remove_finished_animations(400);
    assert_eq!(records(&status), vec![(20, 30, 30, 300, SECOND), (0, 10, 10, 100, SECOND)]);
    assert!(matches!(status, AnimationStatus::Running { to: 30, to_i: 30, .. }));
}

#[test]
fn frame_demotes_running_to_snap_then_static() {
    let mut status = running(10, vec![(0, 10, 0, SECOND)]);
    assert!(status.tick(SECOND));
    assert!(status.is_running());
    assert!(status.tick(SECOND + 1));
    assert!(matches!(status, AnimationStatus::Snap(10)));
    assert!(status.tick(SECOND + 2));
    assert!(matches!(status, AnimationStatus::Static(10)));
    assert!(!status.tick(SECOND + 3));
}

#[test]
fn queue_length_never_grows_without_a_start() {
    let mut status = running(
        30,
        vec![(20, 30, 300, 4 * SECOND), (10, 20, 200, 2 * SECOND), (0, 10, 100, SECOND)],
    );
    let mut length = records(&status).len();
    let mut now = 0;
    while now < 6 * SECOND {
        status.remove_finished_animations(now);
        let next = records(&status).len();
        assert!(next <= length);
        assert_eq!(next == 0, !status.is_running());
        length = next;
        status.apply(target(40, SECOND, AnimationMode::ReplaceOrSnap), 40, now);
        assert!(records(&status).len() <= length);
        now += SECOND / 2;
    }
    assert_eq!(length, 0);
    assert!(!status.is_running());
}

#[test]
fn remove_expired_keeps_snap_and_static() {
    let mut snap: AnimationStatus<i64, i64> = AnimationStatus::Snap(2);
    snap.remove_expired(10);
    assert!(matches!(snap, AnimationStatus::Snap(2)));
    let mut rest: AnimationStatus<i64, i64> = AnimationStatus::Static(2);
    rest.remove_expired(10);
    assert!(matches!(rest, AnimationStatus::Static(2)));
    assert_eq!(rest.resting(), 2);
    let moving = running(10, vec![(0, 10, 0, SECOND)]);
    assert_eq!(moving.resting(), 10);
}

#[test]
fn transition_does_not_prune() {
    let mut status = running(10, vec![(0, 10, 0, SECOND)]);
    status.transition(target(20, SECOND, AnimationMode::Start), 20, 5 * SECOND);
    assert_eq!(records(&status), vec![(10, 20, 20, 5 * SECOND, SECOND), (0, 10, 10, 0, SECOND)]);

    let mut status = running(10, vec![(0, 10, 0, SECOND)]);
    status.transition(target(20, SECOND, AnimationMode::ReplaceOrSnap), 20, 5 * SECOND);
    assert_eq!(records(&status), vec![(0, 20, 20, 0, SECOND)]);
}

#[test]
fn tween_is_asked_only_where_a_record_needs_it() {
    let asked = std::cell::Cell::new(0u32);
    let counting = |_from: &i64, to: &i64, _at: Progress| {
        asked.set(asked.get() + 1);
        *to
    };
    let mut status: AnimationStatus<i64, i64> = AnimationStatus::Static(0);
    status.retarget(target(1, SECOND, AnimationMode::Snap), 0, &counting);
    status.retarget(target(2, SECOND, AnimationMode::ReplaceOrSnap), 0, &counting);
    assert!(matches!(status, AnimationStatus::Snap(2)));
    assert_eq!(asked.get(), 0);

    status.retarget(target(3, SECOND, AnimationMode::ReplaceOrStart), 0, &counting);
    assert_eq!(asked.get(), 1);
    status.retarget(target(4, SECOND, AnimationMode::ReplaceOrSnap), 1, &counting);
    assert_eq!(asked.get(), 2);
    status.retarget(target(5, SECOND, AnimationMode::Start), 2, &counting);
    assert_eq!(asked.get(), 3);
    assert_eq!(records(&status), vec![(4, 5, 5, 2, SECOND), (2, 4, 4, 0, SECOND)]);

    status.retarget(target(6, SECOND, AnimationMode::Snap), 3, &counting);
    assert!(matches!(status, AnimationStatus::Snap(6)));
    assert_eq!(asked.get(), 3);
}
