use std::collections::VecDeque;
use vstd::prelude::*;
use crate::animation::Animation;
use crate::animation_target::AnimationTarget;
use crate::cloning::{clones_exactly, duplicate};
use crate::mode::AnimationMode;

verus! {

/// The state of one animated output.
#[derive(Debug)]
pub enum AnimationStatus<T, I> {
    /// Nothing is running; the output rests at the value.
    Static(T),
    /// Nothing is running, but the output is still owed one update to the
    /// value. The next frame turns this into `Static`.
    Snap(T),
    /// Animations are running, the most recently started one in front.
    Running {
        /// The value the output is heading for.
        to: T,
        /// The interpolated form of `to` at rest.
        to_i: I,
        /// The transitions in flight. Never empty.
        animations: VecDeque<Animation<T, I>>,
    },
}

/// The mathematical value of an `AnimationStatus`: the same three states,
/// with the queue of transitions as a sequence, newest first.
pub enum StatusView<T, I> {
    Static(T),
    Snap(T),
    Running { to: T, to_i: I, records: Seq<Animation<T, I>> },
}

/// The records of `records` that are still in flight at `now`, in order.
pub open spec fn live<T, I>(records: Seq<Animation<T, I>>, now: u64) -> Seq<Animation<T, I>> {
    records.filter(|a: Animation<T, I>| !a.finished_at(now))
}

/// The record with which a transition from `from` to `target` begins at
/// `now`, where `to_i` is the interpolated form of the target at rest.
pub open spec fn started<T, I>(from: T, target: AnimationTarget<T>, to_i: I, now: u64) -> Animation<
    T,
    I,
> {
    Animation {
        from,
        to: target.target,
        to_i,
        start: now,
        duration: target.duration,
        easing: target.easing,
    }
}

/// The record `a` steered towards another target: only its end changes.
pub open spec fn retargeted<T, I>(a: Animation<T, I>, to: T, to_i: I) -> Animation<T, I> {
    Animation { from: a.from, to, to_i, start: a.start, duration: a.duration, easing: a.easing }
}

impl<T, I> StatusView<T, I> {
    /// The transitions in flight, newest first; none unless running.
    pub open spec fn records(self) -> Seq<Animation<T, I>> {
        match self {
            StatusView::Running { records, .. } => records,
            _ => Seq::empty(),
        }
    }

    /// The value the output rests at or is heading for.
    pub open spec fn target(self) -> T {
        match self {
            StatusView::Static(value) => value,
            StatusView::Snap(value) => value,
            StatusView::Running { to, .. } => to,
        }
    }

    /// A running status holds at least one transition.
    pub open spec fn wf(self) -> bool {
        self is Running ==> self.records().len() > 0
    }

    /// The status without the transitions that are over at `now`. A running
    /// status whose transitions are all over becomes `Snap`.
    pub open spec fn expired(self, now: u64) -> StatusView<T, I> {
        match self {
            StatusView::Running { to, to_i, records } => {
                if live(records, now).len() == 0 {
                    StatusView::Snap(to)
                } else {
                    StatusView::Running { to, to_i, records: live(records, now) }
                }
            },
            _ => self,
        }
    }

    /// The status that a frame at `now` leaves behind: `Snap` settles to
    /// `Static`, and the transitions that are over are dropped.
    pub open spec fn pruned(self, now: u64) -> StatusView<T, I> {
        match self {
            StatusView::Snap(value) => StatusView::Static(value),
            _ => self.expired(now),
        }
    }

    /// Whether a target of this mode makes the status jump: `Snap` always
    /// does, and `ReplaceOrSnap` does when nothing is running.
    pub open spec fn snaps(self, mode: AnimationMode) -> bool {
        mode == AnimationMode::Snap || (mode == AnimationMode::ReplaceOrSnap && !(self is Running))
    }

    /// The status after a new target met it at `now`, by the mode of the
    /// target: at rest a transition starts or the status jumps; while
    /// animations run, `Start` puts a new record in front, the two
    /// replacing modes steer the newest record, and `Snap` drops them all.
    pub open spec fn transition(self, target: AnimationTarget<T>, to_i: I, now: u64) -> StatusView<
        T,
        I,
    > {
        match self {
            StatusView::Running { to, to_i: _, records } => match target.mode {
                AnimationMode::Start => StatusView::Running {
                    to: target.target,
                    to_i,
                    records: seq![started(to, target, to_i, now)] + records,
                },
                AnimationMode::ReplaceOrStart | AnimationMode::ReplaceOrSnap => StatusView::Running {
                    to: target.target,
                    to_i,
                    records: records.update(0, retargeted(records[0], target.target, to_i)),
                },
                AnimationMode::Snap => StatusView::Snap(target.target),
            },
            _ => if target.mode.starts_when_idle() {
                StatusView::Running {
                    to: target.target,
                    to_i,
                    records: seq![started(self.target(), target, to_i, now)],
                }
            } else {
                StatusView::Snap(target.target)
            },
        }
    }

    /// The status after a new target arrived at `now`, where `to_i` is the
    /// interpolated form of the target at rest. Transitions that are over at
    /// `now` are dropped first; then the mode decides.
    pub open spec fn applied(self, target: AnimationTarget<T>, to_i: I, now: u64) -> StatusView<
        T,
        I,
    > {
        self.expired(now).transition(target, to_i, now)
    }
}

impl<T, I> View for AnimationStatus<T, I> {
    type V = StatusView<T, I>;

    open spec fn view(&self) -> StatusView<T, I> {
        match *self {
            AnimationStatus::Static(value) => StatusView::Static(value),
            AnimationStatus::Snap(value) => StatusView::Snap(value),
            AnimationStatus::Running { to, to_i, animations } => StatusView::Running {
                to,
                to_i,
                records: animations@,
            },
        }
    }
}

impl<T: Clone, I: Clone> AnimationStatus<T, I> {
    /// Drops the transitions that are over at `now`; a running status that
    /// keeps none becomes `Snap`.
    pub fn remove_expired(&mut self, now: u64)
        requires
            clones_exactly::<T>(),
        ensures
            final(self)@ == old(self)@.expired(now),
            final(self)@.wf(),
    {
        match self {
            AnimationStatus::Running { to, animations, .. } => {
                let ghost before = animations@;
                let mut kept: VecDeque<Animation<T, I>> = VecDeque::new();
                let n: usize = animations.len();
                let mut i: usize = 0;
                while i < n
                    invariant
                        i <= n,
                        n == before.len(),
                        animations@ == before.skip(i as int),
                        kept@ == live(before.take(i as int), now),
                    decreases n - i,
                {
                    proof {
                        assert(before.take(i + 1).drop_last() == before.take(i as int));
                        assert(before.take(i + 1).last() == before[i as int]);
                        assert(before.skip(i as int)[0] == before[i as int]);
                        assert(before.skip(i as int).skip(1) == before.skip(i + 1));
                        reveal_with_fuel(Seq::filter, 2);
                    }
                    match animations.pop_front() {
                        Some(a) => {
                            if !a.is_finished(now) {
                                kept.push_back(a);
                            }
                        },
                        None => {},
                    }
                    i += 1;
                }
                proof {
                    assert(before.take(n as int) == before);
                }
                if kept.len() == 0 {
                    let t = duplicate(to);
                    *self = AnimationStatus::Snap(t);
                } else {
                    *animations = kept;
                }
            },
            _ => {},
        }
    }

    /// Advances the status by one frame at `now`: a `Snap` settles to
    /// `Static`, and the transitions that are over are dropped.
    pub fn remove_finished_animations(&mut self, now: u64)
        requires
            clones_exactly::<T>(),
        ensures
            final(self)@ == old(self)@.pruned(now),
            final(self)@.wf(),
    {
        match self {
            AnimationStatus::Snap(value) => {
                let v = duplicate(value);
                *self = AnimationStatus::Static(v);
            },
            _ => {
                self.remove_expired(now);
            },
        }
    }

    /// Takes in a new target at `now`, where `to_i` is the interpolated form
    /// of the target at rest: drops the transitions that are over, then lets
    /// the mode decide.
    pub fn apply(&mut self, target: AnimationTarget<T>, to_i: I, now: u64)
        requires
            clones_exactly::<T>(),
            clones_exactly::<I>(),
        ensures
            final(self)@ == old(self)@.applied(target, to_i, now),
            final(self)@.wf(),
    {
        self.remove_expired(now);
        self.transition(target, to_i, now);
    }

    /// Lets the mode of a new target decide what becomes of the status, with
    /// its records as they stand.
    pub fn transition(&mut self, target: AnimationTarget<T>, to_i: I, now: u64)
        requires
            clones_exactly::<T>(),
            clones_exactly::<I>(),
            old(self)@.wf(),
        ensures
            final(self)@ == old(self)@.transition(target, to_i, now),
            final(self)@.wf(),
    {
        match target.mode {
            AnimationMode::Snap => {
                *self = AnimationStatus::Snap(target.target);
            },
            AnimationMode::Start => {
                self.start(target, to_i, now);
            },
            AnimationMode::ReplaceOrStart => {
                if self.is_running() {
                    self.steer(target.target, to_i);
                } else {
                    self.start(target, to_i, now);
                }
            },
            AnimationMode::ReplaceOrSnap => {
                if self.is_running() {
                    self.steer(target.target, to_i);
                } else {
                    *self = AnimationStatus::Snap(target.target);
                }
            },
        }
    }

    /// Begins a transition from where the output is heading to `target`, on
    /// top of whatever is running.
    fn start(&mut self, target: AnimationTarget<T>, to_i: I, now: u64)
        requires
            clones_exactly::<T>(),
            clones_exactly::<I>(),
        ensures
            final(self)@ == (StatusView::Running {
                to: target.target,
                to_i,
                records: seq![started(old(self)@.target(), target, to_i, now)] + old(
                    self,
                )@.records(),
            }),
    {
        let begun = Animation {
            from: self.resting(),
            to: duplicate(&target.target),
            to_i: duplicate(&to_i),
            start: now,
            duration: target.duration,
            easing: target.easing,
        };
        match self {
            AnimationStatus::Running { to, to_i: settled, animations } => {
                animations.push_front(begun);
                *to = target.target;
                *settled = to_i;
            },
            _ => {
                let mut animations: VecDeque<Animation<T, I>> = VecDeque::new();
                animations.push_front(begun);
                *self = AnimationStatus::Running { to: target.target, to_i, animations };
            },
        }
    }

    /// Steers the newest record of a running status to another end.
    fn steer(&mut self, target: T, to_i: I)
        requires
            clones_exactly::<T>(),
            clones_exactly::<I>(),
            old(self)@ is Running,
            old(self)@.wf(),
        ensures
            final(self)@ == (StatusView::Running {
                to: target,
                to_i,
                records: old(self)@.records().update(
                    0,
                    retargeted(old(self)@.records()[0], target, to_i),
                ),
            }),
    {
        match self {
            AnimationStatus::Running { to, to_i: settled, animations } => {
                let ghost before = animations@;
                match animations.pop_front() {
                    Some(latest) => {
                        animations.push_front(
                            Animation {
                                from: latest.from,
                                to: duplicate(&target),
                                to_i: duplicate(&to_i),
                                start: latest.start,
                                duration: latest.duration,
                                easing: latest.easing,
                            },
                        );
                        proof {
                            assert(animations@ =~= before.update(
                                0,
                                retargeted(before[0], target, to_i),
                            ));
                        }
                    },
                    None => {},
                }
                *to = target;
                *settled = to_i;
            },
            _ => {},
        }
    }

    /// Whether animations are running.
    pub fn is_running(&self) -> (b: bool)
        ensures
            b == (self@ is Running),
    {
        match self {
            AnimationStatus::Running { .. } => true,
            _ => false,
        }
    }

    /// Advances the output by one frame at `now` and says whether its
    /// readers are owed an update: they are after a `Snap`, and for as long
    /// as the output has not come to rest.
    pub fn tick(&mut self, now: u64) -> (update: bool)
        requires
            clones_exactly::<T>(),
        ensures
            final(self)@ == old(self)@.pruned(now),
            final(self)@.wf(),
            update == (old(self)@ is Snap || !(final(self)@ is Static)),
    {
        let was_snap: bool = match self {
            AnimationStatus::Snap(_) => true,
            _ => false,
        };
        self.remove_finished_animations(now);
        if was_snap {
            true
        } else {
            match self {
                AnimationStatus::Static(_) => false,
                _ => true,
            }
        }
    }

    /// The value the output rests at or is heading for.
    pub fn resting(&self) -> (value: T)
        requires
            clones_exactly::<T>(),
        ensures
            value == self@.target(),
    {
        match self {
            AnimationStatus::Static(value) => duplicate(value),
            AnimationStatus::Snap(value) => duplicate(value),
            AnimationStatus::Running { to, .. } => duplicate(to),
        }
    }
}

} // verus!
