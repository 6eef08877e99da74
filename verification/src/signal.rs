use std::ops::Sub;
use vstd::prelude::*;
use vstd::std_specs::ops::SubSpec;
use crate::animation::Animation;
use crate::animation_target::AnimationTarget;
use crate::blend::{blend, blend_from, blend_permitted};
use crate::clock::Clock;
use crate::cloning::{clones_exactly, duplicate};
use crate::mode::AnimationMode;
use crate::progress::Progress;
use crate::status::{live, AnimationStatus, StatusView};

verus! {

/// What one read of an animated output yields.
#[derive(Debug)]
pub struct Reading<I> {
    /// The current value of the output.
    pub value: I,
    /// Whether the output is still moving and wants the next frame.
    pub request_frame: bool,
}

/// The tween accepts every pair of values at every well-formed progress.
pub open spec fn tween_total<T, I, F: Fn(&T, &T, Progress) -> I>(tween: F) -> bool {
    forall|from: &T, to: &T, at: Progress| at.wf() ==> #[trigger] tween.requires((from, to, at))
}

/// `value` is what the tween may return for a value at rest.
pub open spec fn tween_rests<T, I, F: Fn(&T, &T, Progress) -> I>(tween: F, at: T, value: I) -> bool {
    tween.ensures((&at, &at, Progress::settled()), value)
}

/// `values` holds, record by record, what the tween may return for the
/// records at `now`.
pub open spec fn tweened<T, I, F: Fn(&T, &T, Progress) -> I>(
    tween: F,
    records: Seq<Animation<T, I>>,
    now: u64,
    values: Seq<I>,
) -> bool {
    &&& values.len() == records.len()
    &&& forall|k: int|
        0 <= k < records.len() ==> tween.ensures(
            (&records[k].from, &records[k].to, records[k].progress_at(now)),
            #[trigger] values[k],
        )
}

/// Every interpolated form that `status` holds is the tween's: while
/// animations run, `to_i` is what the tween gives for `to` at rest, and the
/// `to_i` of every record is what the tween gives for the record's `to` at
/// rest. A status at rest holds no interpolated form.
pub open spec fn rests_on<T, I, F: Fn(&T, &T, Progress) -> I>(
    status: StatusView<T, I>,
    tween: F,
) -> bool {
    status is Running ==> {
        &&& tween_rests(tween, status->to, status->to_i)
        &&& forall|k: int|
            0 <= k < status.records().len() ==> tween_rests(
                tween,
                (#[trigger] status.records()[k]).to,
                status.records()[k].to_i,
            )
    }
}

/// `after` is what `before` becomes when `target` arrives at `now`. Where the
/// target makes the status jump, the tween is not asked; elsewhere it gives
/// the interpolated form of the target at rest.
pub open spec fn retargets<T, I, F: Fn(&T, &T, Progress) -> I>(
    before: StatusView<T, I>,
    after: StatusView<T, I>,
    target: AnimationTarget<T>,
    now: u64,
    tween: F,
) -> bool {
    if before.expired(now).snaps(target.mode) {
        after == StatusView::<T, I>::Snap(target.target)
    } else {
        exists|to_i: I| #[trigger]
            tween_rests(tween, target.target, to_i) && after == before.applied(target, to_i, now)
    }
}

/// `value` is a blend of `records` at `now` under the tween: the value at
/// rest `to_i`, less the deficit of every record, for some values that the
/// tween may give for the records.
pub open spec fn blends<T, I: Sub<Output = I>, F: Fn(&T, &T, Progress) -> I>(
    tween: F,
    to_i: I,
    records: Seq<Animation<T, I>>,
    now: u64,
    value: I,
) -> bool {
    exists|values: Seq<I>| #[trigger]
        tweened(tween, records, now, values) && value == blend_from(to_i, records, values, 0)
}

/// Reading `status` at `now` makes no subtraction that `I` does not permit,
/// whatever values the tween gives for the records.
pub open spec fn blend_safe<T, I: Sub<Output = I>, F: Fn(&T, &T, Progress) -> I>(
    status: StatusView<T, I>,
    tween: F,
    now: u64,
) -> bool {
    status is Running ==> forall|values: Seq<I>| #[trigger]
        tweened(tween, status.records(), now, values) ==> blend_permitted(
            status->to_i,
            status.records(),
            values,
            0,
        )
}

/// `value` is what a status whose records are all in flight at `now` shows:
/// at rest the tween of the resting value with itself, and while running the
/// blend of the values that the tween gives for the records.
pub open spec fn reads<T, I: Sub<Output = I>, F: Fn(&T, &T, Progress) -> I>(
    status: StatusView<T, I>,
    tween: F,
    now: u64,
    value: I,
) -> bool {
    if status is Running {
        blends(tween, status->to_i, status.records(), now, value)
    } else {
        tween_rests(tween, status.target(), value)
    }
}

/// One animated output: its status, the tween that was bound to it, and the
/// clock that it reads whenever a target arrives, a frame fires or its value
/// is asked for.
pub struct AnimatedSignal<T, I, F> {
    status: AnimationStatus<T, I>,
    tween: F,
    clock: Clock,
}

impl<T, I, F> View for AnimatedSignal<T, I, F> {
    type V = StatusView<T, I>;

    closed spec fn view(&self) -> StatusView<T, I> {
        self.status@
    }
}

impl<T, I, F> AnimatedSignal<T, I, F> {
    /// The tween that the output was bound with.
    pub closed spec fn strategy(self) -> F {
        self.tween
    }
}

/// Binds a new animated output to its tween. It rests at the first target:
/// binding starts no animation.
pub fn create_animated_signal<T, I, F: Fn(&T, &T, Progress) -> I>(
    initial: AnimationTarget<T>,
    tween: F,
) -> (signal: AnimatedSignal<T, I, F>)
    ensures
        signal@ == StatusView::<T, I>::Static(initial.target),
        signal@.wf(),
        signal.strategy() == tween,
        rests_on(signal@, tween),
{
    AnimatedSignal { status: AnimationStatus::Static(initial.target), tween, clock: Clock::start() }
}

impl<T: Clone, I: Clone + Sub<Output = I>, F: Fn(&T, &T, Progress) -> I> AnimatedSignal<T, I, F> {
    /// The status of the output.
    pub fn status(&self) -> (status: &AnimationStatus<T, I>)
        ensures
            status@ == self@,
    {
        &self.status
    }

    /// Takes in a new target at the present moment: for whatever time the
    /// clock reads, the status becomes what `retarget` makes of it.
    pub fn set_target(&mut self, target: AnimationTarget<T>)
        requires
            clones_exactly::<T>(),
            clones_exactly::<I>(),
            tween_total(old(self).strategy()),
        ensures
            final(self).strategy() == old(self).strategy(),
            final(self)@.wf(),
            final(self)@.target() == target.target,
            exists|now: u64| #[trigger]
                retargets(old(self)@, final(self)@, target, now, old(self).strategy()),
            rests_on(old(self)@, old(self).strategy()) ==> rests_on(
                final(self)@,
                old(self).strategy(),
            ),
    {
        let now: u64 = self.clock.now();
        self.status.retarget(target, now, &self.tween);
        proof {
            assert(retargets(old(self)@, self@, target, now, old(self).strategy()));
        }
    }

    /// Advances the output by the frame that fires at the present moment and
    /// says whether its readers are owed an update.
    pub fn frame(&mut self) -> (update: bool)
        requires
            clones_exactly::<T>(),
        ensures
            final(self).strategy() == old(self).strategy(),
            final(self)@.wf(),
            update == (old(self)@ is Snap || !(final(self)@ is Static)),
            exists|now: u64| final(self)@ == #[trigger] old(self)@.pruned(now),
            rests_on(old(self)@, old(self).strategy()) ==> rests_on(
                final(self)@,
                old(self).strategy(),
            ),
    {
        let now: u64 = self.clock.now();
        proof {
            if rests_on(old(self)@, old(self).strategy()) {
                lemma_expired_rests_on(old(self)@, old(self).strategy(), now);
            }
        }
        self.status.tick(now)
    }

    /// Reads the output at the present moment.
    pub fn get(&mut self) -> (reading: Reading<I>)
        requires
            clones_exactly::<T>(),
            clones_exactly::<I>(),
            tween_total(old(self).strategy()),
            I::obeys_sub_spec(),
            forall|now: u64| #[trigger]
                blend_safe(old(self)@.expired(now), old(self).strategy(), now),
        ensures
            final(self).strategy() == old(self).strategy(),
            final(self)@.wf(),
            reading.request_frame == (final(self)@ is Running),
            exists|now: u64|
                final(self)@ == #[trigger] old(self)@.expired(now) && reads(
                    final(self)@,
                    old(self).strategy(),
                    now,
                    reading.value,
                ),
            rests_on(old(self)@, old(self).strategy()) ==> rests_on(
                final(self)@,
                old(self).strategy(),
            ),
    {
        let now: u64 = self.clock.now();
        proof {
            assert(blend_safe(old(self)@.expired(now), old(self).strategy(), now));
        }
        let reading = self.status.read(now, &self.tween);
        proof {
            assert(self@ == old(self)@.expired(now));
            assert(reads(self@, old(self).strategy(), now, reading.value));
        }
        reading
    }
}

impl<T: Clone, I: Clone + Sub<Output = I>> AnimationStatus<T, I> {
    /// Takes in a new target at `now`. Unless the target makes the status
    /// jump, the tween is asked for the interpolated form of the target at
    /// rest; the mode decides the rest.
    pub fn retarget<F: Fn(&T, &T, Progress) -> I>(
        &mut self,
        target: AnimationTarget<T>,
        now: u64,
        tween: &F,
    )
        requires
            clones_exactly::<T>(),
            clones_exactly::<I>(),
            tween_total(*tween),
        ensures
            final(self)@.wf(),
            final(self)@.target() == target.target,
            retargets(old(self)@, final(self)@, target, now, *tween),
            rests_on(old(self)@, *tween) ==> rests_on(final(self)@, *tween),
    {
        self.remove_expired(now);
        let ghost pruned = self@;
        proof {
            if rests_on(old(self)@, *tween) {
                lemma_expired_rests_on(old(self)@, *tween, now);
            }
        }
        let snaps: bool = match target.mode {
            AnimationMode::Snap => true,
            AnimationMode::ReplaceOrSnap => !self.is_running(),
            _ => false,
        };
        if snaps {
            *self = AnimationStatus::Snap(target.target);
        } else {
            let to_i: I = tween(&target.target, &target.target, Progress::complete());
            self.transition(target, to_i, now);
            proof {
                assert(tween_rests(*tween, target.target, to_i));
                if rests_on(pruned, *tween) {
                    lemma_transition_rests_on(pruned, target, to_i, now, *tween);
                }
            }
        }
    }

    /// The value that the status shows at `now`, with its records as they
    /// stand: at rest the tween of the resting value with itself, and while
    /// running the blend of the values that the tween gives for the records.
    pub fn value<F: Fn(&T, &T, Progress) -> I>(&self, now: u64, tween: &F) -> (value: I)
        requires
            clones_exactly::<T>(),
            clones_exactly::<I>(),
            tween_total(*tween),
            I::obeys_sub_spec(),
            blend_safe(self@, *tween, now),
        ensures
            reads(self@, *tween, now, value),
    {
        match self {
            AnimationStatus::Static(rest) => {
                let value: I = tween(rest, rest, Progress::complete());
                proof {
                    assert(tween_rests(*tween, *rest, value));
                }
                value
            },
            AnimationStatus::Snap(rest) => {
                let value: I = tween(rest, rest, Progress::complete());
                proof {
                    assert(tween_rests(*tween, *rest, value));
                }
                value
            },
            AnimationStatus::Running { to_i, animations, .. } => {
                let n: usize = animations.len();
                let mut values: Vec<I> = Vec::new();
                let mut k: usize = 0;
                while k < n
                    invariant
                        tween_total(*tween),
                        n == animations@.len(),
                        k <= n,
                        values@.len() == k,
                        forall|j: int|
                            0 <= j < k ==> tween.ensures(
                                (
                                    &animations@[j].from,
                                    &animations@[j].to,
                                    animations@[j].progress_at(now),
                                ),
                                #[trigger] values@[j],
                            ),
                    decreases n - k,
                {
                    let a = &animations[k];
                    let value: I = tween(&a.from, &a.to, a.progress(now));
                    values.push(value);
                    k += 1;
                }
                proof {
                    assert(tweened(*tween, self@.records(), now, values@));
                }
                let value: I = blend(duplicate(to_i), animations, &values);
                proof {
                    assert(tweened(*tween, animations@, now, values@));
                    assert(blends(*tween, *to_i, animations@, now, value));
                }
                value
            },
        }
    }

    /// Reads the output at `now`. Transitions that are over are dropped
    /// first; then the value is taken, and while animations run the next
    /// frame is asked for.
    pub fn read<F: Fn(&T, &T, Progress) -> I>(&mut self, now: u64, tween: &F) -> (reading: Reading<I>)
        requires
            clones_exactly::<T>(),
            clones_exactly::<I>(),
            tween_total(*tween),
            I::obeys_sub_spec(),
            blend_safe(old(self)@.expired(now), *tween, now),
        ensures
            final(self)@ == old(self)@.expired(now),
            final(self)@.wf(),
            reading.request_frame == (final(self)@ is Running),
            reads(final(self)@, *tween, now, reading.value),
            rests_on(old(self)@, *tween) ==> rests_on(final(self)@, *tween),
    {
        proof {
            if rests_on(old(self)@, *tween) {
                lemma_expired_rests_on(old(self)@, *tween, now);
            }
        }
        self.remove_expired(now);
        let value: I = self.value(now, tween);
        Reading { value, request_frame: self.is_running() }
    }
}

/// Dropping records keeps the interpolated forms the tween's: what holds of
/// every record holds of those that stay, after a read and after a frame.
pub proof fn lemma_expired_rests_on<T, I, F: Fn(&T, &T, Progress) -> I>(
    status: StatusView<T, I>,
    tween: F,
    now: u64,
)
    requires
        rests_on(status, tween),
    ensures
        rests_on(status.expired(now), tween),
        rests_on(status.pruned(now), tween),
{
    if status.expired(now) is Running {
        let records = status.records();
        let kept = live(records, now);
        assert forall|k: int| 0 <= k < kept.len() implies tween_rests(
            tween,
            (#[trigger] kept[k]).to,
            kept[k].to_i,
        ) by {
            assert(kept.contains(kept[k]));
            records.lemma_filter_contains_rev(|a: Animation<T, I>| !a.finished_at(now), kept[k]);
            let i = choose|i: int| 0 <= i < records.len() && records[i] == kept[k];
            assert(tween_rests(tween, records[i].to, records[i].to_i));
        }
    }
}

/// A target whose interpolated form is the tween's keeps the interpolated
/// forms of the status the tween's, whatever its mode.
pub proof fn lemma_transition_rests_on<T, I, F: Fn(&T, &T, Progress) -> I>(
    status: StatusView<T, I>,
    target: AnimationTarget<T>,
    to_i: I,
    now: u64,
    tween: F,
)
    requires
        status.wf(),
        rests_on(status, tween),
        tween_rests(tween, target.target, to_i),
    ensures
        rests_on(status.transition(target, to_i, now), tween),
{
    let after = status.transition(target, to_i, now);
    if after is Running {
        let records = after.records();
        assert forall|k: int| 0 <= k < records.len() implies tween_rests(
            tween,
            (#[trigger] records[k]).to,
            records[k].to_i,
        ) by {
            if k > 0 {
                if target.mode == AnimationMode::Start {
                    assert(records[k] == status.records()[k - 1]);
                } else {
                    assert(records[k] == status.records()[k]);
                }
            }
        }
    }
}

/// Where `I` permits every subtraction, it permits those of a blend.
pub proof fn lemma_total_permits<T, I: Sub<Output = I>>(
    acc: I,
    records: Seq<Animation<T, I>>,
    values: Seq<I>,
    k: int,
)
    requires
        forall|a: I, b: I| #[trigger] a.sub_req(b),
    ensures
        blend_permitted(acc, records, values, k),
    decreases records.len() - k,
{
    if 0 <= k < records.len() {
        lemma_total_permits(
            acc.sub_spec(records[k].to_i.sub_spec(values[k])),
            records,
            values,
            k + 1,
        );
    }
}

/// Where `I` permits every subtraction, every status can be read at every
/// time under every tween.
pub proof fn lemma_total_subtraction_is_safe<T, I: Sub<Output = I>, F: Fn(&T, &T, Progress) -> I>(
    status: StatusView<T, I>,
    tween: F,
    now: u64,
)
    requires
        forall|a: I, b: I| #[trigger] a.sub_req(b),
    ensures
        blend_safe(status, tween, now),
{
    if status is Running {
        assert forall|values: Seq<I>| #[trigger]
            tweened(tween, status.records(), now, values) implies blend_permitted(
            status->to_i,
            status.records(),
            values,
            0,
        ) by {
            lemma_total_permits(status->to_i, status.records(), values, 0);
        }
    }
}

} // verus!
