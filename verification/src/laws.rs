use std::ops::Sub;
use vstd::prelude::*;
use vstd::std_specs::ops::SubSpec;
use crate::animation::Animation;
use crate::animation_target::AnimationTarget;
use crate::blend::{blend_from, blend_permitted};
use crate::easing::Easing;
use crate::mode::AnimationMode;
use crate::progress::Progress;
use crate::signal::{blends, reads, rests_on, retargets, tween_rests, tweened};
use crate::status::{live, retargeted, started, StatusView};

verus! {

/// One target as it reaches an output: the target, its interpolated form at
/// rest, and the time of arrival.
pub struct Arrival<T, I> {
    pub target: AnimationTarget<T>,
    pub to_i: I,
    pub at: u64,
}

/// The status after the targets of `arrivals` came in, one after the other.
pub open spec fn fed<T, I>(status: StatusView<T, I>, arrivals: Seq<Arrival<T, I>>) -> StatusView<
    T,
    I,
>
    decreases arrivals.len(),
{
    if arrivals.len() == 0 {
        status
    } else {
        let last = arrivals.last();
        fed(status, arrivals.drop_last()).applied(last.target, last.to_i, last.at)
    }
}

/// Every record of `records` is over at `now`.
pub open spec fn all_finished<T, I>(records: Seq<Animation<T, I>>, now: u64) -> bool {
    forall|k: int| 0 <= k < records.len() ==> (#[trigger] records[k]).finished_at(now)
}

/// Dropping finished records never lengthens the queue.
pub proof fn lemma_live_is_shorter<T, I>(records: Seq<Animation<T, I>>, now: u64)
    ensures
        live(records, now).len() <= records.len(),
{
    records.lemma_filter_len(|a: Animation<T, I>| !a.finished_at(now));
}

/// Where every record is over, none is in flight.
pub proof fn lemma_all_finished_none_live<T, I>(records: Seq<Animation<T, I>>, now: u64)
    requires
        all_finished(records, now),
    ensures
        live(records, now).len() == 0,
    decreases records.len(),
{
    reveal_with_fuel(Seq::filter, 2);
    if records.len() > 0 {
        assert(records.last() == records[records.len() - 1]);
        assert forall|k: int| 0 <= k < records.drop_last().len() implies (
        #[trigger] records.drop_last()[k]).finished_at(now) by {
            assert(records.drop_last()[k] == records[k]);
        }
        lemma_all_finished_none_live(records.drop_last(), now);
    }
}

/// What is in flight later was in flight before: as time moves on, the
/// number of records in flight does not grow.
pub proof fn lemma_live_shrinks_with_time<T, I>(records: Seq<Animation<T, I>>, now: u64, later: u64)
    requires
        now <= later,
    ensures
        live(records, later).len() <= live(records, now).len(),
    decreases records.len(),
{
    reveal_with_fuel(Seq::filter, 2);
    if records.len() > 0 {
        lemma_live_shrinks_with_time(records.drop_last(), now, later);
    }
}

/// A well-formed status holds no record exactly when it is at rest.
pub proof fn lemma_no_records_iff_idle<T, I>(status: StatusView<T, I>)
    requires
        status.wf(),
    ensures
        status.records().len() == 0 <==> !(status is Running),
{
}

/// Pruning is monotone: neither a frame nor a read lengthens the queue, the
/// status stays well formed, and the target it heads for stays.
pub proof fn lemma_pruning_is_monotone<T, I>(status: StatusView<T, I>, now: u64)
    ensures
        status.pruned(now).records().len() <= status.records().len(),
        status.expired(now).records().len() <= status.records().len(),
        status.pruned(now).wf(),
        status.expired(now).wf(),
        status.pruned(now).target() == status.target(),
        status.expired(now).target() == status.target(),
{
    lemma_live_is_shorter(status.records(), now);
}

/// A later frame finds no more records than an earlier one left, and of one
/// status a later time leaves no more records than an earlier time.
pub proof fn lemma_frames_shorten_queue<T, I>(status: StatusView<T, I>, now: u64, later: u64)
    ensures
        status.pruned(now).pruned(later).records().len() <= status.pruned(now).records().len(),
        now <= later ==> status.expired(later).records().len() <= status.expired(
            now,
        ).records().len(),
{
    lemma_pruning_is_monotone(status.pruned(now), later);
    if now <= later {
        lemma_live_shrinks_with_time(status.records(), now, later);
    }
}

/// A target that starts no transition adds no record: while animations run,
/// every mode but `Start` leaves the queue no longer than it was, and at
/// rest so do the two modes that snap.
pub proof fn lemma_steering_adds_no_record<T, I>(
    status: StatusView<T, I>,
    target: AnimationTarget<T>,
    to_i: I,
    now: u64,
)
    requires
        target.mode != AnimationMode::Start,
        status.expired(now) is Running || target.mode != AnimationMode::ReplaceOrStart,
    ensures
        status.applied(target, to_i, now).records().len() <= status.records().len(),
        status.applied(target, to_i, now).wf(),
{
    lemma_live_is_shorter(status.records(), now);
}

/// Every target becomes the value the output heads for, whatever the mode
/// and whatever was running, and the status stays well formed. Where the
/// status runs afterwards, it and its newest record both end at the target
/// and at the target's interpolated form.
pub proof fn lemma_applied_heads_for_target<T, I>(
    status: StatusView<T, I>,
    target: AnimationTarget<T>,
    to_i: I,
    now: u64,
)
    ensures
        status.applied(target, to_i, now).target() == target.target,
        status.applied(target, to_i, now).wf(),
        status.applied(target, to_i, now) is Running ==> {
            &&& status.applied(target, to_i, now)->to_i == to_i
            &&& status.applied(target, to_i, now).records()[0].to == target.target
            &&& status.applied(target, to_i, now).records()[0].to_i == to_i
        },
{
}

/// The queue keeps its order: a target leaves the records behind the newest
/// one as they were. A start puts its record in front of all that are in
/// flight; a replacement changes only where the newest one ends.
pub proof fn lemma_older_records_untouched<T, I>(
    status: StatusView<T, I>,
    target: AnimationTarget<T>,
    to_i: I,
    now: u64,
)
    requires
        status.expired(now) is Running,
        target.mode != AnimationMode::Snap,
    ensures
        target.mode == AnimationMode::Start ==> status.applied(target, to_i, now).records()
            == seq![started(status.target(), target, to_i, now)] + live(status.records(), now),
        target.mode != AnimationMode::Start ==> {
            let before = live(status.records(), now);
            let after = status.applied(target, to_i, now).records();
            &&& after.len() == before.len()
            &&& after[0] == retargeted(before[0], target.target, to_i)
            &&& forall|k: int| 1 <= k < before.len() ==> after[k] == before[k]
        },
{
}

/// Convergence: after any sequence of targets, a read at a time when every
/// transition is over finds the output settled, and its value is the tween
/// of the last target with itself at rest.
pub proof fn lemma_converges_to_last_target<T, I: Sub<Output = I>, F: Fn(&T, &T, Progress) -> I>(
    status: StatusView<T, I>,
    arrivals: Seq<Arrival<T, I>>,
    later: u64,
    tween: F,
    value: I,
)
    requires
        arrivals.len() > 0,
        all_finished(fed(status, arrivals).records(), later),
        reads(fed(status, arrivals).expired(later), tween, later, value),
    ensures
        !(fed(status, arrivals).expired(later) is Running),
        fed(status, arrivals).expired(later).records().len() == 0,
        fed(status, arrivals).expired(later).target() == arrivals.last().target.target,
        tween_rests(tween, arrivals.last().target.target, value),
{
    let last = arrivals.last();
    lemma_applied_heads_for_target(
        fed(status, arrivals.drop_last()),
        last.target,
        last.to_i,
        last.at,
    );
    lemma_all_finished_none_live(fed(status, arrivals).records(), later);
}

/// Shifting a blend by one record: the blend over a queue with one more
/// record in front, taken from behind that record, is the blend over the
/// queue without it.
proof fn lemma_blend_skips_front<T, I: Sub<Output = I>>(
    acc: I,
    front: Animation<T, I>,
    records: Seq<Animation<T, I>>,
    first: I,
    values: Seq<I>,
    k: int,
)
    requires
        0 <= k,
        values.len() == records.len(),
    ensures
        blend_from(acc, seq![front] + records, seq![first] + values, k + 1) == blend_from(
            acc,
            records,
            values,
            k,
        ),
    decreases records.len() - k,
{
    let longer = seq![front] + records;
    let more = seq![first] + values;
    if k < records.len() {
        assert(longer[k + 1] == records[k]);
        assert(more[k + 1] == values[k]);
        lemma_blend_skips_front(
            acc.sub_spec(records[k].to_i.sub_spec(values[k])),
            front,
            records,
            first,
            values,
            k + 1,
        );
    }
}

/// No jump on a new start: when a `Start` target arrives while the records
/// of the status are all in flight, the blend just after equals the blend
/// just before, given that the new transition begins at the value the
/// output was heading for (`first`, its current value, equals the old value
/// at rest) and that taking the new deficit away from the new value at rest
/// gives that value back.
pub proof fn lemma_start_keeps_value<T, I: Sub<Output = I>>(
    to: T,
    to_i: I,
    records: Seq<Animation<T, I>>,
    values: Seq<I>,
    target: AnimationTarget<T>,
    new_to_i: I,
    now: u64,
    first: I,
)
    requires
        target.mode == AnimationMode::Start,
        records.len() > 0,
        values.len() == records.len(),
        live(records, now) == records,
        first == to_i,
        new_to_i.sub_spec(new_to_i.sub_spec(first)) == first,
    ensures
        (StatusView::Running { to, to_i, records }).applied(target, new_to_i, now)
            == (StatusView::Running {
            to: target.target,
            to_i: new_to_i,
            records: seq![started(to, target, new_to_i, now)] + records,
        }),
        blend_from(
            new_to_i,
            seq![started(to, target, new_to_i, now)] + records,
            seq![first] + values,
            0,
        ) == blend_from(to_i, records, values, 0),
{
    let front = started(to, target, new_to_i, now);
    let longer = seq![front] + records;
    let more = seq![first] + values;
    assert(longer[0] == front);
    assert(more[0] == first);
    lemma_blend_skips_front(to_i, front, records, first, values, 0);
}

/// No jump on a start from rest: the blend over the one new record equals
/// the value at rest before, under the same two conditions.
pub proof fn lemma_start_from_rest_keeps_value<T, I: Sub<Output = I>>(
    status: StatusView<T, I>,
    rest: I,
    target: AnimationTarget<T>,
    new_to_i: I,
    now: u64,
    first: I,
)
    requires
        !(status is Running),
        target.mode == AnimationMode::Start || target.mode == AnimationMode::ReplaceOrStart,
        first == rest,
        new_to_i.sub_spec(new_to_i.sub_spec(first)) == first,
    ensures
        status.applied(target, new_to_i, now) == (StatusView::Running {
            to: target.target,
            to_i: new_to_i,
            records: seq![started(status.target(), target, new_to_i, now)],
        }),
        blend_from(
            new_to_i,
            seq![started(status.target(), target, new_to_i, now)],
            seq![first],
            0,
        ) == rest,
{
    reveal_with_fuel(blend_from, 3);
}

/// The sum of the deficits of the records from index `k` on, for integers.
pub open spec fn deficit_sum<T>(records: Seq<Animation<T, i64>>, values: Seq<i64>, k: int) -> int
    decreases records.len() - k,
{
    if 0 <= k < records.len() {
        (records[k].to_i - values[k]) + deficit_sum(records, values, k + 1)
    } else {
        0
    }
}

/// For integers, where no subtraction overflows, the blend is the value at
/// rest less the sum of the deficits.
pub proof fn lemma_integer_blend_is_rest_less_deficits<T>(
    acc: i64,
    records: Seq<Animation<T, i64>>,
    values: Seq<i64>,
    k: int,
)
    requires
        0 <= k,
        blend_permitted(acc, records, values, k),
    ensures
        blend_from(acc, records, values, k) == acc - deficit_sum(records, values, k),
    decreases records.len() - k,
{
    if k < records.len() {
        lemma_integer_blend_is_rest_less_deficits(
            acc.sub_spec(records[k].to_i.sub_spec(values[k])),
            records,
            values,
            k + 1,
        );
    }
}

/// For integers, taking a deficit away from the value it was measured from
/// gives the current value back, so a start makes no jump where the deficit
/// itself does not overflow.
pub proof fn lemma_integer_deficit_cancels(rest: i64, current: i64)
    requires
        rest.sub_req(current),
    ensures
        rest.sub_req(rest.sub_spec(current)),
        rest.sub_spec(rest.sub_spec(current)) == current,
{
}

/// For integers a deficit of nothing takes nothing away, without exception.
pub proof fn lemma_integer_zero_deficit_is_neutral()
    ensures
        zero_deficit_is_neutral::<i64>(),
{
}

/// For integers, records whose current values have reached their values at
/// rest take nothing away: the blend is the value at rest of the target.
pub proof fn lemma_integer_blend_settles<T>(
    acc: i64,
    records: Seq<Animation<T, i64>>,
    values: Seq<i64>,
    k: int,
)
    requires
        0 <= k,
        values.len() == records.len(),
        forall|j: int| k <= j < records.len() ==> values[j] == (#[trigger] records[j]).to_i,
    ensures
        blend_permitted(acc, records, values, k),
        blend_from(acc, records, values, k) == acc,
    decreases records.len() - k,
{
    if k < records.len() {
        assert(records[k].to_i.sub_spec(values[k]) == 0);
        lemma_integer_blend_settles(acc, records, values, k + 1);
    }
}

/// The tween gives one value for each input.
pub open spec fn tween_single_valued<T, I, F: Fn(&T, &T, Progress) -> I>(tween: F) -> bool {
    forall|from: &T, to: &T, at: Progress, a: I, b: I|
        #[trigger] tween.ensures((from, to, at), a) && #[trigger] tween.ensures((from, to, at), b)
            ==> a == b
}

/// No jump on a new start, as a reader sees it: when a `Start` target
/// arrives at `now` while the records of a running status are all in
/// flight, a read just after shows what a read just before showed. This holds for a tween that gives one value for each input and
/// that, at the first instant of the new transition, still gives the value
/// at rest of where the transition begins; and for a subtraction that gives
/// the current value back when the deficit is taken from the value at rest.
pub proof fn lemma_read_is_continuous_across_start<
    T,
    I: Sub<Output = I>,
    F: Fn(&T, &T, Progress) -> I,
>(
    to: T,
    to_i: I,
    records: Seq<Animation<T, I>>,
    target: AnimationTarget<T>,
    new_to_i: I,
    now: u64,
    tween: F,
    before: I,
    after: I,
)
    requires
        target.mode == AnimationMode::Start,
        records.len() > 0,
        live(records, now) == records,
        tween_single_valued(tween),
        forall|first: I| #[trigger]
            tween.ensures(
                (&to, &target.target, started(to, target, new_to_i, now).progress_at(now)),
                first,
            ) ==> first == to_i,
        new_to_i.sub_spec(new_to_i.sub_spec(to_i)) == to_i,
        reads(StatusView::Running { to, to_i, records }, tween, now, before),
        reads(
            (StatusView::Running { to, to_i, records }).applied(target, new_to_i, now),
            tween,
            now,
            after,
        ),
    ensures
        after == before,
{
    let front = started(to, target, new_to_i, now);
    let longer = seq![front] + records;
    let old_values = choose|values: Seq<I>| #[trigger]
        tweened(tween, records, now, values) && before == blend_from(to_i, records, values, 0);
    assert(blends(tween, new_to_i, longer, now, after));
    let new_values = choose|values: Seq<I>| #[trigger]
        tweened(tween, longer, now, values) && after == blend_from(new_to_i, longer, values, 0);
    assert(longer[0] == front);
    assert(new_values[0] == to_i);
    assert forall|k: int| 0 <= k < records.len() implies new_values[k + 1] == old_values[k] by {
        assert(longer[k + 1] == records[k]);
        assert(tween.ensures(
            (&records[k].from, &records[k].to, records[k].progress_at(now)),
            old_values[k],
        ));
        assert(tween.ensures(
            (&longer[k + 1].from, &longer[k + 1].to, longer[k + 1].progress_at(now)),
            new_values[k + 1],
        ));
    }
    assert(new_values =~= seq![to_i] + old_values);
    lemma_start_keeps_value(to, to_i, records, old_values, target, new_to_i, now, to_i);
}

/// For every record that is over at `now`, the tween has arrived: whatever
/// it gives at the record's last progress is the record's interpolated form
/// at rest.
pub open spec fn tween_arrives<T, I, F: Fn(&T, &T, Progress) -> I>(
    tween: F,
    records: Seq<Animation<T, I>>,
    now: u64,
) -> bool {
    forall|k: int, value: I|
        0 <= k < records.len() && records[k].finished_at(now) && #[trigger] tween.ensures(
            (&records[k].from, &records[k].to, records[k].progress_at(now)),
            value,
        ) ==> value == records[k].to_i
}

/// A deficit of nothing takes nothing away.
pub open spec fn zero_deficit_is_neutral<I: Sub<Output = I>>() -> bool {
    forall|acc: I, x: I| #[trigger] acc.sub_spec(x.sub_spec(x)) == acc
}

/// Taking the deficit to `shown` away from the value at rest of `target`
/// gives `shown` back, for whatever the tween gives for `target` at rest.
pub open spec fn deficit_cancels<T, I: Sub<Output = I>, F: Fn(&T, &T, Progress) -> I>(
    tween: F,
    target: T,
    shown: I,
) -> bool {
    forall|rest: I| #[trigger]
        tween_rests(tween, target, rest) ==> rest.sub_spec(rest.sub_spec(shown)) == shown
}

/// At the first instant of a transition with a running time under
/// `easing`, the tween still gives the value at rest of where the
/// transition begins: whatever it gives there is whatever it gives for that
/// value at rest.
pub open spec fn tween_begins_at_rest<T, I, F: Fn(&T, &T, Progress) -> I>(
    tween: F,
    easing: Easing,
) -> bool {
    forall|from: &T, to: &T, duration: u64, first: I, rest: I|
        duration > 0 && #[trigger] tween.ensures(
            (from, to, Progress { elapsed: 0, duration, easing }),
            first,
        ) && #[trigger] tween_rests(tween, *from, rest) ==> first == rest
}

/// A blend over a queue with one more record at its back is the blend over
/// the queue, less the deficit of that record.
proof fn lemma_blend_push<T, I: Sub<Output = I>>(
    acc: I,
    records: Seq<Animation<T, I>>,
    values: Seq<I>,
    last: Animation<T, I>,
    value: I,
    k: int,
)
    requires
        0 <= k <= records.len(),
        values.len() == records.len(),
    ensures
        blend_from(acc, records.push(last), values.push(value), k) == blend_from(
            acc,
            records,
            values,
            k,
        ).sub_spec(last.to_i.sub_spec(value)),
    decreases records.len() - k,
{
    let longer = records.push(last);
    let more = values.push(value);
    if k < records.len() {
        assert(longer[k] == records[k]);
        assert(more[k] == values[k]);
        lemma_blend_push(
            acc.sub_spec(records[k].to_i.sub_spec(values[k])),
            records,
            values,
            last,
            value,
            k + 1,
        );
    } else {
        assert(longer[k] == last);
        assert(more[k] == value);
        reveal_with_fuel(blend_from, 2);
    }
}

/// The blend over a queue equals the blend over its records in flight,
/// where every record that is over has reached its value at rest and a
/// deficit of nothing takes nothing away. `value_of` gives each record its
/// current value.
pub proof fn lemma_blend_skips_finished<T, I: Sub<Output = I>>(
    acc: I,
    records: Seq<Animation<T, I>>,
    value_of: spec_fn(Animation<T, I>) -> I,
    now: u64,
)
    requires
        zero_deficit_is_neutral::<I>(),
        forall|k: int|
            0 <= k < records.len() && (#[trigger] records[k]).finished_at(now) ==> value_of(
                records[k],
            ) == records[k].to_i,
    ensures
        blend_from(acc, records, records.map_values(value_of), 0) == blend_from(
            acc,
            live(records, now),
            live(records, now).map_values(value_of),
            0,
        ),
    decreases records.len(),
{
    reveal_with_fuel(Seq::filter, 2);
    if records.len() > 0 {
        let init = records.drop_last();
        let last = records.last();
        assert(records == init.push(last));
        assert(records.map_values(value_of) == init.map_values(value_of).push(value_of(last)));
        assert forall|k: int| 0 <= k < init.len() && (#[trigger] init[k]).finished_at(
            now,
        ) implies value_of(init[k]) == init[k].to_i by {
            assert(init[k] == records[k]);
        }
        lemma_blend_skips_finished(acc, init, value_of, now);
        lemma_blend_push(acc, init, init.map_values(value_of), last, value_of(last), 0);
        let kept = live(init, now);
        if last.finished_at(now) {
            assert(last == records[records.len() - 1]);
            assert(live(records, now) == kept);
        } else {
            assert(live(records, now) == kept.push(last));
            assert(kept.push(last).map_values(value_of) == kept.map_values(value_of).push(
                value_of(last),
            ));
            lemma_blend_push(acc, kept, kept.map_values(value_of), last, value_of(last), 0);
        }
    }
}

/// Under a tween that gives one value for each input, the values that it
/// gives for a queue are those of the one function that picks them.
proof fn lemma_tweened_is_mapped<T, I, F: Fn(&T, &T, Progress) -> I>(
    tween: F,
    records: Seq<Animation<T, I>>,
    now: u64,
    values: Seq<I>,
)
    requires
        tween_single_valued(tween),
        tweened(tween, records, now, values),
    ensures
        values == records.map_values(tween_value(tween, now)),
{
    let value_of = tween_value(tween, now);
    assert forall|k: int| 0 <= k < records.len() implies values[k] == value_of(records[k]) by {
        assert(tween.ensures(
            (&records[k].from, &records[k].to, records[k].progress_at(now)),
            values[k],
        ));
    }
    assert(values =~= records.map_values(value_of));
}

/// The value that the tween gives for a record at `now`.
pub open spec fn tween_value<T, I, F: Fn(&T, &T, Progress) -> I>(tween: F, now: u64) -> spec_fn(
    Animation<T, I>,
) -> I {
    |a: Animation<T, I>|
        choose|value: I| tween.ensures((&a.from, &a.to, a.progress_at(now)), value)
}

/// Dropping the records that are over leaves the visible value as it was: a
/// read at `now` of the status as it stands and a read at `now` of what
/// pruning leaves show the same. This holds for a tween that gives one value
/// for each input and has arrived for every record that is over, for a
/// status whose interpolated forms are the tween's, and for a subtraction
/// whose deficit of nothing takes nothing away.
pub proof fn lemma_pruning_keeps_value<T, I: Sub<Output = I>, F: Fn(&T, &T, Progress) -> I>(
    status: StatusView<T, I>,
    tween: F,
    now: u64,
    before: I,
    after: I,
)
    requires
        tween_single_valued(tween),
        rests_on(status, tween),
        tween_arrives(tween, status.records(), now),
        zero_deficit_is_neutral::<I>(),
        reads(status, tween, now, before),
        reads(status.expired(now), tween, now, after),
    ensures
        after == before,
{
    if status is Running {
        let records = status.records();
        let to_i = status->to_i;
        let value_of = tween_value(tween, now);
        let kept = live(records, now);
        let old_values = choose|values: Seq<I>| #[trigger]
            tweened(tween, records, now, values) && before == blend_from(to_i, records, values, 0);
        lemma_tweened_is_mapped(tween, records, now, old_values);
        assert forall|k: int| 0 <= k < records.len() && (#[trigger] records[k]).finished_at(
            now,
        ) implies value_of(records[k]) == records[k].to_i by {
            assert(tween.ensures(
                (&records[k].from, &records[k].to, records[k].progress_at(now)),
                old_values[k],
            ));
            assert(old_values[k] == value_of(records[k]));
        }
        lemma_blend_skips_finished(to_i, records, value_of, now);
        if kept.len() == 0 {
            assert(kept.map_values(value_of) =~= Seq::<I>::empty());
            assert(tween_rests(tween, status->to, to_i));
        } else {
            assert(blends(tween, to_i, kept, now, after));
            let new_values = choose|values: Seq<I>| #[trigger]
                tweened(tween, kept, now, values) && after == blend_from(to_i, kept, values, 0);
            lemma_tweened_is_mapped(tween, kept, now, new_values);
        }
    }
}

/// No jump on a new start, from one read to the next: a status is read at
/// `now`, a `Start` target with a running time arrives at `now`, and the
/// status is read at `now` again; the two reads show the same, however many
/// records were running and whatever the target. This holds for a status
/// whose interpolated forms are the tween's and whose records are all in
/// flight, for a tween that gives one value for each input and begins every
/// transition at rest, and for a subtraction that gives the value shown
/// back when the new deficit is taken from the new value at rest.
pub proof fn lemma_retarget_start_keeps_reading<
    T,
    I: Sub<Output = I>,
    F: Fn(&T, &T, Progress) -> I,
>(
    before: StatusView<T, I>,
    after: StatusView<T, I>,
    target: AnimationTarget<T>,
    now: u64,
    tween: F,
    shown: I,
    next: I,
)
    requires
        target.mode == AnimationMode::Start,
        target.duration > 0,
        before.wf(),
        before.expired(now) == before,
        rests_on(before, tween),
        tween_single_valued(tween),
        tween_begins_at_rest(tween, target.easing),
        deficit_cancels(
            tween,
            target.target,
            if before is Running {
                before->to_i
            } else {
                shown
            },
        ),
        reads(before, tween, now, shown),
        retargets(before, after, target, now, tween),
        reads(after, tween, now, next),
    ensures
        next == shown,
{
    let new_to_i = choose|to_i: I| #[trigger]
        tween_rests(tween, target.target, to_i) && after == before.applied(target, to_i, now);
    let front = started(before.target(), target, new_to_i, now);
    assert(front.progress_at(now) == Progress {
        elapsed: 0,
        duration: target.duration,
        easing: target.easing,
    });
    let records = before.records();
    let longer = seq![front] + records;
    assert(after.records() =~= longer);
    assert(blends(tween, new_to_i, longer, now, next));
    let new_values = choose|values: Seq<I>| #[trigger]
        tweened(tween, longer, now, values) && next == blend_from(new_to_i, longer, values, 0);
    assert(longer[0] == front);
    assert(tween.ensures((&front.from, &front.to, front.progress_at(now)), new_values[0]));
    if before is Running {
        assert(tween_rests(tween, before->to, before->to_i));
        assert(live(records, now) == records);
        assert(new_values[0] == before->to_i);
        lemma_read_is_continuous_across_start(
            before->to,
            before->to_i,
            records,
            target,
            new_to_i,
            now,
            tween,
            shown,
            next,
        );
    } else {
        assert(tween_rests(tween, before.target(), shown));
        assert(new_values[0] == shown);
        assert(longer =~= seq![front]);
        reveal_with_fuel(blend_from, 3);
    }
}

/// `Snap` is immediate and exclusive: whatever was running, the status
/// becomes `Snap` of the target and holds no record; a read then shows the
/// target at rest and asks for no frame; the next frame settles it, and the
/// frame after that finds nothing to update.
pub proof fn lemma_snap_is_immediate<T, I: Sub<Output = I>, F: Fn(&T, &T, Progress) -> I>(
    status: StatusView<T, I>,
    target: AnimationTarget<T>,
    to_i: I,
    now: u64,
    later: u64,
    tween: F,
    value: I,
)
    requires
        target.mode == AnimationMode::Snap,
        reads(status.applied(target, to_i, now).expired(later), tween, later, value),
    ensures
        status.applied(target, to_i, now) == StatusView::<T, I>::Snap(target.target),
        status.applied(target, to_i, now).records().len() == 0,
        status.applied(target, to_i, now).expired(later) == StatusView::<T, I>::Snap(
            target.target,
        ),
        tween_rests(tween, target.target, value),
        status.applied(target, to_i, now).pruned(later) == StatusView::<T, I>::Static(
            target.target,
        ),
        status.applied(target, to_i, now).pruned(later).pruned(later) == StatusView::<
            T,
            I,
        >::Static(target.target),
{
}

/// A target that makes the status jump does so whatever its interpolated
/// form is: the status becomes `Snap` of the target.
pub proof fn lemma_jump_ignores_interpolated_form<T, I>(
    status: StatusView<T, I>,
    target: AnimationTarget<T>,
    to_i: I,
    now: u64,
)
    requires
        status.expired(now).snaps(target.mode),
    ensures
        status.applied(target, to_i, now) == StatusView::<T, I>::Snap(target.target),
{
}

/// At rest, `ReplaceOrSnap` does what `Snap` does, and `ReplaceOrStart` does
/// what `Start` does.
pub proof fn lemma_replace_at_rest<T, I>(
    status: StatusView<T, I>,
    target: AnimationTarget<T>,
    to_i: I,
    now: u64,
)
    requires
        !(status.expired(now) is Running),
    ensures
        status.applied(AnimationTarget { mode: AnimationMode::ReplaceOrSnap, ..target }, to_i, now)
            == status.applied(AnimationTarget { mode: AnimationMode::Snap, ..target }, to_i, now),
        status.applied(AnimationTarget { mode: AnimationMode::ReplaceOrSnap, ..target }, to_i, now)
            == StatusView::<T, I>::Snap(target.target),
        status.applied(AnimationTarget { mode: AnimationMode::ReplaceOrStart, ..target }, to_i, now)
            == status.applied(AnimationTarget { mode: AnimationMode::Start, ..target }, to_i, now),
{
}

/// While animations run, `ReplaceOrStart` and `ReplaceOrSnap` do the same:
/// they steer the newest record and start nothing.
pub proof fn lemma_replace_while_running<T, I>(
    status: StatusView<T, I>,
    target: AnimationTarget<T>,
    to_i: I,
    now: u64,
)
    requires
        status.expired(now) is Running,
    ensures
        status.applied(AnimationTarget { mode: AnimationMode::ReplaceOrSnap, ..target }, to_i, now)
            == status.applied(
            AnimationTarget { mode: AnimationMode::ReplaceOrStart, ..target },
            to_i,
            now,
        ),
        status.applied(AnimationTarget { mode: AnimationMode::ReplaceOrSnap, ..target }, to_i, now).records().len()
            == status.expired(now).records().len(),
{
}

} // verus!
