use std::collections::VecDeque;
use std::ops::Sub;
use vstd::prelude::*;
use vstd::std_specs::ops::SubSpec;
use crate::animation::Animation;
use crate::cloning::{clones_exactly, duplicate};

verus! {

/// What is left of `acc` after the deficits of the records from index `k` on
/// have been taken away, one after the other, front to back. The deficit of
/// a record is the gap between its value at rest and its current value,
/// `values[k]`.
pub open spec fn blend_from<T, I: Sub<Output = I>>(
    acc: I,
    records: Seq<Animation<T, I>>,
    values: Seq<I>,
    k: int,
) -> I
    decreases records.len() - k,
{
    if 0 <= k < records.len() {
        blend_from(acc.sub_spec(records[k].to_i.sub_spec(values[k])), records, values, k + 1)
    } else {
        acc
    }
}

/// Every subtraction that `blend_from` makes is one that `I` permits.
pub open spec fn blend_permitted<T, I: Sub<Output = I>>(
    acc: I,
    records: Seq<Animation<T, I>>,
    values: Seq<I>,
    k: int,
) -> bool
    decreases records.len() - k,
{
    if 0 <= k < records.len() {
        &&& records[k].to_i.sub_req(values[k])
        &&& acc.sub_req(records[k].to_i.sub_spec(values[k]))
        &&& blend_permitted(
            acc.sub_spec(records[k].to_i.sub_spec(values[k])),
            records,
            values,
            k + 1,
        )
    } else {
        true
    }
}

/// The output value while animations run: the value at rest of the final
/// target, less the deficit of every transition in flight.
pub fn blend<T, I: Clone + Sub<Output = I>>(
    to_i: I,
    animations: &VecDeque<Animation<T, I>>,
    values: &Vec<I>,
) -> (r: I)
    requires
        clones_exactly::<I>(),
        I::obeys_sub_spec(),
        values@.len() == animations@.len(),
        blend_permitted(to_i, animations@, values@, 0),
    ensures
        r == blend_from(to_i, animations@, values@, 0),
{
    let n: usize = animations.len();
    let mut acc: I = to_i;
    let mut k: usize = 0;
    while k < n
        invariant
            clones_exactly::<I>(),
            I::obeys_sub_spec(),
            k <= n,
            n == animations@.len(),
            n == values@.len(),
            blend_permitted(acc, animations@, values@, k as int),
            blend_from(acc, animations@, values@, k as int) == blend_from(
                to_i,
                animations@,
                values@,
                0,
            ),
        decreases n - k,
    {
        let deficit: I = duplicate(&animations[k].to_i) - duplicate(&values[k]);
        acc = acc - deficit;
        k += 1;
    }
    acc
}

} // verus!
