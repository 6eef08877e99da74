use vstd::prelude::*;

verus! {

/// Cloning a `T` gives an equal value. The engine keeps a target in two
/// places, the status and its newest record, so it speaks only of types
/// whose clones are exact. The integers, `bool`, `char` and `String` are
/// such types.
pub open spec fn clones_exactly<T: Clone>() -> bool {
    forall|a: T, b: T| #[trigger] cloned(a, b) ==> a == b
}

/// A second copy of `value`.
pub fn duplicate<T: Clone>(value: &T) -> (copy: T)
    requires
        clones_exactly::<T>(),
    ensures
        copy == *value,
{
    let copy = value.clone();
    proof {
        assert(cloned(*value, copy));
    }
    copy
}

} // verus!
