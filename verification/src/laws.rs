//! What holds of the operations of [`LateStatic`] taken together.
//!
//! Each law speaks of calls by what they returned: `call_ensures(f, args, r)`
//! reads "`f`, called with `args`, returned `r`", and `call_requires(f, args)`
//! reads "`f` may be called with `args`". A parameter of type `&mut` stands
//! for one exclusive borrow of the container: it points at the container as
//! the call finds it, and its `final` is the container as the call leaves it.
//! The laws are proved from the operations' contracts alone.

use crate::LateStatic;
use vstd::prelude::*;

verus! {

/// A container that was just built reports no value.
pub proof fn lemma_new_has_no_value<T>(fresh: LateStatic<T>, reported: bool)
    requires
        call_ensures(LateStatic::<T>::new, (), fresh),
        call_ensures(LateStatic::<T>::has_value, (&fresh,), reported),
    ensures
        !reported,
{
}

/// After `assign(v)` the container reports a value, may be read, and reads
/// as `v`.
pub proof fn lemma_assign_then_read<T>(
    target: &mut LateStatic<T>,
    v: T,
    reported: bool,
    read: &T,
)
    requires
        call_ensures(LateStatic::<T>::assign, (target, v), ()),
        call_ensures(LateStatic::<T>::has_value, (&*final(target),), reported),
        call_ensures(LateStatic::<T>::deref, (&*final(target),), read),
    ensures
        reported,
        call_requires(LateStatic::<T>::deref, (&*final(target),)),
        *read == v,
{
}

/// After `clear` the container reports no value.
pub proof fn lemma_clear_then_has_no_value<T>(target: &mut LateStatic<T>, reported: bool)
    requires
        call_ensures(LateStatic::<T>::clear, (target,), ()),
        call_ensures(LateStatic::<T>::has_value, (&*final(target),), reported),
    ensures
        !reported,
{
}

/// `has_value` tells which operations are available: on `true`, `clear`,
/// `deref` and `deref_mut`; on `false`, `assign` of any value.
pub proof fn lemma_has_value_decides<T>(
    target: &mut LateStatic<T>,
    reported: bool,
    v: T,
)
    requires
        call_ensures(LateStatic::<T>::has_value, (&*target,), reported),
    ensures
        reported ==> call_requires(LateStatic::<T>::clear, (target,)),
        reported ==> call_requires(LateStatic::<T>::deref, (&*old(target),)),
        reported ==> call_requires(LateStatic::<T>::deref_mut, (target,)),
        !reported ==> call_requires(LateStatic::<T>::assign, (target, v)),
{
}

/// Re-arming: a container that was assigned `v1` may be cleared, may then be
/// assigned `v2`, and holds `v2` afterwards.
pub proof fn lemma_rearm<T>(
    first: &mut LateStatic<T>,
    v1: T,
    cleared: &mut LateStatic<T>,
    second: &mut LateStatic<T>,
    v2: T,
)
    requires
        call_ensures(LateStatic::<T>::assign, (first, v1), ()),
        *cleared == *final(first),
        call_ensures(LateStatic::<T>::clear, (cleared,), ()),
        *second == *final(cleared),
        call_ensures(LateStatic::<T>::assign, (second, v2), ()),
    ensures
        call_requires(LateStatic::<T>::clear, (cleared,)),
        call_requires(LateStatic::<T>::assign, (second, v2)),
        final(second)@ == Some(v2),
{
}

/// Re-arming leaves no trace: a container that held `v1`, was cleared and was
/// assigned `v2` equals one that was built and assigned `v2` at once.
pub proof fn lemma_rearm_leaves_no_trace<T>(
    first: &mut LateStatic<T>,
    v1: T,
    cleared: &mut LateStatic<T>,
    second: &mut LateStatic<T>,
    v2: T,
    fresh: LateStatic<T>,
    direct: &mut LateStatic<T>,
)
    requires
        call_ensures(LateStatic::<T>::assign, (first, v1), ()),
        *cleared == *final(first),
        call_ensures(LateStatic::<T>::clear, (cleared,), ()),
        *second == *final(cleared),
        call_ensures(LateStatic::<T>::assign, (second, v2), ()),
        call_ensures(LateStatic::<T>::new, (), fresh),
        *direct == fresh,
        call_ensures(LateStatic::<T>::assign, (direct, v2), ()),
    ensures
        *final(second) == *final(direct),
{
    final(second).lemma_view_is_whole_state(*final(direct));
}

/// What is written through `deref_mut` is what a later `deref` reads: the
/// container stays occupied, and a read after the write shows the value that
/// the writing reference held last.
pub proof fn lemma_write_then_read<T>(
    target: &mut LateStatic<T>,
    written: &mut T,
    read: &T,
)
    requires
        call_ensures(LateStatic::<T>::deref_mut, (target,), written),
        call_ensures(LateStatic::<T>::deref, (&*final(target),), read),
    ensures
        call_requires(LateStatic::<T>::deref, (&*final(target),)),
        *read == *final(written),
{
}

} // verus!
