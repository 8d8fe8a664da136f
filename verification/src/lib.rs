//! Values that are supplied at run time and then behave like static values.
//!
//! A [`LateStatic`] is a slot that is either empty or occupied. It is built
//! empty, filled once with [`LateStatic::assign`], read and written in place
//! through [`LateStatic::deref`] and [`LateStatic::deref_mut`], and emptied
//! again with [`LateStatic::clear`], after which it can be filled anew.
//!
//! Using the slot against its state (assigning twice, reading or clearing
//! while empty) is a programming error, not an outcome to recover from.
//! Here each such use is excluded by a precondition, so that a verified
//! caller cannot commit it and no operation has a failure path left. A
//! caller that Verus has not checked tests [`LateStatic::has_value`] before
//! it calls: the operations do not test in its place.
//!
//! The operations that change the slot take `&mut`: holding the exclusive
//! reference is the proof that nobody else reads the slot meanwhile. No
//! locking, no atomics and no allocation are involved; every operation is a
//! constant-time move or test.
//!
//! ```
//! use late_static::LateStatic;
//!
//! struct Foo {
//!     pub value: u32,
//! }
//!
//! let mut foo: LateStatic<Foo> = LateStatic::new();
//! LateStatic::assign(&mut foo, Foo { value: 42 });
//! assert_eq!(foo.deref().value, 42);
//! ```

pub mod laws;

use vstd::prelude::*;

verus! {

/// Holder of a value that is assigned some time after the holder is built.
///
/// Its view is the slot itself: `None` while empty, `Some(v)` while it holds
/// `v`. There is no further state (see [`LateStatic::lemma_view_is_whole_state`]).
pub struct LateStatic<T> {
    val: Option<T>,
}

impl<T> View for LateStatic<T> {
    type V = Option<T>;

    closed spec fn view(&self) -> Option<T> {
        self.val
    }
}

impl<T> LateStatic<T> {
    /// Builds an empty `LateStatic`.
    pub fn new() -> (s: Self)
        ensures
            s@ is None,
    {
        LateStatic { val: None }
    }

    /// Fills the empty slot with `val`.
    ///
    /// A slot is assigned once: the call is only available while the slot is
    /// empty, so a value that is held is never overwritten.
    pub fn assign(instance: &mut LateStatic<T>, val: T)
        requires
            old(instance)@ is None,
        ensures
            final(instance)@ == Some(val),
    {
        instance.val = Some(val);
    }

    /// Empties the occupied slot, dropping the value it held.
    ///
    /// Afterwards the slot can be assigned again.
    pub fn clear(instance: &mut LateStatic<T>)
        requires
            old(instance)@ is Some,
        ensures
            final(instance)@ is None,
    {
        instance.val = None;
    }

    /// Whether the slot is occupied.
    pub fn has_value(instance: &LateStatic<T>) -> (b: bool)
        ensures
            b == (instance@ is Some),
    {
        instance.val.is_some()
    }

    /// The value held, for reading.
    ///
    /// Only an occupied slot can be read: there is no default to fall back on.
    pub fn deref(&self) -> (value: &T)
        requires
            self@ is Some,
        ensures
            self@ == Some(*value),
    {
        match &self.val {
            Some(val) => val,
            None => vstd::pervasive::unreached(),
        }
    }

    /// The value held, for writing in place.
    ///
    /// The slot stays occupied, and ends up holding whatever the returned
    /// reference holds when the caller is done with it.
    pub fn deref_mut(&mut self) -> (value: &mut T)
        requires
            old(self)@ is Some,
        ensures
            old(self)@ == Some(*value),
            final(self)@ == Some(*final(value)),
    {
        match &mut self.val {
            Some(val) => val,
            None => vstd::pervasive::unreached(),
        }
    }

    /// The slot is all there is to a `LateStatic`: two of them with the same
    /// view are equal. In particular a slot keeps nothing of a value that it
    /// held earlier.
    pub proof fn lemma_view_is_whole_state(self, other: Self)
        requires
            self@ == other@,
        ensures
            self == other,
    {
    }
}

} // verus!
