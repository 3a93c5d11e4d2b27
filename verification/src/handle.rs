//! The two handle shapes a pool issues: a scope-bound handle ([`Recycled`])
//! and an ownership-shared one ([`RcRecycled`]).
//!
//! Each handle wraps exactly one extracted value. `detach` consumes the
//! handle by value and yields the wrapped value, so a handle can never be
//! observed without its value: the use-after-detach error of a runtime
//! check becomes unreachable through the type system. A handle that is no
//! longer wanted is given back through the issuing pool's `recycle`
//! operation, which resets the value and stores it subject to the
//! capacity check.

use vstd::prelude::*;
use crate::recycle::{InitializeWith, Recycleable};

verus! {

/// The logic shared by both handle shapes: one wrapped value, read and
/// write access to it, and extraction by consuming the handle.
pub(crate) struct RecycledInner<T: Recycleable> {
    value: T,
}

impl<T: Recycleable> RecycledInner<T> {
    /// The wrapped value.
    pub(crate) closed spec fn value_spec(&self) -> T {
        self.value
    }

    pub(crate) fn new(value: T) -> (r: Self)
        ensures
            r.value_spec() == value,
    {
        RecycledInner { value }
    }

    pub(crate) fn new_from<A>(value: T, source: A) -> (r: Self) where T: InitializeWith<A>
        ensures
            r.value_spec().initialized_from(value, source),
    {
        let mut value = value;
        value.initialize_with(source);
        RecycledInner { value }
    }

    pub(crate) fn as_ref(&self) -> (r: &T)
        ensures
            *r == self.value_spec(),
    {
        &self.value
    }

    pub(crate) fn as_mut(&mut self) -> (r: &mut T)
        ensures
            *r == old(self).value_spec(),
            final(self).value_spec() == *final(r),
    {
        &mut self.value
    }

    pub(crate) fn detach(self) -> (r: T)
        ensures
            r == self.value_spec(),
    {
        self.value
    }
}

/// A smartpointer wrapping one value drawn from (or donated to) a `Pool`.
/// It is meant to stay within the scope of the pool that issued it and to
/// be handed back to that pool when no longer needed.
pub struct Recycled<T: Recycleable> {
    pub(crate) value: RecycledInner<T>,
}

/// A smartpointer wrapping one value drawn from (or donated to) a `Pool`,
/// in the ownership-shared shape: it may be stored away and outlive the
/// scope in which the pool's values were first handed out.
pub struct RcRecycled<T: Recycleable> {
    pub(crate) value: RecycledInner<T>,
}

impl<T: Recycleable> Recycled<T> {
    /// The wrapped value.
    pub closed spec fn value_spec(&self) -> T {
        self.value.value_spec()
    }

    pub(crate) fn wrap(value: T) -> (r: Self)
        ensures
            r.value_spec() == value,
    {
        Recycled { value: RecycledInner::new(value) }
    }

    pub(crate) fn wrap_from<A>(value: T, source: A) -> (r: Self) where T: InitializeWith<A>
        ensures
            r.value_spec().initialized_from(value, source),
    {
        Recycled { value: RecycledInner::new_from(value, source) }
    }

    /// Gets a shared reference to the value wrapped by the smartpointer.
    pub fn as_ref(&self) -> (r: &T)
        ensures
            *r == self.value_spec(),
    {
        self.value.as_ref()
    }

    /// Gets a mutable reference to the value wrapped by the smartpointer.
    pub fn as_mut(&mut self) -> (r: &mut T)
        ensures
            *r == old(self).value_spec(),
            final(self).value_spec() == *final(r),
    {
        self.value.as_mut()
    }

    /// Disassociates the value from the `Pool` that issued it. This
    /// destroys the smartpointer and returns the previously wrapped value;
    /// the pool's spare count is not touched.
    pub fn detach(self) -> (r: T)
        ensures
            r == self.value_spec(),
    {
        self.value.detach()
    }
}

impl<T: Recycleable> RcRecycled<T> {
    /// The wrapped value.
    pub closed spec fn value_spec(&self) -> T {
        self.value.value_spec()
    }

    pub(crate) fn wrap(value: T) -> (r: Self)
        ensures
            r.value_spec() == value,
    {
        RcRecycled { value: RecycledInner::new(value) }
    }

    pub(crate) fn wrap_from<A>(value: T, source: A) -> (r: Self) where T: InitializeWith<A>
        ensures
            r.value_spec().initialized_from(value, source),
    {
        RcRecycled { value: RecycledInner::new_from(value, source) }
    }

    /// Gets a shared reference to the value wrapped by the smartpointer.
    pub fn as_ref(&self) -> (r: &T)
        ensures
            *r == self.value_spec(),
    {
        self.value.as_ref()
    }

    /// Gets a mutable reference to the value wrapped by the smartpointer.
    pub fn as_mut(&mut self) -> (r: &mut T)
        ensures
            *r == old(self).value_spec(),
            final(self).value_spec() == *final(r),
    {
        self.value.as_mut()
    }

    /// Disassociates the value from the `Pool` that issued it. This
    /// destroys the smartpointer and returns the previously wrapped value;
    /// the pool's spare count is not touched.
    pub fn detach(self) -> (r: T)
        ensures
            r == self.value_spec(),
    {
        self.value.detach()
    }
}

} // verus!
