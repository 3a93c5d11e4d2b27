//! The pool: the public entry point. It owns one capped collection of spare
//! values and issues handles over values drawn from it (or donated to it).
//!
//! The two spec functions [`takes_one`] and [`gives_back`] describe the only
//! two ways a pool's spare store ever changes: a checkout pops the most
//! recently stored spare (or supplies a fresh value when the store is
//! empty), and a give-back resets and pushes the value unless the store is
//! already at capacity, in which case the value is discarded.

use vstd::prelude::*;
use crate::collection::{initial_fill, CappedCollection};
use crate::handle::{RcRecycled, Recycled};
use crate::recycle::{FreshSupplier, InitializeWith, Recycleable, Supply};

verus! {

/// A collection of values that can be reused without requiring new
/// allocations.
///
/// `Pool` issues each value wrapped in a smartpointer. Handing the
/// smartpointer back through `recycle` returns the wrapped value to the
/// pool.
pub struct Pool<T: Recycleable, S: Supply<T> = FreshSupplier> {
    values: CappedCollection<T, S>,
}

/// How a checkout changes a pool: `taken` is the value drawn out. When the
/// pool held at least one spare, the most recently stored one is removed
/// and returned; when it was empty, the spares stay empty and a fresh value
/// is supplied instead.
pub open spec fn takes_one<T: Recycleable, S: Supply<T>>(
    pre: Pool<T, S>,
    post: Pool<T, S>,
    taken: T,
) -> bool {
    &&& post.max_size_spec() == pre.max_size_spec()
    &&& taken.is_fresh()
    &&& if pre.spares().len() > 0 {
        &&& taken == pre.spares().last()
        &&& post.spares() == pre.spares().drop_last()
    } else {
        post.spares() == pre.spares()
    }
}

/// How a give-back changes a pool: when there is room, one fresh (reset)
/// value is pushed on top of the existing spares; when the pool is already
/// at capacity, the returned value is discarded and nothing changes.
pub open spec fn gives_back<T: Recycleable, S: Supply<T>>(
    pre: Pool<T, S>,
    post: Pool<T, S>,
) -> bool {
    &&& post.max_size_spec() == pre.max_size_spec()
    &&& if pre.spares().len() < pre.max_size_spec() {
        &&& post.spares().len() == pre.spares().len() + 1
        &&& post.spares().drop_last() == pre.spares()
        &&& post.spares().last().is_fresh()
    } else {
        post.spares() == pre.spares()
    }
}

impl<T: Recycleable, S: Supply<T>> Pool<T, S> {
    /// The spare values currently held, oldest first.
    pub closed spec fn spares(&self) -> Seq<T> {
        self.values.spares()
    }

    /// The largest number of spares the pool will retain.
    pub closed spec fn max_size_spec(&self) -> usize {
        self.values.cap_spec()
    }

    /// The pool's invariant: never more spares than the maximum, and every
    /// spare fresh.
    pub open spec fn wf(&self) -> bool {
        &&& self.spares().len() <= self.max_size_spec()
        &&& forall|i: int| 0 <= i < self.spares().len() ==> self.spares()[i].is_fresh()
    }

    /// Wraps an already-built collection as a pool.
    pub(crate) fn from_collection(values: CappedCollection<T, S>) -> (r: Self)
        ensures
            r.spares() == values.spares(),
            r.max_size_spec() == values.cap_spec(),
            values.wf() ==> r.wf(),
    {
        Pool { values }
    }

    /// Creates a pool with `size` elements of type `T` allocated. The
    /// maximum pool size is left unbounded (the largest representable
    /// count).
    pub fn with_size(size: usize) -> (r: Self)
        ensures
            r.wf(),
            r.spares().len() == size,
            r.max_size_spec() == usize::MAX,
    {
        Self::with_size_and_max(size, usize::MAX)
    }

    /// Creates a pool with `min(starting_size, max_size)` elements of type
    /// `T` allocated and sets a maximum pool size of `max_size`. Values
    /// being donated to the pool or given back to it will instead be
    /// discarded if the pool is full.
    pub fn with_size_and_max(starting_size: usize, max_size: usize) -> (r: Self)
        ensures
            r.wf(),
            r.spares().len() == initial_fill(starting_size, max_size),
            r.max_size_spec() == max_size,
    {
        let values: CappedCollection<T, S> = CappedCollection::new(
            None,
            starting_size,
            max_size,
        );
        Pool { values }
    }

    /// Returns the number of values remaining in the pool.
    pub fn size(&self) -> (r: usize)
        ensures
            r == self.spares().len(),
    {
        self.values.len()
    }

    /// Returns the maximum number of values the pool can hold.
    pub fn max_size(&self) -> (r: usize)
        ensures
            r == self.max_size_spec(),
    {
        self.values.cap()
    }

    /// Removes a value from the pool and returns it wrapped in a
    /// `Recycled` smartpointer. If the pool is empty when the method is
    /// called, a new value will be allocated.
    pub fn new(&mut self) -> (r: Recycled<T>)
        requires
            old(self).wf(),
        ensures
            final(self).wf(),
            takes_one(*old(self), *final(self), r.value_spec()),
    {
        let t = self.detached();
        Recycled::wrap(t)
    }

    /// Removes a value from the pool, initializes it using the provided
    /// source value, and returns it wrapped in a `Recycled` smartpointer.
    /// If the pool is empty when the method is called, a new value will be
    /// allocated. The drawn value is fresh, so the result holds exactly
    /// what initializing a fresh value with `source` yields.
    pub fn new_from<A>(&mut self, source: A) -> (r: Recycled<T>) where T: InitializeWith<A>
        requires
            old(self).wf(),
        ensures
            final(self).wf(),
            exists|f: T|
                {
                    &&& #[trigger] r.value_spec().initialized_from(f, source)
                    &&& takes_one(*old(self), *final(self), f)
                },
    {
        let t = self.detached();
        let ghost f = t;
        let r = Recycled::wrap_from(t, source);
        proof {
            assert(r.value_spec().initialized_from(f, source));
        }
        r
    }

    /// Associates the provided value with the pool's handle scheme by
    /// wrapping it in a `Recycled` smartpointer; the spare store is not
    /// touched. Giving the handle back later donates the value to the pool,
    /// subject to the same reset-and-capacity policy as any other return.
    pub fn attach(&self, value: T) -> (r: Recycled<T>)
        ensures
            r.value_spec() == value,
    {
        Recycled::wrap(value)
    }

    /// Removes a value from the pool and returns it without wrapping it in
    /// a smartpointer. The value is permanently removed from the pool's
    /// accounting unless it is later donated back.
    pub fn detached(&mut self) -> (r: T)
        requires
            old(self).wf(),
        ensures
            final(self).wf(),
            takes_one(*old(self), *final(self), r),
    {
        let maybe_value = self.values.remove();
        match maybe_value {
            Some(v) => v,
            None => self.values.supply_fresh(),
        }
    }

    /// Removes a value from the pool and returns it wrapped in an
    /// `RcRecycled` smartpointer. If the pool is empty when the method is
    /// called, a new value will be allocated.
    pub fn new_rc(&mut self) -> (r: RcRecycled<T>)
        requires
            old(self).wf(),
        ensures
            final(self).wf(),
            takes_one(*old(self), *final(self), r.value_spec()),
    {
        let t = self.detached();
        RcRecycled::wrap(t)
    }

    /// Removes a value from the pool, initializes it using the provided
    /// source value, and returns it wrapped in an `RcRecycled`
    /// smartpointer. If the pool is empty when the method is called, a new
    /// value will be allocated.
    pub fn new_rc_from<A>(&mut self, source: A) -> (r: RcRecycled<T>) where T: InitializeWith<A>
        requires
            old(self).wf(),
        ensures
            final(self).wf(),
            exists|f: T|
                {
                    &&& #[trigger] r.value_spec().initialized_from(f, source)
                    &&& takes_one(*old(self), *final(self), f)
                },
    {
        let t = self.detached();
        let ghost f = t;
        let r = RcRecycled::wrap_from(t, source);
        proof {
            assert(r.value_spec().initialized_from(f, source));
        }
        r
    }

    /// Associates the provided value with the pool's handle scheme by
    /// wrapping it in an `RcRecycled` smartpointer; the spare store is not
    /// touched.
    pub fn attach_rc(&self, value: T) -> (r: RcRecycled<T>)
        ensures
            r.value_spec() == value,
    {
        RcRecycled::wrap(value)
    }

    /// Takes a scope-bound handle back: the wrapped value is reset and
    /// stored for reuse, unless the pool is already full, in which case it
    /// is discarded.
    pub fn recycle(&mut self, handle: Recycled<T>)
        requires
            old(self).wf(),
        ensures
            final(self).wf(),
            gives_back(*old(self), *final(self)),
    {
        let value = handle.detach();
        self.values.insert_or_drop(value);
    }

    /// Takes an ownership-shared handle back: the wrapped value is reset
    /// and stored for reuse, unless the pool is already full, in which case
    /// it is discarded.
    pub fn recycle_rc(&mut self, handle: RcRecycled<T>)
        requires
            old(self).wf(),
        ensures
            final(self).wf(),
            gives_back(*old(self), *final(self)),
    {
        let value = handle.detach();
        self.values.insert_or_drop(value);
    }
}

} // verus!
