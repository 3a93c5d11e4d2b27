//! The bounded, last-in-first-out store of spare values behind a pool.
//!
//! The collection's invariant: it never holds more than its fixed capacity,
//! and every value stored in it is fresh (reset happens on the way in, so
//! anything popped is ready to hand out).

use vstd::prelude::*;
use crate::recycle::{Recycleable, Supply};

verus! {

/// How many values an initial fill of `requested` places into a collection
/// whose capacity is `cap`: the request, clamped to the capacity.
pub open spec fn initial_fill(requested: usize, cap: usize) -> usize {
    if requested <= cap {
        requested
    } else {
        cap
    }
}

/// A bounded stack of spare values: at most `cap` of them, all fresh, the
/// most recently stored one handed out first. When the stack is empty,
/// values come from the supplier (or from `T::new()` when none was given).
pub struct CappedCollection<T: Recycleable, S: Supply<T>> {
    values: Vec<T>,
    cap: usize,
    supplier: Option<S>,
}

impl<T: Recycleable, S: Supply<T>> CappedCollection<T, S> {
    /// The spare values currently held, oldest first.
    pub closed spec fn spares(&self) -> Seq<T> {
        self.values@
    }

    /// The immutable capacity: the largest number of spares ever retained.
    pub closed spec fn cap_spec(&self) -> usize {
        self.cap
    }

    /// The collection's invariant: the count never exceeds the capacity,
    /// and every spare is fresh.
    pub open spec fn wf(&self) -> bool {
        &&& self.spares().len() <= self.cap_spec()
        &&& forall|i: int| 0 <= i < self.spares().len() ==> self.spares()[i].is_fresh()
    }

    /// Creates a collection holding `min(starting_size, max_size)` supplied
    /// values; `max_size` becomes the immutable capacity. With no supplier,
    /// values are allocated through `T::new()`.
    pub fn new(supplier: Option<S>, starting_size: usize, max_size: usize) -> (r: Self)
        ensures
            r.wf(),
            r.cap_spec() == max_size,
            r.spares().len() == initial_fill(starting_size, max_size),
    {
        let n = if starting_size <= max_size {
            starting_size
        } else {
            max_size
        };
        let mut supplier = supplier;
        let mut values: Vec<T> = Vec::new();
        let mut i: usize = 0;
        while i < n
            invariant
                i <= n,
                n <= max_size,
                values@.len() == i,
                forall|j: int| 0 <= j < values@.len() ==> values@[j].is_fresh(),
            decreases n - i,
        {
            let v = match &mut supplier {
                Some(s) => s.get(),
                None => T::new(),
            };
            values.push(v);
            i = i + 1;
        }
        CappedCollection { values, cap: max_size, supplier }
    }

    /// Returns a fresh value from the supplier (or `T::new()`), leaving the
    /// stored spares and the capacity untouched.
    pub(crate) fn supply_fresh(&mut self) -> (r: T)
        requires
            old(self).wf(),
        ensures
            final(self).wf(),
            r.is_fresh(),
            final(self).spares() == old(self).spares(),
            final(self).cap_spec() == old(self).cap_spec(),
    {
        match &mut self.supplier {
            Some(s) => s.get(),
            None => T::new(),
        }
    }

    /// If the collection is full, drops the value; otherwise resets it and
    /// pushes it. Reset is applied only to values that will actually be
    /// retained, so nothing is spent on values bound for disposal.
    pub fn insert_or_drop(&mut self, value: T)
        requires
            old(self).wf(),
        ensures
            final(self).wf(),
            final(self).cap_spec() == old(self).cap_spec(),
            old(self).spares().len() >= old(self).cap_spec() ==> final(self).spares()
                == old(self).spares(),
            old(self).spares().len() < old(self).cap_spec() ==> {
                &&& final(self).spares().len() == old(self).spares().len() + 1
                &&& final(self).spares().drop_last() == old(self).spares()
                &&& final(self).spares().last().is_fresh()
            },
    {
        let mut value = value;
        match self.is_full() {
            true => {
                // the value falls out of scope here and is discarded
            },
            false => {
                value.reset();
                self.values.push(value);
                proof {
                    assert(self.values@.drop_last() =~= old(self).values@);
                }
            },
        }
    }

    /// Pops the most recently stored spare, or returns `None` when the
    /// collection is empty. The capacity and the remaining spares are
    /// unchanged.
    pub fn remove(&mut self) -> (r: Option<T>)
        requires
            old(self).wf(),
        ensures
            final(self).wf(),
            final(self).cap_spec() == old(self).cap_spec(),
            old(self).spares().len() == 0 ==> r is None && final(self).spares()
                == old(self).spares(),
            old(self).spares().len() > 0 ==> {
                &&& r == Some(old(self).spares().last())
                &&& old(self).spares().last().is_fresh()
                &&& final(self).spares() == old(self).spares().drop_last()
            },
    {
        self.values.pop()
    }

    /// Whether the collection already holds as many spares as its capacity
    /// allows.
    pub fn is_full(&self) -> (r: bool)
        ensures
            r == (self.spares().len() >= self.cap_spec()),
    {
        self.values.len() >= self.cap
    }

    /// The number of spares currently held.
    pub fn len(&self) -> (r: usize)
        ensures
            r == self.spares().len(),
    {
        self.values.len()
    }

    /// The capacity.
    pub fn cap(&self) -> (r: usize)
        ensures
            r == self.cap_spec(),
    {
        self.cap
    }
}

} // verus!
