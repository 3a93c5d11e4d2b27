//! The pool builder: a transient configuration record (starting size,
//! maximum size, optional custom supplier) consumed exactly once by `build`.

use vstd::prelude::*;
use crate::collection::{initial_fill, CappedCollection};
use crate::pool::Pool;
use crate::recycle::{FreshSupplier, Recycleable, Supply};
use crate::settings::OptionSetter;

verus! {

/// The starting size a builder begins with when none is chosen.
pub const DEFAULT_STARTING_SIZE: usize = 16;

/// Used to define settings for and ultimately create a `Pool`.
///
/// Unset options keep their defaults: a small positive starting size, an
/// unbounded maximum size, and the payload type's own fresh-construction
/// as the supplier.
pub struct PoolBuilder<T: Recycleable, S: Supply<T> = FreshSupplier> {
    pub starting_size: usize,
    pub max_size: usize,
    pub supplier: Option<S>,
    pub payload: core::marker::PhantomData<T>,
}

/// Produces a `PoolBuilder` instance holding the default settings.
pub fn pool<T: Recycleable, S: Supply<T>>() -> (r: PoolBuilder<T, S>)
    ensures
        r.starting_size == DEFAULT_STARTING_SIZE,
        r.max_size == usize::MAX,
        r.supplier is None,
{
    PoolBuilder {
        starting_size: DEFAULT_STARTING_SIZE,
        max_size: usize::MAX,
        supplier: None,
        payload: core::marker::PhantomData,
    }
}

impl<T: Recycleable, S: Supply<T>> PoolBuilder<T, S> {
    /// Applies one configuration parameter — a starting-size, maximum-size
    /// or supplier setter — and returns the updated builder. Options may be
    /// supplied in any order; a repeated option overwrites the earlier
    /// choice.
    pub fn with<U: OptionSetter<Self>>(self, option_setter: U) -> (r: Self)
        ensures
            r == option_setter.applied(self),
    {
        option_setter.set_option(self)
    }

    /// Consumes the builder and constructs the `Pool`: its collection is
    /// filled with `min(starting_size, max_size)` supplied values and capped
    /// at `max_size`.
    pub fn build(self) -> (r: Pool<T, S>)
        ensures
            r.wf(),
            r.spares().len() == initial_fill(self.starting_size, self.max_size),
            r.max_size_spec() == self.max_size,
    {
        let values: CappedCollection<T, S> = CappedCollection::new(
            self.supplier,
            self.starting_size,
            self.max_size,
        );
        Pool::from_collection(values)
    }
}

} // verus!
