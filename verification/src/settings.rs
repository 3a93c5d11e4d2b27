//! Configuration parameters for the builder API: each setter names one
//! option of a [`PoolBuilder`] and rewrites exactly that option.

use vstd::prelude::*;
use crate::builder::PoolBuilder;
use crate::recycle::{Recycleable, Supply};

verus! {

/// Implementing this trait allows a struct to act as a configuration
/// parameter in the builder API. `applied` says exactly which builder the
/// setter produces.
pub trait OptionSetter<B> {
    /// The configuration after this setter has been applied to `pre`.
    spec fn applied(&self, pre: B) -> B;

    fn set_option(self, builder: B) -> (r: B)
        ensures
            r == self.applied(builder),
    ;
}

/// Specifies how many values should be requested from the supplier at
/// initialization time. These values will be available for immediate use.
pub struct StartingSize(pub usize);

/// Specifies the largest number of values the `Pool` will hold before it
/// will begin to drop values being returned to it.
pub struct MaxSize(pub usize);

/// Specifies a value implementing `Supply<T>` that will be used to allocate
/// new values. If unspecified, `T::new()` will be invoked.
pub struct Supplier<S> {
    supplier: S,
}

impl<S> Supplier<S> {
    /// The wrapped supplier.
    pub closed spec fn supplier_spec(&self) -> S {
        self.supplier
    }

    pub fn new(supplier: S) -> (r: Supplier<S>)
        ensures
            r.supplier_spec() == supplier,
    {
        Supplier { supplier }
    }
}

impl<T: Recycleable, S: Supply<T>> OptionSetter<PoolBuilder<T, S>> for StartingSize {
    open spec fn applied(&self, pre: PoolBuilder<T, S>) -> PoolBuilder<T, S> {
        PoolBuilder { starting_size: self.0, ..pre }
    }

    fn set_option(self, builder: PoolBuilder<T, S>) -> (r: PoolBuilder<T, S>) {
        let StartingSize(size) = self;
        let mut builder = builder;
        builder.starting_size = size;
        builder
    }
}

impl<T: Recycleable, S: Supply<T>> OptionSetter<PoolBuilder<T, S>> for MaxSize {
    open spec fn applied(&self, pre: PoolBuilder<T, S>) -> PoolBuilder<T, S> {
        PoolBuilder { max_size: self.0, ..pre }
    }

    fn set_option(self, builder: PoolBuilder<T, S>) -> (r: PoolBuilder<T, S>) {
        let MaxSize(size) = self;
        let mut builder = builder;
        builder.max_size = size;
        builder
    }
}

impl<T: Recycleable, S: Supply<T>> OptionSetter<PoolBuilder<T, S>> for Supplier<S> {
    open spec fn applied(&self, pre: PoolBuilder<T, S>) -> PoolBuilder<T, S> {
        PoolBuilder { supplier: Some(self.supplier_spec()), ..pre }
    }

    fn set_option(self, builder: PoolBuilder<T, S>) -> (r: PoolBuilder<T, S>) {
        let Supplier { supplier } = self;
        let mut builder = builder;
        builder.supplier = Some(supplier);
        builder
    }
}

} // verus!
