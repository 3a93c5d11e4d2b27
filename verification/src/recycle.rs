//! The capability contracts a payload type needs in order to live in a pool:
//! fresh construction and in-place reset ([`Recycleable`]), filling a fresh
//! value from a source ([`InitializeWith`]), and pluggable allocation
//! ([`Supply`]).

use vstd::prelude::*;
use vstd::string::StringExecFns;

verus! {

/// In order to be managed by a `Pool`, values must be of a type that
/// implements the `Recycleable` trait. This allows the `Pool` to create
/// new instances as well as reset existing instances to a like-new state.
///
/// `is_fresh` says what "like-new" means for the type: both a newly
/// allocated instance and a reset instance satisfy it.
pub trait Recycleable: Sized {
    /// Holds when the value is behaviorally indistinguishable from a
    /// freshly allocated instance.
    spec fn is_fresh(&self) -> bool;

    /// Allocates a new instance of the implementing type.
    fn new() -> (r: Self)
        ensures
            r.is_fresh(),
    ;

    /// Sets the state of the modified instance to be that of a freshly
    /// allocated instance, thereby allowing it to be reused.
    fn reset(&mut self)
        ensures
            final(self).is_fresh(),
    ;
}

/// Informs how an already allocated value should be initialized
/// when provided with a model value or other meaningful input.
pub trait InitializeWith<A>: Sized {
    /// Holds when `self` is the result of initializing `pre` with `source`.
    spec fn initialized_from(&self, pre: Self, source: A) -> bool;

    fn initialize_with(&mut self, source: A)
        ensures
            final(self).initialized_from(*old(self), source),
    ;
}

/// A pluggable factory invoked when a pool's spare collection is empty.
/// Every supplied value must be fresh, so that values drawn from a pool
/// are indistinguishable whether they were recycled or newly supplied.
pub trait Supply<T: Recycleable> {
    fn get(&mut self) -> (r: T)
        ensures
            r.is_fresh(),
    ;
}

/// The default supplier: allocates through the payload type's own
/// fresh-construction operation.
pub struct FreshSupplier;

impl<T: Recycleable> Supply<T> for FreshSupplier {
    fn get(&mut self) -> (r: T) {
        T::new()
    }
}

/// Relies on `String::clear`: it truncates the string to length zero,
/// keeping the allocated capacity.
pub assume_specification[ String::clear ](s: &mut String)
    ensures
        final(s)@ == Seq::<char>::empty(),
;

impl Recycleable for String {
    open spec fn is_fresh(&self) -> bool {
        self@.len() == 0
    }

    fn new() -> (r: String) {
        String::new()
    }

    fn reset(&mut self) {
        self.clear();
    }
}

impl<T> Recycleable for Vec<T> {
    open spec fn is_fresh(&self) -> bool {
        self@.len() == 0
    }

    fn new() -> (r: Vec<T>) {
        Vec::new()
    }

    fn reset(&mut self) {
        self.clear();
    }
}

impl<T> Recycleable for std::collections::VecDeque<T> {
    open spec fn is_fresh(&self) -> bool {
        self@.len() == 0
    }

    fn new() -> (r: std::collections::VecDeque<T>) {
        std::collections::VecDeque::new()
    }

    fn reset(&mut self) {
        self.clear();
    }
}

impl InitializeWith<&str> for String {
    /// A string is initialized from `source` by appending it: the result is
    /// the prior content followed by the characters of `source`.
    open spec fn initialized_from(&self, pre: String, source: &str) -> bool {
        self@ == pre@ + source@
    }

    fn initialize_with(&mut self, source: &str) {
        self.append(source);
    }
}

} // verus!
