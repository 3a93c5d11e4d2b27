//! An object-reuse pool: it hands out pre-allocated heap-backed values
//! (strings, dynamic arrays, deques) wrapped in handles, and takes them back
//! for reuse instead of freeing the underlying allocation.
//!
//! A [`Pool`] owns a bounded, last-in-first-out store of spare values (the
//! [`CappedCollection`]). Checking a value out pops the most recently stored
//! spare, or asks a supplier for a fresh one when the store is empty. Giving a
//! handle back resets the value to its like-new state and pushes it, unless
//! the store is already at capacity, in which case the value is dropped.

pub mod builder;
pub mod collection;
pub mod handle;
pub mod laws;
pub mod pool;
pub mod recycle;
pub mod settings;
pub mod string_pool;

pub use builder::{pool, PoolBuilder};
pub use collection::CappedCollection;
pub use handle::{RcRecycled, Recycled};
pub use pool::Pool;
pub use settings::{MaxSize, OptionSetter, StartingSize, Supplier};
pub use string_pool::{RecycledString, StringPool};
pub use recycle::{FreshSupplier, InitializeWith, Recycleable, Supply};
