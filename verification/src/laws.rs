//! The laws the pool obeys, stated over the same spec functions that the
//! executable operations' contracts use ([`takes_one`] and [`gives_back`]),
//! so that each law holds of any sequence of pool operations.

use vstd::prelude::*;
use crate::pool::{gives_back, takes_one, Pool};
use crate::recycle::{InitializeWith, Recycleable, Supply};

verus! {

/// Checking one value out of a pool holding `n` spares leaves `n - 1` when
/// `n` was positive (a fresh value is supplied and the count stays `0` when
/// it was not), and giving the resulting handle back brings the count to
/// `min(n, capacity)`.
///
/// The empty-but-capped pool is left out: with `n == 0` and a positive
/// capacity, giving the supplied value back stores it, so the count ends at
/// `1` rather than at `min(0, capacity) == 0`.
pub proof fn lemma_checkout_then_give_back<T: Recycleable, S: Supply<T>>(
    p0: Pool<T, S>,
    p1: Pool<T, S>,
    p2: Pool<T, S>,
    taken: T,
)
    requires
        p0.wf(),
        p0.spares().len() > 0 || p0.max_size_spec() == 0,
        takes_one(p0, p1, taken),
        gives_back(p1, p2),
    ensures
        p1.spares().len() == if p0.spares().len() > 0 {
            p0.spares().len() - 1
        } else {
            0
        },
        p2.spares().len() == if p0.spares().len() <= p0.max_size_spec() {
            p0.spares().len() as int
        } else {
            p0.max_size_spec() as int
        },
{
}

/// A checkout never touches the capacity, and the value drawn out is always
/// fresh, whether it was a stored spare or newly supplied.
pub proof fn lemma_checkout_fresh<T: Recycleable, S: Supply<T>>(
    p0: Pool<T, S>,
    p1: Pool<T, S>,
    taken: T,
)
    requires
        p0.wf(),
        takes_one(p0, p1, taken),
    ensures
        taken.is_fresh(),
        p1.max_size_spec() == p0.max_size_spec(),
        p1.wf(),
{
    assert forall|i: int| 0 <= i < p1.spares().len() implies p1.spares()[i].is_fresh() by {
        assert(p1.spares()[i] == p0.spares()[i]);
    }
}

/// Donating a value to a pool that still has room increases the count by
/// exactly one; every other give-back with room behaves the same way.
pub proof fn lemma_donation_counts<T: Recycleable, S: Supply<T>>(p0: Pool<T, S>, p1: Pool<T, S>)
    requires
        p0.wf(),
        p0.spares().len() < p0.max_size_spec(),
        gives_back(p0, p1),
    ensures
        p1.spares().len() == p0.spares().len() + 1,
        p1.wf(),
{
    lemma_give_back_wf(p0, p1);
}

/// A value given back to a full pool is discarded: the spares are exactly
/// what they were, never more than the capacity.
pub proof fn lemma_full_pool_discards<T: Recycleable, S: Supply<T>>(p0: Pool<T, S>, p1: Pool<T, S>)
    requires
        p0.wf(),
        p0.spares().len() >= p0.max_size_spec(),
        gives_back(p0, p1),
    ensures
        p1.spares() == p0.spares(),
        p1.spares().len() == p0.max_size_spec(),
        p1.wf(),
{
}

/// Any give-back preserves the pool's invariant.
pub proof fn lemma_give_back_wf<T: Recycleable, S: Supply<T>>(p0: Pool<T, S>, p1: Pool<T, S>)
    requires
        p0.wf(),
        gives_back(p0, p1),
    ensures
        p1.wf(),
{
    if p0.spares().len() < p0.max_size_spec() {
        assert forall|i: int| 0 <= i < p1.spares().len() implies p1.spares()[i].is_fresh() by {
            if i < p1.spares().len() - 1 {
                assert(p1.spares()[i] == p1.spares().drop_last()[i]);
            } else {
                assert(p1.spares()[i] == p1.spares().last());
            }
        }
    }
}

/// The capacity clamp: asking for more initial values than the pool may
/// retain fills it exactly to its maximum, however large the request.
pub proof fn lemma_capacity_clamp(initial: usize, max: usize)
    requires
        initial > max,
    ensures
        crate::collection::initial_fill(initial, max) == max,
{
}

/// The round trip for strings: initializing a fresh string with `source`
/// yields exactly the content of `source`, so a value checked out through
/// `new_from(source)` reads back as `source`.
pub proof fn lemma_fresh_string_initialized(f: String, r: String, source: &str)
    requires
        f.is_fresh(),
        r.initialized_from(f, source),
    ensures
        r@ == source@,
{
    assert(f@ =~= Seq::<char>::empty());
    assert(f@ + source@ =~= source@);
}

} // verus!
