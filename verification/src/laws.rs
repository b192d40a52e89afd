//! The laws the cache obeys.
//!
//! Each lemma is stated over the cache's model — its slot table (the view)
//! and its strategy — and relates states the way the operations' contracts
//! do: a premise such as `c1@ == c0@.update(..)` is exactly what
//! [`Rulette::insert`] ensures of the state it leaves behind, so each law
//! holds of every pair of states an actual call can produce.

use vstd::prelude::*;

use crate::cache::Rulette;
use crate::digest::BuildDigest;

verus! {

/// Slot uniqueness: when two distinct keys resolve to the same slot,
/// inserting the first and then the second leaves only the second
/// retrievable, and the second insertion evicts the first key's pair.
pub proof fn lemma_slot_uniqueness<K: Eq, V, S: BuildDigest<K>>(
    c0: Rulette<K, V, S>,
    c1: Rulette<K, V, S>,
    c2: Rulette<K, V, S>,
    k1: K,
    v1: V,
    k2: K,
    v2: V,
)
    requires
        c0.wf(),
        k1 != k2,
        c0.spec_slot_index(k1) == c0.spec_slot_index(k2),
        // c1 is c0 after insert(k1, v1), as insert's contract describes it:
        c1@ == c0@.update(c0.spec_slot_index(k1), Some((k1, v1))),
        c1.strategy() == c0.strategy(),
        // c2 is c1 after insert(k2, v2):
        c2@ == c1@.update(c1.spec_slot_index(k2), Some((k2, v2))),
        c2.strategy() == c1.strategy(),
    ensures
        c2.spec_get(k2) == Some(v2),
        c2.spec_get(k1) is None,
        c1@[c1.spec_slot_index(k2)] == Some((k1, v1)),
{
}

/// Round trip: inserting `(k, v)` makes `k` resolve to `Some(v)`, as long
/// as no intervening operation touches `k`'s slot.
pub proof fn lemma_insert_then_get<K: Eq, V, S: BuildDigest<K>>(
    c0: Rulette<K, V, S>,
    c1: Rulette<K, V, S>,
    k: K,
    v: V,
)
    requires
        c0.wf(),
        // c1 is c0 after insert(k, v), as insert's contract describes it:
        c1@ == c0@.update(c0.spec_slot_index(k), Some((k, v))),
        c1.strategy() == c0.strategy(),
    ensures
        c1.spec_get(k) == Some(v),
{
}

/// Collision miss: after inserting `k1` and then a colliding `k2`, a lookup
/// of `k1` misses — the slot exists, but its occupant is no longer `k1`.
pub proof fn lemma_collision_miss<K: Eq, V, S: BuildDigest<K>>(
    c0: Rulette<K, V, S>,
    c1: Rulette<K, V, S>,
    c2: Rulette<K, V, S>,
    k1: K,
    v1: V,
    k2: K,
    v2: V,
)
    requires
        c0.wf(),
        k1 != k2,
        c0.spec_slot_index(k1) == c0.spec_slot_index(k2),
        c1@ == c0@.update(c0.spec_slot_index(k1), Some((k1, v1))),
        c1.strategy() == c0.strategy(),
        c2@ == c1@.update(c1.spec_slot_index(k2), Some((k2, v2))),
        c2.strategy() == c1.strategy(),
    ensures
        c2.spec_get(k1) is None,
{
}

/// Removing a non-occupant: when the slot a queried key resolves to is held
/// by a different key, the lookup of the queried key misses, and the actual
/// occupant — which sits in its own slot — stays retrievable. Together with
/// the contract of [`Rulette::remove`] (which returns `None` and leaves the
/// table untouched in exactly this situation), the occupant survives a
/// removal request for a key that is not actually present.
pub proof fn lemma_remove_nonoccupant<K: Eq, V, S: BuildDigest<K>>(
    c: Rulette<K, V, S>,
    queried: K,
    occupant: K,
    held: V,
)
    requires
        c.wf(),
        occupant != queried,
        c@[c.spec_slot_index(queried)] == Some((occupant, held)),
        c.spec_slot_index(occupant) == c.spec_slot_index(queried),
    ensures
        c.spec_get(queried) is None,
        c.spec_get(occupant) == Some(held),
{
}

/// Clear totality: in the state [`Rulette::clear`] leaves behind — every
/// slot empty — every lookup misses, whatever was inserted before.
pub proof fn lemma_clear_totality<K: Eq, V, S: BuildDigest<K>>(c: Rulette<K, V, S>, k: K)
    requires
        c.wf(),
        forall|i: int| 0 <= i < c@.len() ==> c@[i] is None,
    ensures
        c.spec_get(k) is None,
{
}

/// Capacity one: with a single slot every key resolves to index 0, the
/// maximal-collision case — the cache behaves as a one-value cell.
pub proof fn lemma_single_slot<K: Eq, V, S: BuildDigest<K>>(c: Rulette<K, V, S>, k: K)
    requires
        c.wf(),
        c@.len() == 1,
    ensures
        c.spec_slot_index(k) == 0,
{
}

} // verus!
