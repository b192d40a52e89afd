//! The direct-mapped cache itself.

use vstd::prelude::*;

use crate::digest::BuildDigest;

verus! {

/// The one construction-time error: a capacity of zero leaves no slot for
/// any key, and the index reduction `digest % capacity` would be undefined,
/// so it is rejected at the boundary instead of faulting at first use.
#[derive(Clone, Copy, Debug, PartialEq, Eq, Structural)]
pub enum CacheError {
    InvalidCapacity,
}

/// A fixed-capacity, direct-mapped cache.
///
/// The table is an ordered, fixed-length sequence of slots, each holding at
/// most one `(key, value)` pair; slot `i` is the sole address any key whose
/// digest reduces to `i` may ever occupy. A new insertion unconditionally
/// overwrites the slot's occupant, whether it held the same key (an update)
/// or a different one (a collision eviction).
///
/// The view of a cache is its slot table, a `Seq<Option<(K, V)>>` whose
/// length is the capacity fixed at construction.
pub struct Rulette<K, V, S = crate::digest::MixDigest> {
    storage: Vec<Option<(K, V)>>,
    hasher: S,
}

impl<K, V, S> View for Rulette<K, V, S> {
    type V = Seq<Option<(K, V)>>;

    closed spec fn view(&self) -> Seq<Option<(K, V)>> {
        self.storage@
    }
}

impl<K: Eq, V, S: BuildDigest<K>> Rulette<K, V, S> {
    /// The hashing strategy this cache was built with.
    pub closed spec fn strategy(&self) -> S {
        self.hasher
    }

    /// A cache is well formed when it has at least one slot; both
    /// constructors reject a capacity of zero, so every cache they return
    /// is well formed, and every operation keeps it so.
    pub open spec fn wf(&self) -> bool {
        self@.len() > 0
    }

    /// The one slot index a key may occupy: its digest reduced modulo the
    /// capacity. A pure function of the strategy instance, the capacity and
    /// the key.
    pub open spec fn spec_slot_index(&self, k: K) -> int
        recommends
            self.wf(),
    {
        (self.strategy().digest_spec(k) as int) % (self@.len() as int)
    }

    /// What a lookup of `k` finds: the occupant of `k`'s slot, if that
    /// occupant's key is `k` itself. A slot held by a colliding key is a
    /// miss, indistinguishable from absence.
    pub open spec fn spec_get(&self, k: K) -> Option<V>
        recommends
            self.wf(),
    {
        match self@[self.spec_slot_index(k)] {
            Some(p) => if p.0 == k {
                Some(p.1)
            } else {
                None
            },
            None => None,
        }
    }

    /// Builds a cache of exactly `capacity` empty slots around the supplied
    /// strategy instance, or rejects a capacity of zero.
    pub fn with_capacity_and_hasher(capacity: usize, hasher: S) -> (r: Result<Self, CacheError>)
        ensures
            r is Ok <==> capacity > 0,
            r is Err ==> r->Err_0 == CacheError::InvalidCapacity,
            r is Ok ==> r->Ok_0.wf(),
            r is Ok ==> r->Ok_0@.len() == capacity,
            r is Ok ==> forall|i: int| 0 <= i < capacity ==> r->Ok_0@[i] is None,
            r is Ok ==> r->Ok_0.strategy() == hasher,
    {
        if capacity == 0 {
            return Err(CacheError::InvalidCapacity);
        }
        let mut storage: Vec<Option<(K, V)>> = Vec::new();
        let mut i: usize = 0;
        while i < capacity
            invariant
                i <= capacity,
                storage@.len() == i,
                forall|j: int| 0 <= j < i ==> storage@[j] is None,
            decreases capacity - i,
        {
            storage.push(None);
            i = i + 1;
        }
        Ok(Rulette { storage, hasher })
    }

    /// The slot index `k` resolves to. Deterministic by contract: the result
    /// is pinned to `spec_slot_index`, a pure function of the strategy
    /// instance, the capacity and the key, so repeated calls agree.
    pub fn get_ix(&self, k: &K) -> (ix: usize)
        requires
            self.wf(),
        ensures
            ix == self.spec_slot_index(*k),
            ix < self@.len(),
    {
        let d = self.hasher.digest(k);
        let len = self.storage.len();
        (d % (len as u64)) as usize
    }

    /// Looks `k` up: `Some` of a reference to the stored value exactly when
    /// `k`'s slot is occupied by `k` itself; `None` on an empty slot or on a
    /// collision with a different occupant. No side effects.
    pub fn get(&self, k: &K) -> (r: Option<&V>)
        requires
            self.wf(),
            vstd::laws_eq::obeys_concrete_eq::<K>(),
        ensures
            (match self.spec_get(*k) {
                Some(v) => r is Some && *r.unwrap() == v,
                None => r is None,
            }),
    {
        proof {
            reveal(vstd::laws_eq::obeys_concrete_eq);
        }
        let ix = self.get_ix(k);
        match &self.storage[ix] {
            None => None,
            Some(pair) => {
                if pair.0 == *k {
                    Some(&pair.1)
                } else {
                    None
                }
            },
        }
    }

    /// Looks `k` up like [`Self::get`], but returns a mutable reference, so
    /// the stored value can be updated in place without a reinsertion. The
    /// same miss semantics apply on an empty slot or a collision, and a miss
    /// leaves the cache untouched; on a hit, `k`'s slot ends up holding `k`
    /// paired with whatever the caller leaves behind the reference.
    pub fn get_mut(&mut self, k: &K) -> (r: Option<&mut V>)
        requires
            old(self).wf(),
            vstd::laws_eq::obeys_concrete_eq::<K>(),
        ensures
            (match old(self).spec_get(*k) {
                Some(v) => r is Some && *r.unwrap() == v && final(self)@ == old(self)@.update(
                    old(self).spec_slot_index(*k),
                    Some((*k, *final(r.unwrap()))),
                ),
                None => r is None && final(self)@ == old(self)@,
            }),
            final(self).strategy() == old(self).strategy(),
            final(self).wf(),
    {
        proof {
            reveal(vstd::laws_eq::obeys_concrete_eq);
        }
        let ix = self.get_ix(k);
        let hit: bool = match &self.storage[ix] {
            Some(pair) => pair.0 == *k,
            None => false,
        };
        if !hit {
            return None;
        }
        let slot = &mut self.storage[ix];
        match slot.as_mut() {
            Some(pair) => Some(&mut pair.1),
            None => None,  // the slot was just seen occupied, so this arm is dead
        }
    }

    /// Unconditionally places `(k, v)` into `k`'s slot — a collision with a
    /// different occupant evicts it just like an update of the same key —
    /// and returns the previous occupant of that slot, which may carry a
    /// different key than the one just inserted.
    pub fn insert(&mut self, k: K, v: V) -> (evicted: Option<(K, V)>)
        requires
            old(self).wf(),
        ensures
            evicted == old(self)@[old(self).spec_slot_index(k)],
            final(self)@ == old(self)@.update(old(self).spec_slot_index(k), Some((k, v))),
            final(self).strategy() == old(self).strategy(),
            final(self).wf(),
    {
        let ix = self.get_ix(&k);
        let slot = &mut self.storage[ix];
        let evicted = slot.take();
        *slot = Some((k, v));
        evicted
    }

    /// Removes `k` if `k`'s slot is occupied by `k` itself, clearing the
    /// slot and returning the pair. On an empty slot, or on a slot held by
    /// a different key, returns `None` and leaves the cache untouched: the
    /// unrelated occupant survives the request.
    pub fn remove(&mut self, k: &K) -> (r: Option<(K, V)>)
        requires
            old(self).wf(),
            vstd::laws_eq::obeys_concrete_eq::<K>(),
        ensures
            (match old(self)@[old(self).spec_slot_index(*k)] {
                Some(p) => if p.0 == *k {
                    r == Some(p) && final(self)@ == old(self)@.update(
                        old(self).spec_slot_index(*k),
                        None::<(K, V)>,
                    )
                } else {
                    r is None && final(self)@ == old(self)@
                },
                None => r is None && final(self)@ == old(self)@,
            }),
            final(self).strategy() == old(self).strategy(),
            final(self).wf(),
    {
        proof {
            reveal(vstd::laws_eq::obeys_concrete_eq);
        }
        let ix = self.get_ix(k);
        let occupied_by_k: bool = match &self.storage[ix] {
            Some(pair) => pair.0 == *k,
            None => false,
        };
        if occupied_by_k {
            let slot = &mut self.storage[ix];
            slot.take()
        } else {
            None
        }
    }

    /// Resets every slot to empty in one pass; every previously stored pair
    /// becomes unreachable. Capacity and strategy are untouched.
    pub fn clear(&mut self)
        ensures
            final(self)@.len() == old(self)@.len(),
            forall|i: int| 0 <= i < old(self)@.len() ==> final(self)@[i] is None,
            final(self).strategy() == old(self).strategy(),
    {
        let n = self.storage.len();
        let mut i: usize = 0;
        while i < n
            invariant
                i <= n,
                n == self.storage@.len(),
                forall|j: int| 0 <= j < i ==> self.storage@[j] is None,
                self.hasher == old(self).hasher,
            decreases n - i,
        {
            let slot = &mut self.storage[i];
            *slot = None;
            i = i + 1;
        }
    }
}

impl<K: Eq, V, S: BuildDigest<K> + Default> Rulette<K, V, S> {
    /// Builds a cache of exactly `capacity` empty slots around a
    /// default-constructed strategy instance, or rejects a capacity of zero.
    pub fn with_capacity(capacity: usize) -> (r: Result<Self, CacheError>)
        ensures
            r is Ok <==> capacity > 0,
            r is Err ==> r->Err_0 == CacheError::InvalidCapacity,
            r is Ok ==> r->Ok_0.wf(),
            r is Ok ==> r->Ok_0@.len() == capacity,
            r is Ok ==> forall|i: int| 0 <= i < capacity ==> r->Ok_0@[i] is None,
    {
        Self::with_capacity_and_hasher(capacity, S::default())
    }
}

} // verus!
