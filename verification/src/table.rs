//! The foreign handle table: a native-side map from odd indices to owned
//! values, standing in for objects created on the foreign side. The foreign
//! side holds only the issued index, wrapped in a [`Handle`].

use vstd::prelude::*;
use std::collections::HashMap;
use crate::handle::{Handle, HandleError};

verus! {

broadcast use vstd::std_specs::hash::group_hash_axioms;

/// A table of owned values keyed by odd indices.
///
/// Indices are issued by a counter seeded at 1 and advanced by 2 on each
/// insert, so every issued index is odd by construction and no index is ever
/// issued twice within the table's lifetime — removal frees the entry but
/// never its index, which closes the stale-handle (ABA) hazard. When the
/// counter can no longer advance, insertion fails rather than wrapping.
///
/// The table is a plain value with no internal lock; an embedding that calls
/// it from several threads places it behind its own mutual exclusion.
pub struct HandleMap<T> {
    next: u64,
    entries: HashMap<u64, T>,
}

impl<T> View for HandleMap<T> {
    type V = Map<u64, T>;

    /// The live entries, keyed by the raw value of the issued handle.
    closed spec fn view(&self) -> Map<u64, T> {
        self.entries@
    }
}

impl<T> HandleMap<T> {
    /// The index the next successful insert will issue.
    pub closed spec fn next_index(&self) -> u64 {
        self.next
    }

    /// Well-formedness: the counter is odd, and every live index is odd and
    /// was issued before the counter reached its current value.
    pub open spec fn wf(&self) -> bool {
        &&& self.next_index() % 2 == 1
        &&& forall|k: u64| #[trigger] self@.contains_key(k) ==> k % 2 == 1 && k < self.next_index()
    }

    /// An empty table whose counter starts at 1.
    pub fn new() -> (m: Self)
        ensures
            m.wf(),
            m@ == Map::<u64, T>::empty(),
            m.next_index() == 1,
    {
        HandleMap { next: 1, entries: HashMap::new() }
    }

    /// Store a value under the next free odd index and hand back the handle
    /// for it. The issued index is fresh — no live entry uses it — and odd.
    /// Fails with `AllocationExhausted` exactly when the counter cannot
    /// advance by 2 without wrapping.
    pub fn insert(&mut self, value: T) -> (r: Result<Handle, HandleError>)
        requires
            old(self).wf(),
        ensures
            final(self).wf(),
            match r {
                Ok(h) => {
                    &&& h@ == old(self).next_index()
                    &&& h@ % 2 == 1
                    &&& !old(self)@.contains_key(h@)
                    &&& final(self)@ == old(self)@.insert(h@, value)
                    &&& final(self).next_index() == old(self).next_index() + 2
                },
                Err(e) => {
                    &&& e == HandleError::AllocationExhausted
                    &&& old(self).next_index() + 2 > u64::MAX
                    &&& final(self)@ == old(self)@
                    &&& final(self).next_index() == old(self).next_index()
                },
            },
    {
        if self.next > u64::MAX - 2 {
            return Err(HandleError::AllocationExhausted);
        }
        let index = self.next;
        self.next = index + 2;
        self.entries.insert(index, value);
        proof {
            assert forall|k: u64| #[trigger] self@.contains_key(k) implies k % 2 == 1 && k
                < self.next_index() by {
                if k != index {
                    assert(old(self)@.contains_key(k));
                }
            }
        }
        Ok(Handle::from_raw_unchecked(index))
    }

    /// Borrow the value a handle was issued for. Fails with `InvalidHandle`
    /// exactly when the handle is even (wrong provenance) or its index holds
    /// no live entry (never allocated, or already removed).
    pub fn get(&self, handle: Handle) -> (r: Result<&T, HandleError>)
        ensures
            match r {
                Ok(v) => handle@ % 2 == 1 && self@.contains_key(handle@) && *v == self@[handle@],
                Err(e) => {
                    &&& e == HandleError::InvalidHandle
                    &&& !(handle@ % 2 == 1 && self@.contains_key(handle@))
                },
            },
    {
        let raw = handle.as_raw();
        if raw % 2 == 0 {
            return Err(HandleError::InvalidHandle);
        }
        match self.entries.get(&raw) {
            Some(v) => Ok(v),
            None => Err(HandleError::InvalidHandle),
        }
    }

    /// Remove the value a handle was issued for and return ownership of it,
    /// freeing the entry; the index itself is never reissued. Fails with
    /// `InvalidHandle` exactly when the handle is even or its index holds no
    /// live entry, so a second removal of the same handle always fails.
    pub fn remove(&mut self, handle: Handle) -> (r: Result<T, HandleError>)
        requires
            old(self).wf(),
        ensures
            final(self).wf(),
            final(self).next_index() == old(self).next_index(),
            match r {
                Ok(v) => {
                    &&& handle@ % 2 == 1
                    &&& old(self)@.contains_key(handle@)
                    &&& v == old(self)@[handle@]
                    &&& final(self)@ == old(self)@.remove(handle@)
                },
                Err(e) => {
                    &&& e == HandleError::InvalidHandle
                    &&& !(handle@ % 2 == 1 && old(self)@.contains_key(handle@))
                    &&& final(self)@ == old(self)@
                },
            },
    {
        let raw = handle.as_raw();
        if raw % 2 == 0 {
            return Err(HandleError::InvalidHandle);
        }
        let r = self.entries.remove(&raw);
        proof {
            assert forall|k: u64| #[trigger] self@.contains_key(k) implies k % 2 == 1 && k
                < self.next_index() by {
                assert(old(self)@.contains_key(k));
            }
            if r is None {
                assert(self@ =~= old(self)@);
            }
        }
        match r {
            Some(v) => Ok(v),
            None => Err(HandleError::InvalidHandle),
        }
    }
}

/// Law: every index a well-formed table holds is odd — the low bit is set —
/// so the provenance discriminator routes every table-issued handle back to
/// the table, never to the pointer path.
pub proof fn lemma_table_indices_odd<T>(m: &HandleMap<T>, k: u64)
    requires
        m.wf(),
        m@.contains_key(k),
    ensures
        k % 2 == 1,
        k & 1 == 1,
        Handle::spec_from_raw_unchecked(k).spec_provenance() == crate::handle::Provenance::Foreign,
{
    crate::handle::lemma_low_bit_is_parity(k);
    crate::handle::lemma_spec_from_raw_unchecked_view(k);
}

/// Law: freshness. A well-formed table's next index is not the index of any
/// live entry, so the handle a successful insert returns collides with no
/// handle the table still backs; and since each insert leaves the counter
/// strictly larger while every live index stays below it, no two successful
/// inserts ever return the same index.
pub proof fn lemma_next_index_fresh<T>(m: &HandleMap<T>)
    requires
        m.wf(),
    ensures
        !m@.contains_key(m.next_index()),
{
}

/// Law: insert/get/remove round trip over the table's view. Once an insert
/// has issued a fresh index `k` for a value `x`, a `get` of `k` succeeds and
/// finds exactly `x`; a `remove` of `k` succeeds, returns `x` by `remove`'s
/// contract, and restores the prior contents; and after that removal a
/// further `get` or `remove` of `k` finds no entry, so by their contracts
/// both fail with `InvalidHandle`.
pub proof fn lemma_insert_get_remove_round_trip<T>(t0: Map<u64, T>, k: u64, x: T)
    requires
        !t0.contains_key(k),
    ensures
        t0.insert(k, x).contains_key(k),
        t0.insert(k, x)[k] == x,
        t0.insert(k, x).remove(k) == t0,
        !t0.insert(k, x).remove(k).contains_key(k),
{
    assert(t0.insert(k, x).remove(k) =~= t0);
}

} // verus!
