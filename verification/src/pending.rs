//! The pending table: a concurrency-safe map from request id to the
//! waiter that will receive the response.
//!
//! The send path registers a waiter under a fresh id before the frame is
//! written; the reader side resolves the matching id exactly once and the
//! entry is removed on resolution. A response for an id with no entry is
//! dropped silently by the caller (an expected race under timeout or
//! cancellation), which `resolve` reports as `None`.

use std::collections::HashMap;
use vstd::prelude::*;

verus! {

broadcast use vstd::std_specs::hash::group_hash_axioms;

/// Map from outstanding request id to its waiter. At most one entry per
/// id; an entry is removed the moment it is resolved.
pub struct PendingTable<T> {
    entries: HashMap<u64, T>,
}

impl<T> PendingTable<T> {
    /// The table as a mathematical map from id to waiter.
    pub closed spec fn view(&self) -> Map<u64, T> {
        self.entries@
    }

    /// An empty table.
    pub fn new() -> (t: Self)
        ensures
            t@ == Map::<u64, T>::empty(),
    {
        PendingTable { entries: HashMap::new() }
    }

    /// How many requests are outstanding.
    pub fn len(&self) -> (n: usize)
        ensures
            n == self@.len(),
    {
        self.entries.len()
    }

    /// Whether a request with this id is outstanding.
    pub fn contains(&self, id: u64) -> (r: bool)
        ensures
            r == self@.contains_key(id),
    {
        self.entries.contains_key(&id)
    }

    /// Register a waiter under an id. Called by the send path before the
    /// frame is written, so a response cannot arrive first.
    pub fn register(&mut self, id: u64, waiter: T)
        ensures
            final(self)@ == old(self)@.insert(id, waiter),
    {
        self.entries.insert(id, waiter);
    }

    /// Remove and return the waiter for `id`: `Some` exactly when the id
    /// was outstanding, and the entry is gone afterwards, so a duplicate
    /// response finds nothing.
    pub fn resolve(&mut self, id: u64) -> (r: Option<T>)
        ensures
            final(self)@ == old(self)@.remove(id),
            r matches Some(w) ==> old(self)@.contains_key(id) && w == old(self)@[id],
            r is None ==> !old(self)@.contains_key(id),
    {
        self.entries.remove(&id)
    }

    /// Empty the table and hand every waiter back, one per outstanding
    /// request, in no particular order. On a fatal transport error the
    /// caller drops them, so every pending waiter observes a closed
    /// channel.
    pub fn drain(&mut self) -> (r: Vec<T>)
        ensures
            final(self)@ == Map::<u64, T>::empty(),
            r@.len() == old(self)@.len(),
    {
        let mut taken: HashMap<u64, T> = HashMap::new();
        std::mem::swap(&mut self.entries, &mut taken);
        map_into_values(taken)
    }
}

/// Relies on `HashMap::into_values` collected into a vector: one
/// element per entry of the map, in no specified order.
#[verifier::external_body]
fn map_into_values<T>(m: HashMap<u64, T>) -> (r: Vec<T>)
    ensures
        r@.len() == m@.len(),
{
    m.into_values().collect()
}

/// Exactly-one resolution: once an id is resolved its entry is gone, so a
/// duplicate response for the same id resolves nothing and leaves the
/// table as it was — a no-op, not a double resolve.
pub proof fn lemma_resolve_exactly_once<T>(m: Map<u64, T>, id: u64)
    ensures
        !m.remove(id).contains_key(id),
        m.remove(id).remove(id) =~= m.remove(id),
{
}

/// Out-of-order completion: resolving one id leaves every other
/// outstanding request exactly as it was, so a later response can still
/// resolve an earlier id.
pub proof fn lemma_out_of_order<T>(m: Map<u64, T>, first: u64, second: u64)
    requires
        m.contains_key(first),
        m.contains_key(second),
        first != second,
    ensures
        m.remove(second).contains_key(first),
        m.remove(second)[first] == m[first],
        m.remove(second).remove(first) =~= m.remove(first).remove(second),
{
}

} // verus!
