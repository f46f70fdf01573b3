//! Exactly-once admission of remote events, keyed by their 32-byte identifiers.

use vstd::prelude::*;
use crate::address::{hash_eq, Hash32};
use crate::error::Error;

verus! {

/// The identifiers of all settled remote events. Entries are never removed.
pub struct ReplayGuard {
    processed: Vec<Hash32>,
}

impl View for ReplayGuard {
    type V = Set<Hash32>;

    closed spec fn view(&self) -> Set<Hash32> {
        self.processed@.to_set()
    }
}

impl ReplayGuard {
    /// A guard that has seen no event.
    pub fn new() -> (r: ReplayGuard)
        ensures
            r@ == Set::<Hash32>::empty(),
    {
        let r = ReplayGuard { processed: Vec::new() };
        assert(r@ =~= Set::<Hash32>::empty());
        r
    }

    /// Whether the event `event_id` was settled.
    pub fn is_processed(&self, event_id: &Hash32) -> (r: bool)
        ensures
            r == self@.contains(*event_id),
    {
        let mut i: usize = 0;
        while i < self.processed.len()
            invariant
                i <= self.processed@.len(),
                forall|j: int| 0 <= j < i ==> self.processed@[j] != *event_id,
            decreases self.processed@.len() - i,
        {
            if hash_eq(&self.processed[i], event_id) {
                assert(self.processed@.contains(*event_id));
                return true;
            }
            i = i + 1;
        }
        false
    }

    /// Fails with `EventAlreadyHandled` where `event_id` was settled.
    pub fn ensure_not_processed(&self, event_id: &Hash32) -> (r: Result<(), Error>)
        ensures
            r == (if self@.contains(*event_id) {
                Err(Error::EventAlreadyHandled)
            } else {
                Ok(())
            }),
    {
        if self.is_processed(event_id) {
            Err(Error::EventAlreadyHandled)
        } else {
            Ok(())
        }
    }

    /// Records `event_id` as settled.
    pub fn mark_processed(&mut self, event_id: Hash32)
        ensures
            final(self)@ == old(self)@.insert(event_id),
    {
        if !self.is_processed(&event_id) {
            self.processed.push(event_id);
        }
        assert(final(self)@ =~= old(self)@.insert(event_id)) by {
            assert(self.processed@.contains(event_id)) by {
                if !old(self)@.contains(event_id) {
                    assert(self.processed@[old(self).processed@.len() as int] == event_id);
                }
            }
            assert forall|x: Hash32| #[trigger] old(self)@.contains(x) implies self@.contains(x) by {
                let j = choose|j: int| 0 <= j < old(self).processed@.len() && old(self).processed@[j] == x;
                assert(self.processed@[j] == x);
            }
        }
    }
}

} // verus!
