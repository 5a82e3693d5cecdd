//! Listener handles: identities of host callbacks.
use vstd::prelude::*;

verus! {

/// Handle of a listener callback.
///
/// A listener is known by the id it was created with, never by what its callback does:
/// two handles are equal exactly when their ids are. The callbacks themselves stay with
/// the host, keyed by these ids.
#[derive(Clone, Copy, Debug, PartialEq, Eq, Structural, Hash)]
pub struct EventListener {
    id: u64,
}

impl EventListener {
    pub closed spec fn spec_id(self) -> u64 {
        self.id
    }

    /// The id of the listener.
    pub fn id(&self) -> (r: u64)
        ensures
            r == self.spec_id(),
    {
        self.id
    }
}

/// Source of listener handles with increasing ids.
#[derive(Debug)]
pub struct ListenerIds {
    next: u64,
}

impl ListenerIds {
    /// The id that the next handle will carry.
    pub closed spec fn spec_next(&self) -> u64 {
        self.next
    }

    /// A source whose first handle has id 0.
    pub fn new() -> (r: ListenerIds)
        ensures
            r.spec_next() == 0,
    {
        ListenerIds { next: 0 }
    }

    /// A handle with a fresh id, larger than that of every handle created before by this
    /// source; `None` once the ids are exhausted.
    pub fn create(&mut self) -> (r: Option<EventListener>)
        ensures
            old(self).spec_next() < u64::MAX ==> (r matches Some(l) && l.spec_id() == old(
                self,
            ).spec_next()) && final(self).spec_next() == old(self).spec_next() + 1,
            old(self).spec_next() == u64::MAX ==> r is None && final(self).spec_next() == old(
                self,
            ).spec_next(),
    {
        if self.next == u64::MAX {
            None
        } else {
            let l = EventListener { id: self.next };
            self.next = self.next + 1;
            Some(l)
        }
    }
}

} // verus!
