//! The Link Tracker: the single shared slot holding the identifier of
//! the currently usable link to the target peer.
//!
//! Discovery installs a link, the inbound pump snapshots it, and the
//! outbound pump clears it on a link-closed event.  The tracker itself
//! is plain data; the caller guards it with a mutual-exclusion
//! primitive and must hold that exclusion only long enough to copy or
//! replace the identifier — never across a call into the mesh
//! transport or the local endpoint.  Readers therefore act on a
//! snapshot, and concurrent `set`/`clear` resolve as last-writer-wins.

use vstd::prelude::*;

use crate::addr::LinkId;

verus! {

/// At most one link is tracked at any time: the slot is the whole
/// state, and replacing it discards the previous link.
#[derive(Clone, Copy, PartialEq, Eq, Structural, Debug)]
pub struct LinkTracker {
    pub current: Option<LinkId>,
}

impl LinkTracker {
    /// The tracked link, or `None` while the bridge has no usable link.
    pub open spec fn link(&self) -> Option<LinkId> {
        self.current
    }

    /// A fresh tracker holds no link.
    pub fn new() -> (t: LinkTracker)
        ensures
            t.link() is None,
    {
        LinkTracker { current: None }
    }

    /// Installs `id` as the current link, replacing any previous one.
    pub fn set(&mut self, id: LinkId)
        ensures
            final(self).link() == Some(id),
    {
        self.current = Some(id);
    }

    /// Returns a snapshot of the current link without changing it.
    pub fn get(&self) -> (r: Option<LinkId>)
        ensures
            r == self.link(),
    {
        self.current
    }

    /// Removes the tracked link unconditionally.  Clearing an already
    /// empty tracker leaves it exactly as it was.
    pub fn clear(&mut self)
        ensures
            final(self).link() is None,
            old(self).link() is None ==> *final(self) == *old(self),
    {
        self.current = None;
    }
}

} // verus!
