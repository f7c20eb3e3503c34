//! The bridge core: discovery state and the shared link slot of one
//! bridge instance.
//!
//! One bridge tracks exactly one peer.  Discovery consumes
//! advertisement events, asks the mesh transport for a link when the
//! advertised peer is the configured target, and installs the
//! resulting link; the outbound pump clears the slot again on a
//! link-closed event.  The asynchronous loops around these decisions
//! live outside the library: they hand each event to the step
//! functions here and perform the returned action.
//!
//! Re-entry into discovery after link loss is resolved explicitly:
//! clearing the tracker on a link-closed event also returns discovery
//! to `Idle`, so a later advertisement for the target re-establishes
//! the link without an external restart of the discovery loop.

use vstd::prelude::*;

use crate::addr::LinkId;
use crate::addr::PeerAddress;
use crate::addr::peer_matches;
use crate::outbound::LinkEvent;
use crate::outbound::LinkEventData;
use crate::tracker::LinkTracker;

verus! {

/// The discovery state machine of one bridge instance.
#[derive(Clone, Copy, PartialEq, Eq, Structural, Debug)]
pub enum DiscoveryState {
    /// No link has been established; advertisements for the target
    /// trigger link establishment.
    Idle,
    /// A link has been established and installed in the tracker;
    /// further advertisements are ignored until the link closes.
    LinkEstablished,
}

/// The state shared by the discovery loop and the two pumps: the
/// configured target peer, the link tracker and the discovery state.
#[derive(Clone, Copy, PartialEq, Eq, Structural, Debug)]
pub struct BridgeCore {
    /// Address identifier of the one peer this bridge forwards for.
    pub target: PeerAddress,
    /// The single slot holding the current link, if any.
    pub tracker: LinkTracker,
    /// Where discovery stands.
    pub discovery: DiscoveryState,
}

/// Whether an advertisement for `adv` makes discovery request link
/// establishment: only for the configured target, and only while no
/// link is established.
pub open spec fn spec_advertisement_wants_link(s: BridgeCore, adv: PeerAddress) -> bool {
    s.discovery is Idle && adv == s.target
}

/// State after the mesh transport completed link establishment with
/// link `id`: the tracker holds the link and discovery rests until the
/// link closes.
pub open spec fn spec_established_step(s: BridgeCore, id: LinkId) -> BridgeCore {
    BridgeCore {
        tracker: LinkTracker { current: Some(id) },
        discovery: DiscoveryState::LinkEstablished,
        ..s
    }
}

/// One full discovery iteration over an advertisement: decide, and if
/// a link was requested and the transport produced one, install it.
/// `established` is the transport's response where one was requested.
pub open spec fn spec_discovery_step(
    s: BridgeCore,
    adv: PeerAddress,
    established: Option<LinkId>,
) -> BridgeCore {
    if spec_advertisement_wants_link(s, adv) {
        match established {
            Some(id) => spec_established_step(s, id),
            None => s,
        }
    } else {
        s
    }
}

/// An advertisement whose peer identifier differs from the configured
/// target leaves the link tracker — indeed the whole bridge state —
/// unchanged, whatever the transport would have answered.
pub proof fn lemma_foreign_advertisement_leaves_tracker(
    s: BridgeCore,
    adv: PeerAddress,
    established: Option<LinkId>,
)
    requires
        adv != s.target,
    ensures
        spec_discovery_step(s, adv, established) == s,
        spec_discovery_step(s, adv, established).tracker == s.tracker,
        !spec_advertisement_wants_link(s, adv),
{
}

impl BridgeCore {
    /// A fresh bridge core: no link, discovery idle.
    pub fn new(target: PeerAddress) -> (s: BridgeCore)
        ensures
            s.target == target,
            s.tracker.link() is None,
            s.discovery is Idle,
    {
        BridgeCore { target, tracker: LinkTracker::new(), discovery: DiscoveryState::Idle }
    }

    /// Discovery: decides whether an advertisement for peer `adv`
    /// shall trigger link establishment.  The state itself is
    /// untouched; it changes only when establishment completes and the
    /// link is installed.
    pub fn on_advertisement(&self, adv: &PeerAddress) -> (establish: bool)
        ensures
            establish == spec_advertisement_wants_link(*self, *adv),
    {
        match self.discovery {
            DiscoveryState::Idle => peer_matches(adv, &self.target),
            DiscoveryState::LinkEstablished => false,
        }
    }

    /// Discovery: installs the link the mesh transport established,
    /// replacing any previous one, and leaves discovery at rest.
    pub fn on_link_established(&mut self, id: LinkId)
        ensures
            *final(self) == spec_established_step(*old(self), id),
            final(self).tracker.link() == Some(id),
            final(self).discovery is LinkEstablished,
            final(self).target == old(self).target,
    {
        self.tracker.set(id);
        self.discovery = DiscoveryState::LinkEstablished;
    }

    /// A snapshot of the tracked link, for the inbound pump: taken
    /// under exclusion, acted on after releasing it.
    pub fn link_snapshot(&self) -> (r: Option<LinkId>)
        ensures
            r == self.tracker.link(),
    {
        self.tracker.get()
    }

    /// Reverse-direction discovery: where the peer initiates the
    /// link, the local end discovers it not through an advertisement
    /// but through the activation of an inbound link.  An `Activated`
    /// event for the target peer is advertisement and establishment in
    /// one, and installs the event's link; every other event installs
    /// nothing and changes nothing here.
    pub fn on_activation_discovery(&mut self, ev: &LinkEventData) -> (installed: bool)
        ensures
            installed <==> (ev.peer == old(self).target && ev.event is Activated),
            installed ==> *final(self) == spec_established_step(*old(self), ev.id),
            !installed ==> *final(self) == *old(self),
    {
        let activated = match ev.event {
            LinkEvent::Activated => true,
            _ => false,
        };
        if activated && peer_matches(&ev.peer, &self.target) {
            self.on_link_established(ev.id);
            true
        } else {
            false
        }
    }
}

} // verus!
