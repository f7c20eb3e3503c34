//! The outbound pump: mesh link events to the local endpoint.
//!
//! The pump consumes the mesh transport's link event stream — a
//! possibly-lossy broadcast channel that reports how many events it
//! dropped under backpressure — filters by the configured target peer,
//! writes delivered payloads to the local endpoint, and clears the
//! link tracker on a link-closed event.  Each received channel item is
//! handed to [`BridgeCore::on_channel_event`], and the returned action
//! is performed by the surrounding loop.

use vstd::prelude::*;

use crate::addr::LinkId;
use crate::addr::PeerAddress;
use crate::addr::peer_matches;
use crate::bridge::BridgeCore;
use crate::bridge::DiscoveryState;
use crate::tracker::LinkTracker;

verus! {

/// What the mesh transport reported for one link, in the order it
/// happened on that link.
#[derive(Debug, PartialEq)]
pub enum LinkEvent {
    /// Payload bytes delivered over the link.
    Data(Vec<u8>),
    /// The link has become ready.
    Activated,
    /// The link was closed by either side.
    Closed,
}

/// One link event together with the link it happened on and the
/// address identifier of the peer it concerns.
#[derive(Debug, PartialEq)]
pub struct LinkEventData {
    /// The link the event happened on.
    pub id: LinkId,
    /// Address identifier the event carries; the pump compares it to
    /// the configured target.
    pub peer: PeerAddress,
    /// What happened.
    pub event: LinkEvent,
}

/// One item received from the link event channel.
#[derive(Debug, PartialEq)]
pub enum ChannelEvent {
    /// An event was delivered.
    Delivered(LinkEventData),
    /// The channel dropped this many unread events under load; the
    /// loss is acknowledged, not hidden, and processing continues.
    Lagged(u64),
    /// The channel itself closed; the pump has nothing left to do.
    ChannelClosed,
}

/// What the outbound pump loop must do after one channel item.
#[derive(Debug, PartialEq)]
pub enum OutboundAction {
    /// The event concerns another peer: discard it.
    Ignore,
    /// Write these bytes verbatim, in full, to the local endpoint.  A
    /// write failure is pump-fatal.
    Deliver(Vec<u8>),
    /// Record that the link is ready; no state changed.
    NoteActivated,
    /// The link closed and the tracker was cleared.
    Cleared,
    /// The channel dropped this many events: log the loss and go on.
    WarnLagged(u64),
    /// The event stream ended: the pump terminates.
    Stop,
}

/// State after one channel item: only a link-closed event for the
/// target peer changes anything — it clears the tracker and re-arms
/// discovery.
pub open spec fn spec_channel_step(s: BridgeCore, ev: ChannelEvent) -> BridgeCore {
    match ev {
        ChannelEvent::Delivered(e) => {
            if e.peer == s.target && e.event is Closed {
                BridgeCore {
                    tracker: LinkTracker { current: None },
                    discovery: DiscoveryState::Idle,
                    ..s
                }
            } else {
                s
            }
        },
        ChannelEvent::Lagged(_) => s,
        ChannelEvent::ChannelClosed => s,
    }
}

/// The action owed for one channel item.
pub open spec fn spec_channel_action(s: BridgeCore, ev: ChannelEvent) -> OutboundAction {
    match ev {
        ChannelEvent::Delivered(e) => {
            if e.peer != s.target {
                OutboundAction::Ignore
            } else {
                match e.event {
                    LinkEvent::Data(p) => OutboundAction::Deliver(p),
                    LinkEvent::Activated => OutboundAction::NoteActivated,
                    LinkEvent::Closed => OutboundAction::Cleared,
                }
            }
        },
        ChannelEvent::Lagged(n) => OutboundAction::WarnLagged(n),
        ChannelEvent::ChannelClosed => OutboundAction::Stop,
    }
}

impl BridgeCore {
    /// Outbound pump: decides one channel item.  The caller performs
    /// the returned action: it writes delivered bytes to the local
    /// endpoint, logs activation, loss and closure, and stops the pump
    /// on `Stop` or on a failed write.
    pub fn on_channel_event(&mut self, ev: ChannelEvent) -> (a: OutboundAction)
        ensures
            *final(self) == spec_channel_step(*old(self), ev),
            a == spec_channel_action(*old(self), ev),
            final(self).target == old(self).target,
    {
        match ev {
            ChannelEvent::Delivered(e) => {
                if !peer_matches(&e.peer, &self.target) {
                    OutboundAction::Ignore
                } else {
                    match e.event {
                        LinkEvent::Data(p) => OutboundAction::Deliver(p),
                        LinkEvent::Activated => OutboundAction::NoteActivated,
                        LinkEvent::Closed => {
                            self.tracker.clear();
                            self.discovery = DiscoveryState::Idle;
                            OutboundAction::Cleared
                        },
                    }
                }
            },
            ChannelEvent::Lagged(n) => OutboundAction::WarnLagged(n),
            ChannelEvent::ChannelClosed => OutboundAction::Stop,
        }
    }
}

/// Whether the outbound pump keeps running after performing `a`.
/// `delivered` reports the local endpoint write where `a` asked for
/// one and is meaningless otherwise.  A failed write is pump-fatal —
/// the bridge cannot recover undeliverable peer-bound data — and the
/// end of the event stream stops the pump; everything else, a
/// reported lag included, lets it continue.
pub fn outbound_continue(a: &OutboundAction, delivered: bool) -> (cont: bool)
    ensures
        cont <==> !(a is Stop || (a is Deliver && !delivered)),
{
    match a {
        OutboundAction::Stop => false,
        OutboundAction::Deliver(_) => delivered,
        _ => true,
    }
}

/// A whole pump run over a sequence of channel items: the state after
/// all of them, and the actions they produced, in order.
pub open spec fn spec_pump_run(s: BridgeCore, evs: Seq<ChannelEvent>) -> (BridgeCore, Seq<
    OutboundAction,
>)
    decreases evs.len(),
{
    if evs.len() == 0 {
        (s, Seq::empty())
    } else {
        let next = spec_channel_step(s, evs[0]);
        let action = spec_channel_action(s, evs[0]);
        let rest = spec_pump_run(next, evs.drop_first());
        (rest.0, seq![action] + rest.1)
    }
}

/// The payloads a sequence of actions writes to the local endpoint,
/// in order.
pub open spec fn deliveries_of(actions: Seq<OutboundAction>) -> Seq<Seq<u8>>
    decreases actions.len(),
{
    if actions.len() == 0 {
        Seq::empty()
    } else {
        let rest = deliveries_of(actions.drop_first());
        match actions[0] {
            OutboundAction::Deliver(p) => seq![p@] + rest,
            _ => rest,
        }
    }
}

/// The payloads of the delivered `Data` events for `target` in a
/// sequence of channel items, in delivery order.
pub open spec fn target_payloads_of(target: PeerAddress, evs: Seq<ChannelEvent>) -> Seq<Seq<u8>>
    decreases evs.len(),
{
    if evs.len() == 0 {
        Seq::empty()
    } else {
        let rest = target_payloads_of(target, evs.drop_first());
        match evs[0] {
            ChannelEvent::Delivered(e) => match e.event {
                LinkEvent::Data(p) => {
                    if e.peer == target {
                        seq![p@] + rest
                    } else {
                        rest
                    }
                },
                _ => rest,
            },
            _ => rest,
        }
    }
}

/// Over any run of the outbound pump, the bytes written to the local
/// endpoint are exactly the payloads of the delivered `Data` events
/// for the target peer — byte-identical, one write per event, in the
/// order the channel delivered them — and the configured target never
/// changes.
pub proof fn lemma_pump_delivers_in_order(s: BridgeCore, evs: Seq<ChannelEvent>)
    ensures
        deliveries_of(spec_pump_run(s, evs).1) == target_payloads_of(s.target, evs),
        spec_pump_run(s, evs).0.target == s.target,
    decreases evs.len(),
{
    if evs.len() > 0 {
        let next = spec_channel_step(s, evs[0]);
        let action = spec_channel_action(s, evs[0]);
        let rest = spec_pump_run(next, evs.drop_first());
        lemma_pump_delivers_in_order(next, evs.drop_first());
        assert((seq![action] + rest.1).drop_first() =~= rest.1);
        assert((seq![action] + rest.1)[0] == action);
    }
}

/// A delivered `Data` event for the target peer yields exactly one
/// write action, with byte-identical payload, and changes no state;
/// the pump therefore writes once per such event, in the order the
/// channel delivered them.
pub proof fn lemma_data_event_writes_once(s: BridgeCore, e: LinkEventData)
    requires
        e.peer == s.target,
        e.event is Data,
    ensures
        spec_channel_step(s, ChannelEvent::Delivered(e)) == s,
        spec_channel_action(s, ChannelEvent::Delivered(e)) == OutboundAction::Deliver(
            e.event->Data_0,
        ),
{
}

/// Clearing on link-closed is idempotent: a second consecutive
/// `Closed` event for the same already-cleared tracker changes nothing
/// the second time.
pub proof fn lemma_closed_event_idempotent(s: BridgeCore, e: LinkEventData, e2: LinkEventData)
    requires
        e.event is Closed,
        e2.event is Closed,
        e2.peer == e.peer,
    ensures
        spec_channel_step(spec_channel_step(s, ChannelEvent::Delivered(e)), ChannelEvent::Delivered(e2))
            == spec_channel_step(s, ChannelEvent::Delivered(e)),
{
}

/// A reported lag of `n` is a warning, not a failure: the state is
/// unchanged, the action is the warning, and the pump continues to the
/// next delivered event.
pub proof fn lemma_lag_does_not_stop_pump(s: BridgeCore, n: u64)
    ensures
        spec_channel_step(s, ChannelEvent::Lagged(n)) == s,
        spec_channel_action(s, ChannelEvent::Lagged(n)) == OutboundAction::WarnLagged(n),
{
}

} // verus!
