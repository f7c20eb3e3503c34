use rns_mavlink::addr::AddressParseError;
use rns_mavlink::addr::LinkId;
use rns_mavlink::addr::PeerAddress;
use rns_mavlink::addr::parse_address_bytes;
use rns_mavlink::addr::parse_peer_address;
use rns_mavlink::addr::peer_matches;
use rns_mavlink::bridge::BridgeCore;
use rns_mavlink::bridge::DiscoveryState;
use rns_mavlink::fragment::fragment;
use rns_mavlink::inbound::inbound_gate;
use rns_mavlink::inbound::inbound_step;
use rns_mavlink::outbound::ChannelEvent;
use rns_mavlink::outbound::LinkEvent;
use rns_mavlink::outbound::LinkEventData;
use rns_mavlink::outbound::OutboundAction;
use rns_mavlink::outbound::outbound_continue;
use rns_mavlink::tracker::LinkTracker;
use rns_mavlink::Fc;
use rns_mavlink::FcConfig;
use rns_mavlink::FcError;
use rns_mavlink::Gc;
use rns_mavlink::GcConfig;

fn target() -> PeerAddress {
    PeerAddress {
        id: 0x000102030405060708090a0b0c0d0e0f,
    }
}

fn other() -> PeerAddress {
    PeerAddress {
        id: 0xfefefefefefefefefefefefefefefefe,
    }
}

fn link3() -> LinkId {
    LinkId { id: 3 }
}

fn delivered(peer: PeerAddress, event: LinkEvent) -> ChannelEvent {
    ChannelEvent::Delivered(LinkEventData {
        id: link3(),
        peer,
        event,
    })
}

#[test]
fn parse_valid_lowercase() {
    let a = parse_peer_address("000102030405060708090a0b0c0d0e0f").unwrap();
    assert_eq!(a, target());
}

#[test]
fn parse_valid_uppercase() {
    let a = parse_peer_address("000102030405060708090A0B0C0D0E0F").unwrap();
    assert_eq!(a.id, 0x000102030405060708090a0b0c0d0e0f);
}

#[test]
fn parse_largest_value() {
    let a = parse_peer_address("ffffffffffffffffffffffffffffffff").unwrap();
    assert_eq!(a.id, u128::MAX);
}

#[test]
fn parse_ignores_bytes_after_the_first_32() {
    let a = parse_peer_address("000102030405060708090a0b0c0d0e0f-trailing").unwrap();
    assert_eq!(a, target());
}

#[test]
fn parse_empty_is_too_short() {
    assert_eq!(parse_peer_address(""), Err(AddressParseError::TooShort));
}

#[test]
fn parse_31_digits_is_too_short() {
    assert_eq!(
        parse_peer_address("000102030405060708090a0b0c0d0e0"),
        Err(AddressParseError::TooShort)
    );
}

#[test]
fn parse_rejects_non_hex_byte() {
    assert_eq!(
        parse_peer_address("0001g2030405060708090a0b0c0d0e0f"),
        Err(AddressParseError::NotHex)
    );
}

#[test]
fn parse_rejects_sign_byte() {
    assert_eq!(
        parse_peer_address("+00102030405060708090a0b0c0d0e0f"),
        Err(AddressParseError::NotHex)
    );
}

#[test]
fn parse_bytes_matches_str_parse() {
    let a = parse_address_bytes(b"000102030405060708090a0b0c0d0e0f").unwrap();
    assert_eq!(a, target());
}

#[test]
fn peer_filter_is_equality() {
    assert!(peer_matches(&target(), &target()));
    assert!(!peer_matches(&other(), &target()));
}

#[test]
fn tracker_starts_absent_and_tracks_one_link() {
    let mut t = LinkTracker::new();
    assert_eq!(t.get(), None);
    t.set(link3());
    assert_eq!(t.get(), Some(link3()));
    t.set(LinkId { id: 9 });
    assert_eq!(t.get(), Some(LinkId { id: 9 }));
    t.clear();
    assert_eq!(t.get(), None);
    t.clear();
    assert_eq!(t.get(), None);
}

#[test]
fn fragment_splits_in_order_with_bounded_pieces() {
    let data: Vec<u8> = (0u8..10).collect();
    let frags = fragment(&data, 4);
    assert_eq!(frags.len(), 3);
    assert_eq!(frags[0], vec![0, 1, 2, 3]);
    assert_eq!(frags[1], vec![4, 5, 6, 7]);
    assert_eq!(frags[2], vec![8, 9]);
}

#[test]
fn fragment_of_empty_read_is_empty() {
    let frags = fragment(&[], 16);
    assert!(frags.is_empty());
}

#[test]
fn fragment_exact_fit_is_one_piece() {
    let data = [7u8; 8];
    let frags = fragment(&data, 8);
    assert_eq!(frags.len(), 1);
    assert_eq!(frags[0], data.to_vec());
}

#[test]
fn fragments_reassemble_exactly() {
    let data: Vec<u8> = (0u8..=255).cycle().take(5000).collect();
    let mdu = 1024;
    let frags = fragment(&data, mdu);
    let mut reassembled: Vec<u8> = Vec::new();
    for f in &frags {
        assert!(!f.is_empty());
        assert!(f.len() <= mdu);
        reassembled.extend_from_slice(f);
    }
    assert_eq!(reassembled, data);
}

#[test]
fn inbound_is_gated_while_link_absent() {
    assert!(!inbound_gate(&None));
    assert!(inbound_gate(&Some(link3())));
    let data = [1u8, 2, 3, 4, 5];
    let frags = inbound_step(&None, &data, 2);
    assert!(frags.is_empty());
}

#[test]
fn inbound_forwards_while_link_present() {
    let data = [1u8, 2, 3, 4, 5];
    let frags = inbound_step(&Some(link3()), &data, 2);
    assert_eq!(frags, vec![vec![1, 2], vec![3, 4], vec![5]]);
}

#[test]
fn foreign_advertisement_changes_nothing() {
    let mut core = BridgeCore::new(target());
    let before = core;
    assert!(!core.on_advertisement(&other()));
    assert_eq!(core, before);
    assert_eq!(core.tracker.get(), None);
}

#[test]
fn foreign_link_event_is_ignored() {
    let mut core = BridgeCore::new(target());
    core.on_link_established(link3());
    let a = core.on_channel_event(delivered(other(), LinkEvent::Closed));
    assert_eq!(a, OutboundAction::Ignore);
    assert_eq!(core.tracker.get(), Some(link3()));
}

#[test]
fn data_event_for_target_writes_payload_once() {
    let mut core = BridgeCore::new(target());
    core.on_link_established(link3());
    let payload = vec![0xfe, 0x21, 0x00];
    let a = core.on_channel_event(delivered(target(), LinkEvent::Data(payload.clone())));
    assert_eq!(a, OutboundAction::Deliver(payload));
    assert_eq!(core.tracker.get(), Some(link3()));
}

#[test]
fn closed_event_clears_tracker_idempotently() {
    let mut core = BridgeCore::new(target());
    core.on_link_established(link3());
    let a = core.on_channel_event(delivered(target(), LinkEvent::Closed));
    assert_eq!(a, OutboundAction::Cleared);
    assert_eq!(core.tracker.get(), None);
    let after_first = core;
    let a2 = core.on_channel_event(delivered(target(), LinkEvent::Closed));
    assert_eq!(a2, OutboundAction::Cleared);
    assert_eq!(core, after_first);
}

#[test]
fn channel_end_stops_pump() {
    let mut core = BridgeCore::new(target());
    let a = core.on_channel_event(ChannelEvent::ChannelClosed);
    assert_eq!(a, OutboundAction::Stop);
    assert!(!outbound_continue(&a, true));
}

#[test]
fn pump_continuation_rules() {
    assert!(outbound_continue(&OutboundAction::Deliver(vec![1]), true));
    assert!(!outbound_continue(&OutboundAction::Deliver(vec![1]), false));
    assert!(!outbound_continue(&OutboundAction::Stop, true));
    assert!(outbound_continue(&OutboundAction::WarnLagged(7), true));
    assert!(outbound_continue(&OutboundAction::Ignore, true));
    assert!(outbound_continue(&OutboundAction::NoteActivated, true));
    assert!(outbound_continue(&OutboundAction::Cleared, true));
}

#[test]
fn scenario_discovery_then_activation_then_forwarding() {
    let mut core = BridgeCore::new(target());
    // advertisement for the target peer arrives
    assert!(core.on_advertisement(&target()));
    // link established
    core.on_link_established(link3());
    assert_eq!(core.discovery, DiscoveryState::LinkEstablished);
    // `Activated` observed: logged, no structural change
    let a = core.on_channel_event(delivered(target(), LinkEvent::Activated));
    assert_eq!(a, OutboundAction::NoteActivated);
    assert_eq!(core.tracker.get(), Some(link3()));
    // next local read is forwarded as one or more fragments
    let read = [9u8; 300];
    let frags = inbound_step(&core.link_snapshot(), &read, 128);
    assert_eq!(frags.len(), 3);
    let total: usize = frags.iter().map(|f| f.len()).sum();
    assert_eq!(total, 300);
}

#[test]
fn scenario_closed_gates_until_rediscovery() {
    let mut core = BridgeCore::new(target());
    assert!(core.on_advertisement(&target()));
    core.on_link_established(link3());
    // link closes mid-stream
    let a = core.on_channel_event(delivered(target(), LinkEvent::Closed));
    assert_eq!(a, OutboundAction::Cleared);
    // subsequent reads are not forwarded
    let read = [1u8, 2, 3];
    assert!(inbound_step(&core.link_snapshot(), &read, 16).is_empty());
    // a new matching advertisement re-establishes a link
    assert!(core.on_advertisement(&target()));
    core.on_link_established(LinkId { id: 4 });
    let frags = inbound_step(&core.link_snapshot(), &read, 16);
    assert_eq!(frags, vec![vec![1, 2, 3]]);
}

#[test]
fn scenario_lag_is_logged_and_processing_continues() {
    let mut core = BridgeCore::new(target());
    core.on_link_established(link3());
    // the channel reports a lag of 7
    let a = core.on_channel_event(ChannelEvent::Lagged(7));
    assert_eq!(a, OutboundAction::WarnLagged(7));
    assert!(outbound_continue(&a, true));
    // the next delivered event is processed as usual
    let payload = vec![42u8];
    let a2 = core.on_channel_event(delivered(target(), LinkEvent::Data(payload.clone())));
    assert_eq!(a2, OutboundAction::Deliver(payload));
}

#[test]
fn scenario_write_failure_terminates_pump() {
    let mut core = BridgeCore::new(target());
    core.on_link_established(link3());
    let a = core.on_channel_event(delivered(target(), LinkEvent::Data(vec![1, 2])));
    assert!(matches!(a, OutboundAction::Deliver(_)));
    // the local endpoint write fails: the pump terminates
    assert!(!outbound_continue(&a, false));
}

#[test]
fn fc_new_keeps_config_and_parses_target() {
    let fc = Fc::new(FcConfig {
        log_level: "info".to_string(),
        serial_port: "/dev/ttyACM0".to_string(),
        serial_baud: 115200,
        gc_destination: "000102030405060708090a0b0c0d0e0f".to_string(),
    })
    .unwrap();
    assert_eq!(fc.target(), Ok(target()));
}

#[test]
fn fc_rejects_malformed_destination() {
    let fc = Fc::new(FcConfig {
        log_level: "info".to_string(),
        serial_port: "/dev/ttyACM0".to_string(),
        serial_baud: 115200,
        gc_destination: "not a destination".to_string(),
    })
    .unwrap();
    assert_eq!(fc.target(), Err(FcError::RnsError(AddressParseError::TooShort)));
}

#[test]
fn gc_new_keeps_config_and_parses_target() {
    let gc = Gc::new(GcConfig {
        log_level: "debug".to_string(),
        qgc_udp_address: "127.0.0.1:14550".to_string(),
        qgc_reply_port: 14551,
        fc_destination: "ffffffffffffffffffffffffffffffff".to_string(),
    });
    assert_eq!(gc.target(), Ok(PeerAddress { id: u128::MAX }));
}

#[test]
fn gc_rejects_non_hex_destination() {
    let gc = Gc::new(GcConfig {
        log_level: "debug".to_string(),
        qgc_udp_address: "127.0.0.1:14550".to_string(),
        qgc_reply_port: 14551,
        fc_destination: "zz102030405060708090a0b0c0d0e0ff".to_string(),
    });
    assert_eq!(gc.target(), Err(AddressParseError::NotHex));
}

#[test]
fn activation_discovery_installs_inbound_link() {
    let mut core = BridgeCore::new(target());
    let installed = core.on_activation_discovery(&LinkEventData {
        id: link3(),
        peer: target(),
        event: LinkEvent::Activated,
    });
    assert!(installed);
    assert_eq!(core.tracker.get(), Some(link3()));
    assert_eq!(core.discovery, DiscoveryState::LinkEstablished);
}

#[test]
fn activation_discovery_ignores_other_events() {
    let mut core = BridgeCore::new(target());
    let before = core;
    assert!(!core.on_activation_discovery(&LinkEventData {
        id: link3(),
        peer: other(),
        event: LinkEvent::Activated,
    }));
    assert!(!core.on_activation_discovery(&LinkEventData {
        id: link3(),
        peer: target(),
        event: LinkEvent::Data(vec![1]),
    }));
    assert_eq!(core, before);
}

#[test]
fn deliveries_follow_channel_order() {
    let mut core = BridgeCore::new(target());
    core.on_link_established(link3());
    let events = vec![
        delivered(target(), LinkEvent::Data(vec![1, 1])),
        delivered(other(), LinkEvent::Data(vec![9, 9])),
        ChannelEvent::Lagged(2),
        delivered(target(), LinkEvent::Data(vec![2, 2])),
    ];
    let mut written: Vec<Vec<u8>> = Vec::new();
    for ev in events {
        match core.on_channel_event(ev) {
            OutboundAction::Deliver(payload) => written.push(payload),
            _ => {}
        }
    }
    assert_eq!(written, vec![vec![1, 1], vec![2, 2]]);
}
