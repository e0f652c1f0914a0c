use federation::host::Host;
use federation::packet::AcknowledgePacket;
use federation::packet::ForwardPacket;
use federation::packet::Packet;
use federation::session::relay;
use federation::session::Action;
use federation::session::Event;
use federation::session::Malformed;
use federation::session::Session;
use federation::session::BUS_CAPACITY;

fn route(addrs: &[&str]) -> Vec<Host> {
    addrs.iter().map(|a| Host::new(a.to_string(), true)).collect()
}

fn forward(addrs: &[&str], hop: u64) -> ForwardPacket {
    let mut packet = ForwardPacket::new(route(addrs), vec![1, 2, 3]);
    packet.hop = hop;
    packet
}

fn ack(addrs: &[&str], hop: u64, success: bool) -> AcknowledgePacket {
    AcknowledgePacket { success, forward: forward(addrs, hop) }
}

fn addrs_of(packet: &ForwardPacket) -> Vec<String> {
    packet.path.iter().map(|h| h.addr.clone()).collect()
}

fn expect_forward(packet: &Packet, addrs: &[&str], hop: u64) {
    match packet {
        Packet::Forward(f) => {
            assert_eq!(f.hop, hop);
            assert_eq!(addrs_of(f), addrs.iter().map(|a| a.to_string()).collect::<Vec<_>>());
            assert_eq!(f.payload, vec![1, 2, 3]);
        }
        Packet::Acknowledge(_) => panic!("expected a forward packet"),
    }
}

fn expect_ack(packet: &Packet, addrs: &[&str], hop: u64, success: bool) {
    match packet {
        Packet::Acknowledge(a) => {
            assert_eq!(a.success, success);
            assert_eq!(a.forward.hop, hop);
            assert_eq!(addrs_of(&a.forward), addrs.iter().map(|a| a.to_string()).collect::<Vec<_>>());
            assert_eq!(a.forward.payload, vec![1, 2, 3]);
        }
        Packet::Forward(_) => panic!("expected an acknowledgment"),
    }
}

fn describe(action: &Action) -> String {
    format!("{:?}", action)
}

#[test]
fn bus_holds_128_packets() {
    assert_eq!(BUS_CAPACITY, 128);
}

#[test]
fn new_forward_packet_starts_at_the_origin() {
    let packet = ForwardPacket::new(route(&["S", "H1"]), vec![7]);
    assert_eq!(packet.hop, 0);
    assert_eq!(packet.payload, vec![7]);
    assert_eq!(packet.current_host().map(|h| h.addr.clone()), Some("S".to_string()));
}

#[test]
fn current_host_is_none_off_the_route() {
    assert!(forward(&["S", "H1"], 2).current_host().is_none());
    assert!(forward(&[], 0).current_host().is_none());
    assert_eq!(forward(&["S", "H1"], 1).current_host().map(|h| h.addr.clone()), Some("H1".to_string()));
}

#[test]
fn forward_is_delivered_to_the_next_hop() {
    let action = relay(Packet::Forward(forward(&["S", "H1", "H2"], 0)), &"H1".to_string());
    match action {
        Action::Deliver(packet) => expect_forward(&packet, &["S", "H1", "H2"], 1),
        other => panic!("unexpected {:?}", other),
    }
}

#[test]
fn forward_is_ignored_by_other_sessions() {
    for peer in ["S", "H2", "elsewhere"] {
        let action = relay(Packet::Forward(forward(&["S", "H1", "H2"], 0)), &peer.to_string());
        assert!(matches!(action, Action::Nothing));
    }
}

#[test]
fn last_hop_is_delivered_and_acknowledged() {
    let action = relay(Packet::Forward(forward(&["S", "H1", "H2"], 1)), &"H2".to_string());
    match action {
        Action::DeliverAndPublish { deliver, publish } => {
            expect_forward(&deliver, &["S", "H1", "H2"], 2);
            expect_ack(&publish, &["S", "H1", "H2"], 2, true);
        }
        other => panic!("unexpected {:?}", other),
    }
}

#[test]
fn forward_travels_the_whole_route() {
    let first = relay(Packet::Forward(forward(&["S", "H1", "H2"], 0)), &"H1".to_string());
    let at_h1 = match first {
        Action::Deliver(packet) => packet,
        other => panic!("unexpected {:?}", other),
    };
    expect_forward(&at_h1, &["S", "H1", "H2"], 1);
    assert!(matches!(relay(at_h1.clone(), &"H1".to_string()), Action::Nothing));
    assert!(matches!(relay(at_h1.clone(), &"S".to_string()), Action::Nothing));
    match relay(at_h1, &"H2".to_string()) {
        Action::DeliverAndPublish { deliver, publish } => {
            expect_forward(&deliver, &["S", "H1", "H2"], 2);
            expect_ack(&publish, &["S", "H1", "H2"], 2, true);
        }
        other => panic!("unexpected {:?}", other),
    }
}

#[test]
fn acknowledgment_walks_back_to_the_origin() {
    let start = Packet::Acknowledge(ack(&["S", "H1", "H2"], 2, true));
    assert!(matches!(relay(start.clone(), &"H2".to_string()), Action::Nothing));
    assert!(matches!(relay(start.clone(), &"S".to_string()), Action::Nothing));
    let at_h1 = match relay(start, &"H1".to_string()) {
        Action::Deliver(packet) => packet,
        other => panic!("unexpected {:?}", other),
    };
    expect_ack(&at_h1, &["S", "H1", "H2"], 1, true);
    let at_s = match relay(at_h1, &"S".to_string()) {
        Action::Deliver(packet) => packet,
        other => panic!("unexpected {:?}", other),
    };
    expect_ack(&at_s, &["S", "H1", "H2"], 0, true);
    assert!(matches!(relay(at_s, &"S".to_string()), Action::Reject(Malformed::AtOrigin)));
}

#[test]
fn acknowledgment_keeps_its_flag() {
    match relay(Packet::Acknowledge(ack(&["S", "H1"], 1, false)), &"S".to_string()) {
        Action::Deliver(packet) => expect_ack(&packet, &["S", "H1"], 0, false),
        other => panic!("unexpected {:?}", other),
    }
}

#[test]
fn host_equal_to_the_last_is_acknowledged_too() {
    match relay(Packet::Forward(forward(&["S", "H1", "H2", "H1"], 0)), &"H1".to_string()) {
        Action::DeliverAndPublish { deliver, publish } => {
            expect_forward(&deliver, &["S", "H1", "H2", "H1"], 1);
            expect_ack(&publish, &["S", "H1", "H2", "H1"], 1, true);
        }
        other => panic!("unexpected {:?}", other),
    }
}

#[test]
fn empty_path_is_rejected() {
    assert!(matches!(
        relay(Packet::Forward(forward(&[], 0)), &"S".to_string()),
        Action::Reject(Malformed::EmptyPath)
    ));
    assert!(matches!(
        relay(Packet::Acknowledge(ack(&[], 0, true)), &"S".to_string()),
        Action::Reject(Malformed::EmptyPath)
    ));
}

#[test]
fn hop_off_the_route_is_rejected() {
    assert!(matches!(
        relay(Packet::Forward(forward(&["S", "H1"], 2)), &"H1".to_string()),
        Action::Reject(Malformed::HopOutOfRange)
    ));
    assert!(matches!(
        relay(Packet::Forward(forward(&["S", "H1"], u64::MAX)), &"H1".to_string()),
        Action::Reject(Malformed::HopOutOfRange)
    ));
    assert!(matches!(
        relay(Packet::Acknowledge(ack(&["S", "H1"], 2, true)), &"H1".to_string()),
        Action::Reject(Malformed::HopOutOfRange)
    ));
    assert!(matches!(
        relay(Packet::Acknowledge(ack(&["S", "H1"], u64::MAX, true)), &"H1".to_string()),
        Action::Reject(Malformed::HopOutOfRange)
    ));
}

#[test]
fn forward_at_its_destination_is_rejected() {
    assert!(matches!(
        relay(Packet::Forward(forward(&["S", "H1"], 1)), &"H1".to_string()),
        Action::Reject(Malformed::PastDestination)
    ));
    assert!(matches!(
        relay(Packet::Forward(forward(&["S"], 0)), &"S".to_string()),
        Action::Reject(Malformed::PastDestination)
    ));
}

#[test]
fn acknowledgment_at_the_origin_is_rejected() {
    assert!(matches!(
        relay(Packet::Acknowledge(ack(&["S", "H1"], 0, true)), &"S".to_string()),
        Action::Reject(Malformed::AtOrigin)
    ));
}

#[test]
fn redelivery_has_the_same_effect() {
    let packet = Packet::Forward(forward(&["S", "H1", "H2"], 1));
    let mut session = Session::open("H2".to_string());
    let first = session.step(Event::FromBus(packet.clone()));
    let second = session.step(Event::FromBus(packet.clone()));
    assert!(matches!(first, Action::DeliverAndPublish { .. }));
    assert_eq!(describe(&first), describe(&second));
    let mut other = Session::open("H1".to_string());
    let third = other.step(Event::FromBus(packet.clone()));
    let fourth = other.step(Event::FromBus(packet));
    assert!(matches!(third, Action::Nothing));
    assert_eq!(describe(&third), describe(&fourth));
}

#[test]
fn only_the_addressed_session_acts() {
    let peers = ["S", "H1", "H2", "H3"];
    for hop in 0..2u64 {
        let mut acting = 0;
        for peer in peers {
            let action = relay(Packet::Forward(forward(&["S", "H1", "H2"], hop)), &peer.to_string());
            if matches!(action, Action::Deliver(_) | Action::DeliverAndPublish { .. }) {
                acting += 1;
            }
        }
        assert_eq!(acting, 1);
    }
    for hop in 1..3u64 {
        let mut acting = 0;
        for peer in peers {
            let action = relay(Packet::Acknowledge(ack(&["S", "H1", "H2"], hop, true)), &peer.to_string());
            if matches!(action, Action::Deliver(_)) {
                acting += 1;
            }
        }
        assert_eq!(acting, 1);
    }
}

#[test]
fn session_publishes_client_packets_verbatim() {
    let mut session = Session::open("H1".to_string());
    assert!(session.is_active());
    assert_eq!(session.peer(), "H1");
    match session.step(Event::FromClient(Packet::Forward(forward(&[], 9)))) {
        Action::Publish(packet) => expect_forward(&packet, &[], 9),
        other => panic!("unexpected {:?}", other),
    }
    match session.step(Event::FromClient(Packet::Acknowledge(ack(&["S"], 0, false)))) {
        Action::Publish(packet) => expect_ack(&packet, &["S"], 0, false),
        other => panic!("unexpected {:?}", other),
    }
    assert!(session.is_active());
}

#[test]
fn session_relays_bus_packets_for_its_peer() {
    let mut session = Session::open("H1".to_string());
    match session.step(Event::FromBus(Packet::Forward(forward(&["S", "H1", "H2"], 0)))) {
        Action::Deliver(packet) => expect_forward(&packet, &["S", "H1", "H2"], 1),
        other => panic!("unexpected {:?}", other),
    }
    assert!(matches!(
        session.step(Event::FromBus(Packet::Forward(forward(&["S", "H1", "H2"], 1)))),
        Action::Nothing
    ));
    assert!(matches!(
        session.step(Event::FromBus(Packet::Forward(forward(&["S", "H1", "H2"], 5)))),
        Action::Reject(Malformed::HopOutOfRange)
    ));
    assert!(session.is_active());
}

#[test]
fn session_closes_when_the_client_ends() {
    let mut session = Session::open("H1".to_string());
    assert!(matches!(session.step(Event::ClientEnded), Action::Close));
    assert!(!session.is_active());
    assert!(matches!(
        session.step(Event::FromBus(Packet::Forward(forward(&["S", "H1", "H2"], 0)))),
        Action::Nothing
    ));
    assert!(matches!(
        session.step(Event::FromClient(Packet::Forward(forward(&["S", "H1"], 0)))),
        Action::Nothing
    ));
    assert!(matches!(session.step(Event::ClientEnded), Action::Nothing));
    assert!(!session.is_active());
}

#[test]
fn session_closes_when_the_bus_ends() {
    let mut session = Session::open("H1".to_string());
    assert!(matches!(session.step(Event::BusEnded), Action::Close));
    assert!(!session.is_active());
    assert!(matches!(session.step(Event::BusEnded), Action::Nothing));
}

#[test]
fn packet_clone_is_a_full_copy() {
    let first = Packet::Acknowledge(ack(&["S", "H1"], 1, true));
    let copy = first.clone();
    expect_ack(&copy, &["S", "H1"], 1, true);
    assert_eq!(format!("{:?}", first), format!("{:?}", copy));
}
