//! The forward session: what one connection does with each packet it reads
//! from its client or sees on the bus. The session decides; the caller owns the
//! streams, performs what was decided and hands in the next event.

use vstd::prelude::*;
use crate::packet::AcknowledgePacket;
use crate::packet::AcknowledgeView;
use crate::packet::ForwardPacket;
use crate::packet::ForwardView;
use crate::packet::Packet;
use crate::packet::PacketView;

verus! {

/// How many packets the bus holds for a slow subscriber before it skips ahead.
pub const BUS_CAPACITY: usize = 128;

/// Why a packet was dropped instead of relayed.
#[derive(Clone, Copy, Debug, PartialEq, Eq, Structural)]
pub enum Malformed {
    /// The route has no hosts.
    EmptyPath,
    /// The position does not lie on the route.
    HopOutOfRange,
    /// A forward packet already sits at the end of its route.
    PastDestination,
    /// An acknowledgment already sits at the origin of its route.
    AtOrigin,
}

/// What a session does in answer to an event.
#[derive(Debug)]
pub enum Action {
    /// Nothing: the packet is another session's to handle, or the session is closed.
    Nothing,
    /// Put the packet on the bus.
    Publish(Packet),
    /// Send the packet to this session's client.
    Deliver(Packet),
    /// Send `deliver` to this session's client and put `publish` on the bus.
    DeliverAndPublish { deliver: Packet, publish: Packet },
    /// Drop the packet, for the reason given.
    Reject(Malformed),
    /// Stop both directions of the session.
    Close,
}

/// The mathematical value of an [`Action`].
pub enum ActionView {
    Nothing,
    Publish(PacketView),
    Deliver(PacketView),
    DeliverAndPublish { deliver: PacketView, publish: PacketView },
    Reject(Malformed),
    Close,
}

impl View for Action {
    type V = ActionView;

    open spec fn view(&self) -> ActionView {
        match self {
            Action::Nothing => ActionView::Nothing,
            Action::Publish(packet) => ActionView::Publish(packet@),
            Action::Deliver(packet) => ActionView::Deliver(packet@),
            Action::DeliverAndPublish { deliver, publish } => ActionView::DeliverAndPublish {
                deliver: deliver@,
                publish: publish@,
            },
            Action::Reject(reason) => ActionView::Reject(*reason),
            Action::Close => ActionView::Close,
        }
    }
}

impl ActionView {
    /// Whether the session acts on the packet: sends anything anywhere.
    pub open spec fn acts(self) -> bool {
        self is Deliver || self is DeliverAndPublish || self is Publish
    }
}

/// What the session whose client lives at `peer` does with a forward packet
/// seen on the bus: the packet moves one hop on; the session whose client is
/// the host there delivers it, and acknowledges it too where that host is the
/// route's last.
pub open spec fn relay_forward(packet: ForwardView, peer: Seq<char>) -> ActionView {
    let moved = packet.at(packet.hop + 1);
    if packet.path.len() == 0 {
        ActionView::Reject(Malformed::EmptyPath)
    } else if !packet.on_route() {
        ActionView::Reject(Malformed::HopOutOfRange)
    } else if !moved.on_route() {
        ActionView::Reject(Malformed::PastDestination)
    } else if moved.current().addr != peer {
        ActionView::Nothing
    } else if moved.current().addr == moved.path.last().addr {
        ActionView::DeliverAndPublish {
            deliver: PacketView::Forward(moved),
            publish: PacketView::Acknowledge(AcknowledgeView { success: true, forward: moved }),
        }
    } else {
        ActionView::Deliver(PacketView::Forward(moved))
    }
}

/// What the session whose client lives at `peer` does with an acknowledgment
/// seen on the bus: the acknowledged packet moves one hop back; the session
/// whose client is the host there delivers the acknowledgment.
pub open spec fn relay_acknowledge(packet: AcknowledgeView, peer: Seq<char>) -> ActionView {
    let moved = packet.forward.at(packet.forward.hop - 1);
    if packet.forward.path.len() == 0 {
        ActionView::Reject(Malformed::EmptyPath)
    } else if !packet.forward.on_route() {
        ActionView::Reject(Malformed::HopOutOfRange)
    } else if packet.forward.hop == 0 {
        ActionView::Reject(Malformed::AtOrigin)
    } else if moved.current().addr != peer {
        ActionView::Nothing
    } else {
        ActionView::Deliver(
            PacketView::Acknowledge(AcknowledgeView { success: packet.success, forward: moved }),
        )
    }
}

/// What the session whose client lives at `peer` does with a packet seen on
/// the bus.
pub open spec fn relay_effect(packet: PacketView, peer: Seq<char>) -> ActionView {
    match packet {
        PacketView::Forward(forward) => relay_forward(forward, peer),
        PacketView::Acknowledge(acknowledge) => relay_acknowledge(acknowledge, peer),
    }
}

/// Decides what the session whose client lives at `peer` does with a packet
/// seen on the bus.
pub fn relay(packet: Packet, peer: &String) -> (action: Action)
    ensures
        action@ == relay_effect(packet@, peer@),
{
    match packet {
        Packet::Forward(forward) => {
            let ForwardPacket { path, hop, payload } = forward;
            let len = path.len();
            if len == 0 {
                return Action::Reject(Malformed::EmptyPath);
            }
            if hop >= len as u64 {
                return Action::Reject(Malformed::HopOutOfRange);
            }
            if hop + 1 >= len as u64 {
                return Action::Reject(Malformed::PastDestination);
            }
            let moved = ForwardPacket { path, hop: hop + 1, payload };
            let here = &moved.path[moved.hop as usize];
            if !here.is_at(peer) {
                return Action::Nothing;
            }
            if *here == moved.path[len - 1] {
                let publish = Packet::Acknowledge(
                    AcknowledgePacket { success: true, forward: moved.clone() },
                );
                Action::DeliverAndPublish { deliver: Packet::Forward(moved), publish }
            } else {
                Action::Deliver(Packet::Forward(moved))
            }
        },
        Packet::Acknowledge(acknowledge) => {
            let AcknowledgePacket { success, forward } = acknowledge;
            let ForwardPacket { path, hop, payload } = forward;
            let len = path.len();
            if len == 0 {
                return Action::Reject(Malformed::EmptyPath);
            }
            if hop >= len as u64 {
                return Action::Reject(Malformed::HopOutOfRange);
            }
            if hop == 0 {
                return Action::Reject(Malformed::AtOrigin);
            }
            let moved = ForwardPacket { path, hop: hop - 1, payload };
            if !moved.path[moved.hop as usize].is_at(peer) {
                return Action::Nothing;
            }
            Action::Deliver(Packet::Acknowledge(AcknowledgePacket { success, forward: moved }))
        },
    }
}

/// Whether a session still bridges its client and the bus.
#[derive(Clone, Copy, Debug, PartialEq, Eq, Structural)]
pub enum SessionState {
    /// Both directions run.
    Active,
    /// One side ended, and with it the session.
    Closed,
}

/// What can happen to a session.
#[derive(Debug)]
pub enum Event {
    /// The client sent a packet.
    FromClient(Packet),
    /// A packet appeared on the bus.
    FromBus(Packet),
    /// The client's stream ended or failed.
    ClientEnded,
    /// The subscription to the bus ended or failed.
    BusEnded,
}

/// The mathematical value of an [`Event`].
pub enum EventView {
    FromClient(PacketView),
    FromBus(PacketView),
    ClientEnded,
    BusEnded,
}

impl View for Event {
    type V = EventView;

    open spec fn view(&self) -> EventView {
        match self {
            Event::FromClient(packet) => EventView::FromClient(packet@),
            Event::FromBus(packet) => EventView::FromBus(packet@),
            Event::ClientEnded => EventView::ClientEnded,
            Event::BusEnded => EventView::BusEnded,
        }
    }
}

/// The state a session is in after an event: either stream's end closes it,
/// and nothing reopens it.
pub open spec fn state_after(state: SessionState, event: EventView) -> SessionState {
    match event {
        EventView::ClientEnded | EventView::BusEnded => SessionState::Closed,
        _ => state,
    }
}

/// What a session in `state`, whose client lives at `peer`, does in answer to
/// an event: a closed session does nothing; an active one publishes what its
/// client sends as it is, relays what it sees on the bus, and closes when a
/// stream ends.
pub open spec fn action_on(peer: Seq<char>, state: SessionState, event: EventView) -> ActionView {
    match state {
        SessionState::Closed => ActionView::Nothing,
        SessionState::Active => match event {
            EventView::FromClient(packet) => ActionView::Publish(packet),
            EventView::FromBus(packet) => relay_effect(packet, peer),
            EventView::ClientEnded | EventView::BusEnded => ActionView::Close,
        },
    }
}

/// One connection's bridge between its client and the bus.
#[derive(Debug)]
pub struct Session {
    peer: String,
    state: SessionState,
}

impl Session {
    /// The address of this session's client.
    pub closed spec fn peer_addr(&self) -> Seq<char> {
        self.peer@
    }

    /// The session's state.
    pub closed spec fn state(&self) -> SessionState {
        self.state
    }

    /// An active session for the client at `peer`.
    pub fn open(peer: String) -> (session: Session)
        ensures
            session.peer_addr() == peer@,
            session.state() == SessionState::Active,
    {
        Session { peer, state: SessionState::Active }
    }

    /// The address of this session's client.
    pub fn peer(&self) -> (peer: &String)
        ensures
            peer@ == self.peer_addr(),
    {
        &self.peer
    }

    /// Whether the session is still active.
    pub fn is_active(&self) -> (active: bool)
        ensures
            active == (self.state() == SessionState::Active),
    {
        match self.state {
            SessionState::Active => true,
            SessionState::Closed => false,
        }
    }

    /// Takes one event and says what to do about it.
    pub fn step(&mut self, event: Event) -> (action: Action)
        ensures
            final(self).peer_addr() == old(self).peer_addr(),
            final(self).state() == state_after(old(self).state(), event@),
            action@ == action_on(old(self).peer_addr(), old(self).state(), event@),
    {
        match self.state {
            SessionState::Closed => Action::Nothing,
            SessionState::Active => match event {
                Event::FromClient(packet) => Action::Publish(packet),
                Event::FromBus(packet) => relay(packet, &self.peer),
                Event::ClientEnded | Event::BusEnded => {
                    self.state = SessionState::Closed;
                    Action::Close
                },
            },
        }
    }
}

/// Where a forward packet ends up when, hop after hop, the session of the
/// next host relays it.
pub open spec fn travel(packet: ForwardView) -> ForwardView
    decreases packet.path.len() - packet.hop,
{
    if packet.on_route() && packet.hop + 1 < packet.path.len() {
        let next = packet.path[packet.hop + 1].addr;
        match relay_forward(packet, next) {
            ActionView::Deliver(PacketView::Forward(moved)) => travel(moved),
            ActionView::DeliverAndPublish { deliver: PacketView::Forward(moved), .. } => travel(
                moved,
            ),
            _ => packet,
        }
    } else {
        packet
    }
}

/// A forward packet whose position lies on its route travels to the route's
/// end, one hop at a time, unchanged but for its position.
pub proof fn lemma_travel_reaches_destination(packet: ForwardView)
    requires
        packet.on_route(),
    ensures
        travel(packet) == packet.at(packet.path.len() - 1),
    decreases packet.path.len() - packet.hop,
{
    if packet.hop + 1 < packet.path.len() {
        lemma_travel_reaches_destination(packet.at(packet.hop + 1));
    }
}

/// Where an acknowledgment ends up when, hop after hop, the session of the
/// host one hop back relays it.
pub open spec fn walk_back(packet: AcknowledgeView) -> AcknowledgeView
    decreases packet.forward.hop,
{
    if packet.forward.on_route() && packet.forward.hop > 0 {
        let back = packet.forward.path[packet.forward.hop - 1].addr;
        match relay_acknowledge(packet, back) {
            ActionView::Deliver(PacketView::Acknowledge(next)) => walk_back(next),
            _ => packet,
        }
    } else {
        packet
    }
}

/// An acknowledgment whose position lies on its route walks back to the
/// route's origin, unchanged but for its position.
pub proof fn lemma_walk_back_reaches_origin(packet: AcknowledgeView)
    requires
        packet.forward.on_route(),
    ensures
        walk_back(packet) == (AcknowledgeView {
            success: packet.success,
            forward: packet.forward.at(0),
        }),
    decreases packet.forward.hop,
{
    if packet.forward.hop > 0 {
        let next = AcknowledgeView {
            success: packet.success,
            forward: packet.forward.at(packet.forward.hop - 1),
        };
        lemma_walk_back_reaches_origin(next);
    }
}

/// A forward packet that takes its last hop is delivered by the session of the
/// route's last host, which also publishes a successful acknowledgment of the
/// packet as delivered; that acknowledgment walks back to the origin.
pub proof fn lemma_last_hop_is_acknowledged(packet: ForwardView)
    requires
        packet.on_route(),
        packet.hop + 2 == packet.path.len(),
    ensures
        relay_forward(packet, packet.path.last().addr) == (ActionView::DeliverAndPublish {
            deliver: PacketView::Forward(packet.at(packet.hop + 1)),
            publish: PacketView::Acknowledge(
                AcknowledgeView { success: true, forward: packet.at(packet.hop + 1) },
            ),
        }),
        walk_back(AcknowledgeView { success: true, forward: packet.at(packet.hop + 1) }) == (
        AcknowledgeView { success: true, forward: packet.at(0) }),
{
    lemma_walk_back_reaches_origin(
        AcknowledgeView { success: true, forward: packet.at(packet.hop + 1) },
    );
}

/// A packet that appears on the bus a second time gets the same answer from a
/// session as the first time: the session keeps nothing about packets.
pub proof fn lemma_redelivery_repeats(peer: Seq<char>, state: SessionState, packet: PacketView)
    ensures
        state_after(state, EventView::FromBus(packet)) == state,
        action_on(peer, state_after(state, EventView::FromBus(packet)), EventView::FromBus(packet))
            == action_on(peer, state, EventView::FromBus(packet)),
{
}

/// Of two sessions whose clients live at different addresses, at most one
/// acts on a packet seen on the bus.
pub proof fn lemma_one_session_acts(packet: PacketView, first: Seq<char>, second: Seq<char>)
    requires
        first != second,
    ensures
        !(relay_effect(packet, first).acts() && relay_effect(packet, second).acts()),
{
}

/// A closed session stays closed and does nothing, whatever happens.
pub proof fn lemma_closed_stays_closed(peer: Seq<char>, event: EventView)
    ensures
        state_after(SessionState::Closed, event) == SessionState::Closed,
        action_on(peer, SessionState::Closed, event) == ActionView::Nothing,
{
}

} // verus!
