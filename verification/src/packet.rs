//! Packets: what travels along a route, and what comes back.

use vstd::prelude::*;
use crate::host::Host;
use crate::host::HostView;
use crate::host::host_views;

verus! {

/// A packet on its way: the full route, the position on it, and the payload.
#[derive(Debug)]
pub struct ForwardPacket {
    /// The route, origin first, destination last.
    pub path: Vec<Host>,
    /// The zero-based position on the route where the packet currently is.
    pub hop: u64,
    /// The application's bytes, never looked into.
    pub payload: Vec<u8>,
}

/// The confirmation that a packet arrived, walking the route backwards.
#[derive(Debug)]
pub struct AcknowledgePacket {
    /// Whether delivery succeeded.
    pub success: bool,
    /// The packet this acknowledges; its `hop` is the confirmation's position.
    pub forward: ForwardPacket,
}

/// Everything that travels over the bus.
#[derive(Debug)]
pub enum Packet {
    Forward(ForwardPacket),
    Acknowledge(AcknowledgePacket),
}

/// The mathematical value of a [`ForwardPacket`].
pub struct ForwardView {
    pub path: Seq<HostView>,
    pub hop: int,
    pub payload: Seq<u8>,
}

/// The mathematical value of an [`AcknowledgePacket`].
pub struct AcknowledgeView {
    pub success: bool,
    pub forward: ForwardView,
}

/// The mathematical value of a [`Packet`].
pub enum PacketView {
    Forward(ForwardView),
    Acknowledge(AcknowledgeView),
}

impl View for ForwardPacket {
    type V = ForwardView;

    open spec fn view(&self) -> ForwardView {
        ForwardView { path: host_views(self.path@), hop: self.hop as int, payload: self.payload@ }
    }
}

impl View for AcknowledgePacket {
    type V = AcknowledgeView;

    open spec fn view(&self) -> AcknowledgeView {
        AcknowledgeView { success: self.success, forward: self.forward@ }
    }
}

impl View for Packet {
    type V = PacketView;

    open spec fn view(&self) -> PacketView {
        match self {
            Packet::Forward(forward) => PacketView::Forward(forward@),
            Packet::Acknowledge(acknowledge) => PacketView::Acknowledge(acknowledge@),
        }
    }
}

impl ForwardView {
    /// The invariant of a packet in flight: its position lies on its route.
    pub open spec fn on_route(self) -> bool {
        0 <= self.hop < self.path.len()
    }

    /// The host at the packet's position.
    pub open spec fn current(self) -> HostView
        recommends
            self.on_route(),
    {
        self.path[self.hop]
    }

    /// The same packet at another position.
    pub open spec fn at(self, hop: int) -> ForwardView {
        ForwardView { path: self.path, hop, payload: self.payload }
    }
}

impl Clone for ForwardPacket {
    fn clone(&self) -> (copy: ForwardPacket)
        ensures
            copy@ == self@,
    {
        let mut path: Vec<Host> = Vec::new();
        let mut i: usize = 0;
        while i < self.path.len()
            invariant
                i <= self.path@.len(),
                path@.len() == i,
                forall|j: int| 0 <= j < i ==> path@[j] == self.path@[j],
            decreases self.path@.len() - i,
        {
            path.push(self.path[i].clone());
            i = i + 1;
        }
        let payload = self.payload.clone();
        proof {
            assert(path@ =~= self.path@);
            assert(payload@ =~= self.payload@);
        }
        ForwardPacket { path, hop: self.hop, payload }
    }
}

impl Clone for AcknowledgePacket {
    fn clone(&self) -> (copy: AcknowledgePacket)
        ensures
            copy@ == self@,
    {
        AcknowledgePacket { success: self.success, forward: self.forward.clone() }
    }
}

impl Clone for Packet {
    fn clone(&self) -> (copy: Packet)
        ensures
            copy@ == self@,
    {
        match self {
            Packet::Forward(forward) => Packet::Forward(forward.clone()),
            Packet::Acknowledge(acknowledge) => Packet::Acknowledge(acknowledge.clone()),
        }
    }
}

impl ForwardPacket {
    /// A packet at the origin of `path`.
    pub fn new(path: Vec<Host>, payload: Vec<u8>) -> (packet: ForwardPacket)
        ensures
            packet.path == path,
            packet.payload == payload,
            packet.hop == 0,
    {
        ForwardPacket { path, hop: 0, payload }
    }

    /// The host at the packet's position, if the position lies on the route.
    pub fn current_host(&self) -> (host: Option<&Host>)
        ensures
            self@.on_route() ==> host is Some && host->Some_0@ == self@.current(),
            !self@.on_route() ==> host is None,
    {
        if self.hop < self.path.len() as u64 {
            Some(&self.path[self.hop as usize])
        } else {
            None
        }
    }
}

} // verus!
