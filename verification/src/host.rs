//! Hosts: the participants of the federation.

use vstd::prelude::*;
use crate::helpers::TimestampDef;

verus! {

/// A federation participant. Its network address is its identity.
#[derive(Debug)]
pub struct Host {
    /// Network address in string form; the comparison key.
    pub addr: String,
    /// Whether this host accepts forwarding duty.
    pub forwarder: bool,
    /// When the host was last seen, if ever.
    pub last_seen: Option<TimestampDef>,
}

/// The mathematical value of a [`Host`].
pub struct HostView {
    pub addr: Seq<char>,
    pub forwarder: bool,
    pub last_seen: Option<TimestampDef>,
}

impl View for Host {
    type V = HostView;

    open spec fn view(&self) -> HostView {
        HostView { addr: self.addr@, forwarder: self.forwarder, last_seen: self.last_seen }
    }
}

impl Clone for Host {
    fn clone(&self) -> (copy: Host)
        ensures
            copy == *self,
    {
        Host { addr: self.addr.clone(), forwarder: self.forwarder, last_seen: self.last_seen }
    }
}

impl PartialEq for Host {
    /// Hosts are equal by address.
    fn eq(&self, other: &Host) -> (same: bool) {
        self.addr == other.addr
    }
}

impl vstd::std_specs::cmp::PartialEqSpecImpl for Host {
    open spec fn obeys_eq_spec() -> bool {
        true
    }

    open spec fn eq_spec(&self, other: &Host) -> bool {
        self.addr@ == other.addr@
    }
}

impl Eq for Host {

}

impl Host {
    /// A host that has not been seen yet.
    pub fn new(addr: String, forwarder: bool) -> (host: Host)
        ensures
            host.addr == addr,
            host.forwarder == forwarder,
            host.last_seen is None,
    {
        Host { addr, forwarder, last_seen: None }
    }

    /// Whether this host lives at the given address.
    pub fn is_at(&self, addr: &String) -> (at: bool)
        ensures
            at == (self@.addr == addr@),
    {
        self.addr == *addr
    }
}

/// The values of a sequence of hosts, in order.
pub open spec fn host_views(hosts: Seq<Host>) -> Seq<HostView> {
    hosts.map_values(|h: Host| h@)
}

} // verus!
