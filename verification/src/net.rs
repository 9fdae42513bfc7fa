//! Socket addresses as plain values.

use vstd::prelude::*;
use vstd::std_specs::convert::{FromSpec, FromSpecImpl};

verus! {

/// An IP address and a port.
#[derive(Clone, Copy, Debug, PartialEq, Eq, Structural)]
pub enum SocketAddr {
    V4 {
        /// The four octets of the IP address, the first one in the highest bits.
        octets: u32,
        port: u16,
    },
    V6 {
        /// The eight segments of the IP address, the first one in the highest
        /// bits.
        segments: u128,
        port: u16,
        flowinfo: u32,
        scope_id: u32,
    },
}

/// Where a network source listens.
#[derive(Clone, Copy, Debug, PartialEq, Eq, Structural)]
pub enum SocketListenAddr {
    /// An address to bind to.
    SocketAddr(SocketAddr),
    /// The offset of a file descriptor that systemd hands over.
    SystemdFd(usize),
}

/// The transport protocol of a port.
#[derive(Clone, Copy, Debug, PartialEq, Eq, Structural)]
pub enum Protocol {
    Tcp,
    Udp,
}

/// Something of the machine that at most one component may use at a time.
#[derive(Clone, Copy, Debug, PartialEq, Eq, Structural)]
pub enum Resource {
    Port(SocketAddr, Protocol),
    SystemFdOffset(usize),
}

impl From<SocketAddr> for SocketListenAddr {
    fn from(addr: SocketAddr) -> (listen: Self) {
        SocketListenAddr::SocketAddr(addr)
    }
}

impl FromSpecImpl<SocketAddr> for SocketListenAddr {
    open spec fn obeys_from_spec() -> bool {
        true
    }

    open spec fn from_spec(addr: SocketAddr) -> Self {
        SocketListenAddr::SocketAddr(addr)
    }
}

impl SocketListenAddr {
    /// What listening with `protocol` uses: the port of that protocol, or the
    /// file descriptor, which belongs to no protocol.
    pub open spec fn resource(self, protocol: Protocol) -> Resource {
        match self {
            SocketListenAddr::SocketAddr(addr) => Resource::Port(addr, protocol),
            SocketListenAddr::SystemdFd(offset) => Resource::SystemFdOffset(offset),
        }
    }

    /// What listening with TCP uses.
    pub fn as_tcp_resource(self) -> (resource: Resource)
        ensures
            resource == self.resource(Protocol::Tcp),
    {
        match self {
            SocketListenAddr::SocketAddr(addr) => Resource::Port(addr, Protocol::Tcp),
            SocketListenAddr::SystemdFd(offset) => Resource::SystemFdOffset(offset),
        }
    }

    /// What listening with UDP uses.
    pub fn as_udp_resource(self) -> (resource: Resource)
        ensures
            resource == self.resource(Protocol::Udp),
    {
        match self {
            SocketListenAddr::SocketAddr(addr) => Resource::Port(addr, Protocol::Udp),
            SocketListenAddr::SystemdFd(offset) => Resource::SystemFdOffset(offset),
        }
    }
}

/// A listener at a socket address uses the port of that address with its protocol,
/// for IPv4 and IPv6 alike; one at a file descriptor uses that, whatever the
/// protocol.
pub proof fn law_listener_uses(addr: SocketAddr, offset: usize, protocol: Protocol)
    ensures
        <SocketListenAddr as FromSpec<SocketAddr>>::from_spec(addr)
            == SocketListenAddr::SocketAddr(addr),
        SocketListenAddr::SocketAddr(addr).resource(protocol) == Resource::Port(addr, protocol),
        SocketListenAddr::SystemdFd(offset).resource(protocol) == Resource::SystemFdOffset(offset),
{
}

/// What a listener announces with either protocol.
pub proof fn law_announced(listen: SocketListenAddr, tcp: Resource, udp: Resource)
    requires
        call_ensures(SocketListenAddr::as_tcp_resource, (listen,), tcp),
        call_ensures(SocketListenAddr::as_udp_resource, (listen,), udp),
    ensures
        match listen {
            SocketListenAddr::SocketAddr(addr) => tcp == Resource::Port(addr, Protocol::Tcp) && udp
                == Resource::Port(addr, Protocol::Udp),
            SocketListenAddr::SystemdFd(offset) => tcp == Resource::SystemFdOffset(offset) && udp
                == tcp,
        },
{
}

} // verus!
