//! The `socket` source: listens for log messages on a TCP, UDP or Unix domain
//! socket.

pub mod call_laws;
pub mod entries;
pub mod generate;
pub mod laws;
pub mod outputs;
pub mod plan;
pub mod read;
pub mod read_laws;
pub mod tcp;
pub mod udp;
pub mod unix;

use crate::codecs::DeserializerConfig;
use crate::namespace::LogNamespace;
use crate::net::{Protocol, Resource, SocketAddr, SocketListenAddr};
use tcp::TcpConfig;
use udp::UdpConfig;
use unix::UnixConfig;
use vstd::prelude::*;
use vstd::std_specs::convert::FromSpecImpl;

verus! {

/// Configuration for the `socket` source.
#[derive(Clone, Debug)]
pub struct SocketConfig {
    pub mode: Mode,
}

/// Listening mode for the `socket` source.
#[derive(Clone, Debug)]
pub enum Mode {
    /// Listen on TCP.
    Tcp(TcpConfig),
    /// Listen on UDP.
    Udp(UdpConfig),
    /// Listen on a Unix domain socket, in datagram mode.
    UnixDatagram(UnixConfig),
    /// Listen on a Unix domain socket, in stream mode.
    UnixStream(UnixConfig),
}

impl From<TcpConfig> for SocketConfig {
    fn from(config: TcpConfig) -> (socket: Self) {
        SocketConfig { mode: Mode::Tcp(config) }
    }
}

impl FromSpecImpl<TcpConfig> for SocketConfig {
    open spec fn obeys_from_spec() -> bool {
        true
    }

    open spec fn from_spec(config: TcpConfig) -> Self {
        SocketConfig { mode: Mode::Tcp(config) }
    }
}

impl From<UdpConfig> for SocketConfig {
    fn from(config: UdpConfig) -> (socket: Self) {
        SocketConfig { mode: Mode::Udp(config) }
    }
}

impl FromSpecImpl<UdpConfig> for SocketConfig {
    open spec fn obeys_from_spec() -> bool {
        true
    }

    open spec fn from_spec(config: UdpConfig) -> Self {
        SocketConfig { mode: Mode::Udp(config) }
    }
}

impl Mode {
    /// The deserializer settings of the mode.
    pub open spec fn decoding_spec(self) -> DeserializerConfig {
        match self {
            Mode::Tcp(config) => config.decoding,
            Mode::Udp(config) => config.decoding,
            Mode::UnixDatagram(config) => config.decoding,
            Mode::UnixStream(config) => config.decoding,
        }
    }

    /// The log namespace setting of the mode.
    pub open spec fn log_namespace_setting(self) -> Option<bool> {
        match self {
            Mode::Tcp(config) => config.log_namespace,
            Mode::Udp(config) => config.log_namespace,
            Mode::UnixDatagram(config) => config.log_namespace,
            Mode::UnixStream(config) => config.log_namespace,
        }
    }

    /// What listening in this mode uses of the machine: the listen address of a
    /// network mode, and nothing for a socket file.
    pub open spec fn resources_spec(self) -> Seq<Resource> {
        match self {
            Mode::Tcp(config) => seq![config.address.resource(Protocol::Tcp)],
            Mode::Udp(config) => seq![config.address.resource(Protocol::Udp)],
            Mode::UnixDatagram(_) => Seq::empty(),
            Mode::UnixStream(_) => Seq::empty(),
        }
    }
}

impl SocketConfig {
    /// The name of the component.
    pub const NAME: &'static str = "socket";

    /// A source that listens on TCP with `tcp_config`.
    pub fn new_tcp(tcp_config: TcpConfig) -> (socket: Self)
        ensures
            socket == (SocketConfig { mode: Mode::Tcp(tcp_config) }),
    {
        SocketConfig::from(tcp_config)
    }

    /// A source that listens on TCP at `addr`, with defaults for everything else.
    pub fn make_basic_tcp_config(addr: SocketAddr) -> (socket: Self)
        ensures
            socket == (SocketConfig {
                mode: Mode::Tcp(TcpConfig::basic(SocketListenAddr::SocketAddr(addr))),
            }),
    {
        SocketConfig::from(TcpConfig::from_address(SocketListenAddr::from(addr)))
    }

    /// The deserializer settings of the source.
    pub fn decoding(&self) -> (decoding: &DeserializerConfig)
        ensures
            *decoding == self.mode.decoding_spec(),
    {
        match &self.mode {
            Mode::Tcp(config) => &config.decoding,
            Mode::Udp(config) => &config.decoding,
            Mode::UnixDatagram(config) => &config.decoding,
            Mode::UnixStream(config) => &config.decoding,
        }
    }

    /// The log namespace that the source itself asks for: legacy unless its
    /// setting is on.
    pub fn log_namespace(&self) -> (namespace: LogNamespace)
        ensures
            namespace == crate::namespace::namespace_of(self.mode.log_namespace_setting()),
    {
        match &self.mode {
            Mode::Tcp(config) => LogNamespace::from(config.log_namespace.unwrap_or(false)),
            Mode::Udp(config) => LogNamespace::from(config.log_namespace.unwrap_or(false)),
            Mode::UnixDatagram(config) => LogNamespace::from(config.log_namespace.unwrap_or(false)),
            Mode::UnixStream(config) => LogNamespace::from(config.log_namespace.unwrap_or(false)),
        }
    }

    /// What the source uses of the machine while it runs.
    pub fn resources(&self) -> (resources: Vec<Resource>)
        ensures
            resources@ == self.mode.resources_spec(),
    {
        match &self.mode {
            Mode::Tcp(config) => vec![config.address.as_tcp_resource()],
            Mode::Udp(config) => vec![config.address.as_udp_resource()],
            Mode::UnixDatagram(_) => Vec::new(),
            Mode::UnixStream(_) => Vec::new(),
        }
    }

    /// Whether the source can acknowledge its events end to end: it cannot.
    pub fn can_acknowledge(&self) -> (acknowledges: bool)
        ensures
            !acknowledges,
    {
        false
    }
}

} // verus!
