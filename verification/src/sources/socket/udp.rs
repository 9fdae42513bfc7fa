//! The UDP mode of the `socket` source.

use crate::codecs::{DeserializerConfig, FramingConfig, DEFAULT_MAX_LENGTH};
use crate::net::SocketListenAddr;
use vstd::prelude::*;

verus! {

/// UDP configuration for the `socket` source.
#[derive(Clone, Debug)]
pub struct UdpConfig {
    /// The address to listen for messages on.
    pub address: SocketListenAddr,
    /// The maximum length, in bytes, of incoming messages.
    pub max_length: usize,
    /// The field of an event for the host of the peer.
    pub host_key: Option<String>,
    /// The field of an event for the port of the peer.
    pub port_key: Option<String>,
    /// The size, in bytes, of the receive buffer of the socket.
    pub receive_buffer_bytes: Option<usize>,
    pub framing: FramingConfig,
    pub decoding: DeserializerConfig,
    /// Whether events use log namespaces.
    pub log_namespace: Option<bool>,
}

impl UdpConfig {
    /// Listening on `address`, with defaults for everything else.
    pub open spec fn basic(address: SocketListenAddr) -> UdpConfig {
        UdpConfig {
            address,
            max_length: DEFAULT_MAX_LENGTH,
            host_key: None,
            port_key: None,
            receive_buffer_bytes: None,
            framing: FramingConfig::MessageBased,
            decoding: DeserializerConfig::Bytes,
            log_namespace: None,
        }
    }

    /// A configuration that listens on `address` and is otherwise default.
    pub fn from_address(address: SocketListenAddr) -> (config: Self)
        ensures
            config == UdpConfig::basic(address),
    {
        UdpConfig {
            address,
            max_length: DEFAULT_MAX_LENGTH,
            host_key: None,
            port_key: None,
            receive_buffer_bytes: None,
            framing: FramingConfig::MessageBased,
            decoding: DeserializerConfig::Bytes,
            log_namespace: None,
        }
    }
}

} // verus!
