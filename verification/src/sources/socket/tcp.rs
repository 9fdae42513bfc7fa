//! The TCP mode of the `socket` source.

use crate::codecs::{DeserializerConfig, FramingConfig, DEFAULT_MAX_LENGTH};
use crate::net::SocketListenAddr;
use vstd::prelude::*;

verus! {

/// How long a shutdown waits for connections where nothing else is said.
pub const DEFAULT_SHUTDOWN_TIMEOUT_SECS: u64 = 30;

/// TLS for the connections of a source.
#[derive(Clone, Debug)]
pub struct TlsSourceConfig {
    /// The TLS settings, which the TLS layer reads.
    pub tls_config: toml::Value,
    /// The field of an event for the certificate metadata of the client.
    pub client_metadata_key: Option<String>,
}

/// TCP configuration for the `socket` source.
#[derive(Clone, Debug)]
pub struct TcpConfig {
    /// The address to listen for connections on.
    pub address: SocketListenAddr,
    /// The settings that keep idle connections alive, which the network layer
    /// reads.
    pub keepalive: Option<toml::Value>,
    /// The maximum length, in bytes, of incoming messages.
    pub max_length: Option<usize>,
    /// The time, in seconds, after which a shutdown closes connections by force.
    pub shutdown_timeout_secs: u64,
    /// The field of an event for the host of the peer.
    pub host_key: Option<String>,
    /// The field of an event for the port of the peer.
    pub port_key: Option<String>,
    pub tls: Option<TlsSourceConfig>,
    /// The size, in bytes, of the receive buffer of each connection.
    pub receive_buffer_bytes: Option<usize>,
    pub framing: Option<FramingConfig>,
    pub decoding: DeserializerConfig,
    /// The maximum number of connections at any given time.
    pub connection_limit: Option<u32>,
    /// Whether events use log namespaces.
    pub log_namespace: Option<bool>,
}

impl TcpConfig {
    /// Listening on `address`, with defaults for everything else.
    pub open spec fn basic(address: SocketListenAddr) -> TcpConfig {
        TcpConfig {
            address,
            keepalive: None,
            max_length: Some(DEFAULT_MAX_LENGTH),
            shutdown_timeout_secs: DEFAULT_SHUTDOWN_TIMEOUT_SECS,
            host_key: None,
            port_key: None,
            tls: None,
            receive_buffer_bytes: None,
            framing: None,
            decoding: DeserializerConfig::Bytes,
            connection_limit: None,
            log_namespace: None,
        }
    }

    /// A configuration that listens on `address` and is otherwise default.
    pub fn from_address(address: SocketListenAddr) -> (config: Self)
        ensures
            config == TcpConfig::basic(address),
    {
        TcpConfig {
            address,
            keepalive: None,
            max_length: Some(DEFAULT_MAX_LENGTH),
            shutdown_timeout_secs: DEFAULT_SHUTDOWN_TIMEOUT_SECS,
            host_key: None,
            port_key: None,
            tls: None,
            receive_buffer_bytes: None,
            framing: None,
            decoding: DeserializerConfig::Bytes,
            connection_limit: None,
            log_namespace: None,
        }
    }
}

} // verus!
