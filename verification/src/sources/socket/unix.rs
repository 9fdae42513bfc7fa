//! The Unix domain socket modes of the `socket` source.

use crate::codecs::{DeserializerConfig, FramingConfig, DEFAULT_MAX_LENGTH};
use vstd::prelude::*;

verus! {

/// Unix domain socket configuration for the `socket` source.
#[derive(Clone, Debug)]
pub struct UnixConfig {
    /// The path of the socket file.
    pub path: String,
    /// The permissions that the socket file is given.
    pub socket_file_mode: Option<u32>,
    /// The maximum length, in bytes, of incoming messages.
    pub max_length: Option<usize>,
    /// The field of an event for the host of the peer.
    pub host_key: Option<String>,
    pub framing: Option<FramingConfig>,
    pub decoding: DeserializerConfig,
    /// Whether events use log namespaces.
    pub log_namespace: Option<bool>,
}

impl UnixConfig {
    /// Listening on the socket file `path`, with defaults for everything else.
    pub open spec fn basic(path: String) -> UnixConfig {
        UnixConfig {
            path,
            socket_file_mode: None,
            max_length: Some(DEFAULT_MAX_LENGTH),
            host_key: None,
            framing: None,
            decoding: DeserializerConfig::Bytes,
            log_namespace: None,
        }
    }

    /// A configuration that listens on the socket file `path` and is otherwise
    /// default.
    pub fn new(path: String) -> (config: Self)
        ensures
            config == UnixConfig::basic(path),
    {
        UnixConfig {
            path,
            socket_file_mode: None,
            max_length: Some(DEFAULT_MAX_LENGTH),
            host_key: None,
            framing: None,
            decoding: DeserializerConfig::Bytes,
            log_namespace: None,
        }
    }
}

} // verus!
